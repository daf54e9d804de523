//! The decisions of a small weather gateway, stated and proved.
//!
//! The gateway answers `GET /api/weather?city=<name>` by asking an upstream
//! weather service on the caller's behalf and relaying what comes back. This
//! crate holds everything the gateway decides: which address is asked, in
//! which order the fallible steps run, and which reply each outcome gets.
//! Reading the environment, talking to the network and serving files are left
//! to the program that drives it.
//!
//! - [`proxy`] takes one request from the city in its query to its reply,
//!   one event at a time; [`run`] follows a request through every way the
//!   outside world can go and states what comes of it.
//! - [`reply`] gives each of the four outcomes its reply, and [`status`]
//!   holds the status codes.
//! - [`upstream`] builds the address that is asked, with the city
//!   percent-encoded as [`percent`] says.
//! - [`json`] writes the upstream's body as one JSON string.
//! - [`config`] holds the gateway's fixed points.
//!
//! Every function here is verified against its contract. What the proofs
//! take on trust is vstd's account of `str` and `String`, and the one
//! statement in [`text`].

pub mod config;
pub mod hex;
pub mod json;
pub mod percent;
pub mod proxy;
pub mod reply;
pub mod run;
pub mod status;
pub mod text;
pub mod upstream;
