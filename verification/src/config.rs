//! The fixed points of the gateway: where it listens, what it serves, and
//! where it finds its credential.

use vstd::prelude::*;

verus! {

/// The environment variable that holds the credential for the upstream
/// service. It is looked up for every request, not once at startup.
pub const KEY_VARIABLE: &'static str = "WEATHER_API_KEY";

/// The path under which the weather is asked for. Every other path is looked
/// up among the static files.
pub const WEATHER_ROUTE: &'static str = "/api/weather";

/// The name of the query parameter that holds the city.
pub const CITY_PARAMETER: &'static str = "city";

/// The directory whose files are served as the site.
pub const STATIC_ROOT: &'static str = "static";

/// The address the gateway listens on: the loopback interface.
pub const LISTEN_HOST: [u8; 4] = [127, 0, 0, 1];

/// The port the gateway listens on.
pub const LISTEN_PORT: u16 = 3000;

} // verus!
