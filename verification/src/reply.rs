//! How a request can end, and the reply that each ending gets.

use crate::json::{json_string, to_json_string};
use crate::status::Status;
use vstd::prelude::*;

verus! {

/// Body of the reply when no credential is configured.
pub const KEY_MISSING: &'static str = "API key not set";

/// Body of the reply when the upstream service could not be reached.
pub const UPSTREAM_UNREACHABLE: &'static str = "Failed to connect weather service";

/// Body of the reply when the upstream service answered and its body could
/// not be read.
pub const READ_FAILED: &'static str = "Failed to read weather data";

/// What a reply's body is to be taken for.
#[derive(Clone, Copy, Debug, PartialEq, Eq, Structural)]
pub enum BodyKind {
    /// Plain text.
    Text,
    /// A JSON document.
    Json,
}

impl BodyKind {
    /// The media type that announces a body of this kind.
    pub open spec fn media_type(self) -> Seq<char> {
        match self {
            BodyKind::Text => "text/plain; charset=utf-8"@,
            BodyKind::Json => "application/json"@,
        }
    }

    /// The value of the `Content-Type` header for a body of this kind.
    pub fn content_type(self) -> (value: &'static str)
        ensures
            value@ == self.media_type(),
    {
        match self {
            BodyKind::Text => "text/plain; charset=utf-8",
            BodyKind::Json => "application/json",
        }
    }
}

/// What goes back to the caller: a status, and a body exactly as it is to be
/// sent.
#[derive(Debug, PartialEq, Eq)]
pub struct Reply {
    pub status: Status,
    pub kind: BodyKind,
    pub body: String,
}

/// A reply as contracts see it.
pub struct ReplyView {
    pub status: int,
    pub kind: BodyKind,
    pub body: Seq<char>,
}

impl View for Reply {
    type V = ReplyView;

    open spec fn view(&self) -> ReplyView {
        ReplyView { status: self.status@, kind: self.kind, body: self.body@ }
    }
}

/// The four ways in which a request for the weather ends.
#[derive(Debug, PartialEq, Eq)]
pub enum Outcome {
    /// No credential is configured.
    ConfigMissing,
    /// The upstream service could not be reached.
    UpstreamUnreachable,
    /// The upstream service answered, and its body could not be read.
    ReadFailure,
    /// The upstream service answered with this status and this body.
    Success { status: Status, body: String },
}

/// An outcome as contracts see it.
pub enum OutcomeView {
    ConfigMissing,
    UpstreamUnreachable,
    ReadFailure,
    Success { status: int, body: Seq<char> },
}

impl View for Outcome {
    type V = OutcomeView;

    open spec fn view(&self) -> OutcomeView {
        match *self {
            Outcome::ConfigMissing => OutcomeView::ConfigMissing,
            Outcome::UpstreamUnreachable => OutcomeView::UpstreamUnreachable,
            Outcome::ReadFailure => OutcomeView::ReadFailure,
            Outcome::Success { status, body } => OutcomeView::Success {
                status: status@,
                body: body@,
            },
        }
    }
}

/// The reply that an outcome gets. Each failure has a fixed status and a
/// fixed line of plain text. An answer of the upstream service is relayed:
/// its status unchanged, whatever it is, and its body as one JSON string.
pub open spec fn reply_to(outcome: OutcomeView) -> ReplyView {
    match outcome {
        OutcomeView::ConfigMissing => ReplyView {
            status: 500,
            kind: BodyKind::Text,
            body: KEY_MISSING@,
        },
        OutcomeView::UpstreamUnreachable => ReplyView {
            status: 502,
            kind: BodyKind::Text,
            body: UPSTREAM_UNREACHABLE@,
        },
        OutcomeView::ReadFailure => ReplyView {
            status: 500,
            kind: BodyKind::Text,
            body: READ_FAILED@,
        },
        OutcomeView::Success { status, body } => ReplyView {
            status,
            kind: BodyKind::Json,
            body: json_string(body),
        },
    }
}

impl Outcome {
    /// Turns the outcome into its reply.
    pub fn into_reply(self) -> (reply: Reply)
        ensures
            reply@ == reply_to(self@),
    {
        match self {
            Outcome::ConfigMissing => Reply {
                status: Status::internal_server_error(),
                kind: BodyKind::Text,
                body: KEY_MISSING.to_owned(),
            },
            Outcome::UpstreamUnreachable => Reply {
                status: Status::bad_gateway(),
                kind: BodyKind::Text,
                body: UPSTREAM_UNREACHABLE.to_owned(),
            },
            Outcome::ReadFailure => Reply {
                status: Status::internal_server_error(),
                kind: BodyKind::Text,
                body: READ_FAILED.to_owned(),
            },
            Outcome::Success { status, body } => Reply {
                status,
                kind: BodyKind::Json,
                body: to_json_string(body.as_str()),
            },
        }
    }
}

} // verus!
