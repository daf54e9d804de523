//! HTTP status codes as the gateway sees them.

use vstd::prelude::*;

verus! {

/// The smallest number that is a status code.
pub const MIN_CODE: u16 = 100;

/// The largest number that is a status code.
pub const MAX_CODE: u16 = 999;

/// Whether `code` is a three-digit number, which is all that HTTP asks of a
/// status code.
pub open spec fn is_status_code(code: int) -> bool {
    MIN_CODE <= code <= MAX_CODE
}

/// A status code. Every value of this type holds a three-digit number, so a
/// reply built from one can always be put on the wire.
#[derive(Clone, Copy, Debug, PartialEq, Eq, Structural)]
pub struct Status {
    code: u16,
}

impl View for Status {
    type V = int;

    closed spec fn view(&self) -> int {
        self.code as int
    }
}

impl Status {
    #[verifier::type_invariant]
    spec fn three_digits(self) -> bool {
        is_status_code(self.code as int)
    }

    /// The status with the given number, if the number has three digits.
    pub fn new(code: u16) -> (status: Option<Status>)
        ensures
            status is Some <==> is_status_code(code as int),
            status matches Some(s) ==> s@ == code,
    {
        if MIN_CODE <= code && code <= MAX_CODE {
            Some(Status { code })
        } else {
            None
        }
    }

    /// The number of this status.
    pub fn code(self) -> (code: u16)
        ensures
            code == self@,
            is_status_code(code as int),
    {
        proof {
            use_type_invariant(self);
        }
        self.code
    }

    /// 500, the status of a reply to a request that the gateway itself could
    /// not serve.
    pub fn internal_server_error() -> (status: Status)
        ensures
            status@ == 500,
    {
        Status { code: 500 }
    }

    /// 502, the status of a reply to a request for which the upstream service
    /// could not be reached.
    pub fn bad_gateway() -> (status: Status)
        ensures
            status@ == 502,
    {
        Status { code: 502 }
    }
}

} // verus!
