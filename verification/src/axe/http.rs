use vstd::prelude::*;

verus! {

/// HTTP status 200 (OK).
pub const STATUS_OK: u16 = 200;

/// HTTP status 404 (Not Found).
pub const STATUS_NOT_FOUND: u16 = 404;

/// HTTP status 503 (Service Unavailable).
pub const STATUS_SERVICE_UNAVAILABLE: u16 = 503;

/// What came of one request to the registry service.
#[derive(Debug, Clone, Copy, PartialEq, Eq, Structural)]
pub enum HttpOutcome {
    /// The request could not be sent, or no answer came back.
    Unreachable,
    /// The service answered with this status code.
    Answered(u16),
}

} // verus!
