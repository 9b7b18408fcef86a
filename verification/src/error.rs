//! The error type of the service and its result codes.
use vstd::prelude::*;

verus! {

/// Result code of a request that failed for a reason reported in the message.
pub const RC_FAIL: i32 = 1;

/// Result code of a request that carried an unknown or expired token.
pub const RC_INVALID_TOKEN: i32 = 2;

/// Why an operation of the service failed.
#[derive(Debug, Clone, PartialEq, Eq)]
pub enum ServiceError {
    /// A failure reported to the client with a result code and a message.
    Custom(i32, String),
    /// A remote service could not be reached or read.
    Network(String),
    /// A text that should hold a JSON object holds none.
    Json,
}

/// `true` when `e` is `ServiceError::Custom(code, m)` with `m` reading `msg`.
pub open spec fn is_custom(e: ServiceError, code: i32, msg: Seq<char>) -> bool {
    match e {
        ServiceError::Custom(c, m) => c == code && m@ == msg,
        _ => false,
    }
}

} // verus!
