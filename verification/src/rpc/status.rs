//! The outcome of a refused call, as the APIs answer it: a status code and a
//! message for the caller.
use vstd::prelude::*;

verus! {

/// The status codes the APIs answer with.
#[derive(Debug, Clone, Copy, PartialEq, Eq, Structural)]
pub enum Code {
    InvalidArgument,
    NotFound,
    Unauthenticated,
    PermissionDenied,
    Aborted,
    Unavailable,
    DeadlineExceeded,
    Internal,
}

/// A refused call: the code and the message the caller reads.
#[derive(Debug, Clone)]
pub struct RpcStatus {
    pub code: Code,
    pub message: String,
}

impl RpcStatus {
    /// A status with a fixed message.
    pub fn new(code: Code, message: &str) -> (s: Self)
        ensures
            s.code == code,
            s.message@ == message@,
    {
        RpcStatus { code, message: String::from_str(message) }
    }
}

} // verus!
