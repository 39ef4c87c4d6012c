//! Outcome codes of a request and the exit codes of the client.
use vstd::prelude::*;

verus! {

/// Outcome code of a request, as the RPC transport knows them.
#[derive(Debug, Clone, Copy, PartialEq, Eq, Structural)]
pub enum Code {
    Success,
    Cancelled,
    Unknown,
    InvalidArgument,
    DeadlineExceeded,
    NotFound,
    AlreadyExists,
    PermissionDenied,
    ResourceExhausted,
    FailedPrecondition,
    Aborted,
    OutOfRange,
    Unimplemented,
    Internal,
    Unavailable,
    DataLoss,
    Unauthenticated,
}

/// A failed request: its code and a message for the caller.
#[derive(Debug, PartialEq, Eq)]
pub struct Status {
    pub code: Code,
    pub message: String,
}

impl Status {
    pub fn new(code: Code, message: String) -> (r: Status)
        ensures
            r.code == code,
            r.message == message,
    {
        Status { code, message }
    }
}

/// Exit code of the client for a request's outcome.
pub open spec fn exit_code_of(code: Code) -> i32 {
    match code {
        Code::Success => 0,
        Code::Unknown => 155,
        Code::InvalidArgument => 156,
        Code::NotFound => 6,
        _ => 1,
    }
}

/// Exit code of the client for a request's outcome: 0 on success, 156 for
/// an invalid argument, 6 for not found, 155 for unknown, 1 otherwise.
pub fn exit_code(code: Code) -> (r: i32)
    ensures
        r == exit_code_of(code),
{
    match code {
        Code::Success => 0,
        Code::Unknown => 155,
        Code::InvalidArgument => 156,
        Code::NotFound => 6,
        _ => 1,
    }
}

} // verus!
