//! Refused requests, as the services answer them.

use vstd::prelude::*;

verus! {

/// The kind of a refused request.
#[derive(Debug, Clone, Copy, PartialEq, Eq, Structural)]
pub enum StatusCode {
    InvalidArgument,
    NotFound,
    AlreadyExists,
    FailedPrecondition,
    Internal,
}

/// A refused request: its kind and message.
#[derive(Debug, Clone, Copy)]
pub struct ServiceStatus {
    pub code: StatusCode,
    pub message: &'static str,
}

/// `s` is a refusal of kind `code` with the message `message`.
pub open spec fn refuses(s: ServiceStatus, code: StatusCode, message: Seq<char>) -> bool {
    s.code == code && s.message@ == message
}

} // verus!
