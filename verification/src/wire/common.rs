//! Wire messages that every capability shares.

use vstd::prelude::*;

verus! {

/// The answer to a health check.
#[derive(Debug, Clone, PartialEq)]
pub struct HealthCheckResponse {
    pub healthy: bool,
    pub name: String,
    pub version: String,
}

/// The content of a `HealthCheckResponse`.
pub struct HealthCheckResponseView {
    pub healthy: bool,
    pub name: Seq<char>,
    pub version: Seq<char>,
}

impl View for HealthCheckResponse {
    type V = HealthCheckResponseView;

    open spec fn view(&self) -> HealthCheckResponseView {
        HealthCheckResponseView { healthy: self.healthy, name: self.name@, version: self.version@ }
    }
}

/// The answer to an operation that yields nothing but success or failure.
#[derive(Debug, Clone, PartialEq)]
pub struct ErrorReply {
    /// Why the operation failed; empty on success.
    pub error: String,
}

/// The content of an `ErrorReply`.
pub struct ErrorReplyView {
    pub error: Seq<char>,
}

impl View for ErrorReply {
    type V = ErrorReplyView;

    open spec fn view(&self) -> ErrorReplyView {
        ErrorReplyView { error: self.error@ }
    }
}

} // verus!
