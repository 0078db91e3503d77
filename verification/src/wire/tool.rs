//! Wire messages of the tool service.

use vstd::prelude::*;

verus! {

/// The answer to a request to execute a tool.
#[derive(Debug, Clone, PartialEq)]
pub struct ExecuteResponse {
    /// What the tool produced, or what the failure reports.
    pub content: String,
    /// Whether the content is the text of a failure.
    pub is_error: bool,
}

/// The content of a `ExecuteResponse`.
pub struct ExecuteResponseView {
    pub content: Seq<char>,
    pub is_error: bool,
}

impl View for ExecuteResponse {
    type V = ExecuteResponseView;

    open spec fn view(&self) -> ExecuteResponseView {
        ExecuteResponseView {
            content: self.content@,
            is_error: self.is_error,
        }
    }
}
} // verus!
