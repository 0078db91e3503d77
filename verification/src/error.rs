//! Failures: what a handler or the runtime reports, and what reaches the transport.

use vstd::prelude::*;
use vstd::std_specs::convert::FromSpecImpl;

verus! {

/// A failure reported by a handler or met while starting the runtime.
#[derive(Debug, Clone, PartialEq)]
pub enum NeboError {
    /// The runtime was given no transport address.
    NoSockPath,
    /// The runtime was started without any capability handler.
    NoHandlers,
    /// The transport failed; the text is what the transport said.
    Transport(String),
    /// A handler could not carry out an operation.
    Execution(String),
    /// An operating-system call failed; the text is what the system said.
    Io(String),
    /// Any other failure, described by its text alone.
    Other(String),
}

impl NeboError {
    /// The text that describes this failure to a reader.
    pub open spec fn text(&self) -> Seq<char> {
        match self {
            NeboError::NoSockPath => "NEBO_APP_SOCK environment variable is not set"@,
            NeboError::NoHandlers => "no capability handlers registered"@,
            NeboError::Transport(detail) => "transport error: "@ + detail@,
            NeboError::Execution(detail) => "execution error: "@ + detail@,
            NeboError::Io(detail) => "io error: "@ + detail@,
            NeboError::Other(detail) => detail@,
        }
    }

    /// Whether the failure is one the embedding application caused by how it set the runtime up.
    pub open spec fn is_configuration(&self) -> bool {
        self is NoSockPath || self is NoHandlers
    }

    /// Renders the failure as text.
    pub fn message(&self) -> (s: String)
        ensures
            s@ == self.text(),
    {
        match self {
            NeboError::NoSockPath => String::from_str(
                "NEBO_APP_SOCK environment variable is not set",
            ),
            NeboError::NoHandlers => String::from_str("no capability handlers registered"),
            NeboError::Transport(detail) => String::from_str("transport error: ").concat(
                detail.as_str(),
            ),
            NeboError::Execution(detail) => String::from_str("execution error: ").concat(
                detail.as_str(),
            ),
            NeboError::Io(detail) => String::from_str("io error: ").concat(detail.as_str()),
            NeboError::Other(detail) => detail.clone(),
        }
    }

    /// What an answer says of this failure in its error field: the failure's text, or a fixed
    /// text where the failure has none, so that a failure never reads like a success.
    pub open spec fn report(&self) -> Seq<char> {
        if self.text().len() == 0 {
            "unknown error"@
        } else {
            self.text()
        }
    }

    /// Renders the failure for the error field of an answer.
    pub fn report_text(&self) -> (s: String)
        ensures
            s@ == self.report(),
    {
        let text = self.message();
        if text.as_str().is_empty() {
            String::from_str("unknown error")
        } else {
            text
        }
    }

    /// What an answer says of a failure is never empty.
    pub proof fn lemma_report_is_not_empty(&self)
        ensures
            self.report().len() > 0,
    {
        reveal_strlit("unknown error");
    }

    /// Every failure but `Other` with an empty text has something to say.
    pub proof fn lemma_text_is_not_empty(&self)
        requires
            !(self matches NeboError::Other(detail) && detail@.len() == 0),
        ensures
            self.text().len() > 0,
    {
        reveal_strlit("NEBO_APP_SOCK environment variable is not set");
        reveal_strlit("no capability handlers registered");
        reveal_strlit("transport error: ");
        reveal_strlit("execution error: ");
        reveal_strlit("io error: ");
    }
}

impl From<String> for NeboError {
    fn from(s: String) -> (e: Self) {
        NeboError::Other(s)
    }
}

impl FromSpecImpl<String> for NeboError {
    open spec fn obeys_from_spec() -> bool {
        true
    }

    open spec fn from_spec(s: String) -> Self {
        NeboError::Other(s)
    }
}

impl From<&str> for NeboError {
    fn from(s: &str) -> (e: Self)
        ensures
            e matches NeboError::Other(detail) && detail@ == s@,
    {
        NeboError::Other(String::from_str(s))
    }
}

impl FromSpecImpl<&str> for NeboError {
    /// A string slice has no owned counterpart in specifications, so the conversion is
    /// described by the `ensures` of `from` alone.
    open spec fn obeys_from_spec() -> bool {
        false
    }

    open spec fn from_spec(s: &str) -> Self {
        NeboError::Other(arbitrary())
    }
}

/// A failure that the transport itself reports to the caller, outside any response.
#[derive(Debug, Clone, PartialEq)]
pub enum TransportFault {
    /// The service failed internally; the text goes to the caller.
    Internal(String),
}

impl TransportFault {
    /// The text that the caller is shown.
    pub open spec fn text(&self) -> Seq<char> {
        match self {
            TransportFault::Internal(detail) => detail@,
        }
    }

    /// The fault that reports a handler's failure where no response can carry it.
    pub fn from_failure(failure: &NeboError) -> (fault: Self)
        ensures
            fault is Internal,
            fault.text() == failure.text(),
    {
        TransportFault::Internal(failure.message())
    }

    /// The text that the caller is shown.
    pub fn message(&self) -> (s: String)
        ensures
            s@ == self.text(),
    {
        match self {
            TransportFault::Internal(detail) => detail.clone(),
        }
    }
}

} // verus!
