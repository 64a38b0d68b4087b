//! The failures that the agent reports, and how their messages are put together.

use vstd::prelude::*;
use crate::text::joined;
use crate::text::owned;

verus! {

/// What went wrong, by cause. A deliberate stop, such as a session that is
/// closing or a handler that refuses to connect again, is no failure and
/// has no kind here: it ends a connection attempt as canceled, and ends
/// forwarding with success.
#[derive(Clone, Copy, Debug, PartialEq, Eq, Structural)]
pub enum ErrorKind {
    /// A setting was refused before any connection was tried.
    Configuration,
    /// The session could not be established, or a relay call failed.
    Connect,
    /// No resource with that id or url is registered.
    ResourceNotFound,
    /// Dialling or copying for one connection failed.
    ForwardingIo,
    /// The host's handler failed or could not be scheduled.
    HostCallback,
}

/// A failure with its cause and the message shown to the host.
#[derive(Clone, Debug, PartialEq, Eq)]
pub struct AgentError {
    pub kind: ErrorKind,
    pub message: String,
}

impl View for AgentError {
    type V = (ErrorKind, Seq<char>);

    open spec fn view(&self) -> (ErrorKind, Seq<char>) {
        (self.kind, self.message@)
    }
}

impl AgentError {
    /// The message as a sequence of characters.
    pub open spec fn text(&self) -> Seq<char> {
        self.message@
    }

    /// The message, for display.
    pub fn to_text(&self) -> (out: String)
        ensures
            out@ == self.text(),
    {
        self.message.clone()
    }
}

/// The message of a failure that the relay reported: the context, the
/// relay's own message and, when it gave one, its error code.
pub open spec fn relay_message(
    context: Seq<char>,
    msg: Seq<char>,
    error_code: Option<Seq<char>>,
) -> Seq<char> {
    match error_code {
        Some(code) => context + ": "@ + msg + " error_code: "@ + code,
        None => context + ": "@ + msg,
    }
}

/// A failure of the given kind with the given message.
pub fn failure(kind: ErrorKind, message: &str) -> (e: AgentError)
    ensures
        e.kind == kind,
        e.text() == message@,
        e@ == (kind, message@),
{
    AgentError { kind, message: owned(message) }
}

/// A failure that the relay reported, with the message that
/// `relay_message` describes.
pub fn relay_failure(
    kind: ErrorKind,
    context: &str,
    msg: &str,
    error_code: &Option<String>,
) -> (e: AgentError)
    ensures
        e.kind == kind,
        e.text() == relay_message(context@, msg@, error_code.deep_view()),
        e@ == (kind, relay_message(context@, msg@, error_code.deep_view())),
{
    let head = joined(context, ": ");
    let base = joined(head.as_str(), msg);
    let message = match error_code {
        Some(code) => {
            let with_label = joined(base.as_str(), " error_code: ");
            joined(with_label.as_str(), code.as_str())
        },
        None => base,
    };
    AgentError { kind, message }
}

} // verus!
