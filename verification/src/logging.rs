//! Handing log events to the host: which events are wanted, and what the
//! host's handler is given.

use vstd::prelude::*;
use crate::error::failure;
use crate::error::AgentError;
use crate::error::ErrorKind;
use crate::listener::said;
use crate::outside::to_upper;
use crate::outside::uppercased;
use crate::text::contains_text;
use crate::text::holds_text;
use crate::text::joined;
use crate::text::same_text;

verus! {

/// How much is logged: events of this level and of the more severe ones.
#[derive(Clone, Copy, Debug, PartialEq, Eq, Structural)]
pub enum LogLevel {
    Error,
    Warn,
    Info,
    Debug,
    Trace,
}

/// What is to be done about the host's handler of log events.
#[derive(Clone, Copy, Debug, PartialEq, Eq, Structural)]
pub enum LoggingAction {
    /// Forget the handler that is registered, if any.
    Clear,
    /// Hand events of this level and above to the handler.
    Install(LogLevel),
}

/// Collects the message of a log event from its fields.
#[derive(Clone, Debug, PartialEq, Eq)]
pub struct EventVisitor {
    pub message: String,
}

impl Default for EventVisitor {
    /// A visitor that has seen no message yet.
    fn default() -> (visitor: EventVisitor)
        ensures
            visitor.message@ == Seq::<char>::empty(),
    {
        EventVisitor { message: String::new() }
    }
}

/// The level that an upper-case text names.
pub open spec fn level_named(upper: Seq<char>) -> Option<LogLevel> {
    if upper == "ERROR"@ {
        Some(LogLevel::Error)
    } else if upper == "WARN"@ {
        Some(LogLevel::Warn)
    } else if upper == "INFO"@ {
        Some(LogLevel::Info)
    } else if upper == "DEBUG"@ {
        Some(LogLevel::Debug)
    } else if upper == "TRACE"@ {
        Some(LogLevel::Trace)
    } else {
        None
    }
}

/// What registering a handler asks for, given the level as `chosen` read
/// it: without a handler the registered one is forgotten; with one, events
/// are handed over from the level that is named, or from `Info` where none
/// is named. A level that names none is refused.
pub open spec fn logging_choice(
    has_callback: bool,
    level_given: bool,
    chosen: Option<LogLevel>,
) -> Result<LoggingAction, (ErrorKind, Seq<char>)> {
    if !has_callback {
        Ok(LoggingAction::Clear)
    } else if !level_given {
        Ok(LoggingAction::Install(LogLevel::Info))
    } else {
        match chosen {
            Some(level) => Ok(LoggingAction::Install(level)),
            None => Err((ErrorKind::Configuration, "Unknown log level: {level:?}"@)),
        }
    }
}

/// What registering a handler asks for: the level may be written in any
/// case.
pub open spec fn logging_decision(has_callback: bool, level: Option<Seq<char>>) -> Result<
    LoggingAction,
    (ErrorKind, Seq<char>),
> {
    logging_choice(
        has_callback,
        level is Some,
        match level {
            Some(l) => level_named(uppercased(l)),
            None => None,
        },
    )
}

/// What the handler is given for one event, where a handler is registered.
pub open spec fn log_call(
    has_callback: bool,
    level: Seq<char>,
    target: Seq<char>,
    message: Seq<char>,
) -> Option<Seq<Seq<char>>> {
    if has_callback {
        Some(seq![level, target, message])
    } else {
        None
    }
}

/// What installing the logger gave. It may be installed once only; a
/// failure that says it was installed already is none.
pub open spec fn subscribe_result(failure: Option<(Seq<char>, Seq<char>)>) -> Result<
    (),
    (ErrorKind, Seq<char>),
> {
    match failure {
        None => Ok(()),
        Some(texts) => if holds_text(texts.0, "already been set"@) {
            Ok(())
        } else {
            Err((ErrorKind::HostCallback, "Failed to subscribe logger, "@ + texts.1))
        },
    }
}

/// The level that an upper-case text names.
pub fn level_choice(upper: &str) -> (level: Option<LogLevel>)
    ensures
        level == level_named(upper@),
{
    if same_text(upper, "ERROR") {
        Some(LogLevel::Error)
    } else if same_text(upper, "WARN") {
        Some(LogLevel::Warn)
    } else if same_text(upper, "INFO") {
        Some(LogLevel::Info)
    } else if same_text(upper, "DEBUG") {
        Some(LogLevel::Debug)
    } else if same_text(upper, "TRACE") {
        Some(LogLevel::Trace)
    } else {
        None
    }
}

/// What registering a handler asks for, given the level as it was read.
pub fn logging_action(
    has_callback: bool,
    level_given: bool,
    chosen: Option<LogLevel>,
) -> (action: Result<LoggingAction, AgentError>)
    ensures
        match action {
            Ok(a) => logging_choice(has_callback, level_given, chosen) == Ok::<
                LoggingAction,
                (ErrorKind, Seq<char>),
            >(a),
            Err(e) => logging_choice(has_callback, level_given, chosen) == Err::<
                LoggingAction,
                (ErrorKind, Seq<char>),
            >(e@),
        },
{
    if !has_callback {
        Ok(LoggingAction::Clear)
    } else if !level_given {
        Ok(LoggingAction::Install(LogLevel::Info))
    } else {
        match chosen {
            Some(level) => Ok(LoggingAction::Install(level)),
            None => Err(failure(ErrorKind::Configuration, "Unknown log level: {level:?}")),
        }
    }
}

/// Decides what registering a handler of log events does. `has_callback`
/// says whether the host gave a handler: without one, the handler that is
/// registered is to be forgotten. With one, events are handed over from
/// the level that `level` names, in any case, or from `Info`. A level that
/// names none is refused; the handler itself stays registered.
pub fn logging_callback(
    has_callback: bool,
    level: Option<String>,
) -> (action: Result<LoggingAction, AgentError>)
    ensures
        match action {
            Ok(a) => logging_decision(has_callback, level.deep_view()) == Ok::<
                LoggingAction,
                (ErrorKind, Seq<char>),
            >(a),
            Err(e) => logging_decision(has_callback, level.deep_view()) == Err::<
                LoggingAction,
                (ErrorKind, Seq<char>),
            >(e@),
        },
{
    match level {
        Some(text) => {
            let upper = to_upper(text.as_str());
            logging_action(has_callback, true, level_choice(upper.as_str()))
        },
        None => logging_action(has_callback, false, None),
    }
}

/// What the host's handler is to be called with for one event: the level,
/// the target and the message; nothing where no handler is registered.
pub fn log_to_callback(
    has_callback: bool,
    level: String,
    target: String,
    message: String,
) -> (call: Option<Vec<String>>)
    ensures
        call.deep_view() == log_call(has_callback, level@, target@, message@),
{
    if has_callback {
        let mut args: Vec<String> = Vec::new();
        args.push(level);
        args.push(target);
        args.push(message);
        assert(args.deep_view() =~= seq![level@, target@, message@]);
        Some(args)
    } else {
        None
    }
}

/// What calling the handler gave: `status` describes the failure where the
/// call could not be queued.
pub fn log_call_result(status: Option<String>) -> (result: Result<(), AgentError>)
    ensures
        said(result) == match status {
            None => Ok::<(), (ErrorKind, Seq<char>)>(()),
            Some(text) => Err((ErrorKind::HostCallback, text@)),
        },
{
    match status {
        None => Ok(()),
        Some(text) => Err(failure(ErrorKind::HostCallback, text.as_str())),
    }
}

/// What installing the logger gave. `error` holds the failure, displayed
/// and in its debug form, where installing failed.
pub fn subscribed(error: Option<(String, String)>) -> (result: Result<(), AgentError>)
    ensures
        said(result) == subscribe_result(error.deep_view()),
{
    match error {
        None => Ok(()),
        Some((shown, detail)) => {
            if contains_text(shown.as_str(), "already been set") {
                Ok(())
            } else {
                let message = joined("Failed to subscribe logger, ", detail.as_str());
                Err(failure(ErrorKind::HostCallback, message.as_str()))
            }
        },
    }
}

impl EventVisitor {
    /// Takes one field of an event: the field named `message` becomes the
    /// event's message, and any other field is passed over.
    pub fn record_debug(&mut self, field_name: &str, value: String)
        ensures
            final(self).message@ == if field_name@ == "message"@ {
                value@
            } else {
                old(self).message@
            },
    {
        if same_text(field_name, "message") {
            self.message = value;
        }
    }
}

} // verus!
