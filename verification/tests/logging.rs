use ngrok_nodejs::error::ErrorKind;
use ngrok_nodejs::logging::level_choice;
use ngrok_nodejs::logging::log_call_result;
use ngrok_nodejs::logging::log_to_callback;
use ngrok_nodejs::logging::logging_action;
use ngrok_nodejs::logging::logging_callback;
use ngrok_nodejs::logging::subscribed;
use ngrok_nodejs::logging::EventVisitor;
use ngrok_nodejs::logging::LogLevel;
use ngrok_nodejs::logging::LoggingAction;

fn s(text: &str) -> String {
    text.to_string()
}

#[test]
fn no_handler_clears_whatever_the_level() {
    assert_eq!(logging_callback(false, None), Ok(LoggingAction::Clear));
    assert_eq!(logging_callback(false, Some(s("DEBUG"))), Ok(LoggingAction::Clear));
    assert_eq!(logging_callback(false, Some(s("nonsense"))), Ok(LoggingAction::Clear));
}

#[test]
fn level_defaults_to_info() {
    assert_eq!(logging_callback(true, None), Ok(LoggingAction::Install(LogLevel::Info)));
}

#[test]
fn level_is_read_in_any_case() {
    let cases = [
        ("ERROR", LogLevel::Error),
        ("warn", LogLevel::Warn),
        ("Info", LogLevel::Info),
        ("debug", LogLevel::Debug),
        ("tRaCe", LogLevel::Trace),
    ];
    for (text, level) in cases {
        assert_eq!(logging_callback(true, Some(s(text))), Ok(LoggingAction::Install(level)));
    }
}

#[test]
fn unknown_level_is_a_configuration_error() {
    for text in ["", "verbose", "INFO ", "WARNING"] {
        let e = logging_callback(true, Some(s(text))).unwrap_err();
        assert_eq!(e.kind, ErrorKind::Configuration);
        assert_eq!(e.message, "Unknown log level: {level:?}");
    }
}

#[test]
fn level_choice_takes_upper_case_only() {
    assert_eq!(level_choice("DEBUG"), Some(LogLevel::Debug));
    assert_eq!(level_choice("debug"), None);
    assert_eq!(level_choice("TRACE"), Some(LogLevel::Trace));
    assert_eq!(logging_action(true, true, None).unwrap_err().kind, ErrorKind::Configuration);
    assert_eq!(
        logging_action(true, true, Some(LogLevel::Warn)),
        Ok(LoggingAction::Install(LogLevel::Warn))
    );
}

#[test]
fn handler_is_given_level_target_and_message() {
    assert_eq!(
        log_to_callback(true, s("INFO"), s("ngrok::session"), s("connected")),
        Some(vec![s("INFO"), s("ngrok::session"), s("connected")])
    );
    assert_eq!(log_to_callback(false, s("INFO"), s("t"), s("m")), None);
}

#[test]
fn failed_call_is_a_host_callback_error() {
    assert_eq!(log_call_result(None), Ok(()));
    let e = log_call_result(Some(s("QueueFull"))).unwrap_err();
    assert_eq!(e.kind, ErrorKind::HostCallback);
    assert_eq!(e.message, "QueueFull");
}

#[test]
fn logger_that_was_installed_already_is_no_failure() {
    assert_eq!(subscribed(None), Ok(()));
    let already = s("a global default trace dispatcher has already been set");
    assert_eq!(subscribed(Some((already, s("SetGlobalDefaultError")))), Ok(()));
    let e = subscribed(Some((s("something else"), s("Other { .. }")))).unwrap_err();
    assert_eq!(e.kind, ErrorKind::HostCallback);
    assert_eq!(e.message, "Failed to subscribe logger, Other { .. }");
}

#[test]
fn visitor_keeps_the_message_field_only() {
    let mut visitor = EventVisitor::default();
    visitor.record_debug("target", s("ignored"));
    assert_eq!(visitor.message, "");
    visitor.record_debug("message", s("session established"));
    assert_eq!(visitor.message, "session established");
    visitor.record_debug("Message", s("ignored too"));
    assert_eq!(visitor.message, "session established");
    visitor.record_debug("message", s("later"));
    assert_eq!(visitor.message, "later");
}
