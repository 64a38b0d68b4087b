use ngrok_nodejs::session::connector_step;
use ngrok_nodejs::session::ConnectVerdict;
use ngrok_nodejs::session::ConnectorAction;
use ngrok_nodejs::session::ConnectorEvent;
use ngrok_nodejs::session::ConnectorState;
use ngrok_nodejs::session::Handlers;

fn s(text: &str) -> String {
    text.to_string()
}

fn attempt(prior_error: Option<&str>) -> ConnectorEvent {
    ConnectorEvent::Attempt {
        host: s("connect.example.com"),
        port: 443,
        prior_error: prior_error.map(s),
    }
}

const BOTH: Handlers = Handlers { on_connection: true, on_disconnection: true };
const NONE: Handlers = Handlers { on_connection: false, on_disconnection: false };
const ONLY_DISCONNECT: Handlers = Handlers { on_connection: false, on_disconnection: true };
const ONLY_CONNECT: Handlers = Handlers { on_connection: true, on_disconnection: false };

#[test]
fn disconnect_handler_that_says_no_cancels_the_reconnect() {
    let (state, action) =
        connector_step(ONLY_DISCONNECT, ConnectorState::Idle, attempt(Some("transport error")));
    assert_eq!(state, ConnectorState::AwaitingVeto);
    assert_eq!(
        action,
        ConnectorAction::AskDisconnectHandler(vec![
            s("connect.example.com:443"),
            s("transport error")
        ])
    );
    let (state, action) = connector_step(ONLY_DISCONNECT, state, ConnectorEvent::Replied(Some(false)));
    assert_eq!(state, ConnectorState::Finished);
    assert_eq!(action, ConnectorAction::Finish(ConnectVerdict::Canceled));
}

#[test]
fn disconnect_handler_that_says_yes_or_nothing_lets_it_dial() {
    for reply in [Some(true), None] {
        let (state, action) = connector_step(
            ONLY_DISCONNECT,
            ConnectorState::AwaitingVeto,
            ConnectorEvent::Replied(reply),
        );
        assert_eq!(state, ConnectorState::Dialing);
        assert_eq!(action, ConnectorAction::Dial);
    }
}

#[test]
fn first_attempt_dials_without_asking() {
    for handlers in [BOTH, NONE, ONLY_DISCONNECT, ONLY_CONNECT] {
        let (state, action) = connector_step(handlers, ConnectorState::Idle, attempt(None));
        assert_eq!(state, ConnectorState::Dialing);
        assert_eq!(action, ConnectorAction::Dial);
    }
}

#[test]
fn attempt_after_failure_dials_when_no_disconnect_handler_is_registered() {
    for handlers in [NONE, ONLY_CONNECT] {
        let (state, action) = connector_step(handlers, ConnectorState::Idle, attempt(Some("lost")));
        assert_eq!(state, ConnectorState::Dialing);
        assert_eq!(action, ConnectorAction::Dial);
    }
}

#[test]
fn connect_handler_is_told_connected_or_closed() {
    let (state, action) =
        connector_step(BOTH, ConnectorState::Dialing, ConnectorEvent::Dialed { failure: None });
    assert_eq!(state, ConnectorState::AwaitingAck);
    assert_eq!(action, ConnectorAction::TellConnectHandler(vec![s("connected")]));

    let (state, action) = connector_step(
        ONLY_CONNECT,
        ConnectorState::Dialing,
        ConnectorEvent::Dialed { failure: Some(s("tls handshake error")) },
    );
    assert_eq!(state, ConnectorState::AwaitingAck);
    assert_eq!(
        action,
        ConnectorAction::TellConnectHandler(vec![s("closed"), s("tls handshake error")])
    );
}

#[test]
fn without_connect_handler_dialling_ends_the_attempt() {
    for failure in [None, Some(s("down"))] {
        let (state, action) =
            connector_step(ONLY_DISCONNECT, ConnectorState::Dialing, ConnectorEvent::Dialed { failure });
        assert_eq!(state, ConnectorState::Finished);
        assert_eq!(action, ConnectorAction::Finish(ConnectVerdict::DialResult));
    }
}

#[test]
fn connect_handler_answer_ends_with_what_dialling_gave() {
    for reply in [None, Some(true), Some(false)] {
        let (state, action) =
            connector_step(BOTH, ConnectorState::AwaitingAck, ConnectorEvent::Replied(reply));
        assert_eq!(state, ConnectorState::Finished);
        assert_eq!(action, ConnectorAction::Finish(ConnectVerdict::DialResult));
    }
}

#[test]
fn handler_that_fails_cancels_in_every_state() {
    for state in [
        ConnectorState::Idle,
        ConnectorState::AwaitingVeto,
        ConnectorState::Dialing,
        ConnectorState::AwaitingAck,
        ConnectorState::Finished,
    ] {
        let (next, action) = connector_step(BOTH, state, ConnectorEvent::HandlerFailed);
        assert_eq!(next, ConnectorState::Finished);
        assert_eq!(action, ConnectorAction::Finish(ConnectVerdict::Canceled));
    }
}

#[test]
fn event_out_of_turn_cancels() {
    let cases = [
        (ConnectorState::Idle, ConnectorEvent::Replied(Some(true))),
        (ConnectorState::Idle, ConnectorEvent::Dialed { failure: None }),
        (ConnectorState::AwaitingVeto, attempt(None)),
        (ConnectorState::AwaitingVeto, ConnectorEvent::Dialed { failure: None }),
        (ConnectorState::Dialing, ConnectorEvent::Replied(None)),
        (ConnectorState::Dialing, attempt(Some("x"))),
        (ConnectorState::AwaitingAck, ConnectorEvent::Dialed { failure: None }),
        (ConnectorState::Finished, attempt(None)),
        (ConnectorState::Finished, ConnectorEvent::Replied(Some(true))),
    ];
    for (state, event) in cases {
        let (next, action) = connector_step(BOTH, state, event);
        assert_eq!(next, ConnectorState::Finished);
        assert_eq!(action, ConnectorAction::Finish(ConnectVerdict::Canceled));
    }
}

#[test]
fn whole_attempt_with_both_handlers_runs_in_order() {
    let mut state = ConnectorState::Idle;
    let mut actions = vec![];
    let events = [
        attempt(Some("heartbeat timeout")),
        ConnectorEvent::Replied(Some(true)),
        ConnectorEvent::Dialed { failure: None },
        ConnectorEvent::Replied(None),
    ];
    for event in events {
        let (next, action) = connector_step(BOTH, state, event);
        state = next;
        actions.push(action);
    }
    assert_eq!(state, ConnectorState::Finished);
    assert_eq!(
        actions,
        vec![
            ConnectorAction::AskDisconnectHandler(vec![
                s("connect.example.com:443"),
                s("heartbeat timeout")
            ]),
            ConnectorAction::Dial,
            ConnectorAction::TellConnectHandler(vec![s("connected")]),
            ConnectorAction::Finish(ConnectVerdict::DialResult),
        ]
    );
}

#[test]
fn address_is_host_colon_port() {
    let event = ConnectorEvent::Attempt { host: s("h"), port: 0, prior_error: Some(s("e")) };
    let (_, action) = connector_step(ONLY_DISCONNECT, ConnectorState::Idle, event);
    assert_eq!(action, ConnectorAction::AskDisconnectHandler(vec![s("h:0"), s("e")]));
    let event = ConnectorEvent::Attempt { host: s("::1"), port: 65535, prior_error: Some(s("")) };
    let (_, action) = connector_step(ONLY_DISCONNECT, ConnectorState::Idle, event);
    assert_eq!(action, ConnectorAction::AskDisconnectHandler(vec![s("::1:65535"), s("")]));
}
