//! Sessions: the control channel to the relay on which listeners are opened.

use vstd::prelude::*;
use vstd::string::StrSliceExecFns;
use crate::error::failure;
use crate::error::relay_failure;
use crate::error::relay_message;
use crate::error::AgentError;
use crate::error::ErrorKind;
use crate::outside::heartbeat_interval_check;
use crate::outside::heartbeat_tolerance_check;
use crate::outside::server_addr_check;
use crate::outside::server_addr_refusal;
use crate::listener::fault_of;
use crate::listener::handles_of;
use crate::listener::listener_views;
use crate::listener::relay_outcome;
use crate::listener::relay_result;
use crate::listener::said;
use crate::listener::search_listeners;
use crate::listener::Listener;
use crate::registry::rejected;
use crate::registry::selected;
use crate::registry::without;
use crate::registry::Registry;
use crate::text::decimal;
use crate::text::decimal_text;
use crate::text::joined;
use crate::text::owned;
use crate::listener_builder::HttpListenerBuilder;
use crate::listener_builder::LabeledListenerBuilder;
use crate::listener_builder::SettingView;
use crate::listener_builder::TcpListenerBuilder;
use crate::listener_builder::TlsListenerBuilder;

verus! {

/// A session with the relay, known by the id that the relay gave it. Every
/// listener opened on the session carries this id.
#[derive(Clone, Debug, PartialEq, Eq)]
pub struct Session {
    pub id: String,
}

/// Which of the host's handlers take part in a connection attempt.
#[derive(Clone, Copy, Debug, PartialEq, Eq, Structural)]
pub struct Handlers {
    /// A handler is told of each attempt's outcome.
    pub on_connection: bool,
    /// A handler is asked, after a failure, whether to connect again.
    pub on_disconnection: bool,
}

/// Where one connection attempt stands.
#[derive(Clone, Copy, Debug, PartialEq, Eq, Structural)]
pub enum ConnectorState {
    /// Nothing has happened yet.
    Idle,
    /// The disconnect handler was asked and has not answered.
    AwaitingVeto,
    /// The relay is being dialled.
    Dialing,
    /// The connect handler was told and has not answered.
    AwaitingAck,
    /// The attempt is over.
    Finished,
}

/// How one connection attempt ends.
#[derive(Clone, Copy, Debug, PartialEq, Eq, Structural)]
pub enum ConnectVerdict {
    /// With whatever dialling the relay gave, a connection or its error.
    DialResult,
    /// Canceled: the relay's client stops trying to connect.
    Canceled,
}

/// What happened during a connection attempt.
#[derive(Clone, Debug, PartialEq, Eq)]
pub enum ConnectorEvent {
    /// An attempt begins, to this host and port; `prior_error` describes
    /// the failure that it follows, if it follows one.
    Attempt { host: String, port: u16, prior_error: Option<String> },
    /// The handler that was called has answered.
    Replied(Option<bool>),
    /// The handler that was called failed, or could not be scheduled.
    HandlerFailed,
    /// Dialling is over; `failure` describes its error, if it failed.
    Dialed { failure: Option<String> },
}

/// What is to be done next in a connection attempt.
#[derive(Clone, Debug, PartialEq, Eq)]
pub enum ConnectorAction {
    /// Call the disconnect handler with these arguments and wait.
    AskDisconnectHandler(Vec<String>),
    /// Dial the relay in the default way.
    Dial,
    /// Call the connect handler with these arguments and wait.
    TellConnectHandler(Vec<String>),
    /// End the attempt.
    Finish(ConnectVerdict),
}

/// What a `ConnectorEvent` holds.
pub enum EventView {
    Attempt { host: Seq<char>, port: u16, prior_error: Option<Seq<char>> },
    Replied(Option<bool>),
    HandlerFailed,
    Dialed { failure: Option<Seq<char>> },
}

/// What a `ConnectorAction` holds.
pub enum ActionView {
    AskDisconnectHandler(Seq<Seq<char>>),
    Dial,
    TellConnectHandler(Seq<Seq<char>>),
    Finish(ConnectVerdict),
}

impl View for ConnectorEvent {
    type V = EventView;

    open spec fn view(&self) -> EventView {
        match *self {
            ConnectorEvent::Attempt { host, port, prior_error } => EventView::Attempt {
                host: host@,
                port,
                prior_error: prior_error.deep_view(),
            },
            ConnectorEvent::Replied(reply) => EventView::Replied(reply),
            ConnectorEvent::HandlerFailed => EventView::HandlerFailed,
            ConnectorEvent::Dialed { failure } => EventView::Dialed {
                failure: failure.deep_view(),
            },
        }
    }
}

impl View for ConnectorAction {
    type V = ActionView;

    open spec fn view(&self) -> ActionView {
        match *self {
            ConnectorAction::AskDisconnectHandler(args) => ActionView::AskDisconnectHandler(
                args.deep_view(),
            ),
            ConnectorAction::Dial => ActionView::Dial,
            ConnectorAction::TellConnectHandler(args) => ActionView::TellConnectHandler(
                args.deep_view(),
            ),
            ConnectorAction::Finish(verdict) => ActionView::Finish(verdict),
        }
    }
}

/// An address as the disconnect handler is given it: host, colon, port.
pub open spec fn address_text(host: Seq<char>, port: u16) -> Seq<char> {
    host + ":"@ + decimal_text(port as nat)
}

/// What the connect handler is told: `connected`, or `closed` and why.
pub open spec fn outcome_args(failure: Option<Seq<char>>) -> Seq<Seq<char>> {
    match failure {
        None => seq!["connected"@],
        Some(why) => seq!["closed"@, why],
    }
}

/// The rule of a connection attempt: the state that follows `state` on
/// `event`, and what is to be done.
///
/// An attempt that follows a failure asks the disconnect handler first, if
/// there is one; an answer of `false` cancels the attempt. Then the relay is
/// dialled. Then the connect handler is told, if there is one, and the
/// attempt ends with what dialling gave. A handler that fails cancels the
/// attempt, and so does an event that comes out of turn.
pub open spec fn next(handlers: Handlers, state: ConnectorState, event: EventView) -> (
    ConnectorState,
    ActionView,
) {
    match (state, event) {
        (ConnectorState::Idle, EventView::Attempt { host, port, prior_error }) => {
            if handlers.on_disconnection && prior_error is Some {
                (
                    ConnectorState::AwaitingVeto,
                    ActionView::AskDisconnectHandler(
                        seq![address_text(host, port), prior_error->Some_0],
                    ),
                )
            } else {
                (ConnectorState::Dialing, ActionView::Dial)
            }
        },
        (ConnectorState::AwaitingVeto, EventView::Replied(reply)) => {
            if reply == Some(false) {
                (ConnectorState::Finished, ActionView::Finish(ConnectVerdict::Canceled))
            } else {
                (ConnectorState::Dialing, ActionView::Dial)
            }
        },
        (ConnectorState::Dialing, EventView::Dialed { failure }) => {
            if handlers.on_connection {
                (
                    ConnectorState::AwaitingAck,
                    ActionView::TellConnectHandler(outcome_args(failure)),
                )
            } else {
                (ConnectorState::Finished, ActionView::Finish(ConnectVerdict::DialResult))
            }
        },
        (ConnectorState::AwaitingAck, EventView::Replied(_)) => (
            ConnectorState::Finished,
            ActionView::Finish(ConnectVerdict::DialResult),
        ),
        _ => (ConnectorState::Finished, ActionView::Finish(ConnectVerdict::Canceled)),
    }
}

/// One step of a connection attempt: takes what happened and says what to
/// do next. The caller performs the action and comes back with its event,
/// until the action is `Finish`.
pub fn connector_step(handlers: Handlers, state: ConnectorState, event: ConnectorEvent) -> (step: (
    ConnectorState,
    ConnectorAction,
))
    ensures
        (step.0, step.1@) == next(handlers, state, event@),
{
    let canceled = (ConnectorState::Finished, ConnectorAction::Finish(ConnectVerdict::Canceled));
    match state {
        ConnectorState::Idle => match event {
            ConnectorEvent::Attempt { host, port, prior_error } => {
                if handlers.on_disconnection {
                    match prior_error {
                        Some(why) => {
                            let number = decimal(port as u32);
                            let with_colon = joined(host.as_str(), ":");
                            let address = joined(with_colon.as_str(), number.as_str());
                            let mut args: Vec<String> = Vec::new();
                            args.push(address);
                            args.push(why);
                            assert(args.deep_view() =~= seq![address_text(host@, port), why@]);
                            (
                                ConnectorState::AwaitingVeto,
                                ConnectorAction::AskDisconnectHandler(args),
                            )
                        },
                        None => (ConnectorState::Dialing, ConnectorAction::Dial),
                    }
                } else {
                    (ConnectorState::Dialing, ConnectorAction::Dial)
                }
            },
            _ => canceled,
        },
        ConnectorState::AwaitingVeto => match event {
            ConnectorEvent::Replied(reply) => match reply {
                Some(false) => canceled,
                _ => (ConnectorState::Dialing, ConnectorAction::Dial),
            },
            _ => canceled,
        },
        ConnectorState::Dialing => match event {
            ConnectorEvent::Dialed { failure } => {
                if handlers.on_connection {
                    let mut args: Vec<String> = Vec::new();
                    match failure {
                        None => {
                            args.push(owned("connected"));
                            assert(args.deep_view() =~= outcome_args(failure.deep_view()));
                        },
                        Some(why) => {
                            args.push(owned("closed"));
                            args.push(why);
                            assert(args.deep_view() =~= outcome_args(failure.deep_view()));
                        },
                    }
                    (ConnectorState::AwaitingAck, ConnectorAction::TellConnectHandler(args))
                } else {
                    (ConnectorState::Finished, ConnectorAction::Finish(ConnectVerdict::DialResult))
                }
            },
            _ => canceled,
        },
        ConnectorState::AwaitingAck => match event {
            ConnectorEvent::Replied(_) => (
                ConnectorState::Finished,
                ConnectorAction::Finish(ConnectVerdict::DialResult),
            ),
            _ => canceled,
        },
        ConnectorState::Finished => canceled,
    }
}

/// When a disconnect handler is registered and an attempt follows a
/// failure, the handler is asked before anything is dialled, with the
/// address and the failure; and when it answers `false`, the attempt ends
/// canceled, without dialling.
pub proof fn veto_cancels_reconnect(
    handlers: Handlers,
    host: Seq<char>,
    port: u16,
    prior_error: Seq<char>,
)
    requires
        handlers.on_disconnection,
    ensures
        next(
            handlers,
            ConnectorState::Idle,
            EventView::Attempt { host, port, prior_error: Some(prior_error) },
        ) == (
            ConnectorState::AwaitingVeto,
            ActionView::AskDisconnectHandler(seq![address_text(host, port), prior_error]),
        ),
        next(handlers, ConnectorState::AwaitingVeto, EventView::Replied(Some(false))) == (
            ConnectorState::Finished,
            ActionView::Finish(ConnectVerdict::Canceled),
        ),
{
}

/// A handler that fails, or that cannot be scheduled, cancels the attempt
/// in whatever state it stands.
pub proof fn handler_failure_cancels(handlers: Handlers, state: ConnectorState)
    ensures
        next(handlers, state, EventView::HandlerFailed) == (
            ConnectorState::Finished,
            ActionView::Finish(ConnectVerdict::Canceled),
        ),
{
}

/// Nothing is dialled but from the start of an attempt or after the
/// disconnect handler has answered, and a finished attempt stays finished.
pub proof fn dial_only_in_turn(handlers: Handlers, state: ConnectorState, event: EventView)
    ensures
        next(handlers, state, event).1 == ActionView::Dial ==> (state == ConnectorState::Idle
            || state == ConnectorState::AwaitingVeto),
        state == ConnectorState::Finished ==> next(handlers, state, event).0
            == ConnectorState::Finished,
{
}

/// How this agent names itself to the relay.
pub const CLIENT_TYPE: &'static str = "ngrok-nodejs";

/// The version under which this agent names itself to the relay.
pub const VERSION: &'static str = "0.1.0";

/// A failure that the relay reported: its message and, where it gave one,
/// its error code.
#[derive(Clone, Debug, PartialEq, Eq)]
pub struct RelayFault {
    pub msg: String,
    pub error_code: Option<String>,
}

/// One setting of a session.
#[derive(Clone, Debug, PartialEq, Eq)]
pub enum SessionSetting {
    ClientInfo { client_type: String, version: String, comments: Option<String> },
    Authtoken(String),
    AuthtokenFromEnv,
    HeartbeatInterval(u32),
    HeartbeatTolerance(u32),
    Metadata(String),
    ServerAddr(String),
    CaCert(Vec<u8>),
    /// Connection attempts go through `connector_step` with these handlers.
    Connector(Handlers),
    HandleStopCommand,
    HandleRestartCommand,
    HandleUpdateCommand,
    HandleHeartbeat,
}

/// What a `SessionSetting` holds.
pub enum SessionSettingView {
    ClientInfo { client_type: Seq<char>, version: Seq<char>, comments: Option<Seq<char>> },
    Authtoken(Seq<char>),
    AuthtokenFromEnv,
    HeartbeatInterval(u32),
    HeartbeatTolerance(u32),
    Metadata(Seq<char>),
    ServerAddr(Seq<char>),
    CaCert(Seq<u8>),
    Connector(Handlers),
    HandleStopCommand,
    HandleRestartCommand,
    HandleUpdateCommand,
    HandleHeartbeat,
}

impl View for SessionSetting {
    type V = SessionSettingView;

    open spec fn view(&self) -> SessionSettingView {
        match *self {
            SessionSetting::ClientInfo {
                client_type,
                version,
                comments,
            } => SessionSettingView::ClientInfo {
                client_type: client_type@,
                version: version@,
                comments: comments.deep_view(),
            },
            SessionSetting::Authtoken(t) => SessionSettingView::Authtoken(t@),
            SessionSetting::AuthtokenFromEnv => SessionSettingView::AuthtokenFromEnv,
            SessionSetting::HeartbeatInterval(s) => SessionSettingView::HeartbeatInterval(s),
            SessionSetting::HeartbeatTolerance(s) => SessionSettingView::HeartbeatTolerance(s),
            SessionSetting::Metadata(m) => SessionSettingView::Metadata(m@),
            SessionSetting::ServerAddr(a) => SessionSettingView::ServerAddr(a@),
            SessionSetting::CaCert(c) => SessionSettingView::CaCert(c@),
            SessionSetting::Connector(h) => SessionSettingView::Connector(h),
            SessionSetting::HandleStopCommand => SessionSettingView::HandleStopCommand,
            SessionSetting::HandleRestartCommand => SessionSettingView::HandleRestartCommand,
            SessionSetting::HandleUpdateCommand => SessionSettingView::HandleUpdateCommand,
            SessionSetting::HandleHeartbeat => SessionSettingView::HandleHeartbeat,
        }
    }
}

/// What a list of session settings holds, in order.
pub open spec fn session_views(settings: Seq<SessionSetting>) -> Seq<SessionSettingView> {
    Seq::new(settings.len(), |i: int| settings[i]@)
}

/// Appends one setting to a list.
fn apply_session(settings: &mut Vec<SessionSetting>, setting: SessionSetting)
    ensures
        session_views(final(settings)@) == session_views(old(settings)@).push(setting@),
{
    settings.push(setting);
    assert(session_views(settings@) =~= session_views(old(settings)@).push(setting@));
}

/// The settings of a session, in the order in which they were made, with
/// the handlers that are registered and whether an authtoken was set.
#[derive(Clone, Debug, PartialEq, Eq)]
pub struct SessionBuilder {
    pub settings: Vec<SessionSetting>,
    pub handlers: Handlers,
    pub auth_token_set: bool,
}

/// What is needed to connect a session: the default authtoken to use, where
/// the builder set none of its own, and whether the session will have one.
#[derive(Clone, Debug, PartialEq, Eq)]
pub struct ConnectRequest {
    pub default_authtoken: Option<String>,
    pub with_auth_token: bool,
}

/// What the relay asks when it requests an update.
#[derive(Clone, Debug, PartialEq, Eq)]
pub struct UpdateRequest {
    /// The version that the agent is asked to update to.
    pub version: String,
    /// Whether updating to the same major version is enough.
    pub permit_major_version: bool,
}

/// Sets the authtoken that sessions use when they set none of their own.
pub fn authtoken(default_token: &mut Option<String>, authtoken: String)
    ensures
        final(default_token).deep_view() == Some(authtoken@),
{
    *default_token = Some(authtoken);
}

/// The latency of a heartbeat in milliseconds, as the host is given it:
/// absent where it does not fit 32 bits.
pub fn heartbeat_latency(latency_millis: Option<u128>) -> (latency: Option<Option<u32>>)
    ensures
        latency == match latency_millis {
            None => None::<Option<u32>>,
            Some(ms) => Some(
                if ms <= u32::MAX {
                    Some(ms as u32)
                } else {
                    None
                },
            ),
        },
{
    match latency_millis {
        None => None,
        Some(ms) => {
            if ms <= 4294967295u128 {
                Some(Some(ms as u32))
            } else {
                Some(None)
            }
        },
    }
}

impl SessionBuilder {
    /// The settings made so far, as plain values.
    pub open spec fn applied(&self) -> Seq<SessionSettingView> {
        session_views(self.settings@)
    }

    /// A builder that names this agent to the relay and sets nothing else.
    pub fn new() -> (builder: Self)
        ensures
            builder.applied() == seq![
                SessionSettingView::ClientInfo {
                    client_type: CLIENT_TYPE@,
                    version: VERSION@,
                    comments: None,
                },
            ],
            builder.handlers == (Handlers { on_connection: false, on_disconnection: false }),
            !builder.auth_token_set,
    {
        let mut settings: Vec<SessionSetting> = Vec::new();
        assert(session_views(settings@) =~= Seq::<SessionSettingView>::empty());
        apply_session(
            &mut settings,
            SessionSetting::ClientInfo {
                client_type: owned(CLIENT_TYPE),
                version: owned(VERSION),
                comments: None,
            },
        );
        let builder = SessionBuilder {
            settings,
            handlers: Handlers { on_connection: false, on_disconnection: false },
            auth_token_set: false,
        };
        assert(builder.applied() =~= seq![
            SessionSettingView::ClientInfo {
                client_type: CLIENT_TYPE@,
                version: VERSION@,
                comments: None,
            },
        ]);
        builder
    }

    /// The authtoken that the session authenticates with.
    pub fn authtoken(&mut self, authtoken: String)
        ensures
            final(self).applied() == old(self).applied().push(
                SessionSettingView::Authtoken(authtoken@),
            ),
            final(self).handlers == old(self).handlers,
            final(self).auth_token_set,
    {
        apply_session(&mut self.settings, SessionSetting::Authtoken(authtoken));
        self.auth_token_set = true;
    }

    /// Takes the authtoken from the environment. `env_token` is what the
    /// environment holds under the authtoken's name; a token counts as set
    /// when it is there and not empty.
    pub fn authtoken_from_env(&mut self, env_token: Option<String>)
        ensures
            final(self).applied() == old(self).applied().push(SessionSettingView::AuthtokenFromEnv),
            final(self).handlers == old(self).handlers,
            final(self).auth_token_set == (old(self).auth_token_set || (env_token is Some
                && env_token->Some_0@.len() > 0)),
    {
        apply_session(&mut self.settings, SessionSetting::AuthtokenFromEnv);
        match env_token {
            Some(token) => {
                if token.as_str().unicode_len() > 0 {
                    self.auth_token_set = true;
                }
            },
            None => {},
        }
    }

    /// Names a client application to the relay, in front of those named
    /// before.
    pub fn client_info(&mut self, client_type: String, version: String, comments: Option<String>)
        ensures
            final(self).applied() == old(self).applied().push(
                SessionSettingView::ClientInfo {
                    client_type: client_type@,
                    version: version@,
                    comments: comments.deep_view(),
                },
            ),
            final(self).handlers == old(self).handlers,
            final(self).auth_token_set == old(self).auth_token_set,
    {
        apply_session(
            &mut self.settings,
            SessionSetting::ClientInfo { client_type, version, comments },
        );
    }

    /// How often the session sends a heartbeat, in seconds.
    pub fn heartbeat_interval(&mut self, heartbeat_interval: u32) -> (done: Result<(), AgentError>)
        ensures
            done is Ok,
            final(self).applied() == old(self).applied().push(
                SessionSettingView::HeartbeatInterval(heartbeat_interval),
            ),
            final(self).handlers == old(self).handlers,
            final(self).auth_token_set == old(self).auth_token_set,
    {
        match heartbeat_interval_check(heartbeat_interval) {
            None => {
                apply_session(
                    &mut self.settings,
                    SessionSetting::HeartbeatInterval(heartbeat_interval),
                );
                Ok(())
            },
            Some(refusal) => Err(failure(ErrorKind::Configuration, refusal.as_str())),
        }
    }

    /// How long the session waits for the answer to a heartbeat, in seconds.
    pub fn heartbeat_tolerance(
        &mut self,
        heartbeat_tolerance: u32,
    ) -> (done: Result<(), AgentError>)
        ensures
            done is Ok,
            final(self).applied() == old(self).applied().push(
                SessionSettingView::HeartbeatTolerance(heartbeat_tolerance),
            ),
            final(self).handlers == old(self).handlers,
            final(self).auth_token_set == old(self).auth_token_set,
    {
        match heartbeat_tolerance_check(heartbeat_tolerance) {
            None => {
                apply_session(
                    &mut self.settings,
                    SessionSetting::HeartbeatTolerance(heartbeat_tolerance),
                );
                Ok(())
            },
            Some(refusal) => Err(failure(ErrorKind::Configuration, refusal.as_str())),
        }
    }

    /// Opaque metadata of the session.
    pub fn metadata(&mut self, metadata: String)
        ensures
            final(self).applied() == old(self).applied().push(
                SessionSettingView::Metadata(metadata@),
            ),
            final(self).handlers == old(self).handlers,
            final(self).auth_token_set == old(self).auth_token_set,
    {
        apply_session(&mut self.settings, SessionSetting::Metadata(metadata));
    }

    /// Records the relay's answer to an address: an address that it accepts
    /// is set, and one that it refuses is a configuration error with the
    /// relay's message, which leaves the builder as it was.
    pub fn server_addr_checked(
        &mut self,
        addr: String,
        refusal: Option<String>,
    ) -> (done: Result<(), AgentError>)
        ensures
            final(self).handlers == old(self).handlers,
            final(self).auth_token_set == old(self).auth_token_set,
            match done {
                Ok(_) => refusal is None && final(self).applied() == old(self).applied().push(
                    SessionSettingView::ServerAddr(addr@),
                ),
                Err(e) => refusal is Some && e.kind == ErrorKind::Configuration && e.text()
                    == refusal->Some_0@ && final(self).applied() == old(self).applied(),
            },
    {
        match refusal {
            None => {
                apply_session(&mut self.settings, SessionSetting::ServerAddr(addr));
                Ok(())
            },
            Some(why) => Err(failure(ErrorKind::Configuration, why.as_str())),
        }
    }

    /// The address of the relay to connect to. The relay's client decides
    /// whether the address is well formed; one that it refuses is a
    /// configuration error that names the address.
    pub fn server_addr(&mut self, addr: String) -> (done: Result<(), AgentError>)
        ensures
            final(self).handlers == old(self).handlers,
            final(self).auth_token_set == old(self).auth_token_set,
            match done {
                Ok(_) => server_addr_refusal(addr@) is None && final(self).applied() == old(
                    self,
                ).applied().push(SessionSettingView::ServerAddr(addr@)),
                Err(e) => e.kind == ErrorKind::Configuration && server_addr_refusal(addr@) == Some(
                    e.text(),
                ) && e.text() == "invalid server address: "@ + addr@ && final(self).applied()
                    == old(self).applied(),
            },
    {
        let refusal = server_addr_check(addr.as_str());
        self.server_addr_checked(addr, refusal)
    }

    /// The certificate that validates the relay's TLS connection.
    pub fn ca_cert(&mut self, cert_bytes: Vec<u8>)
        ensures
            final(self).applied() == old(self).applied().push(
                SessionSettingView::CaCert(cert_bytes@),
            ),
            final(self).handlers == old(self).handlers,
            final(self).auth_token_set == old(self).auth_token_set,
    {
        apply_session(&mut self.settings, SessionSetting::CaCert(cert_bytes));
    }

    /// Registers the handler that is asked, after a failure, whether to
    /// connect again.
    pub fn handle_disconnection(&mut self)
        ensures
            final(self).handlers == (Handlers { on_disconnection: true, ..old(self).handlers }),
            final(self).applied() == old(self).applied().push(
                SessionSettingView::Connector(final(self).handlers),
            ),
            final(self).auth_token_set == old(self).auth_token_set,
    {
        self.handlers.on_disconnection = true;
        self.update_connector();
    }

    /// Registers the handler that is told of each connection attempt's
    /// outcome.
    pub fn handle_connection(&mut self)
        ensures
            final(self).handlers == (Handlers { on_connection: true, ..old(self).handlers }),
            final(self).applied() == old(self).applied().push(
                SessionSettingView::Connector(final(self).handlers),
            ),
            final(self).auth_token_set == old(self).auth_token_set,
    {
        self.handlers.on_connection = true;
        self.update_connector();
    }

    /// Routes connection attempts through `connector_step` with the
    /// handlers that are registered now.
    pub fn update_connector(&mut self)
        ensures
            final(self).handlers == old(self).handlers,
            final(self).applied() == old(self).applied().push(
                SessionSettingView::Connector(old(self).handlers),
            ),
            final(self).auth_token_set == old(self).auth_token_set,
    {
        let handlers = self.handlers;
        apply_session(&mut self.settings, SessionSetting::Connector(handlers));
    }

    /// Registers the handler of the relay's request to stop.
    pub fn handle_stop_command(&mut self)
        ensures
            final(self).applied() == old(self).applied().push(
                SessionSettingView::HandleStopCommand,
            ),
            final(self).handlers == old(self).handlers,
            final(self).auth_token_set == old(self).auth_token_set,
    {
        apply_session(&mut self.settings, SessionSetting::HandleStopCommand);
    }

    /// Registers the handler of the relay's request to restart.
    pub fn handle_restart_command(&mut self)
        ensures
            final(self).applied() == old(self).applied().push(
                SessionSettingView::HandleRestartCommand,
            ),
            final(self).handlers == old(self).handlers,
            final(self).auth_token_set == old(self).auth_token_set,
    {
        apply_session(&mut self.settings, SessionSetting::HandleRestartCommand);
    }

    /// Registers the handler of the relay's request to update.
    pub fn handle_update_command(&mut self)
        ensures
            final(self).applied() == old(self).applied().push(
                SessionSettingView::HandleUpdateCommand,
            ),
            final(self).handlers == old(self).handlers,
            final(self).auth_token_set == old(self).auth_token_set,
    {
        apply_session(&mut self.settings, SessionSetting::HandleUpdateCommand);
    }

    /// Registers the handler that is given each heartbeat's latency.
    pub fn handle_heartbeat(&mut self)
        ensures
            final(self).applied() == old(self).applied().push(SessionSettingView::HandleHeartbeat),
            final(self).handlers == old(self).handlers,
            final(self).auth_token_set == old(self).auth_token_set,
    {
        apply_session(&mut self.settings, SessionSetting::HandleHeartbeat);
    }

    /// What connecting needs beyond the settings: the default authtoken is
    /// used where there is one and the builder set none of its own.
    pub fn connect(&self, default_token: &Option<String>) -> (request: ConnectRequest)
        ensures
            request.default_authtoken.deep_view() == if self.auth_token_set {
                None
            } else {
                default_token.deep_view()
            },
            request.with_auth_token == (self.auth_token_set || default_token is Some),
    {
        if self.auth_token_set {
            ConnectRequest { default_authtoken: None, with_auth_token: true }
        } else {
            match default_token {
                Some(token) => ConnectRequest {
                    default_authtoken: Some(token.clone()),
                    with_auth_token: true,
                },
                None => ConnectRequest { default_authtoken: None, with_auth_token: false },
            }
        }
    }
}

/// The session that connecting gave: the relay's session id on success, and
/// on failure a connect error with the relay's message.
pub fn connected(outcome: Result<String, RelayFault>) -> (session: Result<Session, AgentError>)
    ensures
        match outcome {
            Ok(id) => session is Ok && session->Ok_0.id@ == id@,
            Err(fault) => session is Err && session->Err_0.kind == ErrorKind::Connect
                && session->Err_0.text() == relay_message(
                "failed to connect session"@,
                fault.msg@,
                fault.error_code.deep_view(),
            ),
        },
{
    match outcome {
        Ok(id) => Ok(Session { id }),
        Err(fault) => Err(
            relay_failure(
                ErrorKind::Connect,
                "failed to connect session",
                fault.msg.as_str(),
                &fault.error_code,
            ),
        ),
    }
}

impl Session {
    /// Starts the settings of a listener that backs an HTTP endpoint.
    pub fn http_endpoint(&self) -> (builder: HttpListenerBuilder)
        ensures
            builder.session_id@ == self.id@,
            builder.applied() == Seq::<SettingView>::empty(),
    {
        HttpListenerBuilder::new(self.id.clone())
    }

    /// Starts the settings of a listener that backs a TCP endpoint.
    pub fn tcp_endpoint(&self) -> (builder: TcpListenerBuilder)
        ensures
            builder.session_id@ == self.id@,
            builder.applied() == Seq::<SettingView>::empty(),
    {
        TcpListenerBuilder::new(self.id.clone())
    }

    /// Starts the settings of a listener that backs a TLS endpoint.
    pub fn tls_endpoint(&self) -> (builder: TlsListenerBuilder)
        ensures
            builder.session_id@ == self.id@,
            builder.applied() == Seq::<SettingView>::empty(),
    {
        TlsListenerBuilder::new(self.id.clone())
    }

    /// Starts the settings of a labeled listener.
    pub fn labeled_listener(&self) -> (builder: LabeledListenerBuilder)
        ensures
            builder.session_id@ == self.id@,
            builder.applied() == Seq::<SettingView>::empty(),
    {
        LabeledListenerBuilder::new(self.id.clone())
    }

    /// The handles on this session's listeners that are open.
    pub fn listeners(&self, registry: &Registry) -> (listeners: Vec<Listener>)
        ensures
            listener_views(listeners@) == handles_of(selected(registry@, Some(self.id@), None)),
    {
        search_listeners(registry, Some(self.id.clone()), None)
    }

    /// Finishes closing the listener with this id. The caller has asked the
    /// relay to close it; `outcome` is the relay's answer. Where the relay
    /// closed it, its record leaves the registry; where it did not, the
    /// registry is left as it was and the failure is reported.
    pub fn close_listener(
        &self,
        registry: &mut Registry,
        id: String,
        outcome: Result<(), RelayFault>,
    ) -> (result: Result<(), AgentError>)
        ensures
            said(result) == relay_result("failed to close listener"@, fault_of(outcome)),
            final(registry)@ == if outcome is Ok {
                without(old(registry)@, id@)
            } else {
                old(registry)@
            },
    {
        if outcome.is_ok() {
            registry.remove(id.as_str());
        }
        relay_outcome("failed to close listener", outcome)
    }

    /// Finishes closing the session. The caller has asked the relay to
    /// close it; `outcome` is the relay's answer. Where the session was
    /// closed, the records of all its listeners leave the registry; where
    /// it was not, the registry is left as it was and the failure is
    /// reported.
    pub fn close(
        &self,
        registry: &mut Registry,
        outcome: Result<(), RelayFault>,
    ) -> (result: Result<(), AgentError>)
        ensures
            said(result) == relay_result("failed to close session"@, fault_of(outcome)),
            final(registry)@ == if outcome is Ok {
                rejected(old(registry)@, Some(self.id@), None)
            } else {
                old(registry)@
            },
    {
        if outcome.is_ok() {
            registry.remove_selected(&Some(self.id.clone()), &None);
        }
        relay_outcome("failed to close session", outcome)
    }
}

} // verus!
