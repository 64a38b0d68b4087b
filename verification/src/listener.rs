//! Listeners: the handles that a host holds, and what opening, finding,
//! forwarding, joining and closing a listener do to the registry.

use vstd::prelude::*;
use crate::address::destination;
use crate::address::forward_url;
use crate::error::failure;
use crate::error::relay_failure;
use crate::error::relay_message;
use crate::error::AgentError;
use crate::error::ErrorKind;
use crate::outside::cause_behind;
use crate::outside::debug_text;
use crate::outside::reconnect_cause;
use crate::registry::has_id;
use crate::registry::selected_from;
use crate::registry::without_absent;
use crate::registry::without_lacks;
use crate::registry::lookup;
use crate::registry::passes;
use crate::registry::rejected;
use crate::session::RelayFault;
use crate::text::joined;
use crate::registry::record_views;
use crate::registry::ids_of;
use crate::registry::selected;
use crate::registry::labels_distinct;
use crate::registry::last_wins;
use crate::registry::last_wins_distinct;
use crate::registry::settled;
use crate::registry::settled_is_stable;
use crate::registry::unique_labels;
use crate::registry::without;
use crate::registry::ListenerMetadata;
use crate::registry::MetadataView;
use crate::registry::Registry;
use crate::registry::Role;
use crate::registry::Storage;
use crate::registry::StorageView;
use crate::session::Session;

verus! {

/// A handle on a listener. It holds what the listener was opened with and
/// owns nothing: the listener lives in the registry until it is closed.
#[derive(Clone, Debug, PartialEq, Eq)]
pub struct Listener {
    /// The session that the listener was opened on.
    pub session_id: String,
    pub tun_meta: ListenerMetadata,
}

/// What a `Listener` holds.
pub struct ListenerView {
    pub session_id: Seq<char>,
    pub meta: MetadataView,
}

/// What the relay reports of an endpoint that it has opened.
#[derive(Clone, Debug, PartialEq, Eq)]
pub struct EndpointInfo {
    pub id: String,
    pub forwards_to: String,
    pub metadata: String,
    pub url: String,
    pub proto: String,
}

/// What the relay reports of a labeled listener that it has opened.
#[derive(Clone, Debug, PartialEq, Eq)]
pub struct LabeledInfo {
    pub id: String,
    pub forwards_to: String,
    pub metadata: String,
    pub labels: Vec<(String, String)>,
}

impl View for Listener {
    type V = ListenerView;

    open spec fn view(&self) -> ListenerView {
        ListenerView { session_id: self.session_id@, meta: self.tun_meta@ }
    }
}

/// The handle on a record.
pub open spec fn handle_of(record: StorageView) -> ListenerView {
    ListenerView { session_id: record.session_id, meta: record.meta }
}

/// The handles on a list of records, in order.
pub open spec fn handles_of(records: Seq<StorageView>) -> Seq<ListenerView> {
    Seq::new(records.len(), |i: int| handle_of(records[i]))
}

/// What a list of handles holds, in order.
pub open spec fn listener_views(listeners: Seq<Listener>) -> Seq<ListenerView> {
    Seq::new(listeners.len(), |i: int| listeners[i]@)
}

/// What is kept of an endpoint: its URL and protocol, and no labels.
pub open spec fn endpoint_meta(
    id: Seq<char>,
    forwards_to: Seq<char>,
    metadata: Seq<char>,
    url: Seq<char>,
    proto: Seq<char>,
) -> MetadataView {
    MetadataView {
        id,
        forwards_to,
        metadata,
        url: Some(url),
        proto: Some(proto),
        labels: Seq::empty(),
    }
}

/// What is kept of a labeled listener: its labels, and neither URL nor
/// protocol.
pub open spec fn labeled_meta(
    id: Seq<char>,
    forwards_to: Seq<char>,
    metadata: Seq<char>,
    labels: Seq<(Seq<char>, Seq<char>)>,
) -> MetadataView {
    MetadataView { id, forwards_to, metadata, url: None, proto: None, labels }
}

impl EndpointInfo {
    /// What is kept of this endpoint.
    pub open spec fn meta(&self) -> MetadataView {
        endpoint_meta(self.id@, self.forwards_to@, self.metadata@, self.url@, self.proto@)
    }
}

impl LabeledInfo {
    /// What is kept of this labeled listener: each of its labels once, with
    /// the value that was given last.
    pub open spec fn meta(&self) -> MetadataView {
        labeled_meta(
            self.id@,
            self.forwards_to@,
            self.metadata@,
            last_wins(self.labels.deep_view()),
        )
    }
}

impl Listener {
    /// The handle on a record.
    pub fn from_storage(storage: &Storage) -> (listener: Listener)
        ensures
            listener@ == handle_of(storage@),
    {
        Listener { session_id: storage.session_id.clone(), tun_meta: storage.tun_meta.copy() }
    }

    /// The URL of the endpoint; a labeled listener has none.
    pub fn url(&self) -> (url: Option<String>)
        ensures
            url.deep_view() == self@.meta.url,
    {
        match &self.tun_meta.url {
            Some(u) => Some(u.clone()),
            None => None,
        }
    }

    /// The protocol of the endpoint; a labeled listener has none.
    pub fn proto(&self) -> (proto: Option<String>)
        ensures
            proto.deep_view() == self@.meta.proto,
    {
        match &self.tun_meta.proto {
            Some(p) => Some(p.clone()),
            None => None,
        }
    }

    /// The labels that the listener was opened with.
    pub fn labels(&self) -> (labels: Vec<(String, String)>)
        ensures
            labels.deep_view() == self@.meta.labels,
    {
        self.tun_meta.copy().labels
    }

    /// The id that the relay gave the listener.
    pub fn id(&self) -> (id: String)
        ensures
            id@ == self@.meta.id,
    {
        self.tun_meta.id.clone()
    }

    /// What the listener forwards to, as shown in the dashboard.
    pub fn forwards_to(&self) -> (forwards_to: String)
        ensures
            forwards_to@ == self@.meta.forwards_to,
    {
        self.tun_meta.forwards_to.clone()
    }

    /// The listener's opaque metadata.
    pub fn metadata(&self) -> (metadata: String)
        ensures
            metadata@ == self@.meta.metadata,
    {
        self.tun_meta.metadata.clone()
    }
}

/// Puts the record of a newly opened listener into the registry, with each
/// of its labels once, and hands out a handle on it.
fn register(
    registry: &mut Registry,
    role: Role,
    session_id: String,
    tun_meta: ListenerMetadata,
) -> (listener: Listener)
    ensures
        listener@ == handle_of(
            settled(StorageView { role, session_id: session_id@, meta: tun_meta@ }),
        ),
        final(registry)@ == without(old(registry)@, tun_meta@.id).push(
            settled(StorageView { role, session_id: session_id@, meta: tun_meta@ }),
        ),
        lookup(final(registry)@, tun_meta@.id) == Some(
            settled(StorageView { role, session_id: session_id@, meta: tun_meta@ }),
        ),
{
    let ghost given = StorageView { role, session_id: session_id@, meta: tun_meta@ };
    let mut tun_meta = tun_meta;
    let labels = unique_labels(&tun_meta.labels);
    tun_meta.labels = labels;
    let storage = Storage { role, session_id, tun_meta };
    assert(storage@ == settled(given));
    proof {
        settled_is_stable(given);
    }
    let listener = Listener::from_storage(&storage);
    registry.insert(storage);
    listener
}

/// Registers an endpoint that the relay has opened, under the given role.
pub fn new_endpoint(
    registry: &mut Registry,
    role: Role,
    session: &Session,
    info: EndpointInfo,
) -> (listener: Listener)
    ensures
        listener@ == (ListenerView { session_id: session.id@, meta: info.meta() }),
        final(registry)@ == without(old(registry)@, info.id@).push(
            StorageView { role, session_id: session.id@, meta: info.meta() },
        ),
        lookup(final(registry)@, info.id@) == Some(
            StorageView { role, session_id: session.id@, meta: info.meta() },
        ),
{
    let labels: Vec<(String, String)> = Vec::new();
    assert(labels.deep_view() =~= Seq::<(Seq<char>, Seq<char>)>::empty());
    let tun_meta = ListenerMetadata {
        id: info.id,
        forwards_to: info.forwards_to,
        metadata: info.metadata,
        url: Some(info.url),
        proto: Some(info.proto),
        labels,
    };
    register(registry, role, session.id.clone(), tun_meta)
}

/// Registers a labeled listener that the relay has opened, under the given
/// role. Its labels are kept as a map holds them: each once, with the value
/// that was given last.
pub fn new_labeled(
    registry: &mut Registry,
    role: Role,
    session: &Session,
    info: LabeledInfo,
) -> (listener: Listener)
    ensures
        listener@ == (ListenerView { session_id: session.id@, meta: info.meta() }),
        labels_distinct(listener@.meta.labels),
        final(registry)@ == without(old(registry)@, info.id@).push(
            StorageView { role, session_id: session.id@, meta: info.meta() },
        ),
        lookup(final(registry)@, info.id@) == Some(
            StorageView { role, session_id: session.id@, meta: info.meta() },
        ),
{
    proof {
        last_wins_distinct(info.labels.deep_view());
    }
    let tun_meta = ListenerMetadata {
        id: info.id,
        forwards_to: info.forwards_to,
        metadata: info.metadata,
        url: None,
        proto: None,
        labels: info.labels,
    };
    register(registry, role, session.id.clone(), tun_meta)
}

/// Registers an endpoint whose connections are forwarded on request.
pub fn new_listener(
    registry: &mut Registry,
    session: &Session,
    info: EndpointInfo,
) -> (listener: Listener)
    ensures
        listener@ == (ListenerView { session_id: session.id@, meta: info.meta() }),
        final(registry)@ == without(old(registry)@, info.id@).push(
            StorageView { role: Role::Listener, session_id: session.id@, meta: info.meta() },
        ),
        lookup(final(registry)@, info.id@) == Some(
            StorageView { role: Role::Listener, session_id: session.id@, meta: info.meta() },
        ),
{
    new_endpoint(registry, Role::Listener, session, info)
}

/// Registers an endpoint that a task forwards from.
pub fn new_forwarder(
    registry: &mut Registry,
    session: &Session,
    info: EndpointInfo,
) -> (listener: Listener)
    ensures
        listener@ == (ListenerView { session_id: session.id@, meta: info.meta() }),
        final(registry)@ == without(old(registry)@, info.id@).push(
            StorageView { role: Role::Forwarder, session_id: session.id@, meta: info.meta() },
        ),
        lookup(final(registry)@, info.id@) == Some(
            StorageView { role: Role::Forwarder, session_id: session.id@, meta: info.meta() },
        ),
{
    new_endpoint(registry, Role::Forwarder, session, info)
}

/// The handles on the records that pass a filter, in the order in which
/// the records were made.
pub fn search_listeners(
    registry: &Registry,
    session_id: Option<String>,
    url: Option<String>,
) -> (listeners: Vec<Listener>)
    ensures
        listener_views(listeners@) == handles_of(
            selected(registry@, session_id.deep_view(), url.deep_view()),
        ),
{
    let records = registry.list(&session_id, &url);
    let mut listeners: Vec<Listener> = Vec::new();
    let mut i: usize = 0;
    while i < records.len()
        invariant
            i <= records.len(),
            listeners.len() == i,
            forall|j: int| 0 <= j < i ==> #[trigger] listeners@[j]@ == handle_of(records@[j]@),
        decreases records.len() - i,
    {
        listeners.push(Listener::from_storage(&records[i]));
        i = i + 1;
    }
    assert(listener_views(listeners@) =~= handles_of(record_views(records@)));
    listeners
}

/// The handles on all listeners that are open.
pub fn listeners(registry: &Registry) -> (listeners: Vec<Listener>)
    ensures
        listener_views(listeners@) == handles_of(selected(registry@, None, None)),
{
    search_listeners(registry, None, None)
}

/// The handle on the listener with this id, if it is open.
pub fn get_listener(registry: &Registry, id: String) -> (listener: Option<Listener>)
    ensures
        match listener {
            Some(found) => lookup(registry@, id@) is Some && found@ == handle_of(
                lookup(registry@, id@)->Some_0,
            ),
            None => lookup(registry@, id@) is None,
        },
{
    match registry.get(id.as_str()) {
        Some(storage) => Some(Listener::from_storage(&storage)),
        None => None,
    }
}

/// The handle on the first listener that was opened with this URL, if one
/// is open.
pub fn get_listener_by_url(registry: &Registry, url: String) -> (listener: Option<Listener>)
    ensures
        match listener {
            Some(found) => selected(registry@, None, Some(url@)).len() > 0 && found@ == handle_of(
                selected(registry@, None, Some(url@))[0],
            ),
            None => selected(registry@, None, Some(url@)).len() == 0,
        },
{
    let records = registry.list(&None, &Some(url));
    if records.len() > 0 {
        assert(record_views(records@)[0] == records@[0]@);
        Some(Listener::from_storage(&records[0]))
    } else {
        assert(record_views(records@).len() == 0);
        None
    }
}

/// Which failure of the relay's client lies behind a forwarding error.
#[derive(Clone, Copy, Debug, PartialEq, Eq, Structural)]
pub enum ConnectCause {
    Tcp,
    Tls,
    Start,
    Auth,
    Rebind,
    ProxyConnect,
    /// The connect function gave up: the session is closing, or a handler
    /// refused to connect again.
    Canceled,
    /// A failure that this library has no name for.
    Unknown,
}

/// How forwarding ended.
#[derive(Clone, Debug, PartialEq, Eq)]
pub enum ForwardOutcome {
    /// The listener ended and forwarding with it.
    Ended,
    /// Forwarding failed. `cause` is the connect failure behind the error,
    /// where there is one, and `detail` describes the error.
    Failed { cause: Option<ConnectCause>, detail: String },
}

/// How a forwarding task ended, for whoever joins it.
#[derive(Clone, Debug, PartialEq, Eq)]
pub enum JoinOutcome {
    /// The task ran to its end without error.
    Finished,
    /// The task itself failed; the text describes how.
    TaskFailed(String),
    /// The task ended with a forwarding error; the text describes it.
    ForwardFailed(String),
}

/// What is to be forwarded, and where to.
#[derive(Clone, Debug, PartialEq, Eq)]
pub struct ForwardPlan {
    /// The listener to forward from.
    pub id: String,
    /// The URL to forward to.
    pub url: String,
}

/// What a `ForwardOutcome` holds.
pub enum ForwardOutcomeView {
    Ended,
    Failed { cause: Option<ConnectCause>, detail: Seq<char> },
}

/// What a `JoinOutcome` holds.
pub enum JoinOutcomeView {
    Finished,
    TaskFailed(Seq<char>),
    ForwardFailed(Seq<char>),
}

impl View for ForwardOutcome {
    type V = ForwardOutcomeView;

    open spec fn view(&self) -> ForwardOutcomeView {
        match *self {
            ForwardOutcome::Ended => ForwardOutcomeView::Ended,
            ForwardOutcome::Failed { cause, detail } => ForwardOutcomeView::Failed {
                cause,
                detail: detail@,
            },
        }
    }
}

impl View for JoinOutcome {
    type V = JoinOutcomeView;

    open spec fn view(&self) -> JoinOutcomeView {
        match *self {
            JoinOutcome::Finished => JoinOutcomeView::Finished,
            JoinOutcome::TaskFailed(d) => JoinOutcomeView::TaskFailed(d@),
            JoinOutcome::ForwardFailed(d) => JoinOutcomeView::ForwardFailed(d@),
        }
    }
}

/// The message of a listener that is not registered.
pub open spec fn not_running() -> (ErrorKind, Seq<char>) {
    (ErrorKind::ResourceNotFound, "Listener is no longer running"@)
}

/// What forwarding from a listener to an address needs: the listener's id
/// and the URL to forward to; or why it cannot be done. The listener must
/// be registered and be one whose connections are forwarded on request,
/// and the address must name a destination.
pub open spec fn forward_decision(
    records: Seq<StorageView>,
    id: Seq<char>,
    addr: Seq<char>,
) -> Result<(Seq<char>, Seq<char>), (ErrorKind, Seq<char>)> {
    match lookup(records, id) {
        None => Err(not_running()),
        Some(record) => if record.role != Role::Listener {
            Err((ErrorKind::Configuration, "listener is not forwardable"@))
        } else {
            match destination(addr) {
                Ok(url) => Ok((id, url)),
                Err(message) => Err((ErrorKind::Configuration, message)),
            }
        },
    }
}

/// What the end of forwarding means to the caller. A failure whose cause is
/// a canceled connect is the expected end of a listener whose session is
/// closing, and counts as success; any other failure is a forwarding error.
pub open spec fn forward_result(outcome: ForwardOutcomeView) -> Result<(), (ErrorKind, Seq<char>)> {
    match outcome {
        ForwardOutcomeView::Ended => Ok(()),
        ForwardOutcomeView::Failed { cause, detail } => if cause == Some(ConnectCause::Canceled) {
            Ok(())
        } else {
            Err((ErrorKind::ForwardingIo, "error forwarding: "@ + detail))
        },
    }
}

/// What joining a listener's forwarding task gives: the listener must be
/// registered and have such a task; a task that did not end well is an
/// error.
pub open spec fn join_result(
    records: Seq<StorageView>,
    id: Seq<char>,
    outcome: JoinOutcomeView,
) -> Result<(), (ErrorKind, Seq<char>)> {
    match lookup(records, id) {
        None => Err(not_running()),
        Some(record) => if record.role != Role::Forwarder {
            Err((ErrorKind::Configuration, "Listener is not joinable"@))
        } else {
            match outcome {
                JoinOutcomeView::Finished => Ok(()),
                JoinOutcomeView::TaskFailed(d) => Err(
                    (ErrorKind::ForwardingIo, "error on join: "@ + d),
                ),
                JoinOutcomeView::ForwardFailed(d) => Err(
                    (ErrorKind::ForwardingIo, "error on join: "@ + d),
                ),
            }
        },
    }
}

/// The result of a relay call to the caller: success, or a connect error
/// with the context and the relay's message.
pub open spec fn relay_result(
    context: Seq<char>,
    outcome: Option<(Seq<char>, Option<Seq<char>>)>,
) -> Result<(), (ErrorKind, Seq<char>)> {
    match outcome {
        None => Ok(()),
        Some(fault) => Err((ErrorKind::Connect, relay_message(context, fault.0, fault.1))),
    }
}

impl RelayFault {
    /// The relay's message and its error code.
    pub open spec fn parts(&self) -> (Seq<char>, Option<Seq<char>>) {
        (self.msg@, self.error_code.deep_view())
    }
}

/// The fault of a relay call, if it failed.
pub open spec fn fault_of(outcome: Result<(), RelayFault>) -> Option<(Seq<char>, Option<Seq<char>>)> {
    match outcome {
        Ok(_) => None,
        Err(fault) => Some(fault.parts()),
    }
}

/// What a result says, as plain values.
pub open spec fn said(result: Result<(), AgentError>) -> Result<(), (ErrorKind, Seq<char>)> {
    match result {
        Ok(_) => Ok(()),
        Err(e) => Err(e@),
    }
}

/// Turns the outcome of a relay call into the caller's result.
pub fn relay_outcome(
    context: &str,
    outcome: Result<(), RelayFault>,
) -> (result: Result<(), AgentError>)
    ensures
        said(result) == relay_result(context@, fault_of(outcome)),
{
    match outcome {
        Ok(_) => Ok(()),
        Err(fault) => Err(
            relay_failure(ErrorKind::Connect, context, fault.msg.as_str(), &fault.error_code),
        ),
    }
}

/// The record with this id, or the error of a listener that is not
/// registered.
pub fn get_storage_by_id(registry: &Registry, id: &String) -> (storage: Result<Storage, AgentError>)
    ensures
        match storage {
            Ok(found) => lookup(registry@, id@) == Some(found@),
            Err(e) => lookup(registry@, id@) is None && e@ == not_running(),
        },
{
    match registry.get(id.as_str()) {
        Some(found) => Ok(found),
        None => Err(failure(ErrorKind::ResourceNotFound, "Listener is no longer running")),
    }
}

/// Takes the record with this id out of the registry.
pub fn remove_global_listener(registry: &mut Registry, id: &String)
    ensures
        final(registry)@ == without(old(registry)@, id@),
        !has_id(final(registry)@, id@),
{
    registry.remove(id.as_str());
}

/// Prepares forwarding from the listener with this id to an address: finds
/// the listener, and turns the address into the URL to forward to. Nothing
/// is forwarded by this; the caller forwards, and hands what came of it to
/// `canceled_is_ok`.
pub fn forward(
    registry: &Registry,
    id: &String,
    addr: String,
) -> (plan: Result<ForwardPlan, AgentError>)
    ensures
        match plan {
            Ok(p) => forward_decision(registry@, id@, addr@) == Ok::<
                (Seq<char>, Seq<char>),
                (ErrorKind, Seq<char>),
            >((p.id@, p.url@)),
            Err(e) => forward_decision(registry@, id@, addr@) == Err::<
                (Seq<char>, Seq<char>),
                (ErrorKind, Seq<char>),
            >(e@),
        },
{
    let storage = get_storage_by_id(registry, id)?;
    match storage.role {
        Role::Listener => {
            let url = forward_url(addr.as_str())?;
            Ok(ForwardPlan { id: id.clone(), url })
        },
        Role::Forwarder => Err(failure(ErrorKind::Configuration, "listener is not forwardable")),
    }
}

/// What the end of forwarding means to the caller: a canceled connect is
/// the expected end and counts as success.
pub fn settle_forward(outcome: ForwardOutcome) -> (result: Result<(), AgentError>)
    ensures
        said(result) == forward_result(outcome@),
{
    match outcome {
        ForwardOutcome::Ended => Ok(()),
        ForwardOutcome::Failed { cause, detail } => {
            match cause {
                Some(ConnectCause::Canceled) => Ok(()),
                _ => {
                    let message = joined("error forwarding: ", detail.as_str());
                    Err(failure(ErrorKind::ForwardingIo, message.as_str()))
                },
            }
        },
    }
}

/// Whether forwarding that gave this I/O result ended well: it did where
/// the result is no error, and where the error has a canceled connect
/// behind it.
pub open spec fn ended_well(input: Result<(), std::io::Error>) -> bool {
    match input {
        Ok(_) => true,
        Err(e) => cause_behind(e) == Some(ConnectCause::Canceled),
    }
}

/// What the end of forwarding means to the caller, from the I/O result that
/// forwarding gave. Success stays success. An error with a canceled connect
/// behind it is the expected end of a listener whose session is closing,
/// and is success too. Every other error is a forwarding error, whose
/// message describes it.
pub fn canceled_is_ok(input: Result<(), std::io::Error>) -> (result: Result<(), AgentError>)
    ensures
        result is Ok <==> ended_well(input),
        result is Err ==> exists|detail: Seq<char>|
            said(result) == forward_result(
                ForwardOutcomeView::Failed { cause: cause_behind(input->Err_0), detail },
            ),
        result is Err ==> exists|detail: Seq<char>|
            result->Err_0@ == (ErrorKind::ForwardingIo, "error forwarding: "@ + detail),
{
    match &input {
        Ok(_) => settle_forward(ForwardOutcome::Ended),
        Err(e) => {
            let cause = reconnect_cause(e);
            let detail = debug_text(e);
            let ghost shown = detail@;
            let result = settle_forward(ForwardOutcome::Failed { cause, detail });
            proof {
                if result is Err {
                    assert(said(result) == forward_result(
                        ForwardOutcomeView::Failed {
                            cause: cause_behind(input->Err_0),
                            detail: shown,
                        },
                    ));
                    assert(result->Err_0@ == (
                        ErrorKind::ForwardingIo,
                        "error forwarding: "@ + shown,
                    ));
                }
            }
            result
        },
    }
}

/// The ids of the listeners that closing by URL is to close, in the order
/// in which they were opened: those opened with this URL, or all where no
/// URL is given.
pub fn close_plan(registry: &Registry, url: &Option<String>) -> (ids: Vec<String>)
    ensures
        ids.deep_view() == ids_of(selected(registry@, None, url.deep_view())),
{
    registry.ids(&None, url)
}

/// Finishes closing by URL. The caller has asked the relay to close the
/// listeners of `close_plan`, one after the other, and stopped at the first
/// that failed; `first_failure` is that failure, if there was one.
///
/// After a failure the registry is left as it was, and the failure is
/// reported; the listeners that were not reached stay open. Without a
/// failure the records of all those listeners leave the registry.
pub fn close_url(
    registry: &mut Registry,
    url: Option<String>,
    first_failure: Option<RelayFault>,
) -> (result: Result<(), AgentError>)
    ensures
        said(result) == relay_result(
            "error closing listener"@,
            match first_failure {
                Some(fault) => Some(fault.parts()),
                None => None,
            },
        ),
        final(registry)@ == if first_failure is Some {
            old(registry)@
        } else {
            rejected(old(registry)@, None, url.deep_view())
        },
{
    match first_failure {
        Some(fault) => relay_outcome("error closing listener", Err(fault)),
        None => {
            registry.remove_selected(&None, &url);
            Ok(())
        },
    }
}

impl Listener {
    /// Prepares forwarding from this listener to an address.
    pub fn forward(
        &self,
        registry: &Registry,
        addr: String,
    ) -> (plan: Result<ForwardPlan, AgentError>)
        ensures
            match plan {
                Ok(p) => forward_decision(registry@, self@.meta.id, addr@) == Ok::<
                    (Seq<char>, Seq<char>),
                    (ErrorKind, Seq<char>),
                >((p.id@, p.url@)),
                Err(e) => forward_decision(registry@, self@.meta.id, addr@) == Err::<
                    (Seq<char>, Seq<char>),
                    (ErrorKind, Seq<char>),
                >(e@),
            },
    {
        forward(registry, &self.tun_meta.id, addr)
    }

    /// Whether this listener has a forwarding task that can be joined: it
    /// must be registered and have been opened with forwarding.
    pub fn joinable(&self, registry: &Registry) -> (result: Result<(), AgentError>)
        ensures
            said(result) == join_result(registry@, self@.meta.id, JoinOutcomeView::Finished),
    {
        let storage = get_storage_by_id(registry, &self.tun_meta.id)?;
        match storage.role {
            Role::Forwarder => Ok(()),
            Role::Listener => Err(failure(ErrorKind::Configuration, "Listener is not joinable")),
        }
    }

    /// What joining this listener's forwarding task gave. `outcome` is how
    /// the task ended. A task that has ended forwards nothing any more, so
    /// the listener's record leaves the registry, however the task ended;
    /// where there was no task to join, the registry is left as it was.
    pub fn join(
        &self,
        registry: &mut Registry,
        outcome: JoinOutcome,
    ) -> (result: Result<(), AgentError>)
        ensures
            said(result) == join_result(old(registry)@, self@.meta.id, outcome@),
            final(registry)@ == if join_result(
                old(registry)@,
                self@.meta.id,
                JoinOutcomeView::Finished,
            ) is Ok {
                without(old(registry)@, self@.meta.id)
            } else {
                old(registry)@
            },
    {
        self.joinable(registry)?;
        registry.remove(self.tun_meta.id.as_str());
        match outcome {
            JoinOutcome::Finished => Ok(()),
            JoinOutcome::TaskFailed(detail) => {
                let message = joined("error on join: ", detail.as_str());
                Err(failure(ErrorKind::ForwardingIo, message.as_str()))
            },
            JoinOutcome::ForwardFailed(detail) => {
                let message = joined("error on join: ", detail.as_str());
                Err(failure(ErrorKind::ForwardingIo, message.as_str()))
            },
        }
    }

    /// Finishes closing this listener. The caller has asked the session to
    /// close it, so that a forwarding loop that holds the listener cannot
    /// stand in the way; `outcome` is the relay's answer.
    ///
    /// A listener that is not registered was closed before: that is
    /// reported as not found, whatever the relay answered. Otherwise the
    /// listener's record leaves the registry, and the relay's answer is the
    /// result.
    pub fn close(
        &self,
        registry: &mut Registry,
        outcome: Result<(), RelayFault>,
    ) -> (result: Result<(), AgentError>)
        ensures
            said(result) == if has_id(old(registry)@, self@.meta.id) {
                relay_result("error closing listener"@, fault_of(outcome))
            } else {
                Err(not_running())
            },
            final(registry)@ == without(old(registry)@, self@.meta.id),
            !has_id(final(registry)@, self@.meta.id),
    {
        match registry.get(self.tun_meta.id.as_str()) {
            None => {
                registry.remove(self.tun_meta.id.as_str());
                Err(failure(ErrorKind::ResourceNotFound, "Listener is no longer running"))
            },
            Some(_) => {
                registry.remove(self.tun_meta.id.as_str());
                relay_outcome("error closing listener", outcome)
            },
        }
    }
}

/// What opening a listener does, given what the relay answered: on success
/// the listener's record is in the registry under its id, in place of any
/// record that had the id, and the result is a handle on it; on failure the
/// registry is as it was and the result is a connect error with the
/// relay's message.
pub open spec fn opened_as(
    before: Seq<StorageView>,
    after: Seq<StorageView>,
    role: Role,
    session_id: Seq<char>,
    opened: Result<MetadataView, (Seq<char>, Option<Seq<char>>)>,
    result: Result<Listener, AgentError>,
) -> bool {
    match opened {
        Ok(meta) => {
            let record = StorageView { role, session_id, meta };
            &&& result is Ok
            &&& result->Ok_0@ == handle_of(record)
            &&& after == without(before, meta.id).push(record)
            &&& lookup(after, meta.id) == Some(record)
        },
        Err(fault) => {
            &&& result is Err
            &&& result->Err_0@ == (
                ErrorKind::Connect,
                relay_message("failed to start listener"@, fault.0, fault.1),
            )
            &&& after == before
        },
    }
}

/// What the relay answered when asked for an endpoint, as plain values.
pub open spec fn endpoint_answer(opened: Result<EndpointInfo, RelayFault>) -> Result<
    MetadataView,
    (Seq<char>, Option<Seq<char>>),
> {
    match opened {
        Ok(info) => Ok(info.meta()),
        Err(fault) => Err(fault.parts()),
    }
}

/// What the relay answered when asked for a labeled listener, as plain
/// values.
pub open spec fn labeled_answer(opened: Result<LabeledInfo, RelayFault>) -> Result<
    MetadataView,
    (Seq<char>, Option<Seq<char>>),
> {
    match opened {
        Ok(info) => Ok(info.meta()),
        Err(fault) => Err(fault.parts()),
    }
}

/// Finishes opening an endpoint: registers it where the relay opened it,
/// and reports the relay's failure where it did not.
pub fn opened_endpoint(
    registry: &mut Registry,
    role: Role,
    session_id: &String,
    opened: Result<EndpointInfo, RelayFault>,
) -> (result: Result<Listener, AgentError>)
    ensures
        opened_as(
            old(registry)@,
            final(registry)@,
            role,
            session_id@,
            endpoint_answer(opened),
            result,
        ),
{
    match opened {
        Ok(info) => {
            let session = Session { id: session_id.clone() };
            Ok(new_endpoint(registry, role, &session, info))
        },
        Err(fault) => Err(
            relay_failure(
                ErrorKind::Connect,
                "failed to start listener",
                fault.msg.as_str(),
                &fault.error_code,
            ),
        ),
    }
}

/// Finishes opening a labeled listener: registers it where the relay
/// opened it, and reports the relay's failure where it did not.
pub fn opened_labeled(
    registry: &mut Registry,
    role: Role,
    session_id: &String,
    opened: Result<LabeledInfo, RelayFault>,
) -> (result: Result<Listener, AgentError>)
    ensures
        opened_as(
            old(registry)@,
            final(registry)@,
            role,
            session_id@,
            labeled_answer(opened),
            result,
        ),
{
    match opened {
        Ok(info) => {
            let session = Session { id: session_id.clone() };
            Ok(new_labeled(registry, role, &session, info))
        },
        Err(fault) => Err(
            relay_failure(
                ErrorKind::Connect,
                "failed to start listener",
                fault.msg.as_str(),
                &fault.error_code,
            ),
        ),
    }
}

/// A listener that backs an endpoint is found under its id as soon as it
/// is opened: the handle found is the one that opening gave, it carries the
/// id, the URL and the protocol that the relay reported, and it has no
/// labels.
pub proof fn endpoint_found_once_opened(
    before: Seq<StorageView>,
    after: Seq<StorageView>,
    role: Role,
    session_id: Seq<char>,
    id: Seq<char>,
    forwards_to: Seq<char>,
    metadata: Seq<char>,
    url: Seq<char>,
    proto: Seq<char>,
    result: Result<Listener, AgentError>,
)
    requires
        opened_as(
            before,
            after,
            role,
            session_id,
            Ok(endpoint_meta(id, forwards_to, metadata, url, proto)),
            result,
        ),
    ensures
        lookup(after, id) is Some,
        result is Ok,
        handle_of(lookup(after, id)->Some_0) == result->Ok_0@,
        handle_of(lookup(after, id)->Some_0).meta.id == id,
        handle_of(lookup(after, id)->Some_0).meta.url == Some(url),
        handle_of(lookup(after, id)->Some_0).meta.proto == Some(proto),
        handle_of(lookup(after, id)->Some_0).meta.labels.len() == 0,
{
}

/// A labeled listener is found under its id as soon as it is opened: the
/// handle found is the one that opening gave, it carries the id and the
/// labels that the relay reported, and it has neither URL nor protocol.
pub proof fn labeled_found_once_opened(
    before: Seq<StorageView>,
    after: Seq<StorageView>,
    role: Role,
    session_id: Seq<char>,
    id: Seq<char>,
    forwards_to: Seq<char>,
    metadata: Seq<char>,
    labels: Seq<(Seq<char>, Seq<char>)>,
    result: Result<Listener, AgentError>,
)
    requires
        opened_as(
            before,
            after,
            role,
            session_id,
            Ok(labeled_meta(id, forwards_to, metadata, labels)),
            result,
        ),
    ensures
        lookup(after, id) is Some,
        result is Ok,
        handle_of(lookup(after, id)->Some_0) == result->Ok_0@,
        handle_of(lookup(after, id)->Some_0).meta.id == id,
        handle_of(lookup(after, id)->Some_0).meta.labels == labels,
        handle_of(lookup(after, id)->Some_0).meta.url is None,
        handle_of(lookup(after, id)->Some_0).meta.proto is None,
{
}

/// Once a listener is closed it is not found any more, whatever the relay
/// answered; closing it a second time reports it as not found, whatever
/// the relay answers then, and leaves the registry as it is.
pub proof fn closed_is_not_found(
    records: Seq<StorageView>,
    id: Seq<char>,
    second_answer: Option<(Seq<char>, Option<Seq<char>>)>,
)
    ensures
        lookup(without(records, id), id) is None,
        !has_id(without(records, id), id),
        (if has_id(without(records, id), id) {
            relay_result("error closing listener"@, second_answer)
        } else {
            Err(not_running())
        }) == Err::<(), (ErrorKind, Seq<char>)>(not_running()),
        without(without(records, id), id) == without(records, id),
{
    without_lacks(records, id);
    without_absent(without(records, id), id);
}

/// Listing by URL gives only listeners that were opened with that URL.
pub proof fn listed_by_url_have_it(
    records: Seq<StorageView>,
    session_id: Option<Seq<char>>,
    url: Seq<char>,
)
    ensures
        forall|i: int|
            0 <= i < handles_of(selected(records, session_id, Some(url))).len() ==> (
            #[trigger] handles_of(selected(records, session_id, Some(url)))[i]).meta.url == Some(
                url,
            ),
{
    selected_from(records, session_id, Some(url));
    let chosen = selected(records, session_id, Some(url));
    assert forall|i: int| 0 <= i < handles_of(chosen).len() implies (#[trigger] handles_of(
        chosen,
    )[i]).meta.url == Some(url) by {
        assert(passes(chosen[i], session_id, Some(url)));
    }
}

/// Forwarding that ends because the connect was canceled ends well: closing
/// a listener or its session while it is forwarded is no error to whoever
/// forwards.
pub proof fn canceled_forward_ends_well(detail: Seq<char>)
    ensures
        forward_result(
            ForwardOutcomeView::Failed { cause: Some(ConnectCause::Canceled), detail },
        ) is Ok,
{
}

} // verus!
