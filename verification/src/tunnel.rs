//! Tunnels: listeners as the relay calls them, forwarded to a TCP address
//! or to a local socket rather than to a URL.

use vstd::prelude::*;
use crate::address::number_has_no_scheme;
use crate::address::number_is_plain;
use crate::address::PIPE_PREFIX;
use crate::address::UNIX_PREFIX;
use crate::error::failure;
use crate::error::AgentError;
use crate::error::ErrorKind;
use crate::listener::fault_of;
use crate::listener::handle_of;
use crate::listener::handles_of;
use crate::listener::relay_outcome;
use crate::listener::relay_result;
use crate::listener::said;
use crate::listener::EndpointInfo;
use crate::listener::LabeledInfo;
use crate::listener::ListenerView;
use crate::registry::has_id;
use crate::registry::lookup;
use crate::registry::record_views;
use crate::registry::selected;
use crate::registry::labels_distinct;
use crate::registry::last_wins_distinct;
use crate::registry::settled;
use crate::registry::settled_is_stable;
use crate::registry::unique_labels;
use crate::registry::without;
use crate::registry::ListenerMetadata;
use crate::registry::Registry;
use crate::registry::Role;
use crate::registry::Storage;
use crate::registry::StorageView;
use crate::session::RelayFault;
use crate::session::Session;
use crate::text::is_i32_text;
use crate::text::parses_as_i32;
use crate::text::contains_char;
use crate::text::joined;
use crate::text::starts_with;
use crate::text::stripped;
use crate::text::without_prefix;

verus! {

/// A handle on a tunnel. It holds what the tunnel was opened with and owns
/// nothing: the tunnel lives in the registry until it is closed.
#[derive(Clone, Debug, PartialEq, Eq)]
pub struct NgrokTunnel {
    /// The session that the tunnel was opened on.
    pub session_id: String,
    pub tun_meta: ListenerMetadata,
}

/// Where a tunnel's connections are forwarded to.
#[derive(Clone, Debug, PartialEq, Eq)]
pub enum ForwardTarget {
    /// A local socket or named pipe, by its path.
    Pipe(String),
    /// A TCP address.
    Tcp(String),
}

/// What a `ForwardTarget` holds.
pub enum ForwardTargetView {
    Pipe(Seq<char>),
    Tcp(Seq<char>),
}

impl View for NgrokTunnel {
    type V = ListenerView;

    open spec fn view(&self) -> ListenerView {
        ListenerView { session_id: self.session_id@, meta: self.tun_meta@ }
    }
}

impl View for ForwardTarget {
    type V = ForwardTargetView;

    open spec fn view(&self) -> ForwardTargetView {
        match *self {
            ForwardTarget::Pipe(p) => ForwardTargetView::Pipe(p@),
            ForwardTarget::Tcp(a) => ForwardTargetView::Tcp(a@),
        }
    }
}

/// What a list of handles holds, in order.
pub open spec fn tunnel_views(tunnels: Seq<NgrokTunnel>) -> Seq<ListenerView> {
    Seq::new(tunnels.len(), |i: int| tunnels[i]@)
}

/// An address names a local socket when it carries the scheme of a pipe or
/// of a local socket, or holds a path separator.
pub open spec fn is_pipe(addr: Seq<char>) -> bool {
    PIPE_PREFIX@.is_prefix_of(addr) || UNIX_PREFIX@.is_prefix_of(addr) || addr.contains('/')
}

/// The path of a local socket: the address without the scheme of a pipe,
/// then without that of a local socket.
pub open spec fn pipe_path(addr: Seq<char>) -> Seq<char> {
    stripped(stripped(addr, PIPE_PREFIX@), UNIX_PREFIX@)
}

/// Where an address forwards to: a local socket, by its path; a port of
/// this machine, where the address is a bare number; or the TCP address
/// that it writes.
pub open spec fn target_of(addr: Seq<char>) -> ForwardTargetView {
    if is_pipe(addr) {
        ForwardTargetView::Pipe(pipe_path(addr))
    } else if is_i32_text(addr) {
        ForwardTargetView::Tcp("localhost:"@ + addr)
    } else {
        ForwardTargetView::Tcp(addr)
    }
}

/// The message of a tunnel that is not registered.
pub open spec fn tunnel_not_running() -> (ErrorKind, Seq<char>) {
    (ErrorKind::ResourceNotFound, "Tunnel is no longer running"@)
}

/// Where the tunnel with this id forwards an address to, or the error of a
/// tunnel that is not registered.
pub open spec fn tunnel_forward_decision(
    records: Seq<StorageView>,
    id: Seq<char>,
    addr: Seq<char>,
) -> Result<ForwardTargetView, (ErrorKind, Seq<char>)> {
    if has_id(records, id) {
        Ok(target_of(addr))
    } else {
        Err(tunnel_not_running())
    }
}

/// An address that holds a path separator names a local socket, whatever
/// else it holds.
pub proof fn path_separator_wins(addr: Seq<char>)
    requires
        addr.contains('/'),
    ensures
        target_of(addr) == ForwardTargetView::Pipe(pipe_path(addr)),
{
}

/// A bare number is a port of this machine.
pub proof fn bare_port_is_localhost(addr: Seq<char>)
    requires
        is_i32_text(addr),
    ensures
        target_of(addr) == ForwardTargetView::Tcp("localhost:"@ + addr),
{
    number_is_plain(addr);
    number_has_no_scheme(addr);
}

/// An address that is no number, and has neither a path separator nor the
/// scheme of a pipe or of a local socket, is a TCP address, and is
/// forwarded to as it is.
pub proof fn plain_address_is_tcp(addr: Seq<char>)
    requires
        !is_i32_text(addr),
        !addr.contains('/'),
        !PIPE_PREFIX@.is_prefix_of(addr),
        !UNIX_PREFIX@.is_prefix_of(addr),
    ensures
        target_of(addr) == ForwardTargetView::Tcp(addr),
{
}

/// Where an address forwards to: a local socket, by its path without its
/// scheme; a port of this machine; or a TCP address.
pub fn forward_target(addr: String) -> (target: ForwardTarget)
    ensures
        target@ == target_of(addr@),
{
    let pipe = starts_with(addr.as_str(), PIPE_PREFIX) || starts_with(addr.as_str(), UNIX_PREFIX)
        || contains_char(addr.as_str(), '/');
    if pipe {
        let without_pipe = without_prefix(addr.as_str(), PIPE_PREFIX);
        ForwardTarget::Pipe(without_prefix(without_pipe.as_str(), UNIX_PREFIX))
    } else if parses_as_i32(addr.as_str()) {
        ForwardTarget::Tcp(joined("localhost:", addr.as_str()))
    } else {
        ForwardTarget::Tcp(addr)
    }
}

/// Prepares forwarding from the tunnel with this id to an address. Nothing
/// is forwarded by this; the caller forwards, and hands what came of it to
/// `canceled_is_ok`.
pub fn forward(
    registry: &Registry,
    id: &String,
    addr: String,
) -> (target: Result<ForwardTarget, AgentError>)
    ensures
        match target {
            Ok(t) => tunnel_forward_decision(registry@, id@, addr@) == Ok::<
                ForwardTargetView,
                (ErrorKind, Seq<char>),
            >(t@),
            Err(e) => tunnel_forward_decision(registry@, id@, addr@) == Err::<
                ForwardTargetView,
                (ErrorKind, Seq<char>),
            >(e@),
        },
{
    match registry.get(id.as_str()) {
        Some(_) => Ok(forward_target(addr)),
        None => Err(failure(ErrorKind::ResourceNotFound, "Tunnel is no longer running")),
    }
}

/// Registers a tunnel under what is kept of it, with each of its labels
/// once.
fn register(
    registry: &mut Registry,
    session_id: String,
    tun_meta: ListenerMetadata,
) -> (tunnel: NgrokTunnel)
    ensures
        tunnel@ == handle_of(
            settled(StorageView { role: Role::Listener, session_id: session_id@, meta: tun_meta@ }),
        ),
        final(registry)@ == without(old(registry)@, tun_meta@.id).push(
            settled(StorageView { role: Role::Listener, session_id: session_id@, meta: tun_meta@ }),
        ),
        lookup(final(registry)@, tun_meta@.id) == Some(
            settled(StorageView { role: Role::Listener, session_id: session_id@, meta: tun_meta@ }),
        ),
{
    let ghost given = StorageView {
        role: Role::Listener,
        session_id: session_id@,
        meta: tun_meta@,
    };
    let mut tun_meta = tun_meta;
    let labels = unique_labels(&tun_meta.labels);
    tun_meta.labels = labels;
    let storage = Storage { role: Role::Listener, session_id, tun_meta };
    assert(storage@ == settled(given));
    proof {
        settled_is_stable(given);
    }
    let tunnel = NgrokTunnel::from_storage(&storage);
    registry.insert(storage);
    tunnel
}

/// Registers a tunnel that backs an endpoint.
pub fn new_tunnel(
    registry: &mut Registry,
    session: &Session,
    info: EndpointInfo,
) -> (tunnel: NgrokTunnel)
    ensures
        tunnel@ == (ListenerView { session_id: session.id@, meta: info.meta() }),
        final(registry)@ == without(old(registry)@, info.id@).push(
            StorageView { role: Role::Listener, session_id: session.id@, meta: info.meta() },
        ),
        lookup(final(registry)@, info.id@) == Some(
            StorageView { role: Role::Listener, session_id: session.id@, meta: info.meta() },
        ),
{
    let labels: Vec<(String, String)> = Vec::new();
    assert(labels.deep_view() =~= Seq::<(Seq<char>, Seq<char>)>::empty());
    let tun_meta = ListenerMetadata {
        id: info.id,
        forwards_to: info.forwards_to,
        metadata: info.metadata,
        url: Some(info.url),
        proto: Some(info.proto),
        labels,
    };
    register(registry, session.id.clone(), tun_meta)
}

/// Registers a labeled tunnel.
pub fn new_labeled_tunnel(
    registry: &mut Registry,
    session: &Session,
    info: LabeledInfo,
) -> (tunnel: NgrokTunnel)
    ensures
        tunnel@ == (ListenerView { session_id: session.id@, meta: info.meta() }),
        labels_distinct(tunnel@.meta.labels),
        final(registry)@ == without(old(registry)@, info.id@).push(
            StorageView { role: Role::Listener, session_id: session.id@, meta: info.meta() },
        ),
        lookup(final(registry)@, info.id@) == Some(
            StorageView { role: Role::Listener, session_id: session.id@, meta: info.meta() },
        ),
{
    proof {
        last_wins_distinct(info.labels.deep_view());
    }
    let tun_meta = ListenerMetadata {
        id: info.id,
        forwards_to: info.forwards_to,
        metadata: info.metadata,
        url: None,
        proto: None,
        labels: info.labels,
    };
    register(registry, session.id.clone(), tun_meta)
}

/// The handles on the records that pass a filter, in the order in which
/// the records were made.
pub fn search_tunnels(
    registry: &Registry,
    session_id: Option<String>,
    url: Option<String>,
) -> (tunnels: Vec<NgrokTunnel>)
    ensures
        tunnel_views(tunnels@) == handles_of(
            selected(registry@, session_id.deep_view(), url.deep_view()),
        ),
{
    let records = registry.list(&session_id, &url);
    let mut tunnels: Vec<NgrokTunnel> = Vec::new();
    let mut i: usize = 0;
    while i < records.len()
        invariant
            i <= records.len(),
            tunnels.len() == i,
            forall|j: int| 0 <= j < i ==> #[trigger] tunnels@[j]@ == handle_of(records@[j]@),
        decreases records.len() - i,
    {
        tunnels.push(NgrokTunnel::from_storage(&records[i]));
        i = i + 1;
    }
    assert(tunnel_views(tunnels@) =~= handles_of(record_views(records@)));
    tunnels
}

/// The handles on all tunnels that are open.
pub fn tunnels(registry: &Registry) -> (tunnels: Vec<NgrokTunnel>)
    ensures
        tunnel_views(tunnels@) == handles_of(selected(registry@, None, None)),
{
    search_tunnels(registry, None, None)
}

/// The handle on the tunnel with this id, if it is open.
pub fn get_tunnel(registry: &Registry, id: String) -> (tunnel: Option<NgrokTunnel>)
    ensures
        match tunnel {
            Some(found) => lookup(registry@, id@) is Some && found@ == handle_of(
                lookup(registry@, id@)->Some_0,
            ),
            None => lookup(registry@, id@) is None,
        },
{
    match registry.get(id.as_str()) {
        Some(storage) => Some(NgrokTunnel::from_storage(&storage)),
        None => None,
    }
}

/// The handle on the first tunnel that was opened with this URL, if one is
/// open.
pub fn get_tunnel_by_url(registry: &Registry, url: String) -> (tunnel: Option<NgrokTunnel>)
    ensures
        match tunnel {
            Some(found) => selected(registry@, None, Some(url@)).len() > 0 && found@ == handle_of(
                selected(registry@, None, Some(url@))[0],
            ),
            None => selected(registry@, None, Some(url@)).len() == 0,
        },
{
    let records = registry.list(&None, &Some(url));
    if records.len() > 0 {
        assert(record_views(records@)[0] == records@[0]@);
        Some(NgrokTunnel::from_storage(&records[0]))
    } else {
        assert(record_views(records@).len() == 0);
        None
    }
}

impl NgrokTunnel {
    /// The handle on a record.
    pub fn from_storage(storage: &Storage) -> (tunnel: NgrokTunnel)
        ensures
            tunnel@ == handle_of(storage@),
    {
        NgrokTunnel { session_id: storage.session_id.clone(), tun_meta: storage.tun_meta.copy() }
    }

    /// The URL of the endpoint; a labeled tunnel has none.
    pub fn url(&self) -> (url: Option<String>)
        ensures
            url.deep_view() == self@.meta.url,
    {
        match &self.tun_meta.url {
            Some(u) => Some(u.clone()),
            None => None,
        }
    }

    /// The protocol of the endpoint; a labeled tunnel has none.
    pub fn proto(&self) -> (proto: Option<String>)
        ensures
            proto.deep_view() == self@.meta.proto,
    {
        match &self.tun_meta.proto {
            Some(p) => Some(p.clone()),
            None => None,
        }
    }

    /// The labels that the tunnel was opened with.
    pub fn labels(&self) -> (labels: Vec<(String, String)>)
        ensures
            labels.deep_view() == self@.meta.labels,
    {
        self.tun_meta.copy().labels
    }

    /// The id that the relay gave the tunnel.
    pub fn id(&self) -> (id: String)
        ensures
            id@ == self@.meta.id,
    {
        self.tun_meta.id.clone()
    }

    /// What the tunnel forwards to, as shown in the dashboard.
    pub fn forwards_to(&self) -> (forwards_to: String)
        ensures
            forwards_to@ == self@.meta.forwards_to,
    {
        self.tun_meta.forwards_to.clone()
    }

    /// The tunnel's opaque metadata.
    pub fn metadata(&self) -> (metadata: String)
        ensures
            metadata@ == self@.meta.metadata,
    {
        self.tun_meta.metadata.clone()
    }

    /// Prepares forwarding from this tunnel to an address.
    pub fn forward(
        &self,
        registry: &Registry,
        addr: String,
    ) -> (target: Result<ForwardTarget, AgentError>)
        ensures
            match target {
                Ok(t) => tunnel_forward_decision(registry@, self@.meta.id, addr@) == Ok::<
                    ForwardTargetView,
                    (ErrorKind, Seq<char>),
                >(t@),
                Err(e) => tunnel_forward_decision(registry@, self@.meta.id, addr@) == Err::<
                    ForwardTargetView,
                    (ErrorKind, Seq<char>),
                >(e@),
            },
    {
        forward(registry, &self.tun_meta.id, addr)
    }

    /// Finishes closing this tunnel. The caller has asked the session to
    /// close it; `outcome` is the relay's answer. A tunnel that is not
    /// registered was closed before: that is reported as not found,
    /// whatever the relay answered. Otherwise the tunnel's record leaves
    /// the registry, and the relay's answer is the result.
    pub fn close(
        &self,
        registry: &mut Registry,
        outcome: Result<(), RelayFault>,
    ) -> (result: Result<(), AgentError>)
        ensures
            said(result) == if has_id(old(registry)@, self@.meta.id) {
                relay_result("error closing tunnel"@, fault_of(outcome))
            } else {
                Err(tunnel_not_running())
            },
            final(registry)@ == without(old(registry)@, self@.meta.id),
            !has_id(final(registry)@, self@.meta.id),
    {
        match registry.get(self.tun_meta.id.as_str()) {
            None => {
                registry.remove(self.tun_meta.id.as_str());
                Err(failure(ErrorKind::ResourceNotFound, "Tunnel is no longer running"))
            },
            Some(_) => {
                registry.remove(self.tun_meta.id.as_str());
                relay_outcome("error closing tunnel", outcome)
            },
        }
    }
}

} // verus!
