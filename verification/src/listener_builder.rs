//! The settings that a listener is opened with, kept as plain values until
//! the listener is started.
//!
//! A builder records each setting in the order in which it was made. Whoever
//! opens the listener applies them to the relay's own builder in that order.

use vstd::prelude::*;
use crate::error::failure;
use crate::error::AgentError;
use crate::error::ErrorKind;
use crate::listener::endpoint_answer;
use crate::listener::labeled_answer;
use crate::listener::opened_as;
use crate::listener::opened_endpoint;
use crate::listener::opened_labeled;
use crate::listener::EndpointInfo;
use crate::listener::LabeledInfo;
use crate::listener::Listener;
use crate::address::host_port_shaped;
use crate::address::normalize;
use crate::address::with_scheme;
use crate::outside::parse_url;
use crate::outside::proxy_proto_from_text;
use crate::outside::url_parse;
use crate::registry::Registry;
use crate::registry::Role;
use crate::session::RelayFault;
use crate::outside::proxy_proto_named;
use crate::text::joined;

verus! {

/// The URL scheme of an HTTP endpoint.
#[derive(Clone, Copy, Debug, PartialEq, Eq, Structural)]
pub enum Scheme {
    Http,
    Https,
}

/// The version of the PROXY protocol that a listener speaks to its backend.
#[derive(Clone, Copy, Debug, PartialEq, Eq, Structural)]
pub enum ProxyProto {
    /// No PROXY protocol header.
    Off,
    /// Version 1.
    V1,
    /// Version 2.
    V2,
}

/// OAuth settings of an HTTP endpoint.
#[derive(Clone, Debug, PartialEq, Eq)]
pub struct OauthOptions {
    pub provider: String,
    pub allow_emails: Vec<String>,
    pub allow_domains: Vec<String>,
    pub scopes: Vec<String>,
    pub client_id: Option<String>,
    pub client_secret: Option<String>,
}

/// OpenID Connect settings of an HTTP endpoint.
#[derive(Clone, Debug, PartialEq, Eq)]
pub struct OidcOptions {
    pub issuer_url: String,
    pub client_id: String,
    pub client_secret: String,
    pub allow_emails: Vec<String>,
    pub allow_domains: Vec<String>,
    pub scopes: Vec<String>,
}

/// One setting of a listener.
#[derive(Clone, Debug, PartialEq, Eq)]
pub enum Setting {
    Metadata(String),
    AllowCidr(String),
    DenyCidr(String),
    ProxyProto(ProxyProto),
    ForwardsTo(String),
    Scheme(Scheme),
    Domain(String),
    MutualTlsCa(Vec<u8>),
    Compression,
    WebsocketTcpConversion,
    RequestHeader(String, String),
    ResponseHeader(String, String),
    RemoveRequestHeader(String),
    RemoveResponseHeader(String),
    BasicAuth(String, String),
    AllowUserAgent(String),
    DenyUserAgent(String),
    Oauth(OauthOptions),
    Oidc(OidcOptions),
    WebhookVerification(String, String),
    RemoteAddr(String),
    Termination(Vec<u8>, Vec<u8>),
    Label(String, String),
}

/// What an `OauthOptions` holds.
pub struct OauthView {
    pub provider: Seq<char>,
    pub allow_emails: Seq<Seq<char>>,
    pub allow_domains: Seq<Seq<char>>,
    pub scopes: Seq<Seq<char>>,
    pub client_id: Option<Seq<char>>,
    pub client_secret: Option<Seq<char>>,
}

/// What an `OidcOptions` holds.
pub struct OidcView {
    pub issuer_url: Seq<char>,
    pub client_id: Seq<char>,
    pub client_secret: Seq<char>,
    pub allow_emails: Seq<Seq<char>>,
    pub allow_domains: Seq<Seq<char>>,
    pub scopes: Seq<Seq<char>>,
}

/// What a `Setting` holds.
pub enum SettingView {
    Metadata(Seq<char>),
    AllowCidr(Seq<char>),
    DenyCidr(Seq<char>),
    ProxyProto(ProxyProto),
    ForwardsTo(Seq<char>),
    Scheme(Scheme),
    Domain(Seq<char>),
    MutualTlsCa(Seq<u8>),
    Compression,
    WebsocketTcpConversion,
    RequestHeader(Seq<char>, Seq<char>),
    ResponseHeader(Seq<char>, Seq<char>),
    RemoveRequestHeader(Seq<char>),
    RemoveResponseHeader(Seq<char>),
    BasicAuth(Seq<char>, Seq<char>),
    AllowUserAgent(Seq<char>),
    DenyUserAgent(Seq<char>),
    Oauth(OauthView),
    Oidc(OidcView),
    WebhookVerification(Seq<char>, Seq<char>),
    RemoteAddr(Seq<char>),
    Termination(Seq<u8>, Seq<u8>),
    Label(Seq<char>, Seq<char>),
}

impl View for OauthOptions {
    type V = OauthView;

    open spec fn view(&self) -> OauthView {
        OauthView {
            provider: self.provider@,
            allow_emails: self.allow_emails.deep_view(),
            allow_domains: self.allow_domains.deep_view(),
            scopes: self.scopes.deep_view(),
            client_id: self.client_id.deep_view(),
            client_secret: self.client_secret.deep_view(),
        }
    }
}

impl View for OidcOptions {
    type V = OidcView;

    open spec fn view(&self) -> OidcView {
        OidcView {
            issuer_url: self.issuer_url@,
            client_id: self.client_id@,
            client_secret: self.client_secret@,
            allow_emails: self.allow_emails.deep_view(),
            allow_domains: self.allow_domains.deep_view(),
            scopes: self.scopes.deep_view(),
        }
    }
}

impl View for Setting {
    type V = SettingView;

    open spec fn view(&self) -> SettingView {
        match *self {
            Setting::Metadata(s) => SettingView::Metadata(s@),
            Setting::AllowCidr(s) => SettingView::AllowCidr(s@),
            Setting::DenyCidr(s) => SettingView::DenyCidr(s@),
            Setting::ProxyProto(p) => SettingView::ProxyProto(p),
            Setting::ForwardsTo(s) => SettingView::ForwardsTo(s@),
            Setting::Scheme(s) => SettingView::Scheme(s),
            Setting::Domain(s) => SettingView::Domain(s@),
            Setting::MutualTlsCa(b) => SettingView::MutualTlsCa(b@),
            Setting::Compression => SettingView::Compression,
            Setting::WebsocketTcpConversion => SettingView::WebsocketTcpConversion,
            Setting::RequestHeader(n, v) => SettingView::RequestHeader(n@, v@),
            Setting::ResponseHeader(n, v) => SettingView::ResponseHeader(n@, v@),
            Setting::RemoveRequestHeader(n) => SettingView::RemoveRequestHeader(n@),
            Setting::RemoveResponseHeader(n) => SettingView::RemoveResponseHeader(n@),
            Setting::BasicAuth(u, p) => SettingView::BasicAuth(u@, p@),
            Setting::AllowUserAgent(r) => SettingView::AllowUserAgent(r@),
            Setting::DenyUserAgent(r) => SettingView::DenyUserAgent(r@),
            Setting::Oauth(o) => SettingView::Oauth(o@),
            Setting::Oidc(o) => SettingView::Oidc(o@),
            Setting::WebhookVerification(p, s) => SettingView::WebhookVerification(p@, s@),
            Setting::RemoteAddr(a) => SettingView::RemoteAddr(a@),
            Setting::Termination(c, k) => SettingView::Termination(c@, k@),
            Setting::Label(l, v) => SettingView::Label(l@, v@),
        }
    }
}

/// What a list of settings holds, in order.
pub open spec fn views(settings: Seq<Setting>) -> Seq<SettingView> {
    Seq::new(settings.len(), |i: int| settings[i]@)
}

/// The message that refuses an unknown PROXY protocol version.
pub open spec fn unknown_proxy_proto(text: Seq<char>) -> Seq<char> {
    "Unknown proxy protocol: "@ + text
}

/// The setting that a PROXY protocol text asks for, or the refusal.
pub open spec fn proxy_proto_setting(text: Seq<char>) -> Result<SettingView, Seq<char>> {
    match proxy_proto_named(text) {
        Some(version) => Ok(SettingView::ProxyProto(version)),
        None => Err(unknown_proxy_proto(text)),
    }
}

/// The message for a forwarding URL that does not parse.
pub open spec fn bad_forward_url(error: Seq<char>) -> Seq<char> {
    "Url forward argument parse failure, "@ + error
}

/// The message that `listen_and_serve` answers with.
pub open spec fn served_elsewhere(server: Seq<char>) -> Seq<char> {
    "listen_and_serve implemented in wrapper, "@ + server
}

/// The URL to forward to, from what parsing it gave: the URL as parsed, or
/// a configuration error with the parse error.
pub fn checked_forward_destination(
    parsed: Result<String, String>,
) -> (url: Result<String, AgentError>)
    ensures
        match url {
            Ok(u) => parsed is Ok && u@ == parsed->Ok_0@,
            Err(e) => parsed is Err && e@ == (
                ErrorKind::Configuration,
                bad_forward_url(parsed->Err_0@),
            ),
        },
{
    match parsed {
        Ok(url) => Ok(url),
        Err(error) => {
            let message = joined("Url forward argument parse failure, ", error.as_str());
            Err(failure(ErrorKind::Configuration, message.as_str()))
        },
    }
}

/// The URL that a listener opened with forwarding forwards to, or the
/// message that refuses the text. The text is read as any destination is:
/// it is given the scheme it lacks, then parsed as a URL.
pub open spec fn forward_destination_of(to_url: Seq<char>) -> Result<Seq<char>, Seq<char>> {
    match url_parse(with_scheme(to_url, host_port_shaped(to_url))) {
        Ok(url) => Ok(url),
        Err(error) => Err(bad_forward_url(error)),
    }
}

/// The URL that a listener opened with forwarding forwards to. The text is
/// read as any destination is; one that does not parse as a URL is a
/// configuration error.
pub fn forward_destination(to_url: &str) -> (url: Result<String, AgentError>)
    ensures
        match url {
            Ok(u) => forward_destination_of(to_url@) == Ok::<Seq<char>, Seq<char>>(u@),
            Err(e) => forward_destination_of(to_url@) is Err && e@ == (
                ErrorKind::Configuration,
                forward_destination_of(to_url@)->Err_0,
            ),
        },
{
    let full = normalize(to_url);
    checked_forward_destination(parse_url(full.as_str()))
}

/// The answer of `listen_and_serve`: serving is left to the host.
pub fn serve_refusal(server: &str) -> (e: AgentError)
    ensures
        e@ == (ErrorKind::Configuration, served_elsewhere(server@)),
{
    let message = joined("listen_and_serve implemented in wrapper, ", server);
    failure(ErrorKind::Configuration, message.as_str())
}

/// Appends one setting to a list.
pub fn apply(settings: &mut Vec<Setting>, setting: Setting)
    ensures
        views(final(settings)@) == views(old(settings)@).push(setting@),
{
    settings.push(setting);
    assert(views(settings@) =~= views(old(settings)@).push(setting@));
}

/// Reads a PROXY protocol version: the empty text, `1` or `2`. Any other
/// text is a configuration error.
pub fn parse_proxy_proto(text: &str) -> (parsed: Result<Setting, AgentError>)
    ensures
        match parsed {
            Ok(setting) => proxy_proto_setting(text@) == Ok::<SettingView, Seq<char>>(setting@),
            Err(e) => e.kind == ErrorKind::Configuration
                && proxy_proto_setting(text@) == Err::<SettingView, Seq<char>>(e.text()),
        },
{
    match proxy_proto_from_text(text) {
        Some(version) => Ok(Setting::ProxyProto(version)),
        None => {
            let message = joined("Unknown proxy protocol: ", text);
            Err(failure(ErrorKind::Configuration, message.as_str()))
        },
    }
}


/// The settings of a listener that backs an HTTP endpoint, in the order in which they were made.
#[derive(Clone, Debug, PartialEq, Eq)]
pub struct HttpListenerBuilder {
    /// The session that the listener will be opened on.
    pub session_id: String,
    /// The settings made so far.
    pub settings: Vec<Setting>,
}

impl HttpListenerBuilder {
    /// The settings made so far, as plain values.
    pub open spec fn applied(&self) -> Seq<SettingView> {
        views(self.settings@)
    }

    /// A builder on the given session, with no setting made.
    pub fn new(session_id: String) -> (builder: Self)
        ensures
            builder.session_id@ == session_id@,
            builder.applied() == Seq::<SettingView>::empty(),
    {
        let builder = HttpListenerBuilder { session_id, settings: Vec::new() };
        assert(builder.applied() =~= Seq::<SettingView>::empty());
        builder
    }

    /// Listener-specific opaque metadata.
    pub fn metadata(&mut self, metadata: String)
        ensures
            final(self).applied() == old(self).applied().push(SettingView::Metadata(metadata@)),
            final(self).session_id == old(self).session_id,
    {
        apply(&mut self.settings, Setting::Metadata(metadata));
    }

    /// Allows connections from this CIDR range only; may be called again
    /// to allow more ranges.
    pub fn allow_cidr(&mut self, cidr: String)
        ensures
            final(self).applied() == old(self).applied().push(SettingView::AllowCidr(cidr@)),
            final(self).session_id == old(self).session_id,
    {
        apply(&mut self.settings, Setting::AllowCidr(cidr));
    }

    /// Denies connections from this CIDR range; may be called again to
    /// deny more ranges.
    pub fn deny_cidr(&mut self, cidr: String)
        ensures
            final(self).applied() == old(self).applied().push(SettingView::DenyCidr(cidr@)),
            final(self).session_id == old(self).session_id,
    {
        apply(&mut self.settings, Setting::DenyCidr(cidr));
    }

    /// The version of the PROXY protocol to use: `1`, `2`, or the empty text
    /// for none. Any other text is refused and leaves the builder as it was.
    pub fn proxy_proto(&mut self, proxy_proto: String) -> (done: Result<(), AgentError>)
        ensures
            final(self).session_id == old(self).session_id,
            match done {
                Ok(_) => proxy_proto_setting(proxy_proto@) is Ok
                    && final(self).applied() == old(self).applied().push(
                    proxy_proto_setting(proxy_proto@)->Ok_0,
                ),
                Err(e) => e.kind == ErrorKind::Configuration
                    && proxy_proto_setting(proxy_proto@) == Err::<SettingView, Seq<char>>(e.text())
                    && final(self).applied() == old(self).applied(),
            },
    {
        match parse_proxy_proto(proxy_proto.as_str()) {
            Ok(setting) => {
                apply(&mut self.settings, setting);
                Ok(())
            },
            Err(e) => Err(e),
        }
    }

    /// What the listener forwards to, as shown in the dashboard. It has no
    /// bearing on what the listener does.
    pub fn forwards_to(&mut self, forwards_to: String)
        ensures
            final(self).applied() == old(self).applied().push(SettingView::ForwardsTo(forwards_to@)),
            final(self).session_id == old(self).session_id,
    {
        apply(&mut self.settings, Setting::ForwardsTo(forwards_to));
    }

    /// Finishes opening the listener. The caller has asked the relay to
    /// open it with these settings; `opened` is the relay's answer. On
    /// success the listener is registered and a handle on it is returned;
    /// on failure nothing is registered and the relay's failure is
    /// reported.
    pub fn listen(
        &self,
        registry: &mut Registry,
        opened: Result<EndpointInfo, RelayFault>,
    ) -> (result: Result<Listener, AgentError>)
        ensures
            opened_as(
                old(registry)@,
                final(registry)@,
                Role::Listener,
                self.session_id@,
                endpoint_answer(opened),
                result,
            ),
    {
        opened_endpoint(registry, Role::Listener, &self.session_id, opened)
    }

    /// Finishes opening the listener with forwarding to `to_url`, read as
    /// any destination is. One that does not parse as a URL is a
    /// configuration error, and nothing is registered. Otherwise `opened`
    /// is the relay's answer, and the listener is registered as one that a
    /// task forwards from.
    pub fn listen_and_forward(
        &self,
        registry: &mut Registry,
        to_url: &str,
        opened: Result<EndpointInfo, RelayFault>,
    ) -> (result: Result<Listener, AgentError>)
        ensures
            match forward_destination_of(to_url@) {
                Ok(_) => opened_as(
                    old(registry)@,
                    final(registry)@,
                    Role::Forwarder,
                    self.session_id@,
                    endpoint_answer(opened),
                    result,
                ),
                Err(message) => result is Err && result->Err_0@ == (
                    ErrorKind::Configuration,
                    message,
                ) && final(registry)@ == old(registry)@,
            },
    {
        match forward_destination(to_url) {
            Ok(_) => opened_endpoint(registry, Role::Forwarder, &self.session_id, opened),
            Err(e) => Err(e),
        }
    }

    /// Serving is left to the host: this always answers with an error that
    /// says so.
    pub fn listen_and_serve(&self, server: String) -> (result: Result<Listener, AgentError>)
        ensures
            result is Err,
            result->Err_0@ == (ErrorKind::Configuration, served_elsewhere(server@)),
    {
        Err(serve_refusal(server.as_str()))
    }
}

/// The settings of a listener that backs a TCP endpoint, in the order in which they were made.
#[derive(Clone, Debug, PartialEq, Eq)]
pub struct TcpListenerBuilder {
    /// The session that the listener will be opened on.
    pub session_id: String,
    /// The settings made so far.
    pub settings: Vec<Setting>,
}

impl TcpListenerBuilder {
    /// The settings made so far, as plain values.
    pub open spec fn applied(&self) -> Seq<SettingView> {
        views(self.settings@)
    }

    /// A builder on the given session, with no setting made.
    pub fn new(session_id: String) -> (builder: Self)
        ensures
            builder.session_id@ == session_id@,
            builder.applied() == Seq::<SettingView>::empty(),
    {
        let builder = TcpListenerBuilder { session_id, settings: Vec::new() };
        assert(builder.applied() =~= Seq::<SettingView>::empty());
        builder
    }

    /// Listener-specific opaque metadata.
    pub fn metadata(&mut self, metadata: String)
        ensures
            final(self).applied() == old(self).applied().push(SettingView::Metadata(metadata@)),
            final(self).session_id == old(self).session_id,
    {
        apply(&mut self.settings, Setting::Metadata(metadata));
    }

    /// Allows connections from this CIDR range only; may be called again
    /// to allow more ranges.
    pub fn allow_cidr(&mut self, cidr: String)
        ensures
            final(self).applied() == old(self).applied().push(SettingView::AllowCidr(cidr@)),
            final(self).session_id == old(self).session_id,
    {
        apply(&mut self.settings, Setting::AllowCidr(cidr));
    }

    /// Denies connections from this CIDR range; may be called again to
    /// deny more ranges.
    pub fn deny_cidr(&mut self, cidr: String)
        ensures
            final(self).applied() == old(self).applied().push(SettingView::DenyCidr(cidr@)),
            final(self).session_id == old(self).session_id,
    {
        apply(&mut self.settings, Setting::DenyCidr(cidr));
    }

    /// The version of the PROXY protocol to use: `1`, `2`, or the empty text
    /// for none. Any other text is refused and leaves the builder as it was.
    pub fn proxy_proto(&mut self, proxy_proto: String) -> (done: Result<(), AgentError>)
        ensures
            final(self).session_id == old(self).session_id,
            match done {
                Ok(_) => proxy_proto_setting(proxy_proto@) is Ok
                    && final(self).applied() == old(self).applied().push(
                    proxy_proto_setting(proxy_proto@)->Ok_0,
                ),
                Err(e) => e.kind == ErrorKind::Configuration
                    && proxy_proto_setting(proxy_proto@) == Err::<SettingView, Seq<char>>(e.text())
                    && final(self).applied() == old(self).applied(),
            },
    {
        match parse_proxy_proto(proxy_proto.as_str()) {
            Ok(setting) => {
                apply(&mut self.settings, setting);
                Ok(())
            },
            Err(e) => Err(e),
        }
    }

    /// What the listener forwards to, as shown in the dashboard. It has no
    /// bearing on what the listener does.
    pub fn forwards_to(&mut self, forwards_to: String)
        ensures
            final(self).applied() == old(self).applied().push(SettingView::ForwardsTo(forwards_to@)),
            final(self).session_id == old(self).session_id,
    {
        apply(&mut self.settings, Setting::ForwardsTo(forwards_to));
    }

    /// Finishes opening the listener. The caller has asked the relay to
    /// open it with these settings; `opened` is the relay's answer. On
    /// success the listener is registered and a handle on it is returned;
    /// on failure nothing is registered and the relay's failure is
    /// reported.
    pub fn listen(
        &self,
        registry: &mut Registry,
        opened: Result<EndpointInfo, RelayFault>,
    ) -> (result: Result<Listener, AgentError>)
        ensures
            opened_as(
                old(registry)@,
                final(registry)@,
                Role::Listener,
                self.session_id@,
                endpoint_answer(opened),
                result,
            ),
    {
        opened_endpoint(registry, Role::Listener, &self.session_id, opened)
    }

    /// Finishes opening the listener with forwarding to `to_url`, read as
    /// any destination is. One that does not parse as a URL is a
    /// configuration error, and nothing is registered. Otherwise `opened`
    /// is the relay's answer, and the listener is registered as one that a
    /// task forwards from.
    pub fn listen_and_forward(
        &self,
        registry: &mut Registry,
        to_url: &str,
        opened: Result<EndpointInfo, RelayFault>,
    ) -> (result: Result<Listener, AgentError>)
        ensures
            match forward_destination_of(to_url@) {
                Ok(_) => opened_as(
                    old(registry)@,
                    final(registry)@,
                    Role::Forwarder,
                    self.session_id@,
                    endpoint_answer(opened),
                    result,
                ),
                Err(message) => result is Err && result->Err_0@ == (
                    ErrorKind::Configuration,
                    message,
                ) && final(registry)@ == old(registry)@,
            },
    {
        match forward_destination(to_url) {
            Ok(_) => opened_endpoint(registry, Role::Forwarder, &self.session_id, opened),
            Err(e) => Err(e),
        }
    }

    /// Serving is left to the host: this always answers with an error that
    /// says so.
    pub fn listen_and_serve(&self, server: String) -> (result: Result<Listener, AgentError>)
        ensures
            result is Err,
            result->Err_0@ == (ErrorKind::Configuration, served_elsewhere(server@)),
    {
        Err(serve_refusal(server.as_str()))
    }
}

/// The settings of a listener that backs a TLS endpoint, in the order in which they were made.
#[derive(Clone, Debug, PartialEq, Eq)]
pub struct TlsListenerBuilder {
    /// The session that the listener will be opened on.
    pub session_id: String,
    /// The settings made so far.
    pub settings: Vec<Setting>,
}

impl TlsListenerBuilder {
    /// The settings made so far, as plain values.
    pub open spec fn applied(&self) -> Seq<SettingView> {
        views(self.settings@)
    }

    /// A builder on the given session, with no setting made.
    pub fn new(session_id: String) -> (builder: Self)
        ensures
            builder.session_id@ == session_id@,
            builder.applied() == Seq::<SettingView>::empty(),
    {
        let builder = TlsListenerBuilder { session_id, settings: Vec::new() };
        assert(builder.applied() =~= Seq::<SettingView>::empty());
        builder
    }

    /// Listener-specific opaque metadata.
    pub fn metadata(&mut self, metadata: String)
        ensures
            final(self).applied() == old(self).applied().push(SettingView::Metadata(metadata@)),
            final(self).session_id == old(self).session_id,
    {
        apply(&mut self.settings, Setting::Metadata(metadata));
    }

    /// Allows connections from this CIDR range only; may be called again
    /// to allow more ranges.
    pub fn allow_cidr(&mut self, cidr: String)
        ensures
            final(self).applied() == old(self).applied().push(SettingView::AllowCidr(cidr@)),
            final(self).session_id == old(self).session_id,
    {
        apply(&mut self.settings, Setting::AllowCidr(cidr));
    }

    /// Denies connections from this CIDR range; may be called again to
    /// deny more ranges.
    pub fn deny_cidr(&mut self, cidr: String)
        ensures
            final(self).applied() == old(self).applied().push(SettingView::DenyCidr(cidr@)),
            final(self).session_id == old(self).session_id,
    {
        apply(&mut self.settings, Setting::DenyCidr(cidr));
    }

    /// The version of the PROXY protocol to use: `1`, `2`, or the empty text
    /// for none. Any other text is refused and leaves the builder as it was.
    pub fn proxy_proto(&mut self, proxy_proto: String) -> (done: Result<(), AgentError>)
        ensures
            final(self).session_id == old(self).session_id,
            match done {
                Ok(_) => proxy_proto_setting(proxy_proto@) is Ok
                    && final(self).applied() == old(self).applied().push(
                    proxy_proto_setting(proxy_proto@)->Ok_0,
                ),
                Err(e) => e.kind == ErrorKind::Configuration
                    && proxy_proto_setting(proxy_proto@) == Err::<SettingView, Seq<char>>(e.text())
                    && final(self).applied() == old(self).applied(),
            },
    {
        match parse_proxy_proto(proxy_proto.as_str()) {
            Ok(setting) => {
                apply(&mut self.settings, setting);
                Ok(())
            },
            Err(e) => Err(e),
        }
    }

    /// What the listener forwards to, as shown in the dashboard. It has no
    /// bearing on what the listener does.
    pub fn forwards_to(&mut self, forwards_to: String)
        ensures
            final(self).applied() == old(self).applied().push(SettingView::ForwardsTo(forwards_to@)),
            final(self).session_id == old(self).session_id,
    {
        apply(&mut self.settings, Setting::ForwardsTo(forwards_to));
    }

    /// Finishes opening the listener. The caller has asked the relay to
    /// open it with these settings; `opened` is the relay's answer. On
    /// success the listener is registered and a handle on it is returned;
    /// on failure nothing is registered and the relay's failure is
    /// reported.
    pub fn listen(
        &self,
        registry: &mut Registry,
        opened: Result<EndpointInfo, RelayFault>,
    ) -> (result: Result<Listener, AgentError>)
        ensures
            opened_as(
                old(registry)@,
                final(registry)@,
                Role::Listener,
                self.session_id@,
                endpoint_answer(opened),
                result,
            ),
    {
        opened_endpoint(registry, Role::Listener, &self.session_id, opened)
    }

    /// Finishes opening the listener with forwarding to `to_url`, read as
    /// any destination is. One that does not parse as a URL is a
    /// configuration error, and nothing is registered. Otherwise `opened`
    /// is the relay's answer, and the listener is registered as one that a
    /// task forwards from.
    pub fn listen_and_forward(
        &self,
        registry: &mut Registry,
        to_url: &str,
        opened: Result<EndpointInfo, RelayFault>,
    ) -> (result: Result<Listener, AgentError>)
        ensures
            match forward_destination_of(to_url@) {
                Ok(_) => opened_as(
                    old(registry)@,
                    final(registry)@,
                    Role::Forwarder,
                    self.session_id@,
                    endpoint_answer(opened),
                    result,
                ),
                Err(message) => result is Err && result->Err_0@ == (
                    ErrorKind::Configuration,
                    message,
                ) && final(registry)@ == old(registry)@,
            },
    {
        match forward_destination(to_url) {
            Ok(_) => opened_endpoint(registry, Role::Forwarder, &self.session_id, opened),
            Err(e) => Err(e),
        }
    }

    /// Serving is left to the host: this always answers with an error that
    /// says so.
    pub fn listen_and_serve(&self, server: String) -> (result: Result<Listener, AgentError>)
        ensures
            result is Err,
            result->Err_0@ == (ErrorKind::Configuration, served_elsewhere(server@)),
    {
        Err(serve_refusal(server.as_str()))
    }
}

/// The settings of a labeled listener, in the order in which they were made.
#[derive(Clone, Debug, PartialEq, Eq)]
pub struct LabeledListenerBuilder {
    /// The session that the listener will be opened on.
    pub session_id: String,
    /// The settings made so far.
    pub settings: Vec<Setting>,
}

impl LabeledListenerBuilder {
    /// The settings made so far, as plain values.
    pub open spec fn applied(&self) -> Seq<SettingView> {
        views(self.settings@)
    }

    /// A builder on the given session, with no setting made.
    pub fn new(session_id: String) -> (builder: Self)
        ensures
            builder.session_id@ == session_id@,
            builder.applied() == Seq::<SettingView>::empty(),
    {
        let builder = LabeledListenerBuilder { session_id, settings: Vec::new() };
        assert(builder.applied() =~= Seq::<SettingView>::empty());
        builder
    }

    /// Listener-specific opaque metadata.
    pub fn metadata(&mut self, metadata: String)
        ensures
            final(self).applied() == old(self).applied().push(SettingView::Metadata(metadata@)),
            final(self).session_id == old(self).session_id,
    {
        apply(&mut self.settings, Setting::Metadata(metadata));
    }

    /// Adds a label and its value.
    pub fn label(&mut self, label: String, value: String)
        ensures
            final(self).applied() == old(self).applied().push(SettingView::Label(label@, value@)),
            final(self).session_id == old(self).session_id,
    {
        apply(&mut self.settings, Setting::Label(label, value));
    }

    /// Finishes opening the listener. The caller has asked the relay to
    /// open it with these settings; `opened` is the relay's answer. On
    /// success the listener is registered and a handle on it is returned;
    /// on failure nothing is registered and the relay's failure is
    /// reported.
    pub fn listen(
        &self,
        registry: &mut Registry,
        opened: Result<LabeledInfo, RelayFault>,
    ) -> (result: Result<Listener, AgentError>)
        ensures
            opened_as(
                old(registry)@,
                final(registry)@,
                Role::Listener,
                self.session_id@,
                labeled_answer(opened),
                result,
            ),
    {
        opened_labeled(registry, Role::Listener, &self.session_id, opened)
    }

    /// Finishes opening the listener with forwarding to `to_url`, read as
    /// any destination is. One that does not parse as a URL is a
    /// configuration error, and nothing is registered. Otherwise `opened`
    /// is the relay's answer, and the listener is registered as one that a
    /// task forwards from.
    pub fn listen_and_forward(
        &self,
        registry: &mut Registry,
        to_url: &str,
        opened: Result<LabeledInfo, RelayFault>,
    ) -> (result: Result<Listener, AgentError>)
        ensures
            match forward_destination_of(to_url@) {
                Ok(_) => opened_as(
                    old(registry)@,
                    final(registry)@,
                    Role::Forwarder,
                    self.session_id@,
                    labeled_answer(opened),
                    result,
                ),
                Err(message) => result is Err && result->Err_0@ == (
                    ErrorKind::Configuration,
                    message,
                ) && final(registry)@ == old(registry)@,
            },
    {
        match forward_destination(to_url) {
            Ok(_) => opened_labeled(registry, Role::Forwarder, &self.session_id, opened),
            Err(e) => Err(e),
        }
    }

    /// Serving is left to the host: this always answers with an error that
    /// says so.
    pub fn listen_and_serve(&self, server: String) -> (result: Result<Listener, AgentError>)
        ensures
            result is Err,
            result->Err_0@ == (ErrorKind::Configuration, served_elsewhere(server@)),
    {
        Err(serve_refusal(server.as_str()))
    }
}

} // verus!
