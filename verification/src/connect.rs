//! Opening a listener from one `Config`: defaults, warnings, and the
//! settings that each kind of listener is opened with.

use vstd::prelude::*;
use vstd::string::StrSliceExecFns;
use vstd::utf8::encode_utf8;
use crate::config::Config;
use crate::error::failure;
use crate::error::AgentError;
use crate::error::ErrorKind;
use crate::http::list_or_empty;
use crate::http::oauth_view;
use crate::http::oidc_view;
use crate::http::parse_scheme;
use crate::http::scheme_setting;
use crate::listener_builder::apply;
use crate::listener_builder::parse_proxy_proto;
use crate::listener_builder::proxy_proto_setting;
use crate::listener_builder::views;
use crate::listener_builder::HttpListenerBuilder;
use crate::listener_builder::LabeledListenerBuilder;
use crate::listener_builder::OauthOptions;
use crate::listener_builder::OidcOptions;
use crate::listener_builder::Setting;
use crate::listener_builder::SettingView;
use crate::listener_builder::TcpListenerBuilder;
use crate::listener_builder::TlsListenerBuilder;
use crate::listener::get_listener;
use crate::listener::handle_of;
use crate::listener::close_url;
use crate::listener::relay_result;
use crate::listener::said;
use crate::listener::Listener;
use crate::registry::lookup;
use crate::registry::rejected;
use crate::registry::Registry;
use crate::session::Handlers;
use crate::session::RelayFault;
use crate::session::Session;
use crate::session::SessionBuilder;
use crate::session::SessionSettingView;
use crate::session::CLIENT_TYPE;
use crate::session::VERSION;
use crate::text::same_text;
use crate::text::clone_opt;
use crate::text::clone_opt_list;
use crate::text::halves;
use crate::text::split_once;
use crate::text::all_digits;
use crate::text::is_digit;
use crate::text::is_i32_text;
use crate::text::parses_as_i32;
use crate::text::decimal;
use crate::text::decimal_text;
use crate::text::joined;
use crate::text::owned;

verus! {

/// The kind of listener that is opened when none is named.
pub open spec fn defaulted_proto(proto: Option<Seq<char>>) -> Seq<char> {
    match proto {
        Some(p) => p,
        None => "http"@,
    }
}

/// The address to forward to when none is given: built from the port and
/// the host where there is a port, else the host alone, else port 80.
pub open spec fn default_addr(host: Option<Seq<char>>, port: Option<u32>) -> Seq<char> {
    match port {
        Some(p) => match host {
            Some(h) => "tcp://"@ + h + ":"@ + decimal_text(p as nat),
            None => "tcp://localhost:"@ + decimal_text(p as nat),
        },
        None => match host {
            Some(h) => h,
            None => "80"@,
        },
    }
}

/// An address that is a bare number names a port of this machine.
pub open spec fn port_as_addr(addr: Seq<char>) -> Seq<char> {
    if is_i32_text(addr) {
        "tcp://localhost:"@ + addr
    } else {
        addr
    }
}

/// The address that a configuration forwards to after defaults are set.
pub open spec fn defaulted_addr(
    addr: Option<Seq<char>>,
    host: Option<Seq<char>>,
    port: Option<u32>,
) -> Seq<char> {
    port_as_addr(
        match addr {
            Some(a) => a,
            None => default_addr(host, port),
        },
    )
}

/// One more warning after `acc` when `applies`.
pub open spec fn noted(acc: Seq<Seq<char>>, applies: bool, warning: Seq<char>) -> Seq<Seq<char>> {
    if applies {
        acc.push(warning)
    } else {
        acc
    }
}

/// The warnings that a configuration earns, in the order in which they are
/// given: one for each setting that has no effect, and one where several
/// schemes are set.
pub open spec fn unused_warnings(config: Config) -> Seq<Seq<char>> {
    let w = Seq::<Seq<char>>::empty();
    let w = noted(w, config.bin_path is Some, "bin_path is unused"@);
    let w = noted(w, config.config_path is Some, "config_path is unused"@);
    let w = noted(w, config.host_header is Some, "host_header is unused"@);
    let w = noted(w, config.inspect is Some, "inspect is unused"@);
    let w = noted(w, config.name is Some, "name is unused"@);
    let w = noted(w, config.region is Some, "region is unused"@);
    let w = noted(
        w,
        config.schemes is Some && config.schemes->Some_0@.len() > 1,
        "Multiple schemes set, only last one will be used"@,
    );
    let w = noted(w, config.subdomain is Some, "subdomain is unused"@);
    let w = noted(w, config.terminate_at is Some, "terminate_at is unused"@);
    let w = noted(w, config.web_addr is Some, "web_addr is unused"@);
    w
}

/// Which setting a text of the configuration stands for.
#[derive(Clone, Copy, Debug, PartialEq, Eq, Structural)]
pub enum ItemKind {
    Metadata,
    AllowCidr,
    DenyCidr,
    ProxyProto,
    ForwardsTo,
    Scheme,
    Domain,
    MutualTlsCa,
    RequestHeader,
    ResponseHeader,
    RemoveRequestHeader,
    RemoveResponseHeader,
    BasicAuth,
    AllowUserAgent,
    DenyUserAgent,
    RemoteAddr,
    Label,
}

/// The settings of one part of a configuration, or the message that
/// refuses it.
pub type Settings = Result<Seq<SettingView>, Seq<char>>;

/// The message for a text that should hold a colon and does not.
pub open spec fn split_failed(item: Seq<char>) -> Seq<char> {
    "split of value failed: "@ + item
}

/// The two sides of a text of the form `left:right`, cut at the first colon.
pub open spec fn pair_of(item: Seq<char>) -> Result<(Seq<char>, Seq<char>), Seq<char>> {
    match halves(item, ':') {
        Some(sides) => Ok(sides),
        None => Err(split_failed(item)),
    }
}

/// The setting that one text of the configuration stands for.
pub open spec fn item_setting(kind: ItemKind, item: Seq<char>) -> Result<SettingView, Seq<char>> {
    match kind {
        ItemKind::Metadata => Ok(SettingView::Metadata(item)),
        ItemKind::AllowCidr => Ok(SettingView::AllowCidr(item)),
        ItemKind::DenyCidr => Ok(SettingView::DenyCidr(item)),
        ItemKind::ProxyProto => proxy_proto_setting(item),
        ItemKind::ForwardsTo => Ok(SettingView::ForwardsTo(item)),
        ItemKind::Scheme => scheme_setting(item),
        ItemKind::Domain => Ok(SettingView::Domain(item)),
        ItemKind::MutualTlsCa => Ok(SettingView::MutualTlsCa(encode_utf8(item))),
        ItemKind::RequestHeader => match pair_of(item) {
            Ok(sides) => Ok(SettingView::RequestHeader(sides.0, sides.1)),
            Err(e) => Err(e),
        },
        ItemKind::ResponseHeader => match pair_of(item) {
            Ok(sides) => Ok(SettingView::ResponseHeader(sides.0, sides.1)),
            Err(e) => Err(e),
        },
        ItemKind::RemoveRequestHeader => Ok(SettingView::RemoveRequestHeader(item)),
        ItemKind::RemoveResponseHeader => Ok(SettingView::RemoveResponseHeader(item)),
        ItemKind::BasicAuth => match pair_of(item) {
            Ok(sides) => Ok(SettingView::BasicAuth(sides.0, sides.1)),
            Err(e) => Err(e),
        },
        ItemKind::AllowUserAgent => Ok(SettingView::AllowUserAgent(item)),
        ItemKind::DenyUserAgent => Ok(SettingView::DenyUserAgent(item)),
        ItemKind::RemoteAddr => Ok(SettingView::RemoteAddr(item)),
        ItemKind::Label => match pair_of(item) {
            Ok(sides) => Ok(SettingView::Label(sides.0, sides.1)),
            Err(e) => Err(e),
        },
    }
}

/// The settings so far followed by those of the next part. The first
/// refusal stands, and nothing after it is looked at.
pub open spec fn then(acc: Settings, section: Settings) -> Settings {
    match acc {
        Err(e) => Err(e),
        Ok(done) => match section {
            Err(e) => Err(e),
            Ok(more) => Ok(done + more),
        },
    }
}

/// The setting of a single text, where it is present.
pub open spec fn one(kind: ItemKind, field: Option<Seq<char>>) -> Settings {
    match field {
        None => Ok(Seq::empty()),
        Some(item) => match item_setting(kind, item) {
            Ok(setting) => Ok(seq![setting]),
            Err(e) => Err(e),
        },
    }
}

/// The settings of a list of texts, in order; the first text that is
/// refused refuses the list.
pub open spec fn each(kind: ItemKind, items: Seq<Seq<char>>) -> Settings
    decreases items.len(),
{
    if items.len() == 0 {
        Ok(Seq::empty())
    } else {
        match each(kind, items.drop_last()) {
            Err(e) => Err(e),
            Ok(done) => match item_setting(kind, items.last()) {
                Ok(setting) => Ok(done.push(setting)),
                Err(e) => Err(e),
            },
        }
    }
}

/// The settings of a list of texts, where it is present.
pub open spec fn all(kind: ItemKind, field: Option<Seq<Seq<char>>>) -> Settings {
    match field {
        None => Ok(Seq::empty()),
        Some(items) => each(kind, items),
    }
}

/// A setting that is made where a switch is present and on.
pub open spec fn flagged(field: Option<bool>, setting: SettingView) -> Settings {
    if field == Some(true) {
        Ok(seq![setting])
    } else {
        Ok(Seq::empty())
    }
}

/// What one step of reading a configuration did to the list of settings:
/// on success the part's settings were appended, and a refusal carries the
/// part's message.
pub open spec fn extended(
    before: Seq<SettingView>,
    after: Seq<SettingView>,
    section: Settings,
    done: Result<(), AgentError>,
) -> bool {
    match done {
        Ok(_) => section is Ok && after == before + section->Ok_0,
        Err(e) => e.kind == ErrorKind::Configuration
            && section == Err::<Seq<SettingView>, Seq<char>>(e.text()),
    }
}

/// The settings that all kinds of endpoint but the labeled one share.
pub open spec fn common_settings(config: Config) -> Settings {
    let s = Ok(Seq::empty());
    let s = then(s, one(ItemKind::Metadata, config.metadata.deep_view()));
    let s = then(s, all(ItemKind::AllowCidr, config.allow_cidr.deep_view()));
    let s = then(s, all(ItemKind::DenyCidr, config.deny_cidr.deep_view()));
    let s = then(s, one(ItemKind::ProxyProto, config.proxy_proto.deep_view()));
    let s = then(s, one(ItemKind::ForwardsTo, config.forwards_to.deep_view()));
    s
}

/// OAuth, where a provider is named.
pub open spec fn oauth_settings(config: Config) -> Settings {
    match config.oauth_provider {
        None => Ok(Seq::empty()),
        Some(provider) => Ok(
            seq![
                SettingView::Oauth(
                    oauth_view(
                        provider@,
                        config.oauth_allow_emails.deep_view(),
                        config.oauth_allow_domains.deep_view(),
                        config.oauth_scopes.deep_view(),
                        config.oauth_client_id.deep_view(),
                        config.oauth_client_secret.deep_view(),
                    ),
                ),
            ],
        ),
    }
}

/// OpenID Connect, where an issuer is named; it needs a client id and a
/// client secret.
pub open spec fn oidc_settings(config: Config) -> Settings {
    match config.oidc_issuer_url {
        None => Ok(Seq::empty()),
        Some(issuer_url) => match config.oidc_client_id {
            None => Err("Missing client id for oidc"@),
            Some(client_id) => match config.oidc_client_secret {
                None => Err("Missing client secret for oidc"@),
                Some(client_secret) => Ok(
                    seq![
                        SettingView::Oidc(
                            oidc_view(
                                issuer_url@,
                                client_id@,
                                client_secret@,
                                config.oidc_allow_emails.deep_view(),
                                config.oidc_allow_domains.deep_view(),
                                config.oidc_scopes.deep_view(),
                            ),
                        ),
                    ],
                ),
            },
        },
    }
}

/// Webhook verification, where a provider is named; it needs a secret.
pub open spec fn webhook_settings(config: Config) -> Settings {
    match config.verify_webhook_provider {
        None => Ok(Seq::empty()),
        Some(provider) => match config.verify_webhook_secret {
            None => Err("Missing secret for webhook verification"@),
            Some(secret) => Ok(seq![SettingView::WebhookVerification(provider@, secret@)]),
        },
    }
}

/// TLS termination takes a certificate and a key together: with both it
/// is set, with neither it is left alone, and one without the other is
/// refused.
pub open spec fn termination_settings(config: Config) -> Settings {
    match config.crt {
        Some(crt) => match config.key {
            Some(key) => Ok(seq![SettingView::Termination(encode_utf8(crt@), encode_utf8(key@))]),
            None => Err("Missing key for tls termination"@),
        },
        None => match config.key {
            Some(_) => Err("Missing certificate for tls termination"@),
            None => Ok(Seq::empty()),
        },
    }
}

/// The settings that an HTTP endpoint is opened with. They are read in this
/// order, and the first part that is refused refuses the configuration.
pub open spec fn http_settings(config: Config) -> Settings {
    let s = common_settings(config);
    let s = then(s, all(ItemKind::Scheme, config.schemes.deep_view()));
    let s = then(s, one(ItemKind::Domain, config.hostname.deep_view()));
    let s = then(s, one(ItemKind::Domain, config.domain.deep_view()));
    let s = then(s, all(ItemKind::MutualTlsCa, config.mutual_tls_cas.deep_view()));
    let s = then(s, flagged(config.compression, SettingView::Compression));
    let s = then(s, flagged(config.websocket_tcp_converter, SettingView::WebsocketTcpConversion));
    let s = then(s, all(ItemKind::RequestHeader, config.request_header_add.deep_view()));
    let s = then(s, all(ItemKind::ResponseHeader, config.response_header_add.deep_view()));
    let s = then(s, all(ItemKind::RemoveRequestHeader, config.request_header_remove.deep_view()));
    let s = then(
        s,
        all(ItemKind::RemoveResponseHeader, config.response_header_remove.deep_view()),
    );
    let s = then(s, all(ItemKind::BasicAuth, config.basic_auth.deep_view()));
    let s = then(s, all(ItemKind::AllowUserAgent, config.allow_user_agent.deep_view()));
    let s = then(s, all(ItemKind::DenyUserAgent, config.deny_user_agent.deep_view()));
    let s = then(s, oauth_settings(config));
    let s = then(s, oidc_settings(config));
    let s = then(s, webhook_settings(config));
    s
}

/// The settings that a TCP endpoint is opened with.
pub open spec fn tcp_settings(config: Config) -> Settings {
    let s = common_settings(config);
    let s = then(s, one(ItemKind::RemoteAddr, config.remote_addr.deep_view()));
    s
}

/// The settings that a TLS endpoint is opened with.
pub open spec fn tls_settings(config: Config) -> Settings {
    let s = common_settings(config);
    let s = then(s, one(ItemKind::Domain, config.hostname.deep_view()));
    let s = then(s, one(ItemKind::Domain, config.domain.deep_view()));
    let s = then(s, all(ItemKind::MutualTlsCa, config.mutual_tls_cas.deep_view()));
    let s = then(s, termination_settings(config));
    s
}

/// The settings that a labeled listener is opened with.
pub open spec fn labeled_settings(config: Config) -> Settings {
    let s = Ok(Seq::empty());
    let s = then(s, one(ItemKind::Metadata, config.metadata.deep_view()));
    let s = then(s, all(ItemKind::Label, config.labels.deep_view()));
    s
}

/// Cuts a text of the form `left:right` at its first colon. A text without
/// a colon is a configuration error.
pub fn split_pair(item: &str) -> (sides: Result<(String, String), AgentError>)
    ensures
        match sides {
            Ok((left, right)) => pair_of(item@) == Ok::<(Seq<char>, Seq<char>), Seq<char>>(
                (left@, right@),
            ),
            Err(e) => e.kind == ErrorKind::Configuration
                && pair_of(item@) == Err::<(Seq<char>, Seq<char>), Seq<char>>(e.text()),
        },
{
    match split_once(item, ':') {
        Some(sides) => Ok(sides),
        None => {
            let message = joined("split of value failed: ", item);
            Err(failure(ErrorKind::Configuration, message.as_str()))
        },
    }
}

/// The setting that one text of the configuration stands for. A text that
/// cannot be read is a configuration error.
pub fn setting_from_item(kind: ItemKind, item: &str) -> (made: Result<Setting, AgentError>)
    ensures
        match made {
            Ok(setting) => item_setting(kind, item@) == Ok::<SettingView, Seq<char>>(setting@),
            Err(e) => e.kind == ErrorKind::Configuration
                && item_setting(kind, item@) == Err::<SettingView, Seq<char>>(e.text()),
        },
{
    match kind {
        ItemKind::Metadata => Ok(Setting::Metadata(owned(item))),
        ItemKind::AllowCidr => Ok(Setting::AllowCidr(owned(item))),
        ItemKind::DenyCidr => Ok(Setting::DenyCidr(owned(item))),
        ItemKind::ProxyProto => parse_proxy_proto(item),
        ItemKind::ForwardsTo => Ok(Setting::ForwardsTo(owned(item))),
        ItemKind::Scheme => parse_scheme(item),
        ItemKind::Domain => Ok(Setting::Domain(owned(item))),
        ItemKind::MutualTlsCa => Ok(Setting::MutualTlsCa(item.as_bytes_vec())),
        ItemKind::RequestHeader => match split_pair(item) {
            Ok((name, value)) => Ok(Setting::RequestHeader(name, value)),
            Err(e) => Err(e),
        },
        ItemKind::ResponseHeader => match split_pair(item) {
            Ok((name, value)) => Ok(Setting::ResponseHeader(name, value)),
            Err(e) => Err(e),
        },
        ItemKind::RemoveRequestHeader => Ok(Setting::RemoveRequestHeader(owned(item))),
        ItemKind::RemoveResponseHeader => Ok(Setting::RemoveResponseHeader(owned(item))),
        ItemKind::BasicAuth => match split_pair(item) {
            Ok((user, password)) => Ok(Setting::BasicAuth(user, password)),
            Err(e) => Err(e),
        },
        ItemKind::AllowUserAgent => Ok(Setting::AllowUserAgent(owned(item))),
        ItemKind::DenyUserAgent => Ok(Setting::DenyUserAgent(owned(item))),
        ItemKind::RemoteAddr => Ok(Setting::RemoteAddr(owned(item))),
        ItemKind::Label => match split_pair(item) {
            Ok((label, value)) => Ok(Setting::Label(label, value)),
            Err(e) => Err(e),
        },
    }
}

/// Reads a single text of the configuration into the list of settings.
fn plumb(
    out: &mut Vec<Setting>,
    kind: ItemKind,
    field: &Option<String>,
) -> (done: Result<(), AgentError>)
    ensures
        extended(views(old(out)@), views(final(out)@), one(kind, field.deep_view()), done),
{
    match field {
        None => {
            assert(views(out@) =~= views(out@) + Seq::<SettingView>::empty());
            Ok(())
        },
        Some(item) => match setting_from_item(kind, item.as_str()) {
            Ok(setting) => {
                apply(out, setting);
                assert(views(out@) =~= views(old(out)@) + seq![setting@]);
                Ok(())
            },
            Err(e) => Err(e),
        },
    }
}

/// Reads a list of texts of the configuration into the list of settings.
fn plumb_vec(
    out: &mut Vec<Setting>,
    kind: ItemKind,
    field: &Option<Vec<String>>,
) -> (done: Result<(), AgentError>)
    ensures
        extended(views(old(out)@), views(final(out)@), all(kind, field.deep_view()), done),
{
    match field {
        None => {
            assert(views(out@) =~= views(out@) + Seq::<SettingView>::empty());
            Ok(())
        },
        Some(items) => {
            let ghost texts = items.deep_view();
            let mut i: usize = 0;
            assert(texts.take(0) =~= Seq::<Seq<char>>::empty());
            assert(views(out@) =~= views(out@) + Seq::<SettingView>::empty());
            while i < items.len()
                invariant
                    i <= items.len(),
                    texts == items.deep_view(),
                    all(kind, field.deep_view()) == each(kind, texts),
                    each(kind, texts.take(i as int)) is Ok,
                    views(out@) == views(old(out)@) + each(kind, texts.take(i as int))->Ok_0,
                decreases items.len() - i,
            {
                let ghost before = views(out@);
                let ghost prefix = texts.take(i as int);
                let ghost next = texts.take(i + 1);
                assert(next.drop_last() =~= prefix);
                assert(next.last() == items@[i as int]@);
                match setting_from_item(kind, items[i].as_str()) {
                    Ok(setting) => {
                        apply(out, setting);
                        assert(views(out@) =~= views(old(out)@) + each(kind, next)->Ok_0);
                    },
                    Err(e) => {
                        proof {
                            assert(next.len() > 0);
                            assert(each(kind, next.drop_last()) is Ok);
                            assert(each(kind, next) == Err::<Seq<SettingView>, Seq<char>>(
                                e.text(),
                            ));
                            each_refused(kind, texts, i as int + 1);
                        }
                        return Err(e);
                    },
                }
                i = i + 1;
            }
            assert(texts.take(i as int) =~= texts);
            Ok(())
        },
    }
}

/// A list whose beginning is refused is refused with the same message.
pub proof fn each_refused(kind: ItemKind, items: Seq<Seq<char>>, n: int)
    requires
        0 <= n <= items.len(),
        each(kind, items.take(n)) is Err,
    ensures
        each(kind, items) == each(kind, items.take(n)),
    decreases items.len() - n,
{
    if n == items.len() {
        assert(items.take(n) =~= items);
    } else {
        let longer = items.take(n + 1);
        assert(longer.drop_last() =~= items.take(n));
        each_refused(kind, items, n + 1);
    }
}

/// Makes a setting where a switch is present and on.
fn plumb_bool(out: &mut Vec<Setting>, field: Option<bool>, setting: Setting)
    ensures
        views(final(out)@) == views(old(out)@) + flagged(field, setting@)->Ok_0,
{
    match field {
        Some(true) => {
            apply(out, setting);
            assert(views(out@) =~= views(old(out)@) + seq![setting@]);
        },
        _ => {
            assert(views(out@) =~= views(out@) + Seq::<SettingView>::empty());
        },
    }
}

/// Reads the settings that all kinds of endpoint but the labeled one share.
fn plumb_common(out: &mut Vec<Setting>, config: &Config) -> (done: Result<(), AgentError>)
    requires
        old(out)@.len() == 0,
    ensures
        match done {
            Ok(_) => common_settings(*config) == Ok::<Seq<SettingView>, Seq<char>>(
                views(final(out)@),
            ),
            Err(e) => e.kind == ErrorKind::Configuration
                && common_settings(*config) == Err::<Seq<SettingView>, Seq<char>>(e.text()),
        },
{
    assert(views(out@) =~= Seq::<SettingView>::empty());
    assert(Seq::<SettingView>::empty() + views(out@) =~= views(out@));
    plumb(out, ItemKind::Metadata, &config.metadata)?;
    assert(Seq::<SettingView>::empty() + views(out@) =~= views(out@));
    plumb_vec(out, ItemKind::AllowCidr, &config.allow_cidr)?;
    plumb_vec(out, ItemKind::DenyCidr, &config.deny_cidr)?;
    plumb(out, ItemKind::ProxyProto, &config.proxy_proto)?;
    plumb(out, ItemKind::ForwardsTo, &config.forwards_to)?;
    Ok(())
}

/// Reads the OAuth part of a configuration.
fn plumb_oauth(out: &mut Vec<Setting>, config: &Config) -> (done: Result<(), AgentError>)
    ensures
        extended(views(old(out)@), views(final(out)@), oauth_settings(*config), done),
{
    match &config.oauth_provider {
        None => {
            assert(views(out@) =~= views(out@) + Seq::<SettingView>::empty());
        },
        Some(provider) => {
            let options = OauthOptions {
                provider: provider.clone(),
                allow_emails: list_or_empty(clone_opt_list(&config.oauth_allow_emails)),
                allow_domains: list_or_empty(clone_opt_list(&config.oauth_allow_domains)),
                scopes: list_or_empty(clone_opt_list(&config.oauth_scopes)),
                client_id: clone_opt(&config.oauth_client_id),
                client_secret: clone_opt(&config.oauth_client_secret),
            };
            let setting = Setting::Oauth(options);
            apply(out, setting);
            assert(views(out@) =~= views(old(out)@) + seq![setting@]);
        },
    }
    Ok(())
}

/// Reads the OpenID Connect part of a configuration.
fn plumb_oidc(out: &mut Vec<Setting>, config: &Config) -> (done: Result<(), AgentError>)
    ensures
        extended(views(old(out)@), views(final(out)@), oidc_settings(*config), done),
{
    match &config.oidc_issuer_url {
        None => {
            assert(views(out@) =~= views(out@) + Seq::<SettingView>::empty());
            Ok(())
        },
        Some(issuer_url) => match &config.oidc_client_id {
            None => Err(failure(ErrorKind::Configuration, "Missing client id for oidc")),
            Some(client_id) => match &config.oidc_client_secret {
                None => Err(failure(ErrorKind::Configuration, "Missing client secret for oidc")),
                Some(client_secret) => {
                    let options = OidcOptions {
                        issuer_url: issuer_url.clone(),
                        client_id: client_id.clone(),
                        client_secret: client_secret.clone(),
                        allow_emails: list_or_empty(clone_opt_list(&config.oidc_allow_emails)),
                        allow_domains: list_or_empty(clone_opt_list(&config.oidc_allow_domains)),
                        scopes: list_or_empty(clone_opt_list(&config.oidc_scopes)),
                    };
                    let setting = Setting::Oidc(options);
                    apply(out, setting);
                    assert(views(out@) =~= views(old(out)@) + seq![setting@]);
                    Ok(())
                },
            },
        },
    }
}

/// Reads the webhook verification part of a configuration.
fn plumb_webhook(out: &mut Vec<Setting>, config: &Config) -> (done: Result<(), AgentError>)
    ensures
        extended(views(old(out)@), views(final(out)@), webhook_settings(*config), done),
{
    match &config.verify_webhook_provider {
        None => {
            assert(views(out@) =~= views(out@) + Seq::<SettingView>::empty());
            Ok(())
        },
        Some(provider) => match &config.verify_webhook_secret {
            None => Err(
                failure(ErrorKind::Configuration, "Missing secret for webhook verification"),
            ),
            Some(secret) => {
                let setting = Setting::WebhookVerification(provider.clone(), secret.clone());
                apply(out, setting);
                assert(views(out@) =~= views(old(out)@) + seq![setting@]);
                Ok(())
            },
        },
    }
}

/// Reads the TLS termination part of a configuration.
fn plumb_termination(out: &mut Vec<Setting>, config: &Config) -> (done: Result<(), AgentError>)
    ensures
        extended(views(old(out)@), views(final(out)@), termination_settings(*config), done),
{
    match &config.crt {
        Some(crt) => match &config.key {
            Some(key) => {
                let setting = Setting::Termination(
                    crt.as_str().as_bytes_vec(),
                    key.as_str().as_bytes_vec(),
                );
                apply(out, setting);
                assert(views(out@) =~= views(old(out)@) + seq![setting@]);
                Ok(())
            },
            None => Err(failure(ErrorKind::Configuration, "Missing key for tls termination")),
        },
        None => match &config.key {
            Some(_) => Err(
                failure(ErrorKind::Configuration, "Missing certificate for tls termination"),
            ),
            None => {
                assert(views(out@) =~= views(out@) + Seq::<SettingView>::empty());
                Ok(())
            },
        },
    }
}

/// The settings of an HTTP endpoint that a configuration asks for, on the
/// given session. The configuration is read part by part in a fixed order;
/// the first part that cannot be read is reported as a configuration error
/// and nothing is opened.
pub fn http_endpoint(
    session: &Session,
    config: &Config,
) -> (built: Result<HttpListenerBuilder, AgentError>)
    ensures
        match built {
            Ok(builder) => builder.session_id@ == session.id@
                && http_settings(*config) == Ok::<Seq<SettingView>, Seq<char>>(builder.applied()),
            Err(e) => e.kind == ErrorKind::Configuration
                && http_settings(*config) == Err::<Seq<SettingView>, Seq<char>>(e.text()),
        },
{
    let mut bld = session.http_endpoint();
    assert(bld.settings@.len() == 0) by {
        assert(views(bld.settings@).len() == bld.settings@.len());
    }
    plumb_common(&mut bld.settings, config)?;
    plumb_vec(&mut bld.settings, ItemKind::Scheme, &config.schemes)?;
    plumb(&mut bld.settings, ItemKind::Domain, &config.hostname)?;
    plumb(&mut bld.settings, ItemKind::Domain, &config.domain)?;
    plumb_vec(&mut bld.settings, ItemKind::MutualTlsCa, &config.mutual_tls_cas)?;
    plumb_bool(&mut bld.settings, config.compression, Setting::Compression);
    plumb_bool(
        &mut bld.settings,
        config.websocket_tcp_converter,
        Setting::WebsocketTcpConversion,
    );
    plumb_vec(&mut bld.settings, ItemKind::RequestHeader, &config.request_header_add)?;
    plumb_vec(&mut bld.settings, ItemKind::ResponseHeader, &config.response_header_add)?;
    plumb_vec(&mut bld.settings, ItemKind::RemoveRequestHeader, &config.request_header_remove)?;
    plumb_vec(&mut bld.settings, ItemKind::RemoveResponseHeader, &config.response_header_remove)?;
    plumb_vec(&mut bld.settings, ItemKind::BasicAuth, &config.basic_auth)?;
    plumb_vec(&mut bld.settings, ItemKind::AllowUserAgent, &config.allow_user_agent)?;
    plumb_vec(&mut bld.settings, ItemKind::DenyUserAgent, &config.deny_user_agent)?;
    plumb_oauth(&mut bld.settings, config)?;
    plumb_oidc(&mut bld.settings, config)?;
    plumb_webhook(&mut bld.settings, config)?;
    Ok(bld)
}

/// The settings of a TCP endpoint that a configuration asks for.
pub fn tcp_endpoint(
    session: &Session,
    config: &Config,
) -> (built: Result<TcpListenerBuilder, AgentError>)
    ensures
        match built {
            Ok(builder) => builder.session_id@ == session.id@
                && tcp_settings(*config) == Ok::<Seq<SettingView>, Seq<char>>(builder.applied()),
            Err(e) => e.kind == ErrorKind::Configuration
                && tcp_settings(*config) == Err::<Seq<SettingView>, Seq<char>>(e.text()),
        },
{
    let mut bld = session.tcp_endpoint();
    assert(bld.settings@.len() == 0) by {
        assert(views(bld.settings@).len() == bld.settings@.len());
    }
    plumb_common(&mut bld.settings, config)?;
    plumb(&mut bld.settings, ItemKind::RemoteAddr, &config.remote_addr)?;
    Ok(bld)
}

/// The settings of a TLS endpoint that a configuration asks for. A
/// certificate without a key, or a key without a certificate, is a
/// configuration error.
pub fn tls_endpoint(
    session: &Session,
    config: &Config,
) -> (built: Result<TlsListenerBuilder, AgentError>)
    ensures
        match built {
            Ok(builder) => builder.session_id@ == session.id@
                && tls_settings(*config) == Ok::<Seq<SettingView>, Seq<char>>(builder.applied()),
            Err(e) => e.kind == ErrorKind::Configuration
                && tls_settings(*config) == Err::<Seq<SettingView>, Seq<char>>(e.text()),
        },
{
    let mut bld = session.tls_endpoint();
    assert(bld.settings@.len() == 0) by {
        assert(views(bld.settings@).len() == bld.settings@.len());
    }
    plumb_common(&mut bld.settings, config)?;
    plumb(&mut bld.settings, ItemKind::Domain, &config.hostname)?;
    plumb(&mut bld.settings, ItemKind::Domain, &config.domain)?;
    plumb_vec(&mut bld.settings, ItemKind::MutualTlsCa, &config.mutual_tls_cas)?;
    plumb_termination(&mut bld.settings, config)?;
    Ok(bld)
}

/// The settings of a labeled listener that a configuration asks for.
pub fn labeled_listener(
    session: &Session,
    config: &Config,
) -> (built: Result<LabeledListenerBuilder, AgentError>)
    ensures
        match built {
            Ok(builder) => builder.session_id@ == session.id@
                && labeled_settings(*config) == Ok::<Seq<SettingView>, Seq<char>>(
                builder.applied(),
            ),
            Err(e) => e.kind == ErrorKind::Configuration
                && labeled_settings(*config) == Err::<Seq<SettingView>, Seq<char>>(e.text()),
        },
{
    let mut bld = session.labeled_listener();
    assert(views(bld.settings@) =~= Seq::<SettingView>::empty());
    assert(Seq::<SettingView>::empty() + views(bld.settings@) =~= views(bld.settings@));
    plumb(&mut bld.settings, ItemKind::Metadata, &config.metadata)?;
    assert(Seq::<SettingView>::empty() + views(bld.settings@) =~= views(bld.settings@));
    plumb_vec(&mut bld.settings, ItemKind::Label, &config.labels)?;
    Ok(bld)
}

/// Adds a warning to the list when it applies.
fn note(out: &mut Vec<String>, applies: bool, warning: &str)
    ensures
        final(out).deep_view() == noted(old(out).deep_view(), applies, warning@),
{
    if applies {
        out.push(owned(warning));
        assert(out.deep_view() =~= old(out).deep_view().push(warning@));
    }
}

/// Fills in what a configuration leaves out: the kind of listener, and the
/// address to forward to. An address that is a bare number is taken as a
/// port of this machine. Nothing else changes.
pub fn set_defaults(config: &mut Config)
    ensures
        final(config).proto.deep_view() == Some(defaulted_proto(old(config).proto.deep_view())),
        final(config).addr.deep_view() == Some(
            defaulted_addr(
                old(config).addr.deep_view(),
                old(config).host.deep_view(),
                old(config).port,
            ),
        ),
        *final(config) == (Config {
            proto: final(config).proto,
            addr: final(config).addr,
            ..*old(config)
        }),
{
    if config.proto.is_none() {
        config.proto = Some(owned("http"));
    }
    let addr: String = match &config.addr {
        Some(a) => a.clone(),
        None => match &config.port {
            Some(port) => {
                let number = decimal(*port);
                match &config.host {
                    Some(host) => {
                        let scheme_host = joined("tcp://", host.as_str());
                        let with_colon = joined(scheme_host.as_str(), ":");
                        joined(with_colon.as_str(), number.as_str())
                    },
                    None => joined("tcp://localhost:", number.as_str()),
                }
            },
            None => match &config.host {
                Some(host) => host.clone(),
                None => owned("80"),
            },
        },
    };
    if parses_as_i32(addr.as_str()) {
        config.addr = Some(joined("tcp://localhost:", addr.as_str()));
    } else {
        config.addr = Some(addr);
    }
}

/// The warnings that a configuration earns. Each names a setting that has
/// no effect; none of them stops the listener from being opened.
pub fn warn_unused(config: &Config) -> (warnings: Vec<String>)
    ensures
        warnings.deep_view() == unused_warnings(*config),
{
    let mut out: Vec<String> = Vec::new();
    assert(out.deep_view() =~= Seq::<Seq<char>>::empty());
    note(&mut out, config.bin_path.is_some(), "bin_path is unused");
    note(&mut out, config.config_path.is_some(), "config_path is unused");
    note(&mut out, config.host_header.is_some(), "host_header is unused");
    note(&mut out, config.inspect.is_some(), "inspect is unused");
    note(&mut out, config.name.is_some(), "name is unused");
    note(&mut out, config.region.is_some(), "region is unused");
    let several = match &config.schemes {
        Some(schemes) => schemes.len() > 1,
        None => false,
    };
    note(&mut out, several, "Multiple schemes set, only last one will be used");
    note(&mut out, config.subdomain.is_some(), "subdomain is unused");
    note(&mut out, config.terminate_at.is_some(), "terminate_at is unused");
    note(&mut out, config.web_addr.is_some(), "web_addr is unused");
    out
}

/// The kinds of listener.
#[derive(Clone, Copy, Debug, PartialEq, Eq, Structural)]
pub enum ListenerKind {
    Http,
    Tcp,
    Tls,
    Labeled,
}

/// The settings of the listener that a configuration asks for, by kind.
#[derive(Clone, Debug, PartialEq, Eq)]
pub enum EndpointPlan {
    Http(HttpListenerBuilder),
    Tcp(TcpListenerBuilder),
    Tls(TlsListenerBuilder),
    Labeled(LabeledListenerBuilder),
}

impl EndpointPlan {
    /// The kind of listener that is to be opened.
    pub open spec fn kind(&self) -> ListenerKind {
        match *self {
            EndpointPlan::Http(_) => ListenerKind::Http,
            EndpointPlan::Tcp(_) => ListenerKind::Tcp,
            EndpointPlan::Tls(_) => ListenerKind::Tls,
            EndpointPlan::Labeled(_) => ListenerKind::Labeled,
        }
    }

    /// The kind of listener that is to be opened.
    pub fn listener_kind(&self) -> (kind: ListenerKind)
        ensures
            kind == self.kind(),
    {
        match self {
            EndpointPlan::Http(_) => ListenerKind::Http,
            EndpointPlan::Tcp(_) => ListenerKind::Tcp,
            EndpointPlan::Tls(_) => ListenerKind::Tls,
            EndpointPlan::Labeled(_) => ListenerKind::Labeled,
        }
    }

    /// The settings that it is to be opened with.
    pub open spec fn applied(&self) -> Seq<SettingView> {
        match *self {
            EndpointPlan::Http(b) => b.applied(),
            EndpointPlan::Tcp(b) => b.applied(),
            EndpointPlan::Tls(b) => b.applied(),
            EndpointPlan::Labeled(b) => b.applied(),
        }
    }

    /// The session that it is to be opened on.
    pub open spec fn session_id(&self) -> Seq<char> {
        match *self {
            EndpointPlan::Http(b) => b.session_id@,
            EndpointPlan::Tcp(b) => b.session_id@,
            EndpointPlan::Tls(b) => b.session_id@,
            EndpointPlan::Labeled(b) => b.session_id@,
        }
    }
}

/// What is to be done to open a listener from a configuration: the
/// warnings to give, the configuration with its defaults set, and the
/// settings of the session.
#[derive(Clone, Debug, PartialEq, Eq)]
pub struct ConnectPlan {
    pub warnings: Vec<String>,
    pub config: Config,
    pub session: SessionBuilder,
}

/// Settings of one kind, or the refusal.
pub open spec fn of_kind(kind: ListenerKind, settings: Settings) -> Result<
    (ListenerKind, Seq<SettingView>),
    Seq<char>,
> {
    match settings {
        Ok(s) => Ok((kind, s)),
        Err(e) => Err(e),
    }
}

/// The kind of listener that a configuration asks for and the settings it
/// is opened with, or the message that refuses the configuration. The kind
/// is named by `proto`: `http`, `tcp`, `tls` or `labeled`.
pub open spec fn endpoint_plan(config: Config) -> Result<
    (ListenerKind, Seq<SettingView>),
    Seq<char>,
> {
    match config.proto {
        None => Err("missing protocol"@),
        Some(proto) => if proto@ == "http"@ {
            of_kind(ListenerKind::Http, http_settings(config))
        } else if proto@ == "tcp"@ {
            of_kind(ListenerKind::Tcp, tcp_settings(config))
        } else if proto@ == "tls"@ {
            of_kind(ListenerKind::Tls, tls_settings(config))
        } else if proto@ == "labeled"@ {
            of_kind(ListenerKind::Labeled, labeled_settings(config))
        } else {
            Err("unhandled protocol "@ + proto@)
        },
    }
}

/// One more session setting after `acc` when `applies`.
pub open spec fn session_noted(
    acc: Seq<SessionSettingView>,
    applies: bool,
    setting: SessionSettingView,
) -> Seq<SessionSettingView> {
    if applies {
        acc.push(setting)
    } else {
        acc
    }
}

/// The handlers that are registered once those asked for are.
pub open spec fn handlers_after(on_connection: bool, on_disconnection: bool) -> Handlers {
    Handlers { on_connection, on_disconnection }
}

/// The session settings that a configuration asks for, in order: the
/// agent's own name, the authtoken, the authtoken of the environment, the
/// session's metadata, and the connector for each handler that is given.
pub open spec fn session_settings(
    config: Config,
    on_connection: bool,
    on_disconnection: bool,
) -> Seq<SessionSettingView> {
    let s = seq![
        SessionSettingView::ClientInfo {
            client_type: CLIENT_TYPE@,
            version: VERSION@,
            comments: None,
        },
    ];
    let s = session_noted(
        s,
        config.authtoken is Some,
        SessionSettingView::Authtoken(config.authtoken->Some_0@),
    );
    let s = session_noted(
        s,
        config.authtoken_from_env == Some(true),
        SessionSettingView::AuthtokenFromEnv,
    );
    let s = session_noted(
        s,
        config.session_metadata is Some,
        SessionSettingView::Metadata(config.session_metadata->Some_0@),
    );
    let s = session_noted(
        s,
        on_connection,
        SessionSettingView::Connector(handlers_after(true, false)),
    );
    let s = session_noted(
        s,
        on_disconnection,
        SessionSettingView::Connector(handlers_after(on_connection, true)),
    );
    s
}

/// Whether a session made from a configuration has an authtoken of its
/// own. `env_token` is what the environment holds under the authtoken's
/// name.
pub open spec fn token_set(config: Config, env_token: Option<Seq<char>>) -> bool {
    config.authtoken is Some || (config.authtoken_from_env == Some(true) && env_token is Some
        && env_token->Some_0.len() > 0)
}

/// Prepares opening a listener from a configuration: collects the warnings
/// that the configuration earns, sets its defaults, and makes the settings
/// of the session. `env_token` is what the environment holds under the
/// authtoken's name; `on_connection` and `on_disconnection` say which
/// handlers the host gave.
pub fn connect(
    cfg: Config,
    env_token: Option<String>,
    on_connection: bool,
    on_disconnection: bool,
) -> (plan: ConnectPlan)
    ensures
        plan.warnings.deep_view() == unused_warnings(cfg),
        plan.config.proto.deep_view() == Some(defaulted_proto(cfg.proto.deep_view())),
        plan.config.addr.deep_view() == Some(
            defaulted_addr(cfg.addr.deep_view(), cfg.host.deep_view(), cfg.port),
        ),
        plan.config == (Config { proto: plan.config.proto, addr: plan.config.addr, ..cfg }),
        plan.session.applied() == session_settings(cfg, on_connection, on_disconnection),
        plan.session.handlers == handlers_after(on_connection, on_disconnection),
        plan.session.auth_token_set == token_set(cfg, env_token.deep_view()),
{
    let warnings = warn_unused(&cfg);
    let mut config = cfg;
    set_defaults(&mut config);
    let mut session = SessionBuilder::new();
    match &config.authtoken {
        Some(token) => {
            session.authtoken(token.clone());
        },
        None => {},
    }
    match config.authtoken_from_env {
        Some(true) => {
            session.authtoken_from_env(env_token);
        },
        _ => {},
    }
    match &config.session_metadata {
        Some(metadata) => {
            session.metadata(metadata.clone());
        },
        None => {},
    }
    if on_connection {
        session.handle_connection();
    }
    if on_disconnection {
        session.handle_disconnection();
    }
    ConnectPlan { warnings, config, session }
}

/// The settings of the listener that a configuration asks for, on the
/// given session. The kind is named by `proto`; a configuration without
/// one, or with one that names no kind, is refused, and so is one whose
/// settings cannot be read.
pub fn async_connect(session: &Session, config: &Config) -> (plan: Result<EndpointPlan, AgentError>)
    ensures
        match plan {
            Ok(p) => p.session_id() == session.id@ && endpoint_plan(*config) == Ok::<
                (ListenerKind, Seq<SettingView>),
                Seq<char>,
            >((p.kind(), p.applied())),
            Err(e) => e.kind == ErrorKind::Configuration && endpoint_plan(*config) == Err::<
                (ListenerKind, Seq<SettingView>),
                Seq<char>,
            >(e.text()),
        },
{
    match &config.proto {
        None => Err(failure(ErrorKind::Configuration, "missing protocol")),
        Some(proto) => {
            if same_text(proto.as_str(), "http") {
                Ok(EndpointPlan::Http(http_endpoint(session, config)?))
            } else if same_text(proto.as_str(), "tcp") {
                Ok(EndpointPlan::Tcp(tcp_endpoint(session, config)?))
            } else if same_text(proto.as_str(), "tls") {
                Ok(EndpointPlan::Tls(tls_endpoint(session, config)?))
            } else if same_text(proto.as_str(), "labeled") {
                Ok(EndpointPlan::Labeled(labeled_listener(session, config)?))
            } else {
                let message = joined("unhandled protocol ", proto.as_str());
                Err(failure(ErrorKind::Configuration, message.as_str()))
            }
        },
    }
}

/// The kind of listener that a configuration asks for, from the
/// configuration alone: no session is needed, so a configuration can be
/// refused before anything is connected. It is refused exactly when
/// `async_connect` would refuse it, with the same message.
pub fn endpoint_kind(config: &Config) -> (kind: Result<ListenerKind, AgentError>)
    ensures
        match kind {
            Ok(k) => endpoint_plan(*config) is Ok && endpoint_plan(*config)->Ok_0.0 == k,
            Err(e) => e.kind == ErrorKind::Configuration && endpoint_plan(*config) == Err::<
                (ListenerKind, Seq<SettingView>),
                Seq<char>,
            >(e.text()),
        },
{
    let nowhere = Session { id: String::new() };
    match async_connect(&nowhere, config) {
        Ok(plan) => Ok(plan.listener_kind()),
        Err(e) => Err(e),
    }
}

/// The handle on the listener that was just opened under this id. A
/// listener that is not in the registry did not start.
pub fn started(registry: &Registry, id: String) -> (listener: Result<Listener, AgentError>)
    ensures
        match listener {
            Ok(found) => lookup(registry@, id@) is Some && found@ == handle_of(
                lookup(registry@, id@)->Some_0,
            ),
            Err(e) => lookup(registry@, id@) is None && e@ == (
                ErrorKind::Connect,
                "failed to start listener"@,
            ),
        },
{
    match get_listener(registry, id) {
        Some(found) => Ok(found),
        None => Err(failure(ErrorKind::Connect, "failed to start listener")),
    }
}

/// Finishes closing the listeners opened with this URL, or all listeners
/// where no URL is given. The caller has asked the relay to close them, one
/// after the other, and stopped at the first that failed; `first_failure`
/// is that failure, if there was one.
///
/// After a failure nothing changes, and the failure is reported. Without
/// one the records of those listeners leave the registry, and where all
/// listeners were closed the session that was kept for `connect` is let go.
pub fn disconnect(
    registry: &mut Registry,
    session: &mut Option<Session>,
    url: Option<String>,
    first_failure: Option<RelayFault>,
) -> (result: Result<(), AgentError>)
    ensures
        said(result) == relay_result(
            "error closing listener"@,
            match first_failure {
                Some(fault) => Some(fault.parts()),
                None => None,
            },
        ),
        final(registry)@ == if first_failure is Some {
            old(registry)@
        } else {
            rejected(old(registry)@, None, url.deep_view())
        },
        *final(session) == if first_failure is None && url is None {
            None
        } else {
            *old(session)
        },
{
    let all = url.is_none();
    close_url(registry, url, first_failure)?;
    if all {
        *session = None;
    }
    Ok(())
}

/// Finishes closing all listeners: `disconnect` without a URL.
pub fn kill(
    registry: &mut Registry,
    session: &mut Option<Session>,
    first_failure: Option<RelayFault>,
) -> (result: Result<(), AgentError>)
    ensures
        said(result) == relay_result(
            "error closing listener"@,
            match first_failure {
                Some(fault) => Some(fault.parts()),
                None => None,
            },
        ),
        final(registry)@ == if first_failure is Some {
            old(registry)@
        } else {
            rejected(old(registry)@, None, None)
        },
        *final(session) == if first_failure is None {
            None
        } else {
            *old(session)
        },
{
    disconnect(registry, session, None, first_failure)
}

/// An address that was taken as a port is no bare number any more, so
/// taking it as a port again changes nothing.
pub proof fn port_as_addr_is_stable(addr: Seq<char>)
    ensures
        port_as_addr(port_as_addr(addr)) == port_as_addr(addr),
{
    if is_i32_text(addr) {
        reveal_strlit("tcp://localhost:");
        let full = "tcp://localhost:"@ + addr;
        assert(full[0] == 't');
        assert(!is_digit(full[0]));
        assert(!all_digits(full));
    }
}

/// Setting defaults a second time changes neither the address nor the
/// kind of listener, whatever host and port are set by then.
pub proof fn defaults_are_stable(
    addr: Option<Seq<char>>,
    proto: Option<Seq<char>>,
    host: Option<Seq<char>>,
    port: Option<u32>,
    later_host: Option<Seq<char>>,
    later_port: Option<u32>,
)
    ensures
        defaulted_addr(Some(defaulted_addr(addr, host, port)), later_host, later_port)
            == defaulted_addr(addr, host, port),
        defaulted_proto(Some(defaulted_proto(proto))) == defaulted_proto(proto),
{
    port_as_addr_is_stable(
        match addr {
            Some(a) => a,
            None => default_addr(host, port),
        },
    );
}

} // verus!
