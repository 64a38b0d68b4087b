//! Settings that only an HTTP endpoint has.

use vstd::prelude::*;
use crate::error::failure;
use crate::error::AgentError;
use crate::error::ErrorKind;
use crate::listener_builder::apply;
use crate::listener_builder::HttpListenerBuilder;
use crate::listener_builder::OauthOptions;
use crate::listener_builder::OauthView;
use crate::listener_builder::OidcOptions;
use crate::listener_builder::OidcView;
use crate::listener_builder::Scheme;
use crate::listener_builder::Setting;
use crate::listener_builder::SettingView;
use crate::outside::scheme_from_text;
use crate::outside::scheme_named;
use crate::outside::uppercased;
use crate::text::joined;

verus! {

/// The message that refuses an unknown scheme.
pub open spec fn unknown_scheme(text: Seq<char>) -> Seq<char> {
    "Unknown scheme: "@ + text
}

/// The setting made for a scheme text that was read as `parsed`, or the
/// refusal when it was not understood.
pub open spec fn scheme_choice_of(
    text: Seq<char>,
    parsed: Option<Scheme>,
) -> Result<SettingView, Seq<char>> {
    match parsed {
        Some(scheme) => Ok(SettingView::Scheme(scheme)),
        None => Err(unknown_scheme(text)),
    }
}

/// The setting that a scheme text asks for: `HTTP` or `HTTPS` in any case.
pub open spec fn scheme_setting(text: Seq<char>) -> Result<SettingView, Seq<char>> {
    scheme_choice_of(text, scheme_named(uppercased(text)))
}

/// The items of an optional list; none when the list is absent.
pub open spec fn listed(items: Option<Seq<Seq<char>>>) -> Seq<Seq<char>> {
    match items {
        Some(v) => v,
        None => Seq::empty(),
    }
}

/// The OAuth settings that the arguments of `oauth` describe.
pub open spec fn oauth_view(
    provider: Seq<char>,
    allow_emails: Option<Seq<Seq<char>>>,
    allow_domains: Option<Seq<Seq<char>>>,
    scopes: Option<Seq<Seq<char>>>,
    client_id: Option<Seq<char>>,
    client_secret: Option<Seq<char>>,
) -> OauthView {
    OauthView {
        provider,
        allow_emails: listed(allow_emails),
        allow_domains: listed(allow_domains),
        scopes: listed(scopes),
        client_id,
        client_secret,
    }
}

/// The OpenID Connect settings that the arguments of `oidc` describe.
pub open spec fn oidc_view(
    issuer_url: Seq<char>,
    client_id: Seq<char>,
    client_secret: Seq<char>,
    allow_emails: Option<Seq<Seq<char>>>,
    allow_domains: Option<Seq<Seq<char>>>,
    scopes: Option<Seq<Seq<char>>>,
) -> OidcView {
    OidcView {
        issuer_url,
        client_id,
        client_secret,
        allow_emails: listed(allow_emails),
        allow_domains: listed(allow_domains),
        scopes: listed(scopes),
    }
}

/// The items of an optional list, or an empty list.
pub fn list_or_empty(items: Option<Vec<String>>) -> (list: Vec<String>)
    ensures
        list.deep_view() == listed(items.deep_view()),
{
    match items {
        Some(v) => v,
        None => {
            let list: Vec<String> = Vec::new();
            assert(list.deep_view() =~= Seq::<Seq<char>>::empty());
            list
        },
    }
}

/// Turns a scheme text and what it was read as into a setting; a text that
/// was not understood is a configuration error.
pub fn scheme_choice(text: &str, parsed: Option<Scheme>) -> (chosen: Result<Setting, AgentError>)
    ensures
        match chosen {
            Ok(setting) => scheme_choice_of(text@, parsed) == Ok::<SettingView, Seq<char>>(
                setting@,
            ),
            Err(e) => e.kind == ErrorKind::Configuration
                && scheme_choice_of(text@, parsed) == Err::<SettingView, Seq<char>>(e.text()),
        },
{
    match parsed {
        Some(scheme) => Ok(Setting::Scheme(scheme)),
        None => {
            let message = joined("Unknown scheme: ", text);
            Err(failure(ErrorKind::Configuration, message.as_str()))
        },
    }
}

/// Reads a scheme text, `HTTP` or `HTTPS` in any case.
pub fn parse_scheme(text: &str) -> (parsed: Result<Setting, AgentError>)
    ensures
        match parsed {
            Ok(setting) => scheme_setting(text@) == Ok::<SettingView, Seq<char>>(setting@),
            Err(e) => e.kind == ErrorKind::Configuration
                && scheme_setting(text@) == Err::<SettingView, Seq<char>>(e.text()),
        },
{
    scheme_choice(text, scheme_from_text(text))
}

impl HttpListenerBuilder {
    /// The scheme of the endpoint, `HTTPS` or `HTTP`. Any other text is
    /// refused and leaves the builder as it was.
    pub fn scheme(&mut self, scheme: String) -> (done: Result<(), AgentError>)
        ensures
            final(self).session_id == old(self).session_id,
            match done {
                Ok(_) => scheme_setting(scheme@) is Ok && final(self).applied() == old(
                    self,
                ).applied().push(scheme_setting(scheme@)->Ok_0),
                Err(e) => e.kind == ErrorKind::Configuration
                    && scheme_setting(scheme@) == Err::<SettingView, Seq<char>>(e.text())
                    && final(self).applied() == old(self).applied(),
            },
    {
        match parse_scheme(scheme.as_str()) {
            Ok(setting) => {
                apply(&mut self.settings, setting);
                Ok(())
            },
            Err(e) => Err(e),
        }
    }

    /// The domain to request for the endpoint.
    pub fn domain(&mut self, domain: String)
        ensures
            final(self).applied() == old(self).applied().push(SettingView::Domain(domain@)),
            final(self).session_id == old(self).session_id,
    {
        apply(&mut self.settings, Setting::Domain(domain));
    }

    /// A certificate authority for client authentication at the edge.
    pub fn mutual_tlsca(&mut self, mutual_tlsca: Vec<u8>)
        ensures
            final(self).applied() == old(self).applied().push(
                SettingView::MutualTlsCa(mutual_tlsca@),
            ),
            final(self).session_id == old(self).session_id,
    {
        apply(&mut self.settings, Setting::MutualTlsCa(mutual_tlsca));
    }

    /// Turns on gzip compression of responses.
    pub fn compression(&mut self)
        ensures
            final(self).applied() == old(self).applied().push(SettingView::Compression),
            final(self).session_id == old(self).session_id,
    {
        apply(&mut self.settings, Setting::Compression);
    }

    /// Converts incoming websocket connections to TCP-like streams.
    pub fn websocket_tcp_conversion(&mut self)
        ensures
            final(self).applied() == old(self).applied().push(
                SettingView::WebsocketTcpConversion,
            ),
            final(self).session_id == old(self).session_id,
    {
        apply(&mut self.settings, Setting::WebsocketTcpConversion);
    }

    /// Adds a header to every request.
    pub fn request_header(&mut self, name: String, value: String)
        ensures
            final(self).applied() == old(self).applied().push(
                SettingView::RequestHeader(name@, value@),
            ),
            final(self).session_id == old(self).session_id,
    {
        apply(&mut self.settings, Setting::RequestHeader(name, value));
    }

    /// Adds a header to every response.
    pub fn response_header(&mut self, name: String, value: String)
        ensures
            final(self).applied() == old(self).applied().push(
                SettingView::ResponseHeader(name@, value@),
            ),
            final(self).session_id == old(self).session_id,
    {
        apply(&mut self.settings, Setting::ResponseHeader(name, value));
    }

    /// Removes a header from every request.
    pub fn remove_request_header(&mut self, name: String)
        ensures
            final(self).applied() == old(self).applied().push(
                SettingView::RemoveRequestHeader(name@),
            ),
            final(self).session_id == old(self).session_id,
    {
        apply(&mut self.settings, Setting::RemoveRequestHeader(name));
    }

    /// Removes a header from every response.
    pub fn remove_response_header(&mut self, name: String)
        ensures
            final(self).applied() == old(self).applied().push(
                SettingView::RemoveResponseHeader(name@),
            ),
            final(self).session_id == old(self).session_id,
    {
        apply(&mut self.settings, Setting::RemoveResponseHeader(name));
    }

    /// Credentials for basic authentication.
    pub fn basic_auth(&mut self, username: String, password: String)
        ensures
            final(self).applied() == old(self).applied().push(
                SettingView::BasicAuth(username@, password@),
            ),
            final(self).session_id == old(self).session_id,
    {
        apply(&mut self.settings, Setting::BasicAuth(username, password));
    }

    /// A regular expression for User-Agents that are allowed.
    pub fn allow_user_agent(&mut self, regex: String)
        ensures
            final(self).applied() == old(self).applied().push(SettingView::AllowUserAgent(regex@)),
            final(self).session_id == old(self).session_id,
    {
        apply(&mut self.settings, Setting::AllowUserAgent(regex));
    }

    /// A regular expression for User-Agents that are denied.
    pub fn deny_user_agent(&mut self, regex: String)
        ensures
            final(self).applied() == old(self).applied().push(SettingView::DenyUserAgent(regex@)),
            final(self).session_id == old(self).session_id,
    {
        apply(&mut self.settings, Setting::DenyUserAgent(regex));
    }

    /// OAuth with the given provider. A list that is absent counts as empty.
    pub fn oauth(
        &mut self,
        provider: String,
        allow_emails: Option<Vec<String>>,
        allow_domains: Option<Vec<String>>,
        scopes: Option<Vec<String>>,
        client_id: Option<String>,
        client_secret: Option<String>,
    )
        ensures
            final(self).applied() == old(self).applied().push(
                SettingView::Oauth(
                    oauth_view(
                        provider@,
                        allow_emails.deep_view(),
                        allow_domains.deep_view(),
                        scopes.deep_view(),
                        client_id.deep_view(),
                        client_secret.deep_view(),
                    ),
                ),
            ),
            final(self).session_id == old(self).session_id,
    {
        let options = OauthOptions {
            provider,
            allow_emails: list_or_empty(allow_emails),
            allow_domains: list_or_empty(allow_domains),
            scopes: list_or_empty(scopes),
            client_id,
            client_secret,
        };
        apply(&mut self.settings, Setting::Oauth(options));
    }

    /// OpenID Connect with the given issuer. A list that is absent counts
    /// as empty.
    pub fn oidc(
        &mut self,
        issuer_url: String,
        client_id: String,
        client_secret: String,
        allow_emails: Option<Vec<String>>,
        allow_domains: Option<Vec<String>>,
        scopes: Option<Vec<String>>,
    )
        ensures
            final(self).applied() == old(self).applied().push(
                SettingView::Oidc(
                    oidc_view(
                        issuer_url@,
                        client_id@,
                        client_secret@,
                        allow_emails.deep_view(),
                        allow_domains.deep_view(),
                        scopes.deep_view(),
                    ),
                ),
            ),
            final(self).session_id == old(self).session_id,
    {
        let options = OidcOptions {
            issuer_url,
            client_id,
            client_secret,
            allow_emails: list_or_empty(allow_emails),
            allow_domains: list_or_empty(allow_domains),
            scopes: list_or_empty(scopes),
        };
        apply(&mut self.settings, Setting::Oidc(options));
    }

    /// Verification of webhooks from the given provider with the given secret.
    pub fn webhook_verification(&mut self, provider: String, secret: String)
        ensures
            final(self).applied() == old(self).applied().push(
                SettingView::WebhookVerification(provider@, secret@),
            ),
            final(self).session_id == old(self).session_id,
    {
        apply(&mut self.settings, Setting::WebhookVerification(provider, secret));
    }
}

} // verus!
