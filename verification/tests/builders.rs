use ngrok_nodejs::error::ErrorKind;
use ngrok_nodejs::listener_builder::HttpListenerBuilder;
use ngrok_nodejs::listener_builder::LabeledListenerBuilder;
use ngrok_nodejs::listener_builder::OauthOptions;
use ngrok_nodejs::listener_builder::OidcOptions;
use ngrok_nodejs::listener_builder::ProxyProto;
use ngrok_nodejs::listener_builder::Scheme;
use ngrok_nodejs::listener_builder::Setting;
use ngrok_nodejs::listener_builder::TcpListenerBuilder;
use ngrok_nodejs::listener_builder::TlsListenerBuilder;
use ngrok_nodejs::session::Session;
use ngrok_nodejs::tunnel_builder::NgrokTcpTunnelBuilder;

fn s(text: &str) -> String {
    text.to_string()
}

#[test]
fn session_starts_builders_without_settings() {
    let session = Session { id: s("sess-1") };
    let http = session.http_endpoint();
    assert_eq!(http.session_id, "sess-1");
    assert!(http.settings.is_empty());
    assert!(session.tcp_endpoint().settings.is_empty());
    assert!(session.tls_endpoint().settings.is_empty());
    assert!(session.labeled_listener().settings.is_empty());
    assert_eq!(session.labeled_listener().session_id, "sess-1");
}

#[test]
fn settings_are_kept_in_the_order_made() {
    let mut b = HttpListenerBuilder::new(s("sess"));
    b.domain(s("test.example"));
    b.metadata(s("m"));
    b.allow_cidr(s("10.0.0.0/8"));
    b.deny_cidr(s("0.0.0.0/0"));
    b.forwards_to(s("local"));
    b.compression();
    b.websocket_tcp_conversion();
    b.mutual_tlsca(vec![1, 2, 3]);
    b.request_header(s("X-A"), s("1"));
    b.response_header(s("X-B"), s("2"));
    b.remove_request_header(s("X-C"));
    b.remove_response_header(s("X-D"));
    b.basic_auth(s("user"), s("password"));
    b.allow_user_agent(s("^curl"));
    b.deny_user_agent(s("bot"));
    b.webhook_verification(s("github"), s("secret"));
    assert_eq!(
        b.settings,
        vec![
            Setting::Domain(s("test.example")),
            Setting::Metadata(s("m")),
            Setting::AllowCidr(s("10.0.0.0/8")),
            Setting::DenyCidr(s("0.0.0.0/0")),
            Setting::ForwardsTo(s("local")),
            Setting::Compression,
            Setting::WebsocketTcpConversion,
            Setting::MutualTlsCa(vec![1, 2, 3]),
            Setting::RequestHeader(s("X-A"), s("1")),
            Setting::ResponseHeader(s("X-B"), s("2")),
            Setting::RemoveRequestHeader(s("X-C")),
            Setting::RemoveResponseHeader(s("X-D")),
            Setting::BasicAuth(s("user"), s("password")),
            Setting::AllowUserAgent(s("^curl")),
            Setting::DenyUserAgent(s("bot")),
            Setting::WebhookVerification(s("github"), s("secret")),
        ]
    );
    assert_eq!(b.session_id, "sess");
}

#[test]
fn scheme_is_read_in_any_case() {
    let mut b = HttpListenerBuilder::new(s("sess"));
    b.scheme(s("http")).unwrap();
    b.scheme(s("HTTPS")).unwrap();
    b.scheme(s("Https")).unwrap();
    assert_eq!(
        b.settings,
        vec![
            Setting::Scheme(Scheme::Http),
            Setting::Scheme(Scheme::Https),
            Setting::Scheme(Scheme::Https)
        ]
    );
}

#[test]
fn unknown_scheme_is_a_configuration_error() {
    let mut b = HttpListenerBuilder::new(s("sess"));
    b.domain(s("d"));
    let e = b.scheme(s("ftp")).unwrap_err();
    assert_eq!(e.kind, ErrorKind::Configuration);
    assert_eq!(e.message, "Unknown scheme: ftp");
    assert_eq!(b.settings, vec![Setting::Domain(s("d"))]);
    assert_eq!(b.scheme(s("")).unwrap_err().message, "Unknown scheme: ");
}

#[test]
fn proxy_proto_takes_empty_one_and_two() {
    let mut b = TcpListenerBuilder::new(s("sess"));
    b.proxy_proto(s("")).unwrap();
    b.proxy_proto(s("1")).unwrap();
    b.proxy_proto(s("2")).unwrap();
    assert_eq!(
        b.settings,
        vec![
            Setting::ProxyProto(ProxyProto::Off),
            Setting::ProxyProto(ProxyProto::V1),
            Setting::ProxyProto(ProxyProto::V2)
        ]
    );
}

#[test]
fn unknown_proxy_proto_is_a_configuration_error() {
    let mut b = TlsListenerBuilder::new(s("sess"));
    let e = b.proxy_proto(s("3")).unwrap_err();
    assert_eq!(e.kind, ErrorKind::Configuration);
    assert_eq!(e.message, "Unknown proxy protocol: 3");
    assert!(b.settings.is_empty());
    assert_eq!(b.proxy_proto(s(" 1")).unwrap_err().message, "Unknown proxy protocol:  1");
}

#[test]
fn oauth_lists_that_are_absent_count_as_empty() {
    let mut b = HttpListenerBuilder::new(s("sess"));
    b.oauth(s("google"), None, Some(vec![s("example.com")]), None, Some(s("id")), None);
    assert_eq!(
        b.settings,
        vec![Setting::Oauth(OauthOptions {
            provider: s("google"),
            allow_emails: vec![],
            allow_domains: vec![s("example.com")],
            scopes: vec![],
            client_id: Some(s("id")),
            client_secret: None,
        })]
    );
}

#[test]
fn oidc_keeps_every_argument() {
    let mut b = HttpListenerBuilder::new(s("sess"));
    b.oidc(
        s("https://issuer"),
        s("id"),
        s("secret"),
        Some(vec![s("a@example.com"), s("b@example.com")]),
        None,
        Some(vec![s("openid")]),
    );
    assert_eq!(
        b.settings,
        vec![Setting::Oidc(OidcOptions {
            issuer_url: s("https://issuer"),
            client_id: s("id"),
            client_secret: s("secret"),
            allow_emails: vec![s("a@example.com"), s("b@example.com")],
            allow_domains: vec![],
            scopes: vec![s("openid")],
        })]
    );
}

#[test]
fn tcp_and_tls_and_labeled_have_their_own_settings() {
    let mut tcp = TcpListenerBuilder::new(s("sess"));
    tcp.remote_addr(s("2.tcp.ngrok.io:21746"));
    assert_eq!(tcp.settings, vec![Setting::RemoteAddr(s("2.tcp.ngrok.io:21746"))]);

    let mut tls = TlsListenerBuilder::new(s("sess"));
    tls.domain(s("tls.example"));
    tls.mutual_tlsca(vec![9]);
    tls.termination(vec![1], vec![2]);
    assert_eq!(
        tls.settings,
        vec![
            Setting::Domain(s("tls.example")),
            Setting::MutualTlsCa(vec![9]),
            Setting::Termination(vec![1], vec![2])
        ]
    );

    let mut labeled = LabeledListenerBuilder::new(s("sess"));
    labeled.metadata(s("m"));
    labeled.label(s("edge"), s("edghts_1"));
    assert_eq!(
        labeled.settings,
        vec![Setting::Metadata(s("m")), Setting::Label(s("edge"), s("edghts_1"))]
    );
}

#[test]
fn tunnel_builder_is_the_tcp_builder_by_another_name() {
    let mut b = NgrokTcpTunnelBuilder::new(s("sess"));
    b.remote_addr(s("1.tcp.ngrok.io:1"));
    assert_eq!(b.settings, vec![Setting::RemoteAddr(s("1.tcp.ngrok.io:1"))]);
}

#[test]
fn listen_and_serve_is_left_to_the_host() {
    let b = HttpListenerBuilder::new(s("sess"));
    let e = b.listen_and_serve(s("server")).unwrap_err();
    assert_eq!(e.kind, ErrorKind::Configuration);
    assert_eq!(e.message, "listen_and_serve implemented in wrapper, server");
}
