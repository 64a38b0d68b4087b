use ngrok_nodejs::config::Config;
use ngrok_nodejs::connect::async_connect;
use ngrok_nodejs::connect::endpoint_kind;
use ngrok_nodejs::connect::ListenerKind;
use ngrok_nodejs::connect::http_endpoint;
use ngrok_nodejs::connect::labeled_listener;
use ngrok_nodejs::connect::setting_from_item;
use ngrok_nodejs::connect::split_pair;
use ngrok_nodejs::connect::tcp_endpoint;
use ngrok_nodejs::connect::tls_endpoint;
use ngrok_nodejs::connect::EndpointPlan;
use ngrok_nodejs::connect::ItemKind;
use ngrok_nodejs::error::ErrorKind;
use ngrok_nodejs::listener_builder::OauthOptions;
use ngrok_nodejs::listener_builder::OidcOptions;
use ngrok_nodejs::listener_builder::ProxyProto;
use ngrok_nodejs::listener_builder::Scheme;
use ngrok_nodejs::listener_builder::Setting;
use ngrok_nodejs::session::Session;

fn s(text: &str) -> String {
    text.to_string()
}

fn text(t: &str) -> Option<String> {
    Some(t.to_string())
}

fn list(items: &[&str]) -> Option<Vec<String>> {
    Some(items.iter().map(|i| i.to_string()).collect())
}

fn session() -> Session {
    Session { id: s("sess-7") }
}

#[test]
fn empty_config_gives_an_http_endpoint_without_settings() {
    let b = http_endpoint(&session(), &Config::default()).unwrap();
    assert_eq!(b.session_id, "sess-7");
    assert!(b.settings.is_empty());
}

#[test]
fn http_endpoint_reads_every_part_in_order() {
    let cfg = Config {
        metadata: text("meta"),
        allow_cidr: list(&["10.0.0.0/8", "192.168.0.0/16"]),
        deny_cidr: list(&["0.0.0.0/0"]),
        proxy_proto: text("2"),
        forwards_to: text("my backend"),
        schemes: list(&["http", "HTTPS"]),
        hostname: text("host.example"),
        domain: text("test.example"),
        mutual_tls_cas: list(&["CA"]),
        compression: Some(true),
        websocket_tcp_converter: Some(true),
        request_header_add: list(&["X-Req:1"]),
        response_header_add: list(&["X-Res: two:2"]),
        request_header_remove: list(&["X-Gone"]),
        response_header_remove: list(&["X-Out"]),
        basic_auth: list(&["user:pass:word"]),
        allow_user_agent: list(&["^curl"]),
        deny_user_agent: list(&["bot"]),
        oauth_provider: text("google"),
        oauth_allow_emails: list(&["a@example.com"]),
        oauth_scopes: list(&["email"]),
        oauth_client_id: text("oid"),
        oidc_issuer_url: text("https://issuer"),
        oidc_client_id: text("cid"),
        oidc_client_secret: text("csecret"),
        oidc_allow_domains: list(&["example.com"]),
        verify_webhook_provider: text("github"),
        verify_webhook_secret: text("hush"),
        ..Config::default()
    };
    let b = http_endpoint(&session(), &cfg).unwrap();
    assert_eq!(
        b.settings,
        vec![
            Setting::Metadata(s("meta")),
            Setting::AllowCidr(s("10.0.0.0/8")),
            Setting::AllowCidr(s("192.168.0.0/16")),
            Setting::DenyCidr(s("0.0.0.0/0")),
            Setting::ProxyProto(ProxyProto::V2),
            Setting::ForwardsTo(s("my backend")),
            Setting::Scheme(Scheme::Http),
            Setting::Scheme(Scheme::Https),
            Setting::Domain(s("host.example")),
            Setting::Domain(s("test.example")),
            Setting::MutualTlsCa(vec![b'C', b'A']),
            Setting::Compression,
            Setting::WebsocketTcpConversion,
            Setting::RequestHeader(s("X-Req"), s("1")),
            Setting::ResponseHeader(s("X-Res"), s(" two:2")),
            Setting::RemoveRequestHeader(s("X-Gone")),
            Setting::RemoveResponseHeader(s("X-Out")),
            Setting::BasicAuth(s("user"), s("pass:word")),
            Setting::AllowUserAgent(s("^curl")),
            Setting::DenyUserAgent(s("bot")),
            Setting::Oauth(OauthOptions {
                provider: s("google"),
                allow_emails: vec![s("a@example.com")],
                allow_domains: vec![],
                scopes: vec![s("email")],
                client_id: Some(s("oid")),
                client_secret: None,
            }),
            Setting::Oidc(OidcOptions {
                issuer_url: s("https://issuer"),
                client_id: s("cid"),
                client_secret: s("csecret"),
                allow_emails: vec![],
                allow_domains: vec![s("example.com")],
                scopes: vec![],
            }),
            Setting::WebhookVerification(s("github"), s("hush")),
        ]
    );
}

#[test]
fn switches_that_are_off_make_no_setting() {
    let cfg = Config {
        compression: Some(false),
        websocket_tcp_converter: None,
        ..Config::default()
    };
    assert!(http_endpoint(&session(), &cfg).unwrap().settings.is_empty());
}

#[test]
fn mutual_tls_ca_is_the_utf8_of_the_text() {
    let made = setting_from_item(ItemKind::MutualTlsCa, "é").unwrap();
    assert_eq!(made, Setting::MutualTlsCa(vec![0xC3, 0xA9]));
}

#[test]
fn header_without_colon_is_a_configuration_error() {
    let cfg = Config { request_header_add: list(&["X-A:1", "broken"]), ..Config::default() };
    let e = http_endpoint(&session(), &cfg).unwrap_err();
    assert_eq!(e.kind, ErrorKind::Configuration);
    assert_eq!(e.message, "split of value failed: broken");
    assert_eq!(split_pair("a:b").unwrap(), (s("a"), s("b")));
    assert_eq!(split_pair("ab").unwrap_err().message, "split of value failed: ab");
}

#[test]
fn first_part_that_is_refused_is_reported() {
    let cfg = Config {
        proxy_proto: text("9"),
        schemes: list(&["gopher"]),
        oidc_issuer_url: text("https://issuer"),
        ..Config::default()
    };
    let e = http_endpoint(&session(), &cfg).unwrap_err();
    assert_eq!(e.message, "Unknown proxy protocol: 9");

    let cfg = Config {
        schemes: list(&["https", "gopher", "also bad"]),
        basic_auth: list(&["nocolon"]),
        ..Config::default()
    };
    let e = http_endpoint(&session(), &cfg).unwrap_err();
    assert_eq!(e.message, "Unknown scheme: gopher");
}

#[test]
fn oidc_needs_client_id_and_secret() {
    let cfg = Config { oidc_issuer_url: text("https://issuer"), ..Config::default() };
    let e = http_endpoint(&session(), &cfg).unwrap_err();
    assert_eq!(e.kind, ErrorKind::Configuration);
    assert_eq!(e.message, "Missing client id for oidc");

    let cfg = Config {
        oidc_issuer_url: text("https://issuer"),
        oidc_client_id: text("id"),
        ..Config::default()
    };
    let e = http_endpoint(&session(), &cfg).unwrap_err();
    assert_eq!(e.message, "Missing client secret for oidc");

    // without an issuer the other oidc settings are not looked at
    let cfg = Config { oidc_client_id: text("id"), ..Config::default() };
    assert!(http_endpoint(&session(), &cfg).unwrap().settings.is_empty());
}

#[test]
fn webhook_verification_needs_a_secret() {
    let cfg = Config { verify_webhook_provider: text("github"), ..Config::default() };
    let e = http_endpoint(&session(), &cfg).unwrap_err();
    assert_eq!(e.kind, ErrorKind::Configuration);
    assert_eq!(e.message, "Missing secret for webhook verification");
    let cfg = Config { verify_webhook_secret: text("s"), ..Config::default() };
    assert!(http_endpoint(&session(), &cfg).unwrap().settings.is_empty());
}

#[test]
fn tcp_endpoint_reads_common_settings_and_remote_addr() {
    let cfg = Config {
        metadata: text("m"),
        remote_addr: text("1.tcp.ngrok.io:1234"),
        domain: text("ignored.example"),
        ..Config::default()
    };
    let b = tcp_endpoint(&session(), &cfg).unwrap();
    assert_eq!(
        b.settings,
        vec![Setting::Metadata(s("m")), Setting::RemoteAddr(s("1.tcp.ngrok.io:1234"))]
    );
    assert_eq!(b.session_id, "sess-7");
}

#[test]
fn tls_endpoint_terminates_with_certificate_and_key() {
    let cfg = Config {
        domain: text("tls.example"),
        crt: text("CRT"),
        key: text("KEY"),
        ..Config::default()
    };
    let b = tls_endpoint(&session(), &cfg).unwrap();
    assert_eq!(
        b.settings,
        vec![
            Setting::Domain(s("tls.example")),
            Setting::Termination(b"CRT".to_vec(), b"KEY".to_vec())
        ]
    );
}

#[test]
fn certificate_without_key_is_a_configuration_error() {
    let cfg = Config { crt: text("CRT"), ..Config::default() };
    let e = tls_endpoint(&session(), &cfg).unwrap_err();
    assert_eq!(e.kind, ErrorKind::Configuration);
    assert_eq!(e.message, "Missing key for tls termination");
}

#[test]
fn key_without_certificate_is_a_configuration_error() {
    let cfg = Config { key: text("KEY"), ..Config::default() };
    let e = tls_endpoint(&session(), &cfg).unwrap_err();
    assert_eq!(e.kind, ErrorKind::Configuration);
    assert_eq!(e.message, "Missing certificate for tls termination");
    // the pair is looked at after the settings before it
    let cfg = Config { key: text("KEY"), proxy_proto: text("7"), ..Config::default() };
    let e = tls_endpoint(&session(), &cfg).unwrap_err();
    assert_eq!(e.message, "Unknown proxy protocol: 7");
    // with neither, nothing is asked for
    assert!(tls_endpoint(&session(), &Config::default()).unwrap().settings.is_empty());
}

#[test]
fn labeled_listener_reads_metadata_and_labels() {
    let cfg = Config {
        metadata: text("m"),
        labels: list(&["edge:edghts_1", "env:prod:eu"]),
        allow_cidr: list(&["ignored"]),
        ..Config::default()
    };
    let b = labeled_listener(&session(), &cfg).unwrap();
    assert_eq!(
        b.settings,
        vec![
            Setting::Metadata(s("m")),
            Setting::Label(s("edge"), s("edghts_1")),
            Setting::Label(s("env"), s("prod:eu"))
        ]
    );
    let cfg = Config { labels: list(&["nolabel"]), ..Config::default() };
    let e = labeled_listener(&session(), &cfg).unwrap_err();
    assert_eq!(e.message, "split of value failed: nolabel");
}

#[test]
fn proto_names_the_kind_of_listener() {
    let mut cfg = Config { proto: text("http"), domain: text("d"), ..Config::default() };
    assert!(matches!(async_connect(&session(), &cfg), Ok(EndpointPlan::Http(_))));
    cfg.proto = text("tcp");
    assert!(matches!(async_connect(&session(), &cfg), Ok(EndpointPlan::Tcp(_))));
    cfg.proto = text("tls");
    match async_connect(&session(), &cfg) {
        Ok(EndpointPlan::Tls(b)) => assert_eq!(b.settings, vec![Setting::Domain(s("d"))]),
        other => panic!("unexpected {other:?}"),
    }
    cfg.proto = text("labeled");
    assert!(matches!(async_connect(&session(), &cfg), Ok(EndpointPlan::Labeled(_))));
}

#[test]
fn unknown_or_missing_proto_is_a_configuration_error() {
    let cfg = Config { proto: text("udp"), ..Config::default() };
    let e = async_connect(&session(), &cfg).unwrap_err();
    assert_eq!(e.kind, ErrorKind::Configuration);
    assert_eq!(e.message, "unhandled protocol udp");
    let cfg = Config { proto: text("HTTP"), ..Config::default() };
    assert_eq!(async_connect(&session(), &cfg).unwrap_err().message, "unhandled protocol HTTP");
    let e = async_connect(&session(), &Config::default()).unwrap_err();
    assert_eq!(e.kind, ErrorKind::Configuration);
    assert_eq!(e.message, "missing protocol");
}

#[test]
fn settings_that_cannot_be_read_refuse_the_plan() {
    let cfg = Config { proto: text("http"), schemes: list(&["x"]), ..Config::default() };
    assert_eq!(async_connect(&session(), &cfg).unwrap_err().message, "Unknown scheme: x");
}

#[test]
fn endpoint_kind_is_known_without_a_session() {
    for (proto, kind) in [
        ("http", ListenerKind::Http),
        ("tcp", ListenerKind::Tcp),
        ("tls", ListenerKind::Tls),
        ("labeled", ListenerKind::Labeled),
    ] {
        let cfg = Config { proto: text(proto), ..Config::default() };
        assert_eq!(endpoint_kind(&cfg), Ok(kind));
    }
}

#[test]
fn endpoint_kind_refuses_what_async_connect_refuses() {
    let cases = [
        Config { proto: text("udp"), ..Config::default() },
        Config::default(),
        Config { proto: text("http"), schemes: list(&["x"]), ..Config::default() },
        Config { proto: text("tls"), key: text("KEY"), ..Config::default() },
        Config { proto: text("labeled"), labels: list(&["nolabel"]), ..Config::default() },
    ];
    for cfg in cases {
        let early = endpoint_kind(&cfg).unwrap_err();
        let late = async_connect(&session(), &cfg).unwrap_err();
        assert_eq!(early, late);
        assert_eq!(early.kind, ErrorKind::Configuration);
    }
    let cfg = Config { proto: text("udp"), ..Config::default() };
    assert_eq!(endpoint_kind(&cfg).unwrap_err().message, "unhandled protocol udp");
}
