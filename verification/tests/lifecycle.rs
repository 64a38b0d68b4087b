use ngrok_nodejs::config::Config;
use ngrok_nodejs::connect::async_connect;
use ngrok_nodejs::connect::connect;
use ngrok_nodejs::connect::disconnect;
use ngrok_nodejs::connect::kill;
use ngrok_nodejs::connect::started;
use ngrok_nodejs::connect::EndpointPlan;
use ngrok_nodejs::error::ErrorKind;
use ngrok_nodejs::listener::canceled_is_ok;
use ngrok_nodejs::listener::close_plan;
use ngrok_nodejs::listener::close_url;
use ngrok_nodejs::listener::forward;
use ngrok_nodejs::listener::get_listener;
use ngrok_nodejs::listener::get_listener_by_url;
use ngrok_nodejs::listener::get_storage_by_id;
use ngrok_nodejs::listener::listeners;
use ngrok_nodejs::listener::new_forwarder;
use ngrok_nodejs::listener::new_labeled;
use ngrok_nodejs::listener::new_listener;
use ngrok_nodejs::listener::remove_global_listener;
use ngrok_nodejs::listener::search_listeners;
use ngrok_nodejs::listener::settle_forward;
use ngrok_nodejs::listener::ConnectCause;
use ngrok_nodejs::listener::EndpointInfo;
use ngrok_nodejs::listener::ForwardOutcome;
use ngrok_nodejs::listener::ForwardPlan;
use ngrok_nodejs::listener::JoinOutcome;
use ngrok_nodejs::listener::LabeledInfo;
use ngrok_nodejs::listener::Listener;
use ngrok_nodejs::listener_builder::forward_destination;
use ngrok_nodejs::listener_builder::Setting;
use ngrok_nodejs::registry::Registry;
use ngrok_nodejs::registry::Role;
use ngrok_nodejs::session::RelayFault;
use ngrok_nodejs::session::Session;
use std::io;
use std::sync::Arc;

fn s(text: &str) -> String {
    text.to_string()
}

fn session(id: &str) -> Session {
    Session { id: s(id) }
}

fn endpoint(id: &str, url: &str) -> EndpointInfo {
    EndpointInfo {
        id: s(id),
        forwards_to: s("app"),
        metadata: s("meta"),
        url: s(url),
        proto: s("https"),
    }
}

fn labeled(id: &str) -> LabeledInfo {
    LabeledInfo {
        id: s(id),
        forwards_to: s("app"),
        metadata: s("meta"),
        labels: vec![(s("edge"), s("edghts_1"))],
    }
}

fn fault(msg: &str, code: Option<&str>) -> RelayFault {
    RelayFault { msg: s(msg), error_code: code.map(s) }
}

fn ids(listeners: &[Listener]) -> Vec<String> {
    listeners.iter().map(|l| l.id()).collect()
}

#[test]
fn opened_http_listener_is_found_with_url_and_proto() {
    let mut registry = Registry::new();
    let builder = session("s1").http_endpoint();
    let handle = builder.listen(&mut registry, Ok(endpoint("tn_1", "https://a.example"))).unwrap();
    let found = get_listener(&registry, s("tn_1")).unwrap();
    assert_eq!(found, handle);
    assert_eq!(found.id(), "tn_1");
    assert_eq!(found.url(), Some(s("https://a.example")));
    assert_eq!(found.proto(), Some(s("https")));
    assert!(found.labels().is_empty());
    assert_eq!(found.forwards_to(), "app");
    assert_eq!(found.metadata(), "meta");
    assert_eq!(found.session_id, "s1");
}

#[test]
fn opened_tcp_and_tls_listeners_are_found_with_url_and_proto() {
    let mut registry = Registry::new();
    let tcp = session("s1").tcp_endpoint();
    let tls = session("s1").tls_endpoint();
    tcp.listen(&mut registry, Ok(endpoint("tn_tcp", "tcp://1.tcp.example:1"))).unwrap();
    tls.listen(&mut registry, Ok(endpoint("tn_tls", "tls://t.example"))).unwrap();
    for (id, url) in [("tn_tcp", "tcp://1.tcp.example:1"), ("tn_tls", "tls://t.example")] {
        let found = get_listener(&registry, s(id)).unwrap();
        assert_eq!(found.id(), id);
        assert_eq!(found.url(), Some(s(url)));
        assert!(found.proto().is_some());
        assert!(found.labels().is_empty());
    }
}

#[test]
fn opened_labeled_listener_is_found_with_labels_only() {
    let mut registry = Registry::new();
    let builder = session("s1").labeled_listener();
    let handle = builder.listen(&mut registry, Ok(labeled("tn_l"))).unwrap();
    let found = get_listener(&registry, s("tn_l")).unwrap();
    assert_eq!(found, handle);
    assert_eq!(found.id(), "tn_l");
    assert_eq!(found.url(), None);
    assert_eq!(found.proto(), None);
    assert_eq!(found.labels(), vec![(s("edge"), s("edghts_1"))]);
}

#[test]
fn failed_open_registers_nothing() {
    let mut registry = Registry::new();
    let builder = session("s1").http_endpoint();
    let e = builder
        .listen(&mut registry, Err(fault("domain is taken", Some("ERR_NGROK_334"))))
        .unwrap_err();
    assert_eq!(e.kind, ErrorKind::Connect);
    assert_eq!(e.message, "failed to start listener: domain is taken error_code: ERR_NGROK_334");
    assert_eq!(registry.len(), 0);
    let e = builder.listen(&mut registry, Err(fault("timeout", None))).unwrap_err();
    assert_eq!(e.message, "failed to start listener: timeout");
}

#[test]
fn listen_and_forward_registers_a_forwarder() {
    let mut registry = Registry::new();
    let builder = session("s1").http_endpoint();
    let handle = builder
        .listen_and_forward(
            &mut registry,
            "tcp://localhost:3000",
            Ok(endpoint("tn_f", "https://f.example")),
        )
        .unwrap();
    assert_eq!(handle.id(), "tn_f");
    assert_eq!(registry.get("tn_f").unwrap().role, Role::Forwarder);
    assert_eq!(forward_destination("tcp://localhost:3000").unwrap(), "tcp://localhost:3000");
}

#[test]
fn listen_and_forward_refuses_what_is_no_url() {
    let mut registry = Registry::new();
    let builder = session("s1").labeled_listener();
    let e = builder.listen_and_forward(&mut registry, ":80", Ok(labeled("tn_l")));
    let e = e.unwrap_err();
    assert_eq!(e.kind, ErrorKind::Configuration);
    assert_eq!(e.message, "Url forward argument parse failure, relative URL without a base");
    assert_eq!(registry.len(), 0);
    assert!(builder
        .listen_and_forward(&mut registry, "localhost:3000", Ok(labeled("tn_l")))
        .is_ok());
    // a destination of forwarding is read as any other
    assert_eq!(forward_destination("3000").unwrap(), "tcp://localhost:3000");
    assert_eq!(forward_destination("/tmp/s.sock").unwrap(), "unix:/tmp/s.sock");
    assert_eq!(forward_destination("backend:80").unwrap(), "tcp://backend:80");
    let e = forward_destination(":80").unwrap_err();
    assert_eq!(e.kind, ErrorKind::Configuration);
    assert_eq!(e.message, "Url forward argument parse failure, relative URL without a base");
}

#[test]
fn close_then_get_is_not_found_and_second_close_is_not_found() {
    let mut registry = Registry::new();
    let handle = new_listener(&mut registry, &session("s1"), endpoint("tn_1", "https://a.example"));
    new_listener(&mut registry, &session("s1"), endpoint("tn_2", "https://b.example"));
    assert_eq!(handle.close(&mut registry, Ok(())), Ok(()));
    assert_eq!(get_listener(&registry, s("tn_1")), None);
    assert!(get_listener(&registry, s("tn_2")).is_some());
    let again = handle.close(&mut registry, Ok(())).unwrap_err();
    assert_eq!(again.kind, ErrorKind::ResourceNotFound);
    assert_eq!(again.message, "Listener is no longer running");
    // whatever the relay says the second time, the answer is the same
    let again = handle.close(&mut registry, Err(fault("no such tunnel", None))).unwrap_err();
    assert_eq!(again.kind, ErrorKind::ResourceNotFound);
    assert_eq!(registry.len(), 1);
}

#[test]
fn close_removes_the_record_even_when_the_relay_fails() {
    let mut registry = Registry::new();
    let handle = new_listener(&mut registry, &session("s1"), endpoint("tn_1", "https://a.example"));
    let e = handle.close(&mut registry, Err(fault("rpc failed", Some("E1")))).unwrap_err();
    assert_eq!(e.kind, ErrorKind::Connect);
    assert_eq!(e.message, "error closing listener: rpc failed error_code: E1");
    assert_eq!(get_listener(&registry, s("tn_1")), None);
    assert_eq!(
        get_storage_by_id(&registry, &s("tn_1")).unwrap_err().message,
        "Listener is no longer running"
    );
}

#[test]
fn dropping_a_handle_leaves_the_listener_registered() {
    let mut registry = Registry::new();
    let handle = new_listener(&mut registry, &session("s1"), endpoint("tn_1", "https://a.example"));
    drop(handle);
    assert!(get_listener(&registry, s("tn_1")).is_some());
    assert_eq!(registry.len(), 1);
}

#[test]
fn list_by_url_goes_by_what_the_listener_was_opened_with() {
    let mut registry = Registry::new();
    new_listener(&mut registry, &session("s1"), endpoint("tn_1", "https://a.example"));
    new_listener(&mut registry, &session("s2"), endpoint("tn_2", "https://b.example"));
    new_listener(&mut registry, &session("s2"), endpoint("tn_3", "https://a.example"));
    new_labeled(&mut registry, Role::Listener, &session("s1"), labeled("tn_4"));
    let by_url = search_listeners(&registry, None, Some(s("https://a.example")));
    assert_eq!(ids(&by_url), vec!["tn_1", "tn_3"]);
    assert!(by_url.iter().all(|l| l.url() == Some(s("https://a.example"))));
    assert_eq!(ids(&listeners(&registry)), vec!["tn_1", "tn_2", "tn_3", "tn_4"]);
    assert_eq!(ids(&session("s2").listeners(&registry)), vec!["tn_2", "tn_3"]);
    assert_eq!(get_listener_by_url(&registry, s("https://a.example")).unwrap().id(), "tn_1");
    assert_eq!(get_listener_by_url(&registry, s("https://c.example")), None);
    // a handle taken before still shows what the listener was opened with
    let handle = get_listener(&registry, s("tn_2")).unwrap();
    new_listener(&mut registry, &session("s2"), endpoint("tn_2", "https://moved.example"));
    assert_eq!(handle.url(), Some(s("https://b.example")));
    assert_eq!(ids(&search_listeners(&registry, None, Some(s("https://b.example")))).len(), 0);
}

#[test]
fn forward_needs_a_registered_listener() {
    let registry = Registry::new();
    let e = forward(&registry, &s("tn_gone"), s("3000")).unwrap_err();
    assert_eq!(e.kind, ErrorKind::ResourceNotFound);
    assert_eq!(e.message, "Listener is no longer running");
}

#[test]
fn forward_plans_the_url_to_forward_to() {
    let mut registry = Registry::new();
    let handle = new_listener(&mut registry, &session("s1"), endpoint("tn_1", "https://a.example"));
    let plan = handle.forward(&registry, s("localhost:3000")).unwrap();
    assert_eq!(plan, ForwardPlan { id: s("tn_1"), url: s("tcp://localhost:3000") });
    let plan = forward(&registry, &s("tn_1"), s("/tmp/s.sock")).unwrap();
    assert_eq!(plan.url, "unix:/tmp/s.sock");
    let plan = forward(&registry, &s("tn_1"), s("localhost:80/s.sock")).unwrap();
    assert_eq!(plan.url, "unix:localhost:80/s.sock");
    let plan = forward(&registry, &s("tn_1"), s("8080")).unwrap();
    assert_eq!(plan.url, "tcp://localhost:8080");
    let e = forward(&registry, &s("tn_1"), s(":80")).unwrap_err();
    assert_eq!(e.kind, ErrorKind::Configuration);
    assert_eq!(e.message, "Cannot parse address: :80, error: relative URL without a base");
}

#[test]
fn forwarder_cannot_be_forwarded_by_hand() {
    let mut registry = Registry::new();
    let handle = new_forwarder(&mut registry, &session("s1"), endpoint("tn_f", "https://f.example"));
    let e = handle.forward(&registry, s("3000")).unwrap_err();
    assert_eq!(e.kind, ErrorKind::Configuration);
    assert_eq!(e.message, "listener is not forwardable");
}

#[test]
fn canceled_connect_behind_a_forwarding_error_is_success() {
    let cause = ngrok::tunnel::AcceptError::Reconnect(Arc::new(
        ngrok::session::ConnectError::Canceled,
    ));
    let error = io::Error::new(io::ErrorKind::NotConnected, cause);
    assert_eq!(canceled_is_ok(Err(error)), Ok(()));
    assert_eq!(canceled_is_ok(Ok(())), Ok(()));
}

#[test]
fn other_forwarding_errors_are_reported() {
    let error = io::Error::new(io::ErrorKind::ConnectionRefused, "refused");
    let e = canceled_is_ok(Err(error)).unwrap_err();
    assert_eq!(e.kind, ErrorKind::ForwardingIo);
    assert_eq!(
        e.message,
        format!("error forwarding: {:?}", io::Error::new(io::ErrorKind::ConnectionRefused, "refused"))
    );

    let closed = ngrok::tunnel::AcceptError::ListenerClosed {
        message: s("closed"),
        error_code: None,
    };
    let e = canceled_is_ok(Err(io::Error::new(io::ErrorKind::NotConnected, closed))).unwrap_err();
    assert_eq!(e.kind, ErrorKind::ForwardingIo);
    assert!(e.message.starts_with("error forwarding: "));

    let tcp = ngrok::session::ConnectError::Tcp(io::Error::new(io::ErrorKind::Other, "down"));
    let cause = ngrok::tunnel::AcceptError::Reconnect(Arc::new(tcp));
    let e = canceled_is_ok(Err(io::Error::new(io::ErrorKind::NotConnected, cause))).unwrap_err();
    assert_eq!(e.kind, ErrorKind::ForwardingIo);
}

#[test]
fn settle_forward_decides_by_the_cause() {
    assert_eq!(settle_forward(ForwardOutcome::Ended), Ok(()));
    let canceled = ForwardOutcome::Failed { cause: Some(ConnectCause::Canceled), detail: s("x") };
    assert_eq!(settle_forward(canceled), Ok(()));
    for cause in [
        None,
        Some(ConnectCause::Tcp),
        Some(ConnectCause::Tls),
        Some(ConnectCause::Start),
        Some(ConnectCause::Auth),
        Some(ConnectCause::Rebind),
        Some(ConnectCause::ProxyConnect),
        Some(ConnectCause::Unknown),
    ] {
        let e = settle_forward(ForwardOutcome::Failed { cause, detail: s("boom") }).unwrap_err();
        assert_eq!(e.kind, ErrorKind::ForwardingIo);
        assert_eq!(e.message, "error forwarding: boom");
    }
}

#[test]
fn join_needs_a_forwarder_and_removes_it_when_the_task_is_over() {
    let mut registry = Registry::new();
    let plain = new_listener(&mut registry, &session("s1"), endpoint("tn_1", "https://a.example"));
    let e = plain.join(&mut registry, JoinOutcome::Finished).unwrap_err();
    assert_eq!(e.kind, ErrorKind::Configuration);
    assert_eq!(e.message, "Listener is not joinable");
    assert_eq!(registry.len(), 1);
    assert_eq!(plain.joinable(&registry).unwrap_err().message, "Listener is not joinable");

    let fwd = new_forwarder(&mut registry, &session("s1"), endpoint("tn_f", "https://f.example"));
    assert_eq!(fwd.joinable(&registry), Ok(()));
    assert_eq!(fwd.join(&mut registry, JoinOutcome::Finished), Ok(()));
    assert_eq!(get_listener(&registry, s("tn_f")), None);
    let e = fwd.join(&mut registry, JoinOutcome::Finished).unwrap_err();
    assert_eq!(e.kind, ErrorKind::ResourceNotFound);
    assert_eq!(e.message, "Listener is no longer running");
}

#[test]
fn join_reports_how_the_task_failed() {
    let mut registry = Registry::new();
    let fwd = new_forwarder(&mut registry, &session("s1"), endpoint("tn_f", "https://f.example"));
    let e = fwd.join(&mut registry, JoinOutcome::TaskFailed(s("JoinError::Panic"))).unwrap_err();
    assert_eq!(e.kind, ErrorKind::ForwardingIo);
    assert_eq!(e.message, "error on join: JoinError::Panic");
    let fwd = new_forwarder(&mut registry, &session("s1"), endpoint("tn_g", "https://g.example"));
    let e = fwd.join(&mut registry, JoinOutcome::ForwardFailed(s("io"))).unwrap_err();
    assert_eq!(e.message, "error on join: io");
}

#[test]
fn close_url_closes_what_was_opened_with_the_url() {
    let mut registry = Registry::new();
    new_listener(&mut registry, &session("s1"), endpoint("tn_1", "https://a.example"));
    new_listener(&mut registry, &session("s1"), endpoint("tn_2", "https://b.example"));
    new_listener(&mut registry, &session("s2"), endpoint("tn_3", "https://a.example"));
    let url = Some(s("https://a.example"));
    assert_eq!(close_plan(&registry, &url), vec!["tn_1", "tn_3"]);
    assert_eq!(close_url(&mut registry, url, None), Ok(()));
    assert_eq!(ids(&listeners(&registry)), vec!["tn_2"]);
}

#[test]
fn close_url_stops_at_the_first_failure_and_removes_nothing() {
    let mut registry = Registry::new();
    new_listener(&mut registry, &session("s1"), endpoint("tn_1", "https://a.example"));
    new_listener(&mut registry, &session("s1"), endpoint("tn_2", "https://b.example"));
    let e = close_url(&mut registry, None, Some(fault("rpc failed", None))).unwrap_err();
    assert_eq!(e.kind, ErrorKind::Connect);
    assert_eq!(e.message, "error closing listener: rpc failed");
    assert_eq!(ids(&listeners(&registry)), vec!["tn_1", "tn_2"]);
}

#[test]
fn close_all_empties_the_registry_and_forwarding_ends_well() {
    let mut registry = Registry::new();
    let handle = new_listener(&mut registry, &session("s1"), endpoint("tn_1", "https://a.example"));
    new_labeled(&mut registry, Role::Listener, &session("s1"), labeled("tn_2"));
    handle.forward(&registry, s("localhost:3000")).unwrap();
    assert_eq!(close_plan(&registry, &None), vec!["tn_1", "tn_2"]);
    assert_eq!(close_url(&mut registry, None, None), Ok(()));
    assert_eq!(registry.len(), 0);
    // the forwarding loop sees its accept canceled, which is no error
    let cause = ngrok::tunnel::AcceptError::Reconnect(Arc::new(
        ngrok::session::ConnectError::Canceled,
    ));
    assert_eq!(canceled_is_ok(Err(io::Error::new(io::ErrorKind::NotConnected, cause))), Ok(()));
}

#[test]
fn disconnect_of_everything_lets_the_kept_session_go() {
    let mut registry = Registry::new();
    new_listener(&mut registry, &session("s1"), endpoint("tn_1", "https://a.example"));
    let mut kept = Some(session("s1"));
    let url = Some(s("https://a.example"));
    assert_eq!(disconnect(&mut registry, &mut kept, url, None), Ok(()));
    assert_eq!(kept, Some(session("s1")));
    assert_eq!(registry.len(), 0);

    new_listener(&mut registry, &session("s1"), endpoint("tn_2", "https://b.example"));
    let e = kill(&mut registry, &mut kept, Some(fault("down", None))).unwrap_err();
    assert_eq!(e.message, "error closing listener: down");
    assert_eq!(kept, Some(session("s1")));
    assert_eq!(registry.len(), 1);

    assert_eq!(kill(&mut registry, &mut kept, None), Ok(()));
    assert_eq!(kept, None);
    assert_eq!(registry.len(), 0);
}

#[test]
fn session_close_listener_removes_only_on_success() {
    let mut registry = Registry::new();
    let sess = session("s1");
    new_listener(&mut registry, &sess, endpoint("tn_1", "https://a.example"));
    let e = sess.close_listener(&mut registry, s("tn_1"), Err(fault("busy", None))).unwrap_err();
    assert_eq!(e.kind, ErrorKind::Connect);
    assert_eq!(e.message, "failed to close listener: busy");
    assert!(get_listener(&registry, s("tn_1")).is_some());
    assert_eq!(sess.close_listener(&mut registry, s("tn_1"), Ok(())), Ok(()));
    assert_eq!(get_listener(&registry, s("tn_1")), None);
}

#[test]
fn session_close_removes_the_sessions_listeners() {
    let mut registry = Registry::new();
    new_listener(&mut registry, &session("s1"), endpoint("tn_1", "https://a.example"));
    new_listener(&mut registry, &session("s2"), endpoint("tn_2", "https://b.example"));
    new_forwarder(&mut registry, &session("s1"), endpoint("tn_3", "https://c.example"));
    let e = session("s1").close(&mut registry, Err(fault("nope", None))).unwrap_err();
    assert_eq!(e.message, "failed to close session: nope");
    assert_eq!(registry.len(), 3);
    assert_eq!(session("s1").close(&mut registry, Ok(())), Ok(()));
    assert_eq!(ids(&listeners(&registry)), vec!["tn_2"]);
}

#[test]
fn remove_global_listener_forgets_the_id() {
    let mut registry = Registry::new();
    new_listener(&mut registry, &session("s1"), endpoint("tn_1", "https://a.example"));
    remove_global_listener(&mut registry, &s("tn_1"));
    assert_eq!(registry.len(), 0);
    remove_global_listener(&mut registry, &s("tn_1"));
    assert_eq!(registry.len(), 0);
}

#[test]
fn http_listener_forwarded_to_a_port_and_closed() {
    // a host asks for an http listener on a domain, forwarding to port 3000
    let cfg = Config {
        domain: Some(s("test.example")),
        addr: Some(s("3000")),
        ..Config::default()
    };
    let plan = connect(cfg, None, false, false);
    assert!(plan.warnings.is_empty());
    assert_eq!(plan.config.proto, Some(s("http")));
    assert_eq!(plan.config.addr, Some(s("tcp://localhost:3000")));

    let sess = session("s1");
    let builder = match async_connect(&sess, &plan.config).unwrap() {
        EndpointPlan::Http(b) => b,
        other => panic!("unexpected {other:?}"),
    };
    assert_eq!(builder.settings, vec![Setting::Domain(s("test.example"))]);

    let mut registry = Registry::new();
    builder.listen(&mut registry, Ok(endpoint("tn_1", "https://test.example"))).unwrap();
    let listener = started(&registry, s("tn_1")).unwrap();

    // an inbound connection is dialled to the URL of the plan
    let fwd = listener.forward(&registry, plan.config.addr.clone().unwrap()).unwrap();
    assert_eq!(fwd, ForwardPlan { id: s("tn_1"), url: s("tcp://localhost:3000") });
    // and so it is when the host forwards to the bare port itself
    let fwd = listener.forward(&registry, s("3000")).unwrap();
    assert_eq!(fwd, ForwardPlan { id: s("tn_1"), url: s("tcp://localhost:3000") });

    // closing ends the forwarding loop with a canceled accept: no error
    assert_eq!(listener.close(&mut registry, Ok(())), Ok(()));
    let cause = ngrok::tunnel::AcceptError::Reconnect(Arc::new(
        ngrok::session::ConnectError::Canceled,
    ));
    assert_eq!(canceled_is_ok(Err(io::Error::new(io::ErrorKind::NotConnected, cause))), Ok(()));
    assert_eq!(get_listener(&registry, s("tn_1")), None);
    let e = started(&registry, s("tn_1")).unwrap_err();
    assert_eq!(e.kind, ErrorKind::Connect);
    assert_eq!(e.message, "failed to start listener");
}

#[test]
fn labeled_listener_holds_each_label_once() {
    let mut registry = Registry::new();
    let info = LabeledInfo {
        id: s("tn_l"),
        forwards_to: s("app"),
        metadata: s("meta"),
        labels: vec![(s("edge"), s("one")), (s("env"), s("prod")), (s("edge"), s("two"))],
    };
    let handle = session("s1").labeled_listener().listen(&mut registry, Ok(info)).unwrap();
    assert_eq!(handle.labels(), vec![(s("env"), s("prod")), (s("edge"), s("two"))]);
    assert_eq!(get_listener(&registry, s("tn_l")).unwrap(), handle);
}
