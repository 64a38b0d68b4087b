use ngrok_nodejs::error::ErrorKind;
use ngrok_nodejs::listener::EndpointInfo;
use ngrok_nodejs::listener::LabeledInfo;
use ngrok_nodejs::registry::Registry;
use ngrok_nodejs::session::RelayFault;
use ngrok_nodejs::session::Session;
use ngrok_nodejs::tunnel::forward;
use ngrok_nodejs::tunnel::forward_target;
use ngrok_nodejs::tunnel::get_tunnel;
use ngrok_nodejs::tunnel::get_tunnel_by_url;
use ngrok_nodejs::tunnel::new_labeled_tunnel;
use ngrok_nodejs::tunnel::new_tunnel;
use ngrok_nodejs::tunnel::search_tunnels;
use ngrok_nodejs::tunnel::tunnels;
use ngrok_nodejs::tunnel::ForwardTarget;

fn s(text: &str) -> String {
    text.to_string()
}

fn session() -> Session {
    Session { id: s("s1") }
}

fn endpoint(id: &str, url: &str) -> EndpointInfo {
    EndpointInfo { id: s(id), forwards_to: s("app"), metadata: s("m"), url: s(url), proto: s("tcp") }
}

#[test]
fn bare_port_and_host_port_are_tcp() {
    assert_eq!(forward_target(s("8080")), ForwardTarget::Tcp(s("localhost:8080")));
    assert_eq!(forward_target(s("3000")), ForwardTarget::Tcp(s("localhost:3000")));
    assert_eq!(forward_target(s("2147483648")), ForwardTarget::Tcp(s("2147483648")));
    assert_eq!(forward_target(s("example.com:80")), ForwardTarget::Tcp(s("example.com:80")));
    assert_eq!(forward_target(s("localhost:8080")), ForwardTarget::Tcp(s("localhost:8080")));
}

#[test]
fn path_is_a_local_socket() {
    assert_eq!(forward_target(s("/tmp/s.sock")), ForwardTarget::Pipe(s("/tmp/s.sock")));
    assert_eq!(forward_target(s("rel/s.sock")), ForwardTarget::Pipe(s("rel/s.sock")));
}

#[test]
fn local_socket_scheme_is_stripped() {
    assert_eq!(forward_target(s("unix:/tmp/s.sock")), ForwardTarget::Pipe(s("/tmp/s.sock")));
    assert_eq!(forward_target(s("unix:s.sock")), ForwardTarget::Pipe(s("s.sock")));
    assert_eq!(forward_target(s("pipe:my-pipe")), ForwardTarget::Pipe(s("my-pipe")));
    assert_eq!(forward_target(s("pipe://./my-pipe")), ForwardTarget::Pipe(s("//./my-pipe")));
    assert_eq!(forward_target(s("pipe:unix:x")), ForwardTarget::Pipe(s("x")));
    assert_eq!(forward_target(s("unix:pipe:x")), ForwardTarget::Pipe(s("pipe:x")));
}

#[test]
fn path_separator_wins_over_the_shape_of_host_and_port() {
    assert_eq!(forward_target(s("a/b:80")), ForwardTarget::Pipe(s("a/b:80")));
    assert_eq!(forward_target(s("host:80/x")), ForwardTarget::Pipe(s("host:80/x")));
}

#[test]
fn forward_needs_a_registered_tunnel() {
    let mut registry = Registry::new();
    let e = forward(&registry, &s("tn_1"), s("8080")).unwrap_err();
    assert_eq!(e.kind, ErrorKind::ResourceNotFound);
    assert_eq!(e.message, "Tunnel is no longer running");
    let tunnel = new_tunnel(&mut registry, &session(), endpoint("tn_1", "tcp://1.example:1"));
    assert_eq!(tunnel.forward(&registry, s("8080")), Ok(ForwardTarget::Tcp(s("localhost:8080"))));
    assert_eq!(
        tunnel.forward(&registry, s("backend:8080")),
        Ok(ForwardTarget::Tcp(s("backend:8080")))
    );
    assert_eq!(
        forward(&registry, &s("tn_1"), s("unix:/tmp/s.sock")),
        Ok(ForwardTarget::Pipe(s("/tmp/s.sock")))
    );
}

#[test]
fn tunnels_are_found_by_id_and_by_url() {
    let mut registry = Registry::new();
    let a = new_tunnel(&mut registry, &session(), endpoint("tn_1", "https://a.example"));
    new_tunnel(&mut registry, &session(), endpoint("tn_2", "https://b.example"));
    let labels = vec![(s("edge"), s("e1"))];
    let info = LabeledInfo { id: s("tn_3"), forwards_to: s("app"), metadata: s("m"), labels };
    let l = new_labeled_tunnel(&mut registry, &session(), info);
    assert_eq!(get_tunnel(&registry, s("tn_1")), Some(a.clone()));
    assert_eq!(a.id(), "tn_1");
    assert_eq!(a.url(), Some(s("https://a.example")));
    assert_eq!(a.proto(), Some(s("tcp")));
    assert_eq!(a.forwards_to(), "app");
    assert_eq!(a.metadata(), "m");
    assert!(a.labels().is_empty());
    assert_eq!(l.url(), None);
    assert_eq!(l.proto(), None);
    assert_eq!(l.labels(), vec![(s("edge"), s("e1"))]);
    assert_eq!(get_tunnel(&registry, s("tn_9")), None);
    assert_eq!(get_tunnel_by_url(&registry, s("https://b.example")).unwrap().id(), "tn_2");
    assert_eq!(get_tunnel_by_url(&registry, s("https://c.example")), None);
    assert_eq!(tunnels(&registry).len(), 3);
    assert_eq!(search_tunnels(&registry, Some(s("s2")), None).len(), 0);
}

#[test]
fn closed_tunnel_is_not_found_and_second_close_says_so() {
    let mut registry = Registry::new();
    let tunnel = new_tunnel(&mut registry, &session(), endpoint("tn_1", "https://a.example"));
    let fault = RelayFault { msg: s("rpc failed"), error_code: None };
    let e = tunnel.close(&mut registry, Err(fault)).unwrap_err();
    assert_eq!(e.kind, ErrorKind::Connect);
    assert_eq!(e.message, "error closing tunnel: rpc failed");
    assert_eq!(get_tunnel(&registry, s("tn_1")), None);
    let e = tunnel.close(&mut registry, Ok(())).unwrap_err();
    assert_eq!(e.kind, ErrorKind::ResourceNotFound);
    assert_eq!(e.message, "Tunnel is no longer running");
}
