use tls_proxy::{
    Answer, ApplicationListener, Command, HttpFront, HttpProxyOrder, HttpState, Instance,
    RequestLine, Routes, Server, ServerMessage, SocketAddr, Token,
};

fn front(app: &str, host: &str) -> HttpFront {
    HttpFront {
        app_id: String::from(app),
        hostname: String::from(host),
        path_begin: String::from("/"),
    }
}

fn v4(port: u16) -> SocketAddr {
    SocketAddr::V4 { octets: 0x7f00_0001, port }
}

fn instance(app: &str, ip: &str, port: u16) -> Instance {
    Instance { app_id: String::from(app), ip_address: String::from(ip), port }
}

fn server() -> Server {
    Server::new(ApplicationListener { token: Token(0), front_address: v4(8080) }, 4)
}

fn has_host(host: &str) -> HttpState {
    HttpState::HasHost(
        0,
        RequestLine {
            method: String::from("GET"),
            uri: String::from("/"),
            version: String::from("HTTP/1.1"),
        },
        String::from(host),
    )
}

#[test]
fn unknown_host_has_no_backend() {
    let routes = Routes::new();
    assert_eq!(routes.backend_from_request("localhost", "/"), None);
    assert!(routes.can_draw("localhost"));
}

#[test]
fn front_without_instances_has_no_backend() {
    let mut routes = Routes::new();
    routes.add_http_front(front("app_1", "localhost"));
    assert_eq!(routes.backend_from_request("localhost", "/"), None);
    assert!(routes.can_draw("localhost"));
}

#[test]
fn single_instance_is_drawn() {
    let mut routes = Routes::new();
    routes.add_http_front(front("app_1", "localhost:1024"));
    routes.add_instance("app_1", &v4(1025));
    assert_eq!(routes.backend_from_request("localhost:1024", "/"), Some(v4(1025)));
    assert_eq!(routes.backend_from_request("localhost", "/"), None);
}

#[test]
fn drawn_number_selects_the_instance() {
    let mut routes = Routes::new();
    routes.add_http_front(front("app_1", "h"));
    routes.add_instance("app_1", &v4(1));
    routes.add_instance("app_1", &v4(2));
    routes.add_instance("app_1", &v4(3));
    assert_eq!(routes.instance_for("h", "/", 0), Some(v4(1)));
    assert_eq!(routes.instance_for("h", "/", 4), Some(v4(2)));
    assert_eq!(routes.instance_for("h", "/", 8), Some(v4(3)));
    assert_eq!(routes.instance_for("other", "/", 8), None);
}

#[test]
fn random_draw_reaches_every_instance() {
    let mut routes = Routes::new();
    routes.add_http_front(front("app_1", "h"));
    routes.add_instance("app_1", &v4(1));
    routes.add_instance("app_1", &v4(2));
    let mut seen = [false, false];
    for _ in 0..1000 {
        match routes.backend_from_request("h", "/") {
            Some(SocketAddr::V4 { port, .. }) => seen[(port - 1) as usize] = true,
            other => panic!("unexpected {:?}", other),
        }
    }
    assert_eq!(seen, [true, true]);
}

#[test]
fn first_front_of_a_host_decides() {
    let mut routes = Routes::new();
    routes.add_instance("app_1", &v4(1));
    routes.add_instance("app_2", &v4(2));
    routes.add_http_front(front("app_1", "h"));
    routes.add_http_front(front("app_2", "h"));
    assert_eq!(routes.backend_from_request("h", "/"), Some(v4(1)));
    routes.remove_http_front(front("app_1", "h"));
    assert_eq!(routes.backend_from_request("h", "/"), Some(v4(2)));
    routes.remove_http_front(front("app_2", "h"));
    assert_eq!(routes.backend_from_request("h", "/"), None);
}

#[test]
fn removing_a_front_removes_every_copy() {
    let mut routes = Routes::new();
    routes.add_instance("app_1", &v4(1));
    routes.add_http_front(front("app_1", "h"));
    routes.add_http_front(front("app_1", "h"));
    routes.remove_http_front(front("app_1", "h"));
    assert_eq!(routes.backend_from_request("h", "/"), None);
}

#[test]
fn fronts_that_differ_in_the_path_are_kept() {
    let mut routes = Routes::new();
    routes.add_instance("app_1", &v4(1));
    routes.add_http_front(front("app_1", "h"));
    let mut other = front("app_1", "h");
    other.path_begin = String::from("/other");
    routes.remove_http_front(other);
    assert_eq!(routes.backend_from_request("h", "/"), Some(v4(1)));
}

#[test]
fn removing_an_unknown_front_changes_nothing() {
    let mut routes = Routes::new();
    routes.add_instance("app_1", &v4(1));
    routes.add_http_front(front("app_1", "h"));
    routes.remove_http_front(front("app_1", "unknown"));
    routes.remove_instance("unknown", &v4(1));
    assert_eq!(routes.backend_from_request("h", "/"), Some(v4(1)));
}

#[test]
fn removed_instance_is_not_drawn() {
    let mut routes = Routes::new();
    routes.add_http_front(front("app_1", "h"));
    routes.add_instance("app_1", &v4(1));
    routes.add_instance("app_1", &v4(2));
    routes.add_instance("app_1", &v4(1));
    routes.remove_instance("app_1", &v4(1));
    for draw in 0..10usize {
        assert_eq!(routes.instance_for("h", "/", draw), Some(v4(2)));
    }
}

#[test]
fn last_instance_removed_leaves_nothing_to_draw() {
    let mut routes = Routes::new();
    routes.add_http_front(front("app_1", "h"));
    routes.add_instance("app_1", &v4(1));
    assert!(routes.can_draw("h"));
    routes.remove_instance("app_1", &v4(1));
    assert!(!routes.can_draw("h"));
    routes.add_instance("app_1", &v4(2));
    assert_eq!(routes.backend_from_request("h", "/"), Some(v4(2)));
}

#[test]
fn addresses_are_compared_in_full() {
    let mut routes = Routes::new();
    let kept = SocketAddr::V6 { segments: 1, port: 80, flowinfo: 0, scope_id: 0 };
    let gone = SocketAddr::V6 { segments: 1, port: 80, flowinfo: 0, scope_id: 7 };
    routes.add_http_front(front("app_1", "h"));
    routes.add_instance("app_1", &kept);
    routes.add_instance("app_1", &gone);
    routes.remove_instance("app_1", &gone);
    assert_eq!(routes.backend_from_request("h", "/"), Some(kept));
}

#[test]
fn instance_address_is_written_out() {
    assert_eq!(instance("app_1", "127.0.0.1", 1025).address(), "127.0.0.1:1025");
    assert_eq!(instance("app_1", "10.0.0.1", 0).address(), "10.0.0.1:0");
    assert_eq!(instance("app_1", "[::1]", 65535).address(), "[::1]:65535");
    assert_eq!(instance("app_1", "h", 9876).address(), "h:9876");
    assert_eq!(instance("app_1", "h", 3240).address(), "h:3240");
}

#[test]
fn orders_name_their_address() {
    let add = HttpProxyOrder::Command(Command::AddInstance(instance("a", "1.2.3.4", 5)));
    let remove = HttpProxyOrder::Command(Command::RemoveInstance(instance("a", "1.2.3.4", 6)));
    assert_eq!(add.address(), Some(String::from("1.2.3.4:5")));
    assert_eq!(remove.address(), Some(String::from("1.2.3.4:6")));
    assert_eq!(HttpProxyOrder::Stop.address(), None);
    assert_eq!(HttpProxyOrder::Command(Command::AddHttpFront(front("a", "h"))).address(), None);
}

#[test]
fn orders_are_carried_out_and_answered() {
    let mut server = server();
    let add_front = HttpProxyOrder::Command(Command::AddHttpFront(front("app_1", "h")));
    assert_eq!(server.notify(add_front, None), Answer::Message(ServerMessage::AddedHttpFront));
    assert_eq!(server.backend_from_request("h", "/"), None);

    let add = HttpProxyOrder::Command(Command::AddInstance(instance("app_1", "127.0.0.1", 1025)));
    assert_eq!(server.notify(add, Some(v4(1025))), Answer::Message(ServerMessage::AddedInstance));
    assert_eq!(server.backend_from_request("h", "/"), Some(v4(1025)));

    let add = HttpProxyOrder::Command(Command::AddInstance(instance("app_1", "127.0.0.1", 1026)));
    assert_eq!(server.notify(add, Some(v4(1026))), Answer::Message(ServerMessage::AddedInstance));
    let remove =
        HttpProxyOrder::Command(Command::RemoveInstance(instance("app_1", "127.0.0.1", 1025)));
    assert_eq!(
        server.notify(remove, Some(v4(1025))),
        Answer::Message(ServerMessage::RemovedInstance)
    );
    assert_eq!(server.backend_from_request("h", "/"), Some(v4(1026)));

    let remove_front = HttpProxyOrder::Command(Command::RemoveHttpFront(front("app_1", "h")));
    assert_eq!(server.notify(remove_front, None), Answer::Message(ServerMessage::RemovedHttpFront));
    assert_eq!(server.backend_from_request("h", "/"), None);
}

#[test]
fn unusable_orders_change_nothing() {
    let mut server = server();
    server.add_http_front(front("app_1", "h"));
    server.add_instance("app_1", &v4(1));
    let add = HttpProxyOrder::Command(Command::AddInstance(instance("app_1", "nonsense", 2)));
    assert_eq!(server.notify(add, None), Answer::Nothing);
    let remove = HttpProxyOrder::Command(Command::RemoveInstance(instance("app_1", "nonsense", 1)));
    assert_eq!(server.notify(remove, None), Answer::Nothing);
    assert_eq!(server.notify(HttpProxyOrder::Command(Command::Other), None), Answer::Nothing);
    assert_eq!(server.notify(HttpProxyOrder::Stop, None), Answer::Shutdown);
    assert_eq!(server.backend_from_request("h", "/"), Some(v4(1)));
}

#[test]
fn drawing_from_an_empty_list_is_noticed() {
    let mut server = server();
    server.add_http_front(front("app_1", "h"));
    assert!(server.can_draw(&has_host("h")));
    server.add_instance("app_1", &v4(1));
    assert!(server.can_draw(&has_host("h")));
    server.remove_instance("app_1", &v4(1));
    assert!(!server.can_draw(&has_host("h")));
    assert!(server.can_draw(&has_host("other")));
    assert!(server.can_draw(&HttpState::Initial));
}

#[test]
fn added_instance_can_be_drawn() {
    let mut routes = Routes::new();
    routes.add_http_front(front("app_1", "localhost"));
    routes.add_instance("app_1", &v4(1025));
    routes.add_instance("app_1", &v4(1026));
    assert_eq!(routes.instance_for("localhost", "/", 1), Some(v4(1026)));
    assert_eq!(routes.instance_for("localhost", "/", 2), Some(v4(1025)));
}

#[test]
fn instance_may_come_before_its_front() {
    let mut routes = Routes::new();
    routes.add_instance("app_1", &v4(1025));
    assert_eq!(routes.backend_from_request("localhost", "/"), None);
    routes.add_http_front(front("app_1", "localhost"));
    assert_eq!(routes.backend_from_request("localhost", "/"), Some(v4(1025)));
}
