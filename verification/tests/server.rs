use tls_proxy::{
    ApplicationListener, BackRead, BackWrite, Client, Connection, ConnectionStatus, Directive,
    Effect, EventSet, FrontRead, FrontWrite, HttpFront, HttpState, Readiness, Reply, Request,
    RequestLine, Server, Side, SocketAddr, Stage, Target, Token,
};

fn address(port: u16) -> SocketAddr {
    SocketAddr::V4 { octets: 0x7f00_0001, port }
}

fn front() -> HttpFront {
    HttpFront {
        app_id: String::from("app_1"),
        hostname: String::from("localhost:1024"),
        path_begin: String::from("/"),
    }
}

fn server(max_connections: usize) -> Server {
    let listener = ApplicationListener { token: Token(0), front_address: address(1024) };
    let mut server = Server::new(listener, max_connections);
    server.add_http_front(front());
    server.add_instance("app_1", &address(1025));
    server
}

fn has_host(host: &str) -> HttpState {
    let line = RequestLine {
        method: String::from("GET"),
        uri: String::from("/"),
        version: String::from("HTTP/1.1"),
    };
    HttpState::HasHost(16, line, String::from(host))
}

fn hup() -> EventSet {
    EventSet { readable: false, writable: false, error: false, hup: true }
}

fn set(readable: bool, writable: bool) -> EventSet {
    EventSet { readable, writable, error: true, hup: true }
}

/// Accepts a client; the result is its token.
fn accept(server: &mut Server) -> Token {
    server.accept(true).0.unwrap()
}

/// Accepts a client and connects it to the instance.
fn connect(server: &mut Server) -> (Token, Token) {
    let token = accept(server);
    server.readable(token, FrontRead::Received(b"GET / HTTP/1.1\r\n".to_vec()));
    server.headers_parsed(token, has_host("localhost:1024"));
    match server.connect_to_backend(token) {
        Connection::To(found) => assert_eq!(found, address(1025)),
        other => panic!("unexpected {:?}", other),
    }
    server.backend_connected(token, true);
    (token, server.client(token).backend_token().unwrap())
}

fn start(server: &mut Server, token: Token, events: EventSet) -> (Readiness, Directive) {
    let mut job = Readiness::new(token, events);
    let directive = server.ready(&mut job, Reply::Nothing);
    (job, directive)
}

/// Continues until the notification has been dealt with.
fn finish(server: &mut Server, job: &mut Readiness) {
    for _ in 0..8 {
        match server.ready(job, Reply::Nothing).request {
            Request::Continue => {}
            Request::Done => return,
            other => panic!("unexpected {:?}", other),
        }
    }
    panic!("the notification does not end");
}

const CLOSE_FRONT: [Effect; 3] = [
    Effect::Shutdown { side: Side::Front },
    Effect::Deregister { side: Side::Front },
    Effect::Release,
];

const CLOSE_BOTH: [Effect; 5] = [
    Effect::Shutdown { side: Side::Front },
    Effect::Deregister { side: Side::Front },
    Effect::Shutdown { side: Side::Back },
    Effect::Deregister { side: Side::Back },
    Effect::Release,
];

#[test]
fn accepted_client_is_registered() {
    let mut server = server(2);
    let (token, effects) = server.accept(true);
    let token = token.unwrap();
    assert_eq!(token, Token(1));
    assert_eq!(
        effects,
        vec![Effect::Register {
            side: Side::Front,
            token,
            interest: EventSet::readable(),
            oneshot: false,
        }]
    );
    assert_eq!(server.client(token).status(), ConnectionStatus::ClientConnected);
    assert_eq!(server.target(token), Target::Client(token));
    assert_eq!(server.client(token).tokens(), None);
}

#[test]
fn failed_accept_changes_nothing() {
    let mut server = server(2);
    assert_eq!(server.accept(false), (None, vec![]));
    assert_eq!(server.target(Token(1)), Target::Nobody);
}

#[test]
fn clients_are_turned_away_when_all_tokens_are_taken() {
    let mut server = server(2);
    let first = accept(&mut server);
    let second = accept(&mut server);
    assert_ne!(first, second);
    assert_eq!(server.accept(true), (None, vec![]));
    assert_eq!(server.close_client(first), CLOSE_FRONT.to_vec());
    assert_eq!(server.target(first), Target::Nobody);
    assert_eq!(accept(&mut server), first);
    assert_eq!(server.accept(true), (None, vec![]));
}

#[test]
fn server_without_tokens_takes_nobody() {
    let mut server = server(0);
    assert_eq!(server.accept(true), (None, vec![]));
}

#[test]
fn tokens_lead_to_their_owners() {
    let mut server = server(2);
    let (token, back) = connect(&mut server);
    assert_eq!((token, back), (Token(1), Token(3)));
    assert_eq!(server.target(Token(0)), Target::Listener);
    assert_eq!(server.target(Token(1)), Target::Client(Token(1)));
    assert_eq!(server.target(Token(2)), Target::Nobody);
    assert_eq!(server.target(Token(3)), Target::Backend(Token(1)));
    assert_eq!(server.target(Token(4)), Target::Nobody);
    assert_eq!(server.target(Token(5)), Target::Nobody);
    assert_eq!(server.target(Token(usize::MAX)), Target::Nobody);
}

#[test]
fn connected_client_is_proxied() {
    let mut server = server(2);
    let token = accept(&mut server);
    server.readable(token, FrontRead::Received(b"abc".to_vec()));
    server.headers_parsed(token, has_host("localhost:1024"));
    server.connect_to_backend(token);
    let effects = server.backend_connected(token, true);
    let client: &Client = server.client(token);
    let back = client.backend_token().unwrap();
    assert_eq!(
        effects,
        vec![Effect::Register {
            side: Side::Back,
            token: back,
            interest: EventSet::writable(),
            oneshot: false,
        }]
    );
    assert!(client.is_proxying());
    assert!(client.has_backend());
    assert_eq!(client.status(), ConnectionStatus::Connected);
    assert_eq!(client.tokens(), Some((token, back)));
    assert_eq!(client.http_state().get_host(), Some(String::from("localhost:1024")));
    assert_eq!(client.front_data(), b"abc".to_vec());
}

#[test]
fn failed_connection_closes_the_client() {
    let mut server = server(2);
    let token = accept(&mut server);
    server.headers_parsed(token, has_host("localhost:1024"));
    server.connect_to_backend(token);
    assert_eq!(server.backend_connected(token, false), CLOSE_FRONT.to_vec());
    assert_eq!(server.target(token), Target::Nobody);
}

#[test]
fn client_without_instance_is_closed() {
    let mut server = server(2);
    let token = accept(&mut server);
    server.headers_parsed(token, has_host("unknown"));
    match server.connect_to_backend(token) {
        Connection::Closed(effects) => assert_eq!(effects, CLOSE_FRONT.to_vec()),
        other => panic!("unexpected {:?}", other),
    }
    assert_eq!(server.target(token), Target::Nobody);
}

#[test]
fn given_instance_decides() {
    let mut server = server(2);
    let token = accept(&mut server);
    match server.connect_to_instance(token, Some(address(7))) {
        Connection::To(found) => assert_eq!(found, address(7)),
        other => panic!("unexpected {:?}", other),
    }
    assert_eq!(server.target(token), Target::Client(token));
    match server.connect_to_instance(token, None) {
        Connection::Closed(effects) => assert_eq!(effects, CLOSE_FRONT.to_vec()),
        other => panic!("unexpected {:?}", other),
    }
    assert_eq!(server.target(token), Target::Nobody);
}

#[test]
fn closing_a_client_closes_its_backend() {
    let mut server = server(2);
    let (first, first_back) = connect(&mut server);
    let (second, second_back) = connect(&mut server);
    assert_eq!(server.close_client(first), CLOSE_BOTH.to_vec());
    assert_eq!(server.target(first), Target::Nobody);
    assert_eq!(server.target(first_back), Target::Nobody);
    assert_eq!(server.target(second), Target::Client(second));
    assert_eq!(server.target(second_back), Target::Backend(second));
}

#[test]
fn unanswered_client_closes_at_once() {
    let mut server = server(2);
    let token = accept(&mut server);
    assert_eq!(server.front_hup(token), CLOSE_FRONT.to_vec());
    assert_eq!(server.target(token), Target::Nobody);
}

#[test]
fn client_then_backend_hang_up() {
    let mut server = server(2);
    let (token, back) = connect(&mut server);
    assert_eq!(server.front_hup(token), vec![]);
    assert_eq!(server.client(token).status(), ConnectionStatus::ClientClosed);
    assert_eq!(server.front_hup(token), vec![]);
    assert_eq!(server.back_hup(token), CLOSE_BOTH.to_vec());
    assert_eq!(server.target(token), Target::Nobody);
    assert_eq!(server.target(back), Target::Nobody);
}

#[test]
fn backend_then_client_hang_up() {
    let mut server = server(2);
    let (token, back) = connect(&mut server);
    assert_eq!(server.back_hup(token), vec![]);
    assert_eq!(server.client(token).status(), ConnectionStatus::ServerClosed);
    assert_eq!(server.back_hup(token), vec![]);
    assert_eq!(server.front_hup(token), CLOSE_BOTH.to_vec());
    assert_eq!(server.target(back), Target::Nobody);
}

#[test]
fn registrations_of_a_connected_client() {
    let mut server = server(2);
    let (token, back) = connect(&mut server);
    let registered = |interest_back: EventSet, interest_front: EventSet| {
        vec![
            Effect::Reregister {
                side: Side::Back,
                token: back,
                interest: interest_back,
                oneshot: false,
            },
            Effect::Reregister {
                side: Side::Front,
                token,
                interest: interest_front,
                oneshot: true,
            },
        ]
    };
    // The backend takes the request.
    assert_eq!(
        server.back_writable(token, BackWrite::Wrote(16)),
        registered(set(true, false), set(true, true))
    );
    // The backend answers.
    assert_eq!(
        server.back_readable(token, BackRead::Received(vec![1, 2])),
        registered(set(false, false), set(true, true))
    );
    // The client takes the answer.
    assert_eq!(
        server.writable(token, FrontWrite::Wrote(2)),
        registered(set(true, false), set(true, false))
    );
    // The backend has nothing more.
    assert_eq!(
        server.back_readable(token, BackRead::Nothing),
        registered(set(true, false), set(true, false))
    );
    // It does not take anything at the moment.
    assert_eq!(
        server.back_writable(token, BackWrite::WouldBlock),
        registered(set(true, true), set(true, false))
    );
    assert_eq!(
        server.back_writable(token, BackWrite::Failed),
        registered(set(true, true), set(true, false))
    );
    // The TLS stream wants something else first.
    server.back_readable(token, BackRead::Received(vec![3]));
    assert_eq!(
        server.writable(token, FrontWrite::WantRead),
        registered(set(false, true), set(true, true))
    );
    server.back_readable(token, BackRead::Received(vec![4]));
    assert_eq!(
        server.writable(token, FrontWrite::WantWrite),
        registered(set(false, true), set(true, true))
    );
    assert_eq!(server.client(token).back_data(), Vec::<u8>::new());
}

#[test]
fn reading_a_connected_client_registers_its_stream_twice() {
    let mut server = server(2);
    let (token, back) = connect(&mut server);
    let front = Effect::Reregister {
        side: Side::Front,
        token,
        interest: set(false, true),
        oneshot: true,
    };
    let back = Effect::Reregister {
        side: Side::Back,
        token: back,
        interest: EventSet::readable(),
        oneshot: false,
    };
    match server.readable(token, FrontRead::Received(vec![9])) {
        tls_proxy::AfterRead::Effects(effects) => assert_eq!(effects, vec![back, front, front]),
        other => panic!("unexpected {:?}", other),
    }
}

#[test]
fn what_a_write_does_not_take_is_lost() {
    let mut server = server(2);
    let (token, _) = connect(&mut server);
    server.back_readable(token, BackRead::Received(vec![1, 2, 3]));
    server.writable(token, FrontWrite::Wrote(1));
    assert_eq!(server.client(token).tx_count(), 1);
    assert_eq!(server.client(token).back_data(), Vec::<u8>::new());
    assert_eq!(server.client(token).back_room(), 2048);
    server.back_writable(token, BackWrite::Wrote(3));
    assert_eq!(server.client(token).front_data(), Vec::<u8>::new());
}

#[test]
fn bytes_from_the_backend_add_up() {
    let mut server = server(2);
    let (token, _) = connect(&mut server);
    server.back_readable(token, BackRead::Received(vec![1, 2]));
    server.back_readable(token, BackRead::Received(vec![3]));
    assert_eq!(server.client(token).back_data(), vec![1, 2, 3]);
    assert_eq!(server.client(token).back_room(), 2045);
}

#[test]
fn request_travels_to_the_backend_and_back() {
    let request = b"GET / HTTP/1.1\r\nHost: localhost:1024\r\nConnection: Close\r\n\r\n";
    let mut server = server(10);

    // The client arrives.
    let (mut job, directive) = start(&mut server, Token(0), EventSet::readable());
    assert!(matches!(directive.request, Request::Accept));
    let directive = server.ready(&mut job, Reply::Accepted(true));
    let token = directive.client.unwrap();
    finish(&mut server, &mut job);

    // It sends its request, and is connected.
    let (mut job, directive) = start(&mut server, token, EventSet::readable());
    assert!(matches!(directive.request, Request::ReadFront { room: 2048 }));
    let directive = server.ready(&mut job, Reply::FrontRead(FrontRead::Received(request.to_vec())));
    match directive.request {
        Request::ParseHeaders { state: HttpState::Initial, data } => {
            assert_eq!(data, request.to_vec())
        }
        other => panic!("unexpected {:?}", other),
    }
    let directive = server.ready(&mut job, Reply::Parsed(has_host("localhost:1024")));
    assert_eq!(directive.client, Some(token));
    match directive.request {
        Request::Connect { address: found } => assert_eq!(found, address(1025)),
        other => panic!("unexpected {:?}", other),
    }
    assert_eq!(job.stage, Stage::Connecting(token));
    let directive = server.ready(&mut job, Reply::Connected(true));
    assert_eq!(directive.effects.len(), 1);
    finish(&mut server, &mut job);
    let back = server.client(token).backend_token().unwrap();

    // The backend takes the request.
    let (mut job, directive) = start(&mut server, back, EventSet::writable());
    assert!(matches!(directive.request, Request::Continue));
    let directive = server.ready(&mut job, Reply::Nothing);
    assert_eq!(directive.client, Some(token));
    match directive.request {
        Request::WriteBack { data } => assert_eq!(data, request.to_vec()),
        other => panic!("unexpected {:?}", other),
    }
    server.ready(&mut job, Reply::BackWrote(BackWrite::Wrote(request.len())));
    finish(&mut server, &mut job);

    // It answers.
    let (mut job, directive) = start(&mut server, back, EventSet::readable());
    assert!(matches!(directive.request, Request::ReadBack { room: 2048 }));
    let answer = b"hello world".to_vec();
    server.ready(&mut job, Reply::BackRead(BackRead::Received(answer.clone())));
    finish(&mut server, &mut job);

    // The client takes the answer.
    let (mut job, _) = start(&mut server, token, EventSet::writable());
    match server.ready(&mut job, Reply::Nothing).request {
        Request::WriteFront { data } => assert_eq!(data, answer),
        other => panic!("unexpected {:?}", other),
    }
    server.ready(&mut job, Reply::FrontWrote(FrontWrite::Wrote(answer.len())));
    finish(&mut server, &mut job);
    assert_eq!(server.client(token).back_data(), Vec::<u8>::new());

    // Both hang up.
    let (mut job, _) = start(&mut server, back, hup());
    finish(&mut server, &mut job);
    assert_eq!(server.client(token).status(), ConnectionStatus::ServerClosed);
    let (mut job, _) = start(&mut server, token, hup());
    server.ready(&mut job, Reply::Nothing);
    let directive = server.ready(&mut job, Reply::Nothing);
    assert_eq!(directive.effects, CLOSE_BOTH.to_vec());
    assert_eq!(job.stage, Stage::Done);
    assert_eq!(server.target(token), Target::Nobody);
    assert_eq!(server.target(back), Target::Nobody);
}

#[test]
fn request_for_an_unknown_host_closes_the_client() {
    let mut server = server(2);
    let token = accept(&mut server);
    let (mut job, _) = start(&mut server, token, EventSet::all());
    server.ready(&mut job, Reply::FrontRead(FrontRead::Received(vec![1])));
    let directive = server.ready(&mut job, Reply::Parsed(has_host("unknown")));
    let front = Effect::Reregister {
        side: Side::Front,
        token,
        interest: set(false, true),
        oneshot: true,
    };
    assert_eq!(directive.effects, [&[front][..], &CLOSE_FRONT[..]].concat());
    assert_eq!(job.stage, Stage::Writable);
    finish(&mut server, &mut job);
    assert_eq!(server.target(token), Target::Nobody);
}

#[test]
fn incomplete_request_waits_for_more() {
    let mut server = server(2);
    let token = accept(&mut server);
    let (mut job, _) = start(&mut server, token, EventSet::readable());
    server.ready(&mut job, Reply::FrontRead(FrontRead::Received(vec![1])));
    assert_eq!(job.stage, Stage::Parsing(token));
    server.ready(&mut job, Reply::Parsed(HttpState::Initial));
    assert_eq!(job.stage, Stage::Writable);
    finish(&mut server, &mut job);
    assert_eq!(server.client(token).front_data(), vec![1]);
    let (mut job, directive) = start(&mut server, token, EventSet::readable());
    assert!(matches!(directive.request, Request::ReadFront { room: 2047 }));
    server.ready(&mut job, Reply::FrontRead(FrontRead::WantRead));
    finish(&mut server, &mut job);
    assert_eq!(server.target(token), Target::Client(token));
}

#[test]
fn unknown_tokens_are_ignored() {
    let mut server = server(2);
    for number in 1..8usize {
        let mut job = Readiness::new(Token(number), EventSet::all());
        finish(&mut server, &mut job);
        assert_eq!(job.stage, Stage::Done);
    }
    // The listener cannot be written, and does not hang up.
    let (mut job, _) = start(
        &mut server,
        Token(0),
        EventSet { readable: false, writable: true, error: false, hup: true },
    );
    finish(&mut server, &mut job);
}

#[test]
fn clients_do_not_interfere() {
    let mut server = server(3);
    let (first, _) = connect(&mut server);
    let (second, second_back) = connect(&mut server);
    let (mut job, _) = start(&mut server, second_back, EventSet::all());
    server.ready(&mut job, Reply::BackRead(BackRead::Received(vec![5])));
    server.ready(&mut job, Reply::Nothing);
    server.ready(&mut job, Reply::BackWrote(BackWrite::Wrote(16)));
    finish(&mut server, &mut job);
    assert_eq!(server.client(second).back_data(), vec![5]);
    assert_eq!(server.client(second).front_data(), Vec::<u8>::new());
    assert_eq!(server.client(second).status(), ConnectionStatus::ServerClosed);
    assert_eq!(server.client(first).back_data(), Vec::<u8>::new());
    assert_eq!(server.client(first).front_data(), b"GET / HTTP/1.1\r\n".to_vec());
    assert_eq!(server.client(first).status(), ConnectionStatus::Connected);
}

#[test]
fn proxied_client_outlives_its_instance() {
    let mut server = server(2);
    let (token, _) = connect(&mut server);
    server.remove_instance("app_1", &address(1025));
    assert!(!server.can_draw(server.client(token).http_state()));
    let (mut job, _) = start(&mut server, token, EventSet::readable());
    server.ready(&mut job, Reply::FrontRead(FrontRead::Received(vec![8])));
    finish(&mut server, &mut job);
    assert_eq!(server.client(token).front_data(), b"GET / HTTP/1.1\r\n\x08".to_vec());
}
