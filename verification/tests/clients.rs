use tls_proxy::{
    AfterRead, BackRead, BackWrite, Client, ConnectionStatus, Effect, EventSet, FrontRead,
    FrontWrite, HttpState, RequestLine, Side, Token, BUFFER_SIZE,
};

fn line() -> RequestLine {
    RequestLine {
        method: String::from("GET"),
        uri: String::from("/index"),
        version: String::from("HTTP/1.1"),
    }
}

fn client() -> Client {
    let mut client = Client::new().unwrap();
    client.set_front_token(Token(3));
    client
}

fn proxied() -> Client {
    let mut client = client();
    client.headers_parsed(HttpState::Proxying(line(), String::from("h")));
    client
}

fn set(readable: bool, writable: bool) -> EventSet {
    EventSet { readable, writable, error: true, hup: true }
}

fn front(interest: EventSet) -> Effect {
    Effect::Reregister { side: Side::Front, token: Token(3), interest, oneshot: true }
}

fn effects(next: AfterRead) -> Vec<Effect> {
    match next {
        AfterRead::Effects(effects) => effects,
        other => panic!("unexpected {:?}", other),
    }
}

fn data(next: AfterRead) -> Vec<u8> {
    match next {
        AfterRead::Parse { data, .. } => data,
        other => panic!("unexpected {:?}", other),
    }
}

#[test]
fn event_sets_are_sets() {
    let mut events = EventSet::readable();
    assert!(events.is_readable() && !events.is_writable() && !events.is_hup());
    events.insert(EventSet::writable());
    assert_eq!(events, EventSet { readable: true, writable: true, error: false, hup: false });
    events.insert(EventSet::writable());
    events.remove(EventSet::readable());
    assert_eq!(events, EventSet::writable());
    let mut all = EventSet::all();
    assert!(all.is_hup());
    all.remove(EventSet::all());
    assert_eq!(all, EventSet { readable: false, writable: false, error: false, hup: false });
    assert_eq!(Token(5).as_usize(), 5);
}

#[test]
fn fresh_client() {
    let client = Client::new().unwrap();
    assert_eq!(client.status(), ConnectionStatus::Initial);
    assert_eq!(client.tokens(), None);
    assert!(!client.has_host());
    assert!(!client.is_proxying());
    assert!(!client.has_backend());
    assert_eq!(client.front_room(), BUFFER_SIZE);
    assert_eq!(client.back_room(), 2048);
    assert_eq!(client.front_data(), Vec::<u8>::new());
    assert_eq!(client.back_data(), Vec::<u8>::new());
    client.close();
}

#[test]
fn tokens_need_both_sides() {
    let mut client = Client::new().unwrap();
    client.set_front_token(Token(1));
    assert_eq!(client.tokens(), None);
    client.set_back_token(Token(7));
    assert_eq!(client.tokens(), Some((Token(1), Token(7))));
    client.set_tokens(Token(2), Token(8));
    assert_eq!(client.tokens(), Some((Token(2), Token(8))));
    assert_eq!(client.backend_token(), Some(Token(8)));
    let mut back_only = Client::new().unwrap();
    back_only.set_back_token(Token(9));
    assert_eq!(back_only.tokens(), None);
}

#[test]
fn request_head_is_collected_until_it_is_complete() {
    let mut client = client();
    assert_eq!(data(client.readable(FrontRead::Received(b"GET / ".to_vec()))), b"GET / ".to_vec());
    let registered = client.headers_parsed(HttpState::HasRequestLine(6, line()));
    assert_eq!(registered, vec![front(set(true, true))]);
    match client.readable(FrontRead::Received(b"HTTP/1.1".to_vec())) {
        AfterRead::Parse { state: HttpState::HasRequestLine(6, found), data } => {
            assert_eq!(found.uri, "/index");
            assert_eq!(data, b"GET / HTTP/1.1".to_vec());
        }
        other => panic!("unexpected {:?}", other),
    }
    assert_eq!(client.front_room(), 2048 - 14);
    let registered = client.headers_parsed(HttpState::HasHost(14, line(), String::from("h")));
    assert!(client.has_host());
    assert_eq!(client.rx_count(), 2034);
    assert_eq!(registered, vec![front(set(false, true))]);
    assert_eq!(client.front_data(), b"GET / HTTP/1.1".to_vec());
}

#[test]
fn proxied_client_is_not_parsed() {
    let mut client = proxied();
    assert!(client.is_proxying());
    assert_eq!(
        effects(client.readable(FrontRead::Received(vec![1, 2, 3]))),
        vec![front(set(false, true))]
    );
    assert_eq!(
        effects(client.readable(FrontRead::Received(vec![4]))),
        vec![front(set(false, true))]
    );
    assert_eq!(client.front_data(), vec![1, 2, 3, 4]);
    assert_eq!(client.front_room(), 2044);
    assert_eq!(client.rx_count(), 4);
}

#[test]
fn tls_stream_may_want_something_else_first() {
    let mut client = proxied();
    client.readable(FrontRead::Received(vec![1]));
    assert_eq!(effects(client.readable(FrontRead::WantRead)), vec![front(set(true, true))]);
    assert_eq!(effects(client.readable(FrontRead::WantWrite)), vec![front(set(true, true))]);
    assert_eq!(client.front_data(), vec![1]);
}

#[test]
fn nothing_is_registered_before_the_token_is_known() {
    let mut client = Client::new().unwrap();
    assert_eq!(effects(client.readable(FrontRead::WantRead)), Vec::<Effect>::new());
    assert_eq!(client.headers_parsed(HttpState::Initial), Vec::<Effect>::new());
    assert_eq!(client.back_writable(BackWrite::Failed), Vec::<Effect>::new());
}

#[test]
fn writing_nothing_to_the_client_does_nothing() {
    let mut client = client();
    client.set_back_token(Token(9));
    assert_eq!(client.writable(FrontWrite::WantRead), Vec::<Effect>::new());
}

#[test]
fn bytes_for_a_missing_backend_are_dropped() {
    let mut client = proxied();
    client.readable(FrontRead::Received(vec![1, 2, 3]));
    client.set_back_token(Token(9));
    let registered = client.back_writable(BackWrite::Wrote(0));
    assert_eq!(registered, vec![front(set(false, true))]);
    assert_eq!(client.front_data(), Vec::<u8>::new());
    assert_eq!(client.front_room(), 2048);
    assert_eq!(client.back_readable(BackRead::Received(vec![5])), vec![front(set(false, true))]);
    assert_eq!(client.back_data(), Vec::<u8>::new());
}

#[test]
fn a_client_can_fill_its_buffer() {
    let mut client = proxied();
    client.readable(FrontRead::Received(vec![1; 2048]));
    assert_eq!(client.front_room(), 0);
    client.readable(FrontRead::Received(vec![]));
    assert_eq!(client.front_data(), vec![1; 2048]);
}

#[test]
fn clients_fit_the_slots_of_the_slab() {
    assert!(std::mem::size_of::<Client>() + 16 <= 1024);
}

#[test]
fn request_state_knows_its_parts() {
    let state = HttpState::HasHost(4, line(), String::from("h"));
    assert_eq!(state.get_host(), Some(String::from("h")));
    assert_eq!(state.get_uri(), Some(String::from("/index")));
    assert_eq!(state.get_request_line().unwrap().method, "GET");
    let state = HttpState::HasRequestLine(4, line());
    assert_eq!(state.get_host(), None);
    assert_eq!(state.get_uri(), Some(String::from("/index")));
    let state = HttpState::Proxying(line(), String::from("g")).clone();
    assert_eq!(state.get_host(), Some(String::from("g")));
    assert_eq!(state.get_request_line().unwrap().version, "HTTP/1.1");
    let state = HttpState::Error(String::from("bad"));
    assert_eq!(state.get_host(), None);
    assert_eq!(state.get_uri(), None);
    assert!(state.get_request_line().is_none());
    assert_eq!(HttpState::Initial.get_uri(), None);
}
