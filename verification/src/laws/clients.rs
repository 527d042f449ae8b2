//! What holds of a single client: what is read is passed on, and the event loop is told
//! what the client waits for.

use crate::client::{
    AfterRead, BackRead, BackWrite, Client, ClientView, ConnectionStatus, Effect, FrontRead,
    FrontWrite, Side,
};
use crate::event::{EventSet, Token};
use crate::http::HttpState;
use vstd::prelude::*;

verus! {

// ---- Making and asking ----

/// A new client has nothing waiting, knows nothing, and waits for everything.
pub proof fn law_new_clients_are_blank(made: Option<Client>)
    requires
        call_ensures(Client::new, (), made),
    ensures
        made is Some,
        made->0.wf(),
        !made->0@.backend,
        made->0@.http_state is Initial,
        made->0@.front.len() == 0,
        made->0@.back.len() == 0,
        made->0@.token is None,
        made->0@.backend_token is None,
        made->0@.front_interest == (EventSet {
            readable: true,
            writable: true,
            error: true,
            hup: true,
        }),
        made->0@.back_interest == made->0@.front_interest,
        made->0@.status == ConnectionStatus::Initial,
        made->0@.rx_count == 0,
        made->0@.tx_count == 0,
{
}

/// Setting tokens changes these tokens alone.
pub proof fn law_tokens_are_set(client: &mut Client, token: Token, backend: Token)
    ensures
        call_ensures(Client::set_front_token, (client, token), ()) ==> final(client)@ == (
        ClientView { token: Some(token), ..old(client)@ }),
        call_ensures(Client::set_back_token, (client, backend), ()) ==> final(client)@ == (
        ClientView { backend_token: Some(backend), ..old(client)@ }),
        call_ensures(Client::set_tokens, (client, token, backend), ()) ==> final(client)@ == (
        ClientView { token: Some(token), backend_token: Some(backend), ..old(client)@ }),
{
}

/// Both tokens are handed out, that of the TLS stream first, and only together.
pub proof fn law_tokens_come_together(client: &Client, tokens: Option<(Token, Token)>)
    requires
        call_ensures(Client::tokens, (client,), tokens),
    ensures
        tokens is Some <==> client@.token is Some && client@.backend_token is Some,
        tokens is Some ==> tokens == Some((client@.token->0, client@.backend_token->0)),
{
}

/// A client tells its state as it is.
pub proof fn law_clients_tell_their_state(
    client: &Client,
    yes: bool,
    count: usize,
    status: ConnectionStatus,
    state: &HttpState,
    token: Option<Token>,
)
    ensures
        call_ensures(Client::has_host, (client,), yes) ==> yes == client@.http_state is HasHost,
        call_ensures(Client::is_proxying, (client,), yes) ==> yes == client@.http_state is Proxying,
        call_ensures(Client::has_backend, (client,), yes) ==> yes == client@.backend,
        call_ensures(Client::rx_count, (client,), count) ==> count == client@.rx_count,
        call_ensures(Client::tx_count, (client,), count) ==> count == client@.tx_count,
        call_ensures(Client::status, (client,), status) ==> status == client@.status,
        call_ensures(Client::http_state, (client,), state) ==> *state == client@.http_state,
        call_ensures(Client::backend_token, (client,), token) ==> token == client@.backend_token,
{
}

/// What waits in one direction, and the room that is left there, make up 2048 bytes.
pub proof fn law_data_and_room_make_up_the_buffer(client: &Client, data: Vec<u8>, room: usize)
    ensures
        call_ensures(Client::front_data, (client,), data) ==> data@ == client@.front,
        call_ensures(Client::back_data, (client,), data) ==> data@ == client@.back,
        call_ensures(Client::front_room, (client,), room) ==> room + client@.front.len() == 2048,
        call_ensures(Client::back_room, (client,), room) ==> room + client@.back.len() == 2048,
{
}

// ---- Reading from the client ----

/// Whatever the client, what it sends is added behind what it sent before; nothing of
/// either is lost, and the other direction is left alone.
pub proof fn law_received_bytes_are_added(client: &mut Client, bytes: Vec<u8>, next: AfterRead)
    requires
        call_ensures(Client::readable, (client, FrontRead::Received(bytes)), next),
    ensures
        final(client)@.front == old(client)@.front + bytes@,
        final(client)@.back == old(client)@.back,
{
}

/// Before a client is proxied, everything that it has sent so far is parsed, starting
/// from what was known before. Nothing else changes.
pub proof fn law_the_whole_head_is_parsed(client: &mut Client, bytes: Vec<u8>, next: AfterRead)
    requires
        !(old(client)@.http_state is Proxying),
        call_ensures(Client::readable, (client, FrontRead::Received(bytes)), next),
    ensures
        next matches AfterRead::Parse { state, data } && state == old(client)@.http_state && data@
            == old(client)@.front + bytes@,
        final(client)@ == (ClientView { front: old(client)@.front + bytes@, ..old(client)@ }),
{
}

/// It makes no difference for what is parsed whether the head of a request comes in one
/// read or in two, with a parse of the first part between them.
pub proof fn law_the_head_may_come_in_pieces(
    first: &mut Client,
    between: &mut Client,
    second: &mut Client,
    at_once: &mut Client,
    start: Vec<u8>,
    rest: Vec<u8>,
    whole: Vec<u8>,
    state: HttpState,
    next: AfterRead,
    effects: Vec<Effect>,
    after_second: AfterRead,
    after_whole: AfterRead,
)
    requires
        !(old(first)@.http_state is Proxying),
        !(state is Proxying),
        whole@ == start@ + rest@,
        *old(at_once) == *old(first),
        *old(between) == *final(first),
        *old(second) == *final(between),
        call_ensures(Client::readable, (first, FrontRead::Received(start)), next),
        call_ensures(Client::headers_parsed, (between, state), effects),
        call_ensures(Client::readable, (second, FrontRead::Received(rest)), after_second),
        call_ensures(Client::readable, (at_once, FrontRead::Received(whole)), after_whole),
    ensures
        final(second)@.front == final(at_once)@.front,
        after_second is Parse && after_whole is Parse,
        after_second->data@ == after_whole->data@,
        after_second->data@ == old(first)@.front + whole@,
{
    let before = old(first)@.front;
    assert(before + start@ + rest@ =~= before + (start@ + rest@));
}

/// A proxied client that has sent something is not read again for now, its backend is
/// to be written, and the bytes are counted. Nothing else changes.
pub proof fn law_proxied_bytes_wait_for_the_backend(
    client: &mut Client,
    bytes: Vec<u8>,
    next: AfterRead,
)
    requires
        old(client)@.http_state is Proxying,
        call_ensures(Client::readable, (client, FrontRead::Received(bytes)), next),
    ensures
        final(client)@ == (ClientView {
            front: old(client)@.front + bytes@,
            front_interest: EventSet { readable: false, ..old(client)@.front_interest },
            back_interest: EventSet { writable: true, ..old(client)@.back_interest },
            rx_count: old(client)@.rx_count + bytes@.len(),
            ..old(client)@
        }),
        next is Effects,
{
}

/// A TLS stream that has to be readable or writable first is waited for in that way.
/// Nothing else changes, and nothing is parsed.
pub proof fn law_unfinished_reads_are_waited_for(
    client: &mut Client,
    read: FrontRead,
    next: AfterRead,
)
    requires
        !(read is Received),
        call_ensures(Client::readable, (client, read), next),
    ensures
        read is WantRead ==> final(client)@ == (ClientView {
            front_interest: EventSet { readable: true, ..old(client)@.front_interest },
            ..old(client)@
        }),
        read is WantWrite ==> final(client)@ == (ClientView {
            front_interest: EventSet { writable: true, ..old(client)@.front_interest },
            ..old(client)@
        }),
        next is Effects,
        old(client)@.token is None ==> next->Effects_0@.len() == 0,
        old(client)@.token is Some ==> next->Effects_0@ == seq![
            Effect::Reregister {
                side: Side::Front,
                token: old(client)@.token->0,
                interest: final(client)@.front_interest,
                oneshot: true,
            },
        ],
{
}

/// After a read that goes to the backend, the backend of a client is registered for
/// readable, and its TLS stream, twice, for what the client waits for. Without a backend
/// token only the TLS stream is registered, and without any token nothing.
pub proof fn law_registrations_after_a_proxied_read(
    client: &mut Client,
    bytes: Vec<u8>,
    next: AfterRead,
)
    requires
        old(client)@.http_state is Proxying,
        call_ensures(Client::readable, (client, FrontRead::Received(bytes)), next),
    ensures
        ({
            let front = Effect::Reregister {
                side: Side::Front,
                token: old(client)@.token->0,
                interest: final(client)@.front_interest,
                oneshot: true,
            };
            let back = Effect::Reregister {
                side: Side::Back,
                token: old(client)@.backend_token->0,
                interest: EventSet { readable: true, writable: false, error: false, hup: false },
                oneshot: false,
            };
            &&& next matches AfterRead::Effects(effects) && effects@ == (
            if old(client)@.token is None {
                Seq::<Effect>::empty()
            } else if old(client)@.backend_token is None {
                seq![front]
            } else if !old(client)@.backend {
                seq![front, front]
            } else {
                seq![back, front, front]
            })
        }),
{
}

/// What a request was parsed to is taken over. Once its host is known the client is not
/// read again for now, its backend is to be written, and the room that is left is noted;
/// before that the client is read again. Nothing that was received is lost.
pub proof fn law_parsed_requests_are_taken_over(
    client: &mut Client,
    state: HttpState,
    effects: Vec<Effect>,
)
    requires
        old(client)@.front.len() <= 2048,
        call_ensures(Client::headers_parsed, (client, state), effects),
    ensures
        state is HasHost ==> final(client)@ == (ClientView {
            http_state: state,
            front_interest: EventSet { readable: false, ..old(client)@.front_interest },
            back_interest: EventSet { writable: true, ..old(client)@.back_interest },
            rx_count: (2048 - old(client)@.front.len()) as nat,
            ..old(client)@
        }),
        !(state is HasHost) ==> final(client)@ == (ClientView {
            http_state: state,
            front_interest: EventSet { readable: true, ..old(client)@.front_interest },
            ..old(client)@
        }),
{
}

/// After a request has been parsed the TLS stream is registered for what the client waits
/// for, and where the host is known so is a backend that is there already, for readable.
pub proof fn law_registrations_after_a_parse(
    client: &mut Client,
    state: HttpState,
    effects: Vec<Effect>,
)
    requires
        call_ensures(Client::headers_parsed, (client, state), effects),
    ensures
        ({
            let front = Effect::Reregister {
                side: Side::Front,
                token: old(client)@.token->0,
                interest: final(client)@.front_interest,
                oneshot: true,
            };
            let back = Effect::Reregister {
                side: Side::Back,
                token: old(client)@.backend_token->0,
                interest: EventSet { readable: true, writable: false, error: false, hup: false },
                oneshot: false,
            };
            &&& effects@ == (if old(client)@.token is None {
                Seq::<Effect>::empty()
            } else if !(state is HasHost) || old(client)@.backend_token is None {
                seq![front]
            } else if !old(client)@.backend {
                seq![front, front]
            } else {
                seq![back, front, front]
            })
        }),
{
}

// ---- Writing to the client ----

/// A TLS stream for which nothing waits is left alone.
pub proof fn law_nothing_to_write_changes_nothing(
    client: &mut Client,
    write: FrontWrite,
    effects: Vec<Effect>,
)
    requires
        old(client)@.back.len() == 0,
        call_ensures(Client::writable, (client, write), effects),
    ensures
        final(client)@ == old(client)@,
        effects@.len() == 0,
{
}

/// After a write to the TLS stream nothing waits for it any more, whatever the status of
/// the client. What it took is counted, it is not waited for to write, and the backend is
/// read again; a stream that has to be readable or writable first is waited for in that
/// way. Nothing else changes.
pub proof fn law_answers_go_out_part_by_part(
    client: &mut Client,
    write: FrontWrite,
    effects: Vec<Effect>,
)
    requires
        old(client)@.back.len() > 0,
        call_ensures(Client::writable, (client, write), effects),
    ensures
        match write {
            FrontWrite::Wrote(count) => final(client)@ == (ClientView {
                back: Seq::empty(),
                tx_count: old(client)@.tx_count + count as nat,
                front_interest: EventSet { writable: false, ..old(client)@.front_interest },
                back_interest: EventSet { readable: true, ..old(client)@.back_interest },
                ..old(client)@
            }),
            FrontWrite::WantRead => final(client)@ == (ClientView {
                back: Seq::empty(),
                front_interest: EventSet { readable: true, ..old(client)@.front_interest },
                ..old(client)@
            }),
            FrontWrite::WantWrite => final(client)@ == (ClientView {
                back: Seq::empty(),
                front_interest: EventSet { writable: true, ..old(client)@.front_interest },
                ..old(client)@
            }),
        },
{
}

// ---- The backend ----

/// What the backend sends is added behind what it sent before. It is not read again for
/// now, and the client is to be written. Nothing else changes.
pub proof fn law_answers_are_added(client: &mut Client, bytes: Vec<u8>, effects: Vec<Effect>)
    requires
        old(client)@.backend,
        call_ensures(Client::back_readable, (client, BackRead::Received(bytes)), effects),
    ensures
        final(client)@ == (ClientView {
            back: old(client)@.back + bytes@,
            back_interest: EventSet { readable: false, ..old(client)@.back_interest },
            front_interest: EventSet { writable: true, ..old(client)@.front_interest },
            ..old(client)@
        }),
{
}

/// Without a backend, or where nothing could be read from it, nothing changes.
pub proof fn law_nothing_read_changes_nothing(
    client: &mut Client,
    read: BackRead,
    effects: Vec<Effect>,
)
    requires
        !old(client)@.backend || read is Nothing,
        call_ensures(Client::back_readable, (client, read), effects),
    ensures
        final(client)@ == old(client)@,
{
}

/// After a write to the backend nothing waits for it any more. Where it took something
/// both sides are read again and it is not waited for to write; where it would block it
/// is. Nothing else changes.
pub proof fn law_requests_go_out(client: &mut Client, write: BackWrite, effects: Vec<Effect>)
    requires
        call_ensures(Client::back_writable, (client, write), effects),
    ensures
        final(client)@.front.len() == 0,
        old(client)@.backend && write is Wrote ==> final(client)@ == (ClientView {
            front: Seq::empty(),
            front_interest: EventSet { readable: true, ..old(client)@.front_interest },
            back_interest: EventSet {
                readable: true,
                writable: false,
                ..old(client)@.back_interest
            },
            ..old(client)@
        }),
        old(client)@.backend && write is WouldBlock ==> final(client)@ == (ClientView {
            front: Seq::empty(),
            back_interest: EventSet { writable: true, ..old(client)@.back_interest },
            ..old(client)@
        }),
        !old(client)@.backend || write is Failed ==> final(client)@ == (ClientView {
            front: Seq::empty(),
            ..old(client)@
        }),
{
}

/// After every write, and after every read from the backend, the event loop waits for
/// what the client does: the backend is registered first, then, for one event, the TLS
/// stream. This holds whatever the status of the client, and whatever came of the read
/// or the write. Nothing is registered before both tokens are set, and no backend that
/// is not there.
pub proof fn law_registrations_follow_the_interests(
    client: &mut Client,
    front_write: FrontWrite,
    back_write: BackWrite,
    back_read: BackRead,
    effects: Vec<Effect>,
)
    requires
        ({
            ||| old(client)@.back.len() > 0 && call_ensures(
                Client::writable,
                (client, front_write),
                effects,
            )
            ||| call_ensures(Client::back_writable, (client, back_write), effects)
            ||| call_ensures(Client::back_readable, (client, back_read), effects)
        }),
    ensures
        ({
            let front = Effect::Reregister {
                side: Side::Front,
                token: old(client)@.token->0,
                interest: final(client)@.front_interest,
                oneshot: true,
            };
            let back = Effect::Reregister {
                side: Side::Back,
                token: old(client)@.backend_token->0,
                interest: final(client)@.back_interest,
                oneshot: false,
            };
            &&& effects@ == (if old(client)@.token is None || old(client)@.backend_token is None {
                Seq::<Effect>::empty()
            } else if !old(client)@.backend {
                seq![front]
            } else {
                seq![back, front]
            })
        }),
{
}

// ---- What can be handed in ----

/// A client takes every read that fits into its buffer, as far as the bytes can be
/// counted, every parse that made sense, and every write of what it had to write.
pub proof fn law_clients_take_what_fits(
    client: &mut Client,
    read: FrontRead,
    state: HttpState,
    front_write: FrontWrite,
    back_read: BackRead,
    back_write: BackWrite,
)
    requires
        old(client).wf(),
    ensures
        (read matches FrontRead::Received(bytes) ==> old(client)@.front.len() + bytes@.len()
            <= 2048 && (old(client)@.http_state is Proxying ==> old(client)@.rx_count + bytes@.len()
            <= usize::MAX)) ==> call_requires(
            Client::readable,
            (client, read),
        ),
        !(state is Error) ==> call_requires(Client::headers_parsed, (client, state)),
        (front_write matches FrontWrite::Wrote(count) ==> count <= old(client)@.back.len()
            && old(client)@.tx_count + count <= usize::MAX) ==> call_requires(
            Client::writable,
            (client, front_write),
        ),
        (back_read matches BackRead::Received(bytes) ==> old(client)@.back.len() + bytes@.len()
            <= 2048) ==> call_requires(Client::back_readable, (client, back_read)),
        call_requires(Client::back_writable, (client, back_write)),
{
}

/// A sound client can be asked for its bytes and its room at any time.
pub proof fn law_sound_clients_can_be_asked(client: &Client)
    requires
        client.wf(),
    ensures
        call_requires(Client::front_data, (client,)),
        call_requires(Client::back_data, (client,)),
        call_requires(Client::front_room, (client,)),
        call_requires(Client::back_room, (client,)),
{
}

/// A sound client can be given tokens, and stays sound.
pub proof fn law_sound_clients_can_be_given_tokens(
    client: &mut Client,
    token: Token,
    backend: Token,
)
    requires
        old(client).wf(),
    ensures
        call_requires(Client::set_front_token, (client, token)),
        call_requires(Client::set_back_token, (client, backend)),
        call_requires(Client::set_tokens, (client, token, backend)),
        call_ensures(Client::set_front_token, (client, token), ()) ==> final(client).wf(),
        call_ensures(Client::set_back_token, (client, backend), ()) ==> final(client).wf(),
        call_ensures(Client::set_tokens, (client, token, backend), ()) ==> final(client).wf(),
{
}

/// A sound client stays sound.
pub proof fn law_clients_stay_sound(
    client: &mut Client,
    read: FrontRead,
    next: AfterRead,
    state: HttpState,
    front_write: FrontWrite,
    back_read: BackRead,
    back_write: BackWrite,
    effects: Vec<Effect>,
)
    requires
        ({
            ||| call_ensures(Client::readable, (client, read), next)
            ||| call_ensures(Client::headers_parsed, (client, state), effects)
            ||| call_ensures(Client::writable, (client, front_write), effects)
            ||| call_ensures(Client::back_readable, (client, back_read), effects)
            ||| call_ensures(Client::back_writable, (client, back_write), effects)
        }),
    ensures
        final(client).wf(),
{
}

} // verus!
