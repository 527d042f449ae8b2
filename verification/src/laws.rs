//! What holds of the proxy as a whole: how its operations play together. What holds of
//! the single operations stands in the modules below.

pub mod clients;
pub mod connections;
pub mod routing;
pub mod steps;
pub mod values;

use crate::address::SocketAddr;
use crate::client::{
    BackRead, BackWrite, ClientView, ConnectionStatus, FrontRead, FrontWrite,
};
use crate::event::Token;
use crate::http::HttpState;
use crate::messages::{FrontView, HttpProxyOrder};
use crate::ready::{Directive, Readiness, Reply, Request, Stage};
use crate::routes::{differs_from, list_at, RoutesView};
use crate::server::{Answer, ServerView, Target};
use crate::slab::token_range;
use vstd::prelude::*;

verus! {

// ---- Forwarding ----

/// What a proxied client sends is, together with what it sent before, exactly what
/// is written to its backend when the backend is next writable.
pub proof fn law_client_bytes_reach_backend(
    server: ServerView,
    token: Token,
    back: Token,
    bytes: Vec<u8>,
    job: Readiness,
    next_job: Readiness,
    directive: Directive,
)
    requires
        server.valid(),
        server.clients.contains_key(token),
        server.clients[token].backend_token == Some(back),
        job.token == back,
        job.events.writable,
        server.with_client(
            token,
            server.clients[token].front_read(FrontRead::Received(bytes)),
        ).start_writable(job, next_job, directive),
    ensures
        directive.client == Some(token),
        directive.request matches Request::WriteBack { data } && data@
            == server.clients[token].front + bytes@,
{
    assert(server.client_valid(token));
    assert(server.backend_valid(back));
}

/// The head of a request is not lost while a backend is looked for: once the backend
/// is connected everything that the client has sent so far is written to it.
pub proof fn law_request_head_reaches_backend(
    server: ServerView,
    token: Token,
    state: HttpState,
    back: Token,
    job: Readiness,
    next_job: Readiness,
    directive: Directive,
)
    requires
        server.valid(),
        server.clients.contains_key(token),
        server.back_tokens().contains(back),
        job.token == back,
        job.events.writable,
        server.with_client(token, server.clients[token].parsed(state)).proxied(
            token,
            back,
        ).start_writable(job, next_job, directive),
    ensures
        directive.client == Some(token),
        directive.request matches Request::WriteBack { data } && data@
            == server.clients[token].front,
{
    assert(server.client_valid(token));
}

/// What the backend of a client sends is, together with what it sent before, exactly
/// what is written to the client when its TLS stream is next writable. Where there is
/// nothing nothing is written.
pub proof fn law_backend_bytes_reach_client(
    server: ServerView,
    token: Token,
    bytes: Vec<u8>,
    job: Readiness,
    next_job: Readiness,
    directive: Directive,
)
    requires
        server.valid(),
        server.clients.contains_key(token),
        server.clients[token].backend,
        server.clients[token].back.len() + bytes@.len() > 0,
        job.token == token,
        job.events.writable,
        server.with_client(
            token,
            server.clients[token].back_read(BackRead::Received(bytes)),
        ).start_writable(job, next_job, directive),
    ensures
        directive.client == Some(token),
        directive.request matches Request::WriteFront { data } && data@
            == server.clients[token].back + bytes@,
{
    assert(server.client_valid(token));
}

/// No byte is written twice: after a write, whatever came of it, nothing of what it
/// held waits any more.
pub proof fn law_nothing_is_written_twice(
    client: ClientView,
    front: FrontWrite,
    back: BackWrite,
)
    ensures
        client.front_write(front).back.len() == 0,
        client.back_written(back).front.len() == 0,
        client.front_write(front).front == client.front,
        client.back_written(back).back == client.back,
{
}

/// Reading and writing take turns. Once a proxied client has sent something, its TLS
/// stream is not waited for until the backend has taken something; then it is, and the
/// whole buffer is free. The other direction does the same, once there is something to
/// write.
pub proof fn law_reads_and_writes_alternate(
    client: ClientView,
    bytes: Vec<u8>,
    taken: usize,
    sent: Vec<u8>,
    written: usize,
)
    requires
        client.backend,
        client.http_state is Proxying,
        client.back.len() + sent@.len() > 0,
    ensures
        ({
            let filled = client.front_read(FrontRead::Received(bytes));
            let emptied = filled.back_written(BackWrite::Wrote(taken));
            &&& !filled.front_interest.readable
            &&& filled.back_interest.writable
            &&& emptied.front_interest.readable
            &&& !emptied.back_interest.writable
            &&& emptied.front.len() == 0
        }),
        ({
            let filled = client.back_read(BackRead::Received(sent));
            let emptied = filled.front_write(FrontWrite::Wrote(written));
            &&& !filled.back_interest.readable
            &&& filled.front_interest.writable
            &&& emptied.back_interest.readable
            &&& !emptied.front_interest.writable
            &&& emptied.back.len() == 0
        }),
{
}

// ---- Hanging up ----

/// A connected client is closed once both sides have hung up, in whichever order,
/// and not before.
pub proof fn law_closed_once_both_hung_up(server: ServerView, token: Token)
    requires
        server.clients.contains_key(token),
        server.clients[token].status == ConnectionStatus::Connected,
    ensures
        server.front_hup(token).clients.contains_key(token),
        server.back_hup(token).clients.contains_key(token),
        server.front_hup(token).back_hup(token) == server.closed(token),
        server.back_hup(token).front_hup(token) == server.closed(token),
{
    assert(server.front_hup(token).back_hup(token) =~= server.closed(token));
    assert(server.back_hup(token).front_hup(token) =~= server.closed(token));
}

/// A side of a connected client that hangs up a second time changes nothing.
pub proof fn law_hanging_up_again_changes_nothing(server: ServerView, token: Token)
    requires
        server.clients.contains_key(token),
        server.clients[token].status == ConnectionStatus::Connected,
    ensures
        server.front_hup(token).front_hup(token) == server.front_hup(token),
        server.back_hup(token).back_hup(token) == server.back_hup(token),
{
    assert(server.front_hup(token).front_hup(token) =~= server.front_hup(token));
    assert(server.back_hup(token).back_hup(token) =~= server.back_hup(token));
}

/// A client that hangs up before it got a backend is closed at once.
pub proof fn law_unanswered_client_closes_at_once(server: ServerView, token: Token)
    requires
        server.clients.contains_key(token),
        server.clients[token].status == ConnectionStatus::ClientConnected,
    ensures
        server.front_hup(token) == server.closed(token),
{
}

// ---- Tokens ----

/// A token leads to what it was given for: the token of the listener to the listener,
/// that of a client to the client, that of a backend connection to its client.
pub proof fn law_tokens_lead_to_their_owners(server: ServerView, token: Token)
    requires
        server.valid(),
    ensures
        token.0 == 0 <==> server.target(token) == Target::Listener,
        server.clients.contains_key(token) <==> server.target(token) == Target::Client(token),
        server.backends.contains_key(token) ==> server.target(token) == Target::Backend(
            server.backends[token],
        ),
        server.target(token) is Backend ==> server.backends.contains_key(token),
{
    if server.clients.contains_key(token) {
        assert(server.client_valid(token));
    }
    if server.backends.contains_key(token) {
        assert(server.backend_valid(token));
    }
}

/// No two backend connections belong to the same client.
pub proof fn law_one_backend_per_client(server: ServerView, first: Token, second: Token)
    requires
        server.valid(),
        server.backends.contains_key(first),
        server.backends.contains_key(second),
        server.backends[first] == server.backends[second],
    ensures
        first == second,
{
    assert(server.backend_valid(first));
    assert(server.backend_valid(second));
}

/// A closed client leaves nothing behind: neither its token nor that of its backend
/// leads anywhere, and no backend connection refers to it. Every other client keeps its
/// state and its backend.
pub proof fn law_closing_leaves_nothing_behind(server: ServerView, token: Token, other: Token)
    requires
        server.valid(),
        server.clients.contains_key(token),
    ensures
        server.closed(token).target(token) == Target::Nobody,
        server.clients[token].backend_token matches Some(back) ==> server.closed(token).target(back)
            == Target::Nobody,
        server.closed(token).backends.contains_key(other) ==> server.closed(token).backends[other]
            != token,
        other != token && server.clients.contains_key(other) ==> {
            &&& server.closed(token).clients.contains_key(other)
            &&& server.closed(token).clients[other] == server.clients[other]
            &&& server.clients[other].backend_token matches Some(back) ==> server.closed(
                token,
            ).target(back) == Target::Backend(other)
        },
{
    assert(server.client_valid(token));
    if server.backends.contains_key(other) {
        assert(server.backend_valid(other));
    }
    if server.clients.contains_key(other) {
        assert(server.client_valid(other));
        if let Some(back) = server.clients[other].backend_token {
            assert(server.backend_valid(back));
        }
    }
}

proof fn lemma_token_range_size(first: nat, count: nat)
    requires
        first + count <= usize::MAX,
    ensures
        token_range(first, count).finite(),
        token_range(first, count).len() == count,
    decreases count,
{
    if count == 0 {
        assert(token_range(first, count) =~= Set::empty());
    } else {
        let rest = (count - 1) as nat;
        let last = Token((first + rest) as usize);
        lemma_token_range_size(first, rest);
        assert(token_range(first, count) =~= token_range(first, rest).insert(last));
    }
}

/// There are never more clients than the proxy was made for, nor more backend
/// connections.
pub proof fn law_connections_are_bounded(server: ServerView)
    requires
        server.valid(),
    ensures
        server.clients.dom().len() <= server.max_connections,
        server.backends.dom().len() <= server.max_connections,
{
    lemma_token_range_size(server.max_listeners, server.max_connections);
    lemma_token_range_size(server.max_listeners + server.max_connections, server.max_connections);
    assert forall|token: Token| server.clients.dom().contains(token) implies #[trigger]
        server.front_tokens().contains(token) by {
        assert(server.clients.contains_key(token));
        assert(server.client_valid(token));
    }
    assert forall|token: Token| server.backends.dom().contains(token) implies #[trigger]
        server.back_tokens().contains(token) by {
        assert(server.backends.contains_key(token));
        assert(server.backend_valid(token));
    }
    vstd::set_lib::lemma_len_subset(server.clients.dom(), server.front_tokens());
    vstd::set_lib::lemma_len_subset(server.backends.dom(), server.back_tokens());
}

/// A new client is turned away only while every token is taken: once a client has
/// been closed the next one is taken in.
pub proof fn law_closing_makes_room(
    server: ServerView,
    token: Token,
    next: ServerView,
    directive: Directive,
)
    requires
        server.valid(),
        server.clients.contains_key(token),
        server.closed(token).accepted(true, next, directive),
    ensures
        directive.client is Some,
        next.clients.contains_key(directive.client->0),
{
    assert(server.client_valid(token));
    let closed = server.closed(token);
    assert(closed.front_tokens().contains(token));
    assert(!closed.clients.dom().contains(token));
}

// ---- Notifications ----

/// The number of steps that are left at most at a stage.
pub open spec fn steps_left(stage: Stage) -> nat {
    match stage {
        Stage::Readable => 7,
        Stage::Accepting => 6,
        Stage::Reading(_) => 6,
        Stage::BackReading(_) => 6,
        Stage::Parsing(_) => 5,
        Stage::Connecting(_) => 4,
        Stage::Writable => 3,
        Stage::Writing(_) => 2,
        Stage::BackWriting(_) => 2,
        Stage::Hup => 1,
        Stage::Done => 0,
    }
}

/// Every notification comes to an end: each step leaves fewer, and none is left only
/// when everything has been dealt with.
pub proof fn law_notifications_end(
    server: ServerView,
    job: Readiness,
    reply: Reply,
    next: ServerView,
    next_job: Readiness,
    directive: Directive,
)
    requires
        job.fits(server),
        job.accepts(server, reply),
        server.step(job, reply, next, next_job, directive),
    ensures
        job.stage != Stage::Done ==> steps_left(next_job.stage) < steps_left(job.stage),
        job.stage == Stage::Done <==> directive.request == Request::Done,
{
}

/// A step concerns one client alone. All others keep their state and their backends,
/// and the routes stay as they are.
pub proof fn law_clients_do_not_interfere(
    server: ServerView,
    job: Readiness,
    reply: Reply,
    next: ServerView,
    next_job: Readiness,
    directive: Directive,
    other: Token,
)
    requires
        server.valid(),
        job.fits(server),
        job.accepts(server, reply),
        server.step(job, reply, next, next_job, directive),
        directive.client != Some(other),
    ensures
        next.clients.contains_key(other) == server.clients.contains_key(other),
        server.clients.contains_key(other) ==> next.clients[other] == server.clients[other],
        server.clients.contains_key(other) ==> (server.clients[other].backend_token matches Some(
            back,
        ) ==> next.target(back) == Target::Backend(other)),
        next.routes == server.routes,
        next.listener == server.listener,
        next.max_listeners == server.max_listeners,
        next.max_connections == server.max_connections,
{
    if server.clients.contains_key(other) {
        assert(server.client_valid(other));
        if let Some(back) = server.clients[other].backend_token {
            assert(server.backend_valid(back));
        }
    }
    if let Some(token) = directive.client {
        if server.clients.contains_key(token) {
            assert(server.client_valid(token));
        }
    }
}

/// Events on a token that leads nowhere change nothing and ask for nothing.
pub proof fn law_unknown_tokens_are_ignored(
    server: ServerView,
    job: Readiness,
    reply: Reply,
    next: ServerView,
    next_job: Readiness,
    directive: Directive,
)
    requires
        server.target(job.token) == Target::Nobody,
        job.stage == Stage::Readable || job.stage == Stage::Writable || job.stage == Stage::Hup,
        server.step(job, reply, next, next_job, directive),
    ensures
        next == server,
        directive.idle(),
{
}

/// No request makes no sense, and none whose host is known waits for a backend, but for
/// that of the client that is being connected.
pub open spec fn quiet(server: ServerView, job: Readiness) -> bool {
    forall|token: Token| #[trigger]
        server.clients.contains_key(token) ==> {
            &&& !(server.clients[token].http_state is Error)
            &&& server.clients[token].http_state is HasHost ==> job.stage == Stage::Connecting(token)
        }
}

/// A client whose host becomes known is connected or closed within the same
/// notification: no step leaves one waiting.
pub proof fn law_known_hosts_do_not_wait(
    server: ServerView,
    job: Readiness,
    reply: Reply,
    next: ServerView,
    next_job: Readiness,
    directive: Directive,
)
    requires
        job.fits(server),
        job.accepts(server, reply),
        quiet(server, job),
        server.step(job, reply, next, next_job, directive),
    ensures
        quiet(next, next_job),
{
    assert forall|token: Token| #[trigger] next.clients.contains_key(token) implies {
        &&& !(next.clients[token].http_state is Error)
        &&& next.clients[token].http_state is HasHost ==> next_job.stage == Stage::Connecting(token)
    } by {
        assert(server.clients.contains_key(token) || directive.client == Some(token));
    }
}

/// Once a client is proxied its bytes are not looked at again: no step asks to have
/// them parsed, and what is known of the request stays as it is for as long as the
/// client is there.
pub proof fn law_proxied_requests_are_not_parsed_again(
    server: ServerView,
    job: Readiness,
    reply: Reply,
    next: ServerView,
    next_job: Readiness,
    directive: Directive,
    token: Token,
)
    requires
        job.fits(server),
        job.accepts(server, reply),
        server.step(job, reply, next, next_job, directive),
        server.clients.contains_key(token),
        server.clients[token].http_state is Proxying,
    ensures
        directive.client == Some(token) ==> !(directive.request is ParseHeaders),
        next.clients.contains_key(token) ==> next.clients[token].http_state
            == server.clients[token].http_state,
{
}

// ---- Routes ----

/// A front that is the first of its host decides where requests for the host go.
pub proof fn law_first_front_decides(routes: RoutesView, front: FrontView)
    requires
        list_at(routes.fronts, front.hostname).len() == 0,
    ensures
        routes.with_front(front).candidates(front.hostname) == (if routes.instances.contains_key(
            front.app_id,
        ) {
            Some(routes.instances[front.app_id])
        } else {
            None
        }),
{
}

/// A front that is added later leaves requests for the host going where they went.
pub proof fn law_later_fronts_do_not_decide(routes: RoutesView, front: FrontView)
    requires
        list_at(routes.fronts, front.hostname).len() > 0,
    ensures
        routes.with_front(front).candidates(front.hostname) == routes.candidates(front.hostname),
{
}

/// Changing the fronts of one host leaves requests for every other host going where
/// they went.
pub proof fn law_hosts_do_not_interfere(routes: RoutesView, front: FrontView, host: Seq<char>)
    requires
        host != front.hostname,
    ensures
        routes.with_front(front).candidates(host) == routes.candidates(host),
        routes.without_front(front).candidates(host) == routes.candidates(host),
{
}

/// Every number draws one of the instances that a request may go to, and each of them
/// is drawn by some number.
pub proof fn law_every_instance_can_be_drawn(
    routes: RoutesView,
    host: Seq<char>,
    draw: nat,
    address: SocketAddr,
)
    requires
        routes.candidates(host) is Some,
        routes.drawable(host),
    ensures
        routes.drawn(host, draw) is Some,
        routes.candidates(host)->0.contains(routes.drawn(host, draw)->0),
        routes.candidates(host)->0.contains(address) ==> exists|number: nat|
            #[trigger] routes.drawn(host, number) == Some(address),
{
    let instances = routes.candidates(host)->0;
    assert(instances[(draw % instances.len()) as int] == routes.drawn(host, draw)->0);
    if instances.contains(address) {
        let index = choose|index: int| 0 <= index < instances.len() && instances[index] == address;
        assert((index as nat) % instances.len() == index) by {
            vstd::arithmetic::div_mod::lemma_small_mod(index as nat, instances.len());
        }
        assert(routes.drawn(host, index as nat) == Some(address));
    }
}

/// Once an instance has been added to the application that the first front of a host
/// names, requests for the host can be answered, and some number draws the instance.
pub proof fn law_added_instance_can_be_drawn(
    routes: RoutesView,
    host: Seq<char>,
    address: SocketAddr,
)
    requires
        list_at(routes.fronts, host).len() > 0,
    ensures
        ({
            let next = routes.with_instance(routes.fronts[host][0].app_id, address);
            &&& next.candidates(host) is Some
            &&& next.drawable(host)
            &&& exists|number: nat| #[trigger] next.drawn(host, number) == Some(address)
        }),
{
    let app_id = routes.fronts[host][0].app_id;
    let next = routes.with_instance(app_id, address);
    assert(next.candidates(host)->0.last() == address);
    law_every_instance_can_be_drawn(next, host, 0, address);
}

/// It makes no difference whether a front or an instance is added first.
pub proof fn law_fronts_and_instances_come_in_any_order(
    routes: RoutesView,
    front: FrontView,
    app_id: Seq<char>,
    address: SocketAddr,
)
    ensures
        routes.with_front(front).with_instance(app_id, address) == routes.with_instance(
            app_id,
            address,
        ).with_front(front),
{
}

proof fn lemma_filter_keeps<T>(list: Seq<T>, item: T, other: T)
    ensures
        !list.filter(differs_from(item)).contains(item),
        other != item ==> list.filter(differs_from(item)).contains(other) == list.contains(other),
        !list.contains(item) ==> list.filter(differs_from(item)) == list,
    decreases list.len(),
{
    reveal(Seq::filter);
    if list.len() > 0 {
        let rest = list.drop_last();
        let last = list.last();
        lemma_filter_keeps(rest, item, other);
        assert(list =~= rest.push(last));
        let kept = rest.filter(differs_from(item));
        assert(list.contains(last));
        if list.contains(other) && other != last {
            let index = choose|index: int| 0 <= index < list.len() && list[index] == other;
            assert(rest[index] == other);
        }
        if rest.contains(other) {
            let index = choose|index: int| 0 <= index < rest.len() && rest[index] == other;
            assert(list[index] == other);
        }
        if rest.contains(item) {
            let index = choose|index: int| 0 <= index < rest.len() && rest[index] == item;
            assert(list[index] == item);
        }
        if last != item {
            let filtered = kept.push(last);
            assert(filtered[kept.len() as int] == last);
            if kept.contains(other) {
                let index = choose|index: int| 0 <= index < kept.len() && kept[index] == other;
                assert(filtered[index] == other);
            }
        }
    }
}

/// A front that was removed is gone, however often it had been added, and every other
/// front of its host is still there.
pub proof fn law_removed_front_is_gone(routes: RoutesView, front: FrontView, other: FrontView)
    ensures
        !list_at(routes.without_front(front).fronts, front.hostname).contains(front),
        other != front ==> list_at(routes.without_front(front).fronts, front.hostname).contains(
            other,
        ) == list_at(routes.fronts, front.hostname).contains(other),
{
    lemma_filter_keeps(list_at(routes.fronts, front.hostname), front, other);
}

/// Removing a front that was just added, and was not there before, restores the fronts
/// of every host.
pub proof fn law_removing_undoes_adding_a_front(
    routes: RoutesView,
    front: FrontView,
    host: Seq<char>,
)
    requires
        !list_at(routes.fronts, front.hostname).contains(front),
    ensures
        list_at(routes.with_front(front).without_front(front).fronts, host) == list_at(
            routes.fronts,
            host,
        ),
        routes.with_front(front).without_front(front).instances == routes.instances,
{
    let list = list_at(routes.fronts, front.hostname);
    reveal(Seq::filter);
    assert(list.push(front).drop_last() =~= list);
    lemma_filter_keeps(list, front, front);
}

/// An instance that was removed is gone and is not drawn any more, and every other
/// instance of its application is still there.
pub proof fn law_removed_instance_is_gone(
    routes: RoutesView,
    app_id: Seq<char>,
    address: SocketAddr,
    other: SocketAddr,
)
    ensures
        !list_at(routes.without_instance(app_id, address).instances, app_id).contains(address),
        other != address ==> list_at(
            routes.without_instance(app_id, address).instances,
            app_id,
        ).contains(other) == list_at(routes.instances, app_id).contains(other),
        forall|host: Seq<char>, draw: nat|
            #![trigger routes.without_instance(app_id, address).drawn(host, draw)]
            list_at(routes.fronts, host).len() > 0 && routes.fronts[host][0].app_id == app_id
                && routes.without_instance(app_id, address).drawable(host)
                ==> routes.without_instance(app_id, address).drawn(host, draw) != Some(address),
{
    lemma_filter_keeps(list_at(routes.instances, app_id), address, other);
    let next = routes.without_instance(app_id, address);
    assert forall|host: Seq<char>, draw: nat|
        #![trigger next.drawn(host, draw)]
        list_at(routes.fronts, host).len() > 0 && routes.fronts[host][0].app_id == app_id
            && next.drawable(host) implies next.drawn(host, draw) != Some(address) by {
        if let Some(instances) = next.candidates(host) {
            assert(instances == list_at(next.instances, app_id));
            assert(instances.contains(instances[(draw % instances.len()) as int]));
        }
    }
}

/// Removing an instance that was just added, and was not there before, restores the
/// instances of every application.
pub proof fn law_removing_undoes_adding_an_instance(
    routes: RoutesView,
    app_id: Seq<char>,
    address: SocketAddr,
    other_app: Seq<char>,
)
    requires
        !list_at(routes.instances, app_id).contains(address),
    ensures
        list_at(
            routes.with_instance(app_id, address).without_instance(app_id, address).instances,
            other_app,
        ) == list_at(routes.instances, other_app),
        routes.with_instance(app_id, address).without_instance(app_id, address).fronts
            == routes.fronts,
{
    let list = list_at(routes.instances, app_id);
    reveal(Seq::filter);
    assert(list.push(address).drop_last() =~= list);
    lemma_filter_keeps(list, address, address);
}

/// An order changes the proxy only where it is answered with a message, and then it
/// changes nothing but the routes.
pub proof fn law_only_answered_orders_change_anything(
    server: ServerView,
    order: HttpProxyOrder,
    address: Option<SocketAddr>,
)
    ensures
        !(ServerView::answer(order, address) is Message) ==> server.ordered(order, address)
            == server,
        server.ordered(order, address) == server.with_routes(server.ordered(order, address).routes),
{
}

} // verus!
