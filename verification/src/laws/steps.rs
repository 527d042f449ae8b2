//! What holds of the steps of a notification: which event is dealt with when, and what
//! comes of it.

use crate::client::{
    AfterRead, BackRead, BackWrite, Client, ClientView, ConnectionStatus, Effect, FrontRead,
    FrontWrite, Side,
};
use crate::event::{EventSet, Token};
use crate::http::HttpState;
use crate::laws::connections::just_arrived;
use crate::ready::{Directive, Readiness, Reply, Request, Stage};
use crate::server::{ApplicationListener, Server, ServerView};
use vstd::prelude::*;

verus! {

/// A notification starts with the readable event.
pub proof fn law_notifications_start_with_readable(
    token: Token,
    events: EventSet,
    job: Readiness,
)
    requires
        call_ensures(Readiness::new, (token, events), job),
    ensures
        job.token == token,
        job.events == events,
        job.stage == Stage::Readable,
{
}

/// A step keeps the notification, the routes, the listener and the limits as they are, and
/// leaves the proxy sound and ready for the next step.
pub proof fn law_steps_keep_the_rest(
    server: &mut Server,
    job: &mut Readiness,
    reply: Reply,
    directive: Directive,
)
    requires
        call_ensures(Server::ready, (server, job, reply), directive),
    ensures
        final(job).token == old(job).token,
        final(job).events == old(job).events,
        final(server)@.routes == old(server)@.routes,
        final(server)@.listener == old(server)@.listener,
        final(server)@.max_listeners == old(server)@.max_listeners,
        final(server)@.max_connections == old(server)@.max_connections,
        final(server).wf(),
        final(job).fits(final(server)@),
{
}

/// Every step takes the reply to what was asked for, as long as it brings no more bytes
/// than there is room for and takes no more than there were, both can be counted, it is no
/// parse error, and no instance is to be drawn for a host whose application has lost all
/// of them.
pub proof fn law_steps_take_their_replies(server: &mut Server, job: &mut Readiness, reply: Reply)
    requires
        old(server).wf(),
        old(job).fits(old(server)@),
        match (old(job).stage, reply) {
            (Stage::Readable, Reply::Nothing) => true,
            (Stage::Accepting, Reply::Accepted(_)) => true,
            (Stage::Reading(token), Reply::FrontRead(read)) => {
                let client = old(server)@.clients[token];
                &&& client.http_state matches HttpState::HasHost(_, _, host) ==> {
                    let fronts = old(server)@.routes.fronts;
                    let instances = old(server)@.routes.instances;
                    let app_id = fronts[host@][0].app_id;
                    !(fronts.contains_key(host@) && fronts[host@].len() > 0
                        && instances.contains_key(app_id) && instances[app_id].len() == 0)
                }
                &&& read matches FrontRead::Received(bytes) ==> client.front.len() + bytes@.len()
                    <= 2048 && (client.http_state is Proxying ==> client.rx_count + bytes@.len()
                    <= usize::MAX)
            },
            (Stage::Parsing(_), Reply::Parsed(state)) => {
                &&& !(state is Error)
                &&& state matches HttpState::HasHost(_, _, host) ==> {
                    let fronts = old(server)@.routes.fronts;
                    let instances = old(server)@.routes.instances;
                    let app_id = fronts[host@][0].app_id;
                    !(fronts.contains_key(host@) && fronts[host@].len() > 0
                        && instances.contains_key(app_id) && instances[app_id].len() == 0)
                }
            },
            (Stage::Connecting(_), Reply::Connected(_)) => true,
            (Stage::BackReading(token), Reply::BackRead(read)) => {
                read matches BackRead::Received(bytes) ==> old(server)@.clients[token].back.len()
                    + bytes@.len() <= 2048
            },
            (Stage::Writable, Reply::Nothing) => true,
            (Stage::Writing(token), Reply::FrontWrote(write)) => {
                let client = old(server)@.clients[token];
                write matches FrontWrite::Wrote(count) ==> count <= client.back.len()
                    && client.tx_count + count <= usize::MAX
            },
            (Stage::BackWriting(_), Reply::BackWrote(_)) => true,
            (Stage::Hup, Reply::Nothing) => true,
            (Stage::Done, Reply::Nothing) => true,
            _ => false,
        },
    ensures
        call_requires(Server::ready, (server, job, reply)),
{
}

// ---- The readable event ----

/// A readable listener has a connection accepted. A readable client has its TLS stream
/// read, and a readable backend is read for its client, each into all the room that is
/// left. Nothing changes yet.
pub proof fn law_readable_sockets_are_read(
    server: &mut Server,
    job: &mut Readiness,
    reply: Reply,
    directive: Directive,
)
    requires
        old(server).wf(),
        old(job).stage == Stage::Readable,
        old(job).events.readable,
        call_ensures(Server::ready, (server, job, reply), directive),
    ensures
        final(server)@ == old(server)@,
        directive.effects@.len() == 0,
        ({
            let token = old(job).token;
            let clients = old(server)@.clients;
            let backends = old(server)@.backends;
            &&& token.0 == 0 ==> {
                &&& final(job).stage == Stage::Accepting
                &&& directive.client is None
                &&& directive.request == Request::Accept
            }
            &&& clients.contains_key(token) ==> {
                &&& final(job).stage == Stage::Reading(token)
                &&& directive.client == Some(token)
                &&& directive.request matches Request::ReadFront { room } && room
                    + clients[token].front.len() == 2048
            }
            &&& backends.contains_key(token) ==> {
                &&& final(job).stage == Stage::BackReading(backends[token])
                &&& directive.client == Some(backends[token])
                &&& directive.request matches Request::ReadBack { room } && room
                    + clients[backends[token]].back.len() == 2048
            }
        }),
{
    if old(server)@.clients.contains_key(old(job).token) {
        assert(old(server)@.client_valid(old(job).token));
    }
    if old(server)@.backends.contains_key(old(job).token) {
        assert(old(server)@.backend_valid(old(job).token));
    }
}

/// Where the event that is next did not happen, or the token stands for nobody, the step
/// changes nothing, asks for nothing, and goes on to the next event. So does a writable or
/// hung-up listener, and a writable client for which nothing waits.
pub proof fn law_other_events_are_passed_over(
    server: &mut Server,
    job: &mut Readiness,
    reply: Reply,
    directive: Directive,
)
    requires
        old(server).wf(),
        ({
            let token = old(job).token;
            let nobody = token.0 != 0 && !old(server)@.clients.contains_key(token)
                && !old(server)@.backends.contains_key(token);
            match old(job).stage {
                Stage::Readable => !old(job).events.readable || nobody,
                Stage::Writable => !old(job).events.writable || nobody || token.0 == 0 || (
                old(server)@.clients.contains_key(token) && old(
                    server,
                )@.clients[token].back.len() == 0),
                Stage::Hup => !old(job).events.hup || nobody || token.0 == 0,
                _ => false,
            }
        }),
        call_ensures(Server::ready, (server, job, reply), directive),
    ensures
        final(server)@ == old(server)@,
        directive.client is None,
        directive.effects@.len() == 0,
        directive.request == Request::Continue,
        final(job).stage == (match old(job).stage {
            Stage::Readable => Stage::Writable,
            Stage::Writable => Stage::Hup,
            _ => Stage::Done,
        }),
{
    if old(server)@.clients.contains_key(old(job).token) {
        assert(old(server)@.client_valid(old(job).token));
    }
}

/// A client that arrives is taken in wherever a token is free, and its TLS stream is
/// registered for readable; the writable event comes next. Nothing else changes.
pub proof fn law_arriving_clients_are_taken_in(
    server: &mut Server,
    job: &mut Readiness,
    free: Token,
    directive: Directive,
)
    requires
        old(server).wf(),
        old(job).stage == Stage::Accepting,
        1 <= free.0 <= old(server)@.max_connections,
        !old(server)@.clients.contains_key(free),
        call_ensures(Server::ready, (server, job, Reply::Accepted(true)), directive),
    ensures
        final(job).stage == Stage::Writable,
        directive.client is Some,
        directive.request == Request::Continue,
        ({
            let token = directive.client->0;
            &&& 1 <= token.0 <= old(server)@.max_connections
            &&& !old(server)@.clients.contains_key(token)
            &&& just_arrived(final(server)@.clients[token], token)
            &&& final(server)@ == (ServerView {
                clients: old(server)@.clients.insert(token, final(server)@.clients[token]),
                ..old(server)@
            })
            &&& directive.effects@ == seq![
                Effect::Register {
                    side: Side::Front,
                    token,
                    interest: EventSet {
                        readable: true,
                        writable: false,
                        error: false,
                        hup: false,
                    },
                    oneshot: false,
                },
            ]
        }),
{
    assert(old(server)@.front_tokens().contains(free));
    assert(!old(server)@.clients.dom().contains(free));
}

/// Where no TLS stream could be set up, or no token is free, nothing changes and nothing is
/// registered; the writable event comes next.
pub proof fn law_arriving_clients_are_turned_away(
    server: &mut Server,
    job: &mut Readiness,
    established: bool,
    directive: Directive,
)
    requires
        old(server).wf(),
        old(job).stage == Stage::Accepting,
        !established || forall|token: Token|
            1 <= token.0 <= old(server)@.max_connections ==> #[trigger]
                old(server)@.clients.contains_key(token),
        call_ensures(Server::ready, (server, job, Reply::Accepted(established)), directive),
    ensures
        final(server)@ == old(server)@,
        final(job).stage == Stage::Writable,
        directive.client is None,
        directive.effects@.len() == 0,
        directive.request == Request::Continue,
{
}

/// What a client sends before it is proxied is parsed together with everything that it
/// sent before, starting from what was known; the bytes are kept. Nothing else changes.
pub proof fn law_unproxied_bytes_are_parsed(
    server: &mut Server,
    job: &mut Readiness,
    token: Token,
    bytes: Vec<u8>,
    directive: Directive,
)
    requires
        old(job).stage == Stage::Reading(token),
        !(old(server)@.clients[token].http_state is Proxying),
        call_ensures(
            Server::ready,
            (server, job, Reply::FrontRead(FrontRead::Received(bytes))),
            directive,
        ),
    ensures
        ({
            let before = old(server)@.clients[token];
            &&& final(job).stage == Stage::Parsing(token)
            &&& final(server)@ == (ServerView {
                clients: old(server)@.clients.insert(
                    token,
                    ClientView { front: before.front + bytes@, ..before },
                ),
                ..old(server)@
            })
            &&& directive.client == Some(token)
            &&& directive.effects@.len() == 0
            &&& directive.request matches Request::ParseHeaders { state, data } && state
                == before.http_state && data@ == before.front + bytes@
        }),
{
}

/// Any other read of a client whose host is not waiting for a backend changes the client
/// as the read does by itself, and has the event loop told; the writable event comes next.
/// Nothing else changes.
pub proof fn law_other_reads_are_settled_at_once(
    server: &mut Server,
    job: &mut Readiness,
    client: &mut Client,
    token: Token,
    read: FrontRead,
    next: AfterRead,
    directive: Directive,
)
    requires
        old(job).stage == Stage::Reading(token),
        old(client)@ == old(server)@.clients[token],
        old(client)@.http_state is Proxying || !(read is Received),
        !(old(client)@.http_state is HasHost) && !(old(client)@.http_state is Error),
        call_ensures(Server::ready, (server, job, Reply::FrontRead(read)), directive),
        call_ensures(Client::readable, (client, read), next),
    ensures
        final(job).stage == Stage::Writable,
        final(server)@ == (ServerView {
            clients: old(server)@.clients.insert(token, final(client)@),
            ..old(server)@
        }),
        directive.client == Some(token),
        next matches AfterRead::Effects(effects) && directive.effects@ == effects@,
        directive.request == Request::Continue,
{
}

/// A client whose host is known already, but whose stream has to be waited for, is to be
/// connected all the same where there are instances to choose from, and is closed where
/// there are none. So is one whose request makes no sense. Nothing else changes.
pub proof fn law_waiting_clients_are_settled(
    server: &mut Server,
    job: &mut Readiness,
    client: &mut Client,
    token: Token,
    read: FrontRead,
    next: AfterRead,
    directive: Directive,
)
    requires
        old(server).wf(),
        old(server)@.clients.contains_key(token),
        old(job).stage == Stage::Reading(token),
        old(client)@ == old(server)@.clients[token],
        !(read is Received),
        old(client)@.http_state is HasHost || old(client)@.http_state is Error,
        call_ensures(Server::ready, (server, job, Reply::FrontRead(read)), directive),
        call_ensures(Client::readable, (client, read), next),
    ensures
        directive.client == Some(token),
        next is Effects,
        ({
            let state = old(client)@.http_state;
            let host = state->HasHost_2@;
            let fronts = old(server)@.routes.fronts;
            let instances = old(server)@.routes.instances;
            let app_id = fronts[host][0].app_id;
            if state is HasHost && fronts.contains_key(host) && fronts[host].len() > 0
                && instances.contains_key(app_id) {
                &&& final(job).stage == Stage::Connecting(token)
                &&& final(server)@ == (ServerView {
                    clients: old(server)@.clients.insert(token, final(client)@),
                    ..old(server)@
                })
                &&& directive.effects@ == next->Effects_0@
                &&& directive.request is Connect
                &&& instances[app_id].contains(directive.request->address)
            } else {
                &&& final(job).stage == Stage::Writable
                &&& final(server)@ == (ServerView {
                    clients: old(server)@.clients.remove(token),
                    ..old(server)@
                })
                &&& directive.effects@ == next->Effects_0@ + seq![
                    Effect::Shutdown { side: Side::Front },
                    Effect::Deregister { side: Side::Front },
                    Effect::Release,
                ]
                &&& directive.request == Request::Continue
            }
        }),
{
    assert(old(server)@.client_valid(token));
    let filled = old(server)@.clients.insert(token, final(client)@);
    assert(filled.remove(token) =~= old(server)@.clients.remove(token));
}

/// A request that is not complete yet is taken over as the client does by itself, and the
/// event loop is told; the writable event comes next. Nothing else changes.
pub proof fn law_incomplete_requests_go_on(
    server: &mut Server,
    job: &mut Readiness,
    client: &mut Client,
    token: Token,
    state: HttpState,
    effects: Vec<Effect>,
    directive: Directive,
)
    requires
        old(job).stage == Stage::Parsing(token),
        old(client)@ == old(server)@.clients[token],
        !(state is HasHost) && !(state is Error),
        call_ensures(Server::ready, (server, job, Reply::Parsed(state)), directive),
        call_ensures(Client::headers_parsed, (client, state), effects),
    ensures
        final(job).stage == Stage::Writable,
        final(server)@ == (ServerView {
            clients: old(server)@.clients.insert(token, final(client)@),
            ..old(server)@
        }),
        directive.client == Some(token),
        directive.effects@ == effects@,
        directive.request == Request::Continue,
{
}

/// A request whose host is known is taken over as the client does by itself, and is then
/// to be connected to one of the instances of the application of the first front of the
/// host, whatever the rest of the request.
pub proof fn law_known_hosts_are_connected(
    server: &mut Server,
    job: &mut Readiness,
    client: &mut Client,
    token: Token,
    state: HttpState,
    effects: Vec<Effect>,
    directive: Directive,
)
    requires
        old(job).stage == Stage::Parsing(token),
        old(client)@ == old(server)@.clients[token],
        state matches HttpState::HasHost(_, _, host) && {
            let fronts = old(server)@.routes.fronts;
            fronts.contains_key(host@) && fronts[host@].len() > 0 && old(
                server,
            )@.routes.instances.contains_key(fronts[host@][0].app_id)
        },
        call_ensures(Server::ready, (server, job, Reply::Parsed(state)), directive),
        call_ensures(Client::headers_parsed, (client, state), effects),
    ensures
        final(job).stage == Stage::Connecting(token),
        final(server)@ == (ServerView {
            clients: old(server)@.clients.insert(token, final(client)@),
            ..old(server)@
        }),
        directive.client == Some(token),
        directive.effects@ == effects@,
        directive.request is Connect,
        ({
            let host = state->HasHost_2@;
            let app_id = old(server)@.routes.fronts[host][0].app_id;
            old(server)@.routes.instances[app_id].contains(directive.request->address)
        }),
{
}

/// A client is closed for its host, after it took the request over as it does by itself,
/// only where the host has no front or the application never had an instance; the
/// writable event comes next. Nothing else changes.
pub proof fn law_unknown_hosts_are_closed(
    server: &mut Server,
    job: &mut Readiness,
    client: &mut Client,
    token: Token,
    state: HttpState,
    effects: Vec<Effect>,
    directive: Directive,
)
    requires
        old(server).wf(),
        old(server)@.clients.contains_key(token),
        !(old(server)@.clients[token].http_state is Proxying),
        old(job).stage == Stage::Parsing(token),
        old(client)@ == old(server)@.clients[token],
        state matches HttpState::HasHost(_, _, host) && {
            let fronts = old(server)@.routes.fronts;
            !(fronts.contains_key(host@) && fronts[host@].len() > 0 && old(
                server,
            )@.routes.instances.contains_key(fronts[host@][0].app_id))
        },
        call_ensures(Server::ready, (server, job, Reply::Parsed(state)), directive),
        call_ensures(Client::headers_parsed, (client, state), effects),
    ensures
        final(job).stage == Stage::Writable,
        final(server)@ == (ServerView {
            clients: old(server)@.clients.remove(token),
            ..old(server)@
        }),
        directive.client == Some(token),
        directive.effects@ == effects@ + seq![
            Effect::Shutdown { side: Side::Front },
            Effect::Deregister { side: Side::Front },
            Effect::Release,
        ],
        directive.request == Request::Continue,
{
    assert(old(server)@.client_valid(token));
    assert(final(server)@.clients =~= old(server)@.clients.remove(token));
}

/// Whoever is connected is proxied from now on, to a free token of the backends, under
/// which the backend is registered for writable, and keeps all that it has sent; the
/// writable event comes next. Nothing else changes.
pub proof fn law_connected_clients_are_handed_over(
    server: &mut Server,
    job: &mut Readiness,
    token: Token,
    free: Token,
    directive: Directive,
)
    requires
        old(server).wf(),
        old(job).stage == Stage::Connecting(token),
        old(server)@.clients.contains_key(token),
        old(server)@.clients[token].http_state is HasHost,
        old(server)@.max_connections < free.0 <= 2 * old(server)@.max_connections,
        !old(server)@.backends.contains_key(free),
        call_ensures(Server::ready, (server, job, Reply::Connected(true)), directive),
    ensures
        final(job).stage == Stage::Writable,
        directive.client == Some(token),
        directive.request == Request::Continue,
        ({
            let before = old(server)@.clients[token];
            let after = final(server)@.clients[token];
            let back = after.backend_token->0;
            &&& after == (ClientView {
                backend: true,
                backend_token: Some(back),
                status: ConnectionStatus::Connected,
                http_state: HttpState::Proxying(
                    before.http_state->HasHost_1,
                    before.http_state->HasHost_2,
                ),
                ..before
            })
            &&& old(server)@.max_connections < back.0 <= 2 * old(server)@.max_connections
            &&& !old(server)@.backends.contains_key(back)
            &&& final(server)@ == (ServerView {
                clients: old(server)@.clients.insert(token, after),
                backends: old(server)@.backends.insert(back, token),
                ..old(server)@
            })
            &&& directive.effects@ == seq![
                Effect::Register {
                    side: Side::Back,
                    token: back,
                    interest: EventSet {
                        readable: false,
                        writable: true,
                        error: false,
                        hup: false,
                    },
                    oneshot: false,
                },
            ]
        }),
{
    assert(old(server)@.back_tokens().contains(free));
    assert(!old(server)@.backends.dom().contains(free));
}

/// The request of a client reaches its backend: once the client is connected, the very
/// event that its backend was registered for, under the token it was registered with, has
/// everything written that the client has sent.
pub proof fn law_the_registered_event_sends_the_request(
    server: &mut Server,
    job: &mut Readiness,
    token: Token,
    later: &mut Server,
    event: &mut Readiness,
    reply: Reply,
    directive: Directive,
    outcome: Directive,
)
    requires
        old(server).wf(),
        old(job).stage == Stage::Connecting(token),
        old(server)@.clients.contains_key(token),
        old(server)@.clients[token].http_state is HasHost,
        call_ensures(Server::ready, (server, job, Reply::Connected(true)), directive),
        final(server)@.clients.contains_key(token),
        *old(later) == *final(server),
        old(event).stage == Stage::Writable,
        directive.effects@.last() matches Effect::Register { token: registered, interest, .. } && old(
            event,
        ).token == registered && old(event).events == interest,
        call_ensures(Server::ready, (later, event, reply), outcome),
    ensures
        outcome.client == Some(token),
        outcome.request matches Request::WriteBack { data } && data@ == old(
            server,
        )@.clients[token].front,
{
    assert(old(server)@.client_valid(token));
    let back = final(server)@.clients[token].backend_token->0;
    assert(final(server)@.client_valid(token));
    assert(final(server)@.backend_valid(back));
}

/// A client that could not be connected, or whose connection finds no free token, is
/// closed; the writable event comes next. Nothing else changes.
pub proof fn law_unconnected_clients_are_given_up(
    server: &mut Server,
    job: &mut Readiness,
    token: Token,
    connected: bool,
    directive: Directive,
)
    requires
        old(server).wf(),
        old(job).stage == Stage::Connecting(token),
        old(server)@.clients.contains_key(token),
        old(server)@.clients[token].http_state is HasHost,
        !connected || forall|back: Token|
            old(server)@.max_connections < back.0 <= 2 * old(server)@.max_connections
                ==> #[trigger] old(server)@.backends.contains_key(back),
        call_ensures(Server::ready, (server, job, Reply::Connected(connected)), directive),
    ensures
        final(job).stage == Stage::Writable,
        final(server)@ == (ServerView {
            clients: old(server)@.clients.remove(token),
            ..old(server)@
        }),
        directive.client == Some(token),
        directive.effects@ == seq![
            Effect::Shutdown { side: Side::Front },
            Effect::Deregister { side: Side::Front },
            Effect::Release,
        ],
        directive.request == Request::Continue,
{
    assert(old(server)@.client_valid(token));
    if connected {
        assert forall|back: Token| old(server)@.backends.dom().contains(back) implies #[trigger]
            old(server)@.back_tokens().contains(back) by {
            assert(old(server)@.backends.contains_key(back));
            assert(old(server)@.backend_valid(back));
        }
        assert(old(server)@.backends.dom() =~= old(server)@.back_tokens());
    }
}

/// What a backend sends changes its client as the read does by itself, and has the event
/// loop told; the writable event comes next. Nothing else changes.
pub proof fn law_backends_are_read(
    server: &mut Server,
    job: &mut Readiness,
    client: &mut Client,
    token: Token,
    read: BackRead,
    effects: Vec<Effect>,
    directive: Directive,
)
    requires
        old(job).stage == Stage::BackReading(token),
        old(client)@ == old(server)@.clients[token],
        call_ensures(Server::ready, (server, job, Reply::BackRead(read)), directive),
        call_ensures(Client::back_readable, (client, read), effects),
    ensures
        final(job).stage == Stage::Writable,
        final(server)@ == (ServerView {
            clients: old(server)@.clients.insert(token, final(client)@),
            ..old(server)@
        }),
        directive.client == Some(token),
        directive.effects@ == effects@,
        directive.request == Request::Continue,
{
}

// ---- The writable event ----

/// A writable client is sent all that waits for it, and a writable backend all that its
/// client has sent. Nothing changes yet.
pub proof fn law_writable_sockets_are_written(
    server: &mut Server,
    job: &mut Readiness,
    reply: Reply,
    directive: Directive,
)
    requires
        old(server).wf(),
        old(job).stage == Stage::Writable,
        old(job).events.writable,
        call_ensures(Server::ready, (server, job, reply), directive),
    ensures
        final(server)@ == old(server)@,
        directive.effects@.len() == 0,
        ({
            let token = old(job).token;
            let clients = old(server)@.clients;
            let backends = old(server)@.backends;
            &&& clients.contains_key(token) && clients[token].back.len() > 0 ==> {
                &&& final(job).stage == Stage::Writing(token)
                &&& directive.client == Some(token)
                &&& directive.request matches Request::WriteFront { data } && data@
                    == clients[token].back
            }
            &&& backends.contains_key(token) ==> {
                &&& final(job).stage == Stage::BackWriting(backends[token])
                &&& directive.client == Some(backends[token])
                &&& directive.request matches Request::WriteBack { data } && data@
                    == clients[backends[token]].front
            }
        }),
{
    if old(server)@.clients.contains_key(old(job).token) {
        assert(old(server)@.client_valid(old(job).token));
    }
    if old(server)@.backends.contains_key(old(job).token) {
        assert(old(server)@.backend_valid(old(job).token));
    }
}

/// What came of a write changes the client as the write does by itself, and has the event
/// loop told; the hang-up event comes next. Nothing else changes.
pub proof fn law_writes_are_taken_in(
    server: &mut Server,
    job: &mut Readiness,
    client: &mut Client,
    token: Token,
    front_write: FrontWrite,
    back_write: BackWrite,
    effects: Vec<Effect>,
    directive: Directive,
)
    requires
        old(client)@ == old(server)@.clients[token],
        ({
            ||| {
                &&& old(job).stage == Stage::Writing(token)
                &&& call_ensures(
                    Server::ready,
                    (server, job, Reply::FrontWrote(front_write)),
                    directive,
                )
                &&& call_ensures(Client::writable, (client, front_write), effects)
            }
            ||| {
                &&& old(job).stage == Stage::BackWriting(token)
                &&& call_ensures(
                    Server::ready,
                    (server, job, Reply::BackWrote(back_write)),
                    directive,
                )
                &&& call_ensures(Client::back_writable, (client, back_write), effects)
            }
        }),
    ensures
        final(job).stage == Stage::Hup,
        final(server)@ == (ServerView {
            clients: old(server)@.clients.insert(token, final(client)@),
            ..old(server)@
        }),
        directive.client == Some(token),
        directive.effects@ == effects@,
        directive.request == Request::Continue,
{
}

/// Bytes that wait for a socket are not forgotten: a client that has a backend, and bytes
/// on their way to it, waits for the backend to be writable, and so does one whose host
/// has just become known; a client with bytes on their way to itself waits for its TLS
/// stream to be writable.
pub open spec fn waiting_bytes_are_awaited(server: ServerView) -> bool {
    forall|token: Token| #[trigger]
        server.clients.contains_key(token) ==> {
            let client = server.clients[token];
            &&& client.backend && client.front.len() > 0 ==> client.back_interest.writable
            &&& client.http_state is HasHost ==> client.back_interest.writable
            &&& client.back.len() > 0 ==> client.front_interest.writable
        }
}

/// No step leaves bytes waiting for a socket that the client does not wait for, and in a
/// new proxy there are none.
pub proof fn law_waiting_bytes_are_awaited(
    server: &mut Server,
    job: &mut Readiness,
    reply: Reply,
    directive: Directive,
    listener: ApplicationListener,
    max_connections: usize,
    fresh: Server,
)
    ensures
        call_ensures(Server::new, (listener, max_connections), fresh) ==> waiting_bytes_are_awaited(
            fresh@,
        ),
        old(server).wf() && waiting_bytes_are_awaited(old(server)@) && old(job).fits(
            old(server)@,
        ) && call_ensures(Server::ready, (server, job, reply), directive)
            ==> waiting_bytes_are_awaited(final(server)@),
{
    if old(server).wf() && waiting_bytes_are_awaited(old(server)@) && old(job).fits(
        old(server)@,
    ) && call_ensures(Server::ready, (server, job, reply), directive) {
        assert forall|token: Token| #[trigger] final(server)@.clients.contains_key(token) implies {
            let client = final(server)@.clients[token];
            &&& client.backend && client.front.len() > 0 ==> client.back_interest.writable
            &&& client.http_state is HasHost ==> client.back_interest.writable
            &&& client.back.len() > 0 ==> client.front_interest.writable
        } by {
            if old(server)@.clients.contains_key(token) {
                assert(old(server)@.client_valid(token));
            }
        }
    }
}

// ---- The hang-up event ----

/// The effects that shut a client down: its TLS stream, and its backend where it has one.
pub open spec fn shut_down(client: ClientView, effects: Seq<Effect>) -> bool {
    if client.backend {
        effects =~= seq![
            Effect::Shutdown { side: Side::Front },
            Effect::Deregister { side: Side::Front },
            Effect::Shutdown { side: Side::Back },
            Effect::Deregister { side: Side::Back },
            Effect::Release,
        ]
    } else {
        effects =~= seq![
            Effect::Shutdown { side: Side::Front },
            Effect::Deregister { side: Side::Front },
            Effect::Release,
        ]
    }
}

/// A client that hangs up, whatever other events came with it, is closed where it never got
/// a backend or the backend hung up before: it is gone, with its backend connection, and
/// its sockets are shut down. Else its status says that it hung up. Nothing else changes,
/// and the notification has been dealt with.
pub proof fn law_hung_up_clients_are_noticed(
    server: &mut Server,
    job: &mut Readiness,
    reply: Reply,
    directive: Directive,
)
    requires
        old(server).wf(),
        old(job).stage == Stage::Hup,
        old(job).events.hup,
        old(server)@.clients.contains_key(old(job).token),
        call_ensures(Server::ready, (server, job, reply), directive),
    ensures
        final(job).stage == Stage::Done,
        directive.client == Some(old(job).token),
        directive.request == Request::Continue,
        ({
            let token = old(job).token;
            let client = old(server)@.clients[token];
            if client.status == ConnectionStatus::ClientConnected || client.status
                == ConnectionStatus::ServerClosed {
                &&& shut_down(client, directive.effects@)
                &&& final(server)@ == (ServerView {
                    clients: old(server)@.clients.remove(token),
                    backends: if client.backend {
                        old(server)@.backends.remove(client.backend_token->0)
                    } else {
                        old(server)@.backends
                    },
                    ..old(server)@
                })
            } else {
                &&& directive.effects@.len() == 0
                &&& final(server)@ == (ServerView {
                    clients: old(server)@.clients.insert(
                        token,
                        ClientView { status: ConnectionStatus::ClientClosed, ..client },
                    ),
                    ..old(server)@
                })
            }
        }),
{
    assert(old(server)@.client_valid(old(job).token));
}

/// A backend that hangs up, whatever other events came with it, has its client closed where
/// the client hung up before: it is gone, with its backend connection, and its sockets are
/// shut down. Else the status of the client says that the backend hung up. Nothing else
/// changes, and the notification has been dealt with.
pub proof fn law_hung_up_backends_are_noticed(
    server: &mut Server,
    job: &mut Readiness,
    reply: Reply,
    directive: Directive,
)
    requires
        old(server).wf(),
        old(job).stage == Stage::Hup,
        old(job).events.hup,
        old(server)@.backends.contains_key(old(job).token),
        call_ensures(Server::ready, (server, job, reply), directive),
    ensures
        final(job).stage == Stage::Done,
        ({
            let token = old(server)@.backends[old(job).token];
            let client = old(server)@.clients[token];
            &&& directive.client == Some(token)
            &&& directive.request == Request::Continue
            &&& if client.status == ConnectionStatus::ClientClosed {
                &&& shut_down(client, directive.effects@)
                &&& final(server)@ == (ServerView {
                    clients: old(server)@.clients.remove(token),
                    backends: old(server)@.backends.remove(old(job).token),
                    ..old(server)@
                })
            } else {
                &&& directive.effects@.len() == 0
                &&& final(server)@ == (ServerView {
                    clients: old(server)@.clients.insert(
                        token,
                        ClientView { status: ConnectionStatus::ServerClosed, ..client },
                    ),
                    ..old(server)@
                })
            }
        }),
{
    assert(old(server)@.backend_valid(old(job).token));
    assert(old(server)@.client_valid(old(server)@.backends[old(job).token]));
}

/// Once a notification has been dealt with, that is all that is said, and nothing changes.
pub proof fn law_finished_notifications_stay_finished(
    server: &mut Server,
    job: &mut Readiness,
    reply: Reply,
    directive: Directive,
)
    requires
        old(job).stage == Stage::Done,
        call_ensures(Server::ready, (server, job, reply), directive),
    ensures
        final(server)@ == old(server)@,
        *final(job) == *old(job),
        directive.client is None,
        directive.effects@.len() == 0,
        directive.request == Request::Done,
{
}

} // verus!
