//! What holds of the clients of the proxy: how they come, how they get a backend, and how
//! they go.

use crate::address::SocketAddr;
use crate::client::{
    AfterRead, BackRead, BackWrite, Client, ClientView, ConnectionStatus, Effect, FrontRead,
    FrontWrite, Side,
};
use crate::event::{EventSet, Token};
use crate::http::HttpState;
use crate::server::{ApplicationListener, Connection, Server, ServerView, Target};
use vstd::prelude::*;

verus! {

// ---- Making and asking ----

/// A new proxy has no routes and no clients, and one listener, which it was given. It can
/// be made for any number of connections that fits into memory.
pub proof fn law_new_proxies_are_empty(
    listener: ApplicationListener,
    max_connections: usize,
    server: Server,
)
    ensures
        max_connections * 1024 <= isize::MAX ==> call_requires(
            Server::new,
            (listener, max_connections),
        ),
        call_ensures(Server::new, (listener, max_connections), server) ==> {
            &&& server.wf()
            &&& server@.listener == listener
            &&& server@.max_listeners == 1
            &&& server@.max_connections == max_connections
            &&& server@.clients.dom() == Set::<Token>::empty()
            &&& server@.backends.dom() == Set::<Token>::empty()
            &&& server@.routes.fronts.dom() == Set::<Seq<char>>::empty()
            &&& server@.routes.instances.dom() == Set::<Seq<char>>::empty()
        },
{
}

/// Token 0 stands for the listener, that of a client for the client, and that of a backend
/// connection for the client it belongs to. Every other token stands for nobody. Any token
/// may be asked for.
pub proof fn law_tokens_stand_for_their_owners(server: &Server, token: Token, target: Target)
    requires
        server.wf(),
    ensures
        call_requires(Server::target, (server, token)),
        call_ensures(Server::target, (server, token), target) ==> target == (if token.0 == 0 {
            Target::Listener
        } else if server@.clients.contains_key(token) {
            Target::Client(token)
        } else if server@.backends.contains_key(token) {
            Target::Backend(server@.backends[token])
        } else {
            Target::Nobody
        }),
{
    if server@.clients.contains_key(token) {
        assert(server@.client_valid(token));
    }
    if server@.backends.contains_key(token) {
        assert(server@.backend_valid(token));
    }
}

/// The clients have the tokens from 1 on, the backend connections those behind them, as
/// many of each as there may be connections. A client knows its token, and has a backend
/// connection just where it knows the token of one that belongs to it.
pub proof fn law_clients_and_backends_know_each_other(server: &Server, token: Token, back: Token)
    requires
        server.wf(),
    ensures
        server@.clients.contains_key(token) ==> {
            let client = server@.clients[token];
            &&& 1 <= token.0 <= server@.max_connections
            &&& client.token == Some(token)
            &&& client.front.len() <= 2048 && client.back.len() <= 2048
            &&& client.backend == client.backend_token is Some
            &&& client.backend ==> client.http_state is Proxying
            &&& client.status == ConnectionStatus::ClientConnected || client.backend
            &&& client.backend_token is Some ==> server@.backends.contains_key(
                client.backend_token->0,
            ) && server@.backends[client.backend_token->0] == token
        },
        server@.backends.contains_key(back) ==> {
            &&& server@.max_connections < back.0 <= 2 * server@.max_connections
            &&& server@.clients.contains_key(server@.backends[back])
            &&& server@.clients[server@.backends[back]].backend_token == Some(back)
        },
{
    if server@.clients.contains_key(token) {
        assert(server@.client_valid(token));
    }
    if server@.backends.contains_key(back) {
        assert(server@.backend_valid(back));
    }
}

/// A client can be looked at under its token.
pub proof fn law_clients_are_found(server: &Server, token: Token, client: &Client)
    requires
        server.wf(),
        server@.clients.contains_key(token),
    ensures
        call_requires(Server::client, (server, token)),
        call_ensures(Server::client, (server, token), client) ==> client@ == server@.clients[token]
            && client.wf(),
{
}

// ---- Coming ----

/// A client that has just come in under a token waits for everything, has sent nothing
/// and has no backend.
pub open spec fn just_arrived(client: ClientView, token: Token) -> bool {
    &&& client.token == Some(token)
    &&& client.status == ConnectionStatus::ClientConnected
    &&& client.http_state is Initial
    &&& client.front.len() == 0 && client.back.len() == 0
    &&& !client.backend && client.backend_token is None
    &&& client.front_interest == (EventSet {
        readable: true,
        writable: true,
        error: true,
        hup: true,
    })
    &&& client.back_interest == client.front_interest
    &&& client.rx_count == 0 && client.tx_count == 0
}

/// A client whose TLS stream is there is taken in wherever one of the tokens of clients is
/// free. It gets such a token, under which its stream is registered for readable. Nothing
/// else changes.
pub proof fn law_clients_are_taken_in(
    server: &mut Server,
    free: Token,
    accepted: (Option<Token>, Vec<Effect>),
)
    requires
        old(server).wf(),
        1 <= free.0 <= old(server)@.max_connections,
        !old(server)@.clients.contains_key(free),
        call_ensures(Server::accept, (server, true), accepted),
    ensures
        final(server).wf(),
        ({
            let (token, effects) = accepted;
            &&& token is Some
            &&& 1 <= token.unwrap().0 <= old(server)@.max_connections
            &&& !old(server)@.clients.contains_key(token->0)
            &&& just_arrived(final(server)@.clients[token->0], token->0)
            &&& final(server)@ == (ServerView {
                clients: old(server)@.clients.insert(
                    token->0,
                    final(server)@.clients[token->0],
                ),
                ..old(server)@
            })
            &&& effects@ == seq![
                Effect::Register {
                    side: Side::Front,
                    token: token->0,
                    interest: EventSet {
                        readable: true,
                        writable: false,
                        error: false,
                        hup: false,
                    },
                    oneshot: false,
                },
            ]
        }),
{
    assert(old(server)@.front_tokens().contains(free));
    assert(!old(server)@.clients.dom().contains(free));
}

/// Without a TLS stream, or without a free token, nothing changes and nothing is
/// registered.
pub proof fn law_clients_are_turned_away(
    server: &mut Server,
    established: bool,
    accepted: (Option<Token>, Vec<Effect>),
)
    requires
        old(server).wf(),
        !established || forall|token: Token|
            1 <= token.0 <= old(server)@.max_connections ==> #[trigger]
                old(server)@.clients.contains_key(token),
        call_ensures(Server::accept, (server, established), accepted),
    ensures
        accepted.0 is None,
        accepted.1@.len() == 0,
        final(server)@ == old(server)@,
        final(server).wf(),
{
}

// ---- Getting a backend ----

/// A client whose host is known is to be connected to one of the instances of the
/// application of the first front of the host, whatever the rest of its request, and stays
/// as it is. It is closed only where there are no instances to choose from.
pub proof fn law_clients_are_led_to_an_instance(
    server: &mut Server,
    token: Token,
    connection: Connection,
)
    requires
        old(server)@.clients[token].http_state is HasHost,
        call_ensures(Server::connect_to_backend, (server, token), connection),
    ensures
        final(server).wf(),
        old(server)@.clients[token].http_state matches HttpState::HasHost(_, _, host) ==> {
            let fronts = old(server)@.routes.fronts;
            let instances = old(server)@.routes.instances;
            let app_id = fronts[host@][0].app_id;
            if fronts.contains_key(host@) && fronts[host@].len() > 0 && instances.contains_key(
                app_id,
            ) {
                &&& connection is To
                &&& instances[app_id].contains(connection->To_0)
                &&& final(server)@ == old(server)@
            } else {
                &&& connection is Closed
                &&& !final(server)@.clients.contains_key(token)
            }
        },
{
}

/// The requests of two clients that name the same host are treated alike: both are led to
/// an instance or both are turned away, whatever else they say.
pub proof fn law_requests_for_one_host_are_treated_alike(
    server: &mut Server,
    other: &mut Server,
    token: Token,
    other_token: Token,
    connection: Connection,
    other_connection: Connection,
)
    requires
        old(server)@.routes == old(other)@.routes,
        old(server)@.clients[token].http_state is HasHost,
        old(other)@.clients[other_token].http_state is HasHost,
        old(server)@.clients[token].http_state->HasHost_2@
            == old(other)@.clients[other_token].http_state->HasHost_2@,
        call_ensures(Server::connect_to_backend, (server, token), connection),
        call_ensures(Server::connect_to_backend, (other, other_token), other_connection),
    ensures
        connection is To == other_connection is To,
{
}

/// A client whose host is not known gets no backend and is closed. One that is proxied
/// already is treated as its host says.
pub proof fn law_unknown_hosts_lead_nowhere(
    server: &mut Server,
    token: Token,
    connection: Connection,
)
    requires
        call_ensures(Server::connect_to_backend, (server, token), connection),
    ensures
        ({
            let state = old(server)@.clients[token].http_state;
            &&& state is Initial || state is Error || state is HasRequestLine ==> connection
                is Closed && !final(server)@.clients.contains_key(token)
            &&& state is Proxying ==> {
                let host = state->Proxying_1@;
                let fronts = old(server)@.routes.fronts;
                let instances = old(server)@.routes.instances;
                let app_id = fronts[host][0].app_id;
                if fronts.contains_key(host) && fronts[host].len() > 0 && instances.contains_key(
                    app_id,
                ) {
                    &&& connection is To
                    &&& instances[app_id].contains(connection->To_0)
                    &&& final(server)@ == old(server)@
                } else {
                    &&& connection is Closed
                    &&& !final(server)@.clients.contains_key(token)
                }
            }
        }),
{
}

/// An instance that was found is the one to connect to, and nothing changes yet.
pub proof fn law_the_found_instance_is_connected_to(
    server: &mut Server,
    token: Token,
    address: Option<SocketAddr>,
    connection: Connection,
)
    requires
        call_ensures(Server::connect_to_instance, (server, token, address), connection),
    ensures
        final(server).wf(),
        address is Some ==> connection == Connection::To(address->0) && final(server)@
            == old(server)@,
        address is None ==> connection is Closed && !final(server)@.clients.contains_key(token),
{
}

/// A client that is closed for want of an instance is closed as any other client is.
pub proof fn law_clients_without_an_instance_are_closed(
    server: &mut Server,
    closing: &mut Server,
    token: Token,
    address: Option<SocketAddr>,
    connection: Connection,
    effects: Vec<Effect>,
)
    requires
        *old(closing) == *old(server),
        connection is Closed,
        call_ensures(Server::connect_to_backend, (server, token), connection) || call_ensures(
            Server::connect_to_instance,
            (server, token, address),
            connection,
        ),
        call_ensures(Server::close_client, (closing, token), effects),
    ensures
        final(server)@ == final(closing)@,
        connection->Closed_0@ == effects@,
{
}

/// Whoever is connected is proxied from now on, to a free token of the backends, under
/// which the backend is registered for writable: what waits for it will be written.
/// Nothing else changes, and nothing that was received is lost.
pub proof fn law_connected_backends_are_waited_for(
    server: &mut Server,
    token: Token,
    free: Token,
    effects: Vec<Effect>,
)
    requires
        old(server).wf(),
        old(server)@.clients.contains_key(token),
        old(server)@.clients[token].http_state is HasHost || old(
            server,
        )@.clients[token].http_state is Proxying,
        !old(server)@.clients[token].backend,
        old(server)@.max_connections < free.0 <= 2 * old(server)@.max_connections,
        !old(server)@.backends.contains_key(free),
        call_ensures(Server::backend_connected, (server, token, true), effects),
    ensures
        final(server).wf(),
        ({
            let before = old(server)@.clients[token];
            let after = final(server)@.clients[token];
            let back = after.backend_token->0;
            &&& final(server)@.clients.contains_key(token)
            &&& after == (ClientView {
                backend: true,
                backend_token: Some(back),
                status: ConnectionStatus::Connected,
                http_state: if before.http_state is Proxying {
                    before.http_state
                } else {
                    HttpState::Proxying(
                        before.http_state->HasHost_1,
                        before.http_state->HasHost_2,
                    )
                },
                ..before
            })
            &&& old(server)@.max_connections < back.0 <= 2 * old(server)@.max_connections
            &&& !old(server)@.backends.contains_key(back)
            &&& final(server)@ == (ServerView {
                clients: old(server)@.clients.insert(token, after),
                backends: old(server)@.backends.insert(back, token),
                ..old(server)@
            })
            &&& effects@ == seq![
                Effect::Register {
                    side: Side::Back,
                    token: back,
                    interest: EventSet {
                        readable: false,
                        writable: true,
                        error: false,
                        hup: false,
                    },
                    oneshot: false,
                },
            ]
        }),
{
    assert(old(server)@.client_valid(token));
    assert(old(server)@.back_tokens().contains(free));
    assert(!old(server)@.backends.dom().contains(free));
}

/// Without a connection, or without a free token for it, the client is closed as any other
/// client is.
pub proof fn law_unconnected_clients_are_closed(
    server: &mut Server,
    closing: &mut Server,
    token: Token,
    connected: bool,
    effects: Vec<Effect>,
    closing_effects: Vec<Effect>,
)
    requires
        old(server).wf(),
        *old(closing) == *old(server),
        !connected || forall|back: Token|
            old(server)@.max_connections < back.0 <= 2 * old(server)@.max_connections
                ==> #[trigger] old(server)@.backends.contains_key(back),
        call_ensures(Server::backend_connected, (server, token, connected), effects),
        call_ensures(Server::close_client, (closing, token), closing_effects),
    ensures
        final(server)@ == final(closing)@,
        effects@ == closing_effects@,
{
    if connected {
        assert forall|back: Token| old(server)@.backends.dom().contains(back) implies #[trigger]
            old(server)@.back_tokens().contains(back) by {
            assert(old(server)@.backends.contains_key(back));
            assert(old(server)@.backend_valid(back));
        }
        assert(old(server)@.backends.dom() =~= old(server)@.back_tokens());
    }
}

// ---- Reading and writing ----

/// Reading and writing concern one client of the proxy, which changes, and has the event
/// loop told, as it would by itself. Nothing else changes.
pub proof fn law_clients_are_read_and_written_one_by_one(
    server: &mut Server,
    client: &mut Client,
    token: Token,
    state: HttpState,
    front_write: FrontWrite,
    back_read: BackRead,
    back_write: BackWrite,
    effects: Vec<Effect>,
    client_effects: Vec<Effect>,
)
    requires
        old(client)@ == old(server)@.clients[token],
        ({
            ||| call_ensures(Server::headers_parsed, (server, token, state), effects)
                && call_ensures(Client::headers_parsed, (client, state), client_effects)
            ||| call_ensures(Server::writable, (server, token, front_write), effects)
                && call_ensures(Client::writable, (client, front_write), client_effects)
            ||| call_ensures(Server::back_readable, (server, token, back_read), effects)
                && call_ensures(Client::back_readable, (client, back_read), client_effects)
            ||| call_ensures(Server::back_writable, (server, token, back_write), effects)
                && call_ensures(Client::back_writable, (client, back_write), client_effects)
        }),
    ensures
        final(server).wf(),
        final(server)@ == (ServerView {
            clients: old(server)@.clients.insert(token, final(client)@),
            ..old(server)@
        }),
        effects@ == client_effects@,
{
}

/// A read from the TLS stream concerns one client of the proxy, which changes, and has its
/// bytes parsed or the event loop told, as it would by itself. Nothing else changes.
pub proof fn law_clients_are_read_one_by_one(
    server: &mut Server,
    client: &mut Client,
    token: Token,
    read: FrontRead,
    next: AfterRead,
    client_next: AfterRead,
)
    requires
        old(client)@ == old(server)@.clients[token],
        call_ensures(Server::readable, (server, token, read), next),
        call_ensures(Client::readable, (client, read), client_next),
    ensures
        final(server).wf(),
        final(server)@ == (ServerView {
            clients: old(server)@.clients.insert(token, final(client)@),
            ..old(server)@
        }),
        next is Parse == client_next is Parse,
        next is Parse ==> next->state == client_next->state && next->data@ == client_next->data@,
        next is Effects ==> next->Effects_0@ == client_next->Effects_0@,
{
}

/// The proxy takes for a client whatever the client takes, and closes or connects any
/// client that is there.
pub proof fn law_the_proxy_takes_what_its_clients_take(
    server: &mut Server,
    token: Token,
    read: FrontRead,
    state: HttpState,
    front_write: FrontWrite,
    back_read: BackRead,
    back_write: BackWrite,
    established: bool,
    address: Option<SocketAddr>,
    connected: bool,
)
    requires
        old(server).wf(),
        old(server)@.clients.contains_key(token),
    ensures
        ({
            let known = old(server)@.clients[token];
            &&& (read matches FrontRead::Received(bytes) ==> known.front.len() + bytes@.len()
                <= 2048 && (known.http_state is Proxying ==> known.rx_count + bytes@.len()
                <= usize::MAX)) ==> call_requires(Server::readable, (server, token, read))
            &&& !(state is Error) && !(known.http_state is Proxying) ==> call_requires(
                Server::headers_parsed,
                (server, token, state),
            )
            &&& (front_write matches FrontWrite::Wrote(count) ==> count <= known.back.len()
                && known.tx_count + count <= usize::MAX) ==> call_requires(
                Server::writable,
                (server, token, front_write),
            )
            &&& (back_read matches BackRead::Received(bytes) ==> known.back.len() + bytes@.len()
                <= 2048) ==> call_requires(Server::back_readable, (server, token, back_read))
            &&& call_requires(Server::back_writable, (server, token, back_write))
            &&& call_requires(Server::accept, (server, established))
            &&& call_requires(Server::close_client, (server, token))
            &&& call_requires(Server::connect_to_instance, (server, token, address))
            &&& !known.backend && (known.http_state is HasHost || known.http_state is Proxying)
                ==> call_requires(
                Server::backend_connected,
                (server, token, connected),
            )
            &&& call_requires(Server::front_hup, (server, token))
            &&& known.backend ==> call_requires(Server::back_hup, (server, token))
        }),
{
    assert(old(server)@.client_valid(token));
}

/// A backend is looked for on behalf of every client but one whose host belongs to an
/// application that has lost all its instances.
pub proof fn law_backends_are_looked_for(server: &mut Server, token: Token)
    requires
        old(server).wf(),
        old(server)@.clients.contains_key(token),
        ({
            let state = old(server)@.clients[token].http_state;
            let host = if state is HasHost {
                state->HasHost_2
            } else {
                state->Proxying_1
            };
            let fronts = old(server)@.routes.fronts;
            let instances = old(server)@.routes.instances;
            let app_id = fronts[host@][0].app_id;
            state is HasHost || state is Proxying ==> !(fronts.contains_key(host@)
                && fronts[host@].len() > 0 && instances.contains_key(app_id)
                && instances[app_id].len() == 0)
        }),
    ensures
        call_requires(Server::connect_to_backend, (server, token)),
{
}

// ---- Going ----

/// Closing a client shuts its TLS stream down, takes it from the event loop, does the same
/// with its backend where it has one, and drops both. The client is gone, and with it its
/// backend connection; nothing else changes.
pub proof fn law_closing_shuts_everything_down(
    server: &mut Server,
    token: Token,
    effects: Vec<Effect>,
)
    requires
        old(server).wf(),
        old(server)@.clients.contains_key(token),
        call_ensures(Server::close_client, (server, token), effects),
    ensures
        final(server).wf(),
        ({
            let client = old(server)@.clients[token];
            &&& final(server)@ == (ServerView {
                clients: old(server)@.clients.remove(token),
                backends: if client.backend {
                    old(server)@.backends.remove(client.backend_token->0)
                } else {
                    old(server)@.backends
                },
                ..old(server)@
            })
            &&& effects@ == (if client.backend {
                seq![
                    Effect::Shutdown { side: Side::Front },
                    Effect::Deregister { side: Side::Front },
                    Effect::Shutdown { side: Side::Back },
                    Effect::Deregister { side: Side::Back },
                    Effect::Release,
                ]
            } else {
                seq![
                    Effect::Shutdown { side: Side::Front },
                    Effect::Deregister { side: Side::Front },
                    Effect::Release,
                ]
            })
        }),
{
    assert(old(server)@.client_valid(token));
}

/// A client that hangs up is closed, as any other client is, where its backend hung up
/// before or was never there; else its status says that it hung up, and nothing else
/// changes.
pub proof fn law_clients_hang_up(
    server: &mut Server,
    closing: &mut Server,
    token: Token,
    effects: Vec<Effect>,
    closing_effects: Vec<Effect>,
)
    requires
        *old(closing) == *old(server),
        old(server)@.clients.contains_key(token),
        call_ensures(Server::front_hup, (server, token), effects),
        call_ensures(Server::close_client, (closing, token), closing_effects),
    ensures
        final(server).wf(),
        ({
            let client = old(server)@.clients[token];
            if client.status == ConnectionStatus::ClientConnected || client.status
                == ConnectionStatus::ServerClosed {
                final(server)@ == final(closing)@ && effects@ == closing_effects@
            } else {
                &&& effects@.len() == 0
                &&& final(server)@ == (ServerView {
                    clients: old(server)@.clients.insert(
                        token,
                        ClientView { status: ConnectionStatus::ClientClosed, ..client },
                    ),
                    ..old(server)@
                })
            }
        }),
{
}

/// A client whose backend hangs up is closed, as any other client is, where it hung up
/// itself before; else its status says that the backend hung up, and nothing else changes.
pub proof fn law_backends_hang_up(
    server: &mut Server,
    closing: &mut Server,
    token: Token,
    effects: Vec<Effect>,
    closing_effects: Vec<Effect>,
)
    requires
        *old(closing) == *old(server),
        old(server)@.clients.contains_key(token),
        call_ensures(Server::back_hup, (server, token), effects),
        call_ensures(Server::close_client, (closing, token), closing_effects),
    ensures
        final(server).wf(),
        ({
            let client = old(server)@.clients[token];
            if client.status == ConnectionStatus::ClientClosed {
                final(server)@ == final(closing)@ && effects@ == closing_effects@
            } else {
                &&& effects@.len() == 0
                &&& final(server)@ == (ServerView {
                    clients: old(server)@.clients.insert(
                        token,
                        ClientView { status: ConnectionStatus::ServerClosed, ..client },
                    ),
                    ..old(server)@
                })
            }
        }),
{
}

} // verus!
