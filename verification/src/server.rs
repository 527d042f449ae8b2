//! The proxy as a whole: its routes, its clients and their backend connections.

use crate::address::SocketAddr;
use crate::client::{
    AfterRead, BackRead, BackWrite, Client, ClientView, ConnectionStatus, Effect, FrontRead,
    FrontWrite, Side, BUFFER_SIZE,
};
use crate::event::{EventSet, Token};
use crate::http::HttpState;
use crate::messages::{Command, HttpFront, HttpProxyOrder, ServerMessage};
use crate::routes::{Routes, RoutesView};
use crate::slab::{
    client_slots, client_tokens, token_range, token_slots, token_tokens, ClientSlab, TokenSlab,
};
use vstd::prelude::*;

verus! {

/// The socket on which clients arrive: its token and its address.
#[derive(Debug, Clone, Copy, PartialEq, Eq, Structural)]
pub struct ApplicationListener {
    pub token: Token,
    pub front_address: SocketAddr,
}

/// What a token stands for.
#[derive(Debug, Clone, Copy, PartialEq, Eq, Structural)]
pub enum Target {
    /// The listener.
    Listener,
    /// The TLS stream of the client.
    Client(Token),
    /// The backend connection of the client.
    Backend(Token),
    /// Nothing, or nothing any more.
    Nobody,
}

/// What comes of looking for a backend for a client.
#[derive(Debug)]
pub enum Connection {
    /// The instance to connect to.
    To(SocketAddr),
    /// There is none: the client has been closed.
    Closed(Vec<Effect>),
}

/// What follows an order.
#[derive(Debug, Clone, Copy, PartialEq, Eq, Structural)]
pub enum Answer {
    /// A message to whoever gave the order.
    Message(ServerMessage),
    /// The event loop has to end.
    Shutdown,
    /// Nothing.
    Nothing,
}

/// The state of the proxy: the clients under the tokens of their TLS streams, and
/// for each backend connection, under its token, the token of its client.
#[verifier::ext_equal]
pub struct ServerView {
    pub routes: RoutesView,
    pub listener: ApplicationListener,
    pub clients: Map<Token, ClientView>,
    pub backends: Map<Token, Token>,
    pub max_listeners: nat,
    pub max_connections: nat,
}

/// The effects of closing a client: its sockets are shut down, taken from the
/// event loop and dropped.
pub open spec fn close_effects(client: ClientView) -> Seq<Effect> {
    let front = seq![Effect::Shutdown { side: Side::Front }, Effect::Deregister { side: Side::Front }];
    let back = if client.backend {
        seq![Effect::Shutdown { side: Side::Back }, Effect::Deregister { side: Side::Back }]
    } else {
        Seq::empty()
    };
    (front + back).push(Effect::Release)
}

impl ServerView {
    /// The tokens of the TLS streams.
    pub open spec fn front_tokens(self) -> Set<Token> {
        token_range(self.max_listeners, self.max_connections)
    }

    /// The tokens of the backend connections.
    pub open spec fn back_tokens(self) -> Set<Token> {
        token_range(self.max_listeners + self.max_connections, self.max_connections)
    }

    /// A client stored under `token` knows it, has no more bytes waiting than its
    /// buffers hold, and is proxied once it has a backend. Its status says whether it
    /// has one.
    pub open spec fn client_valid(self, token: Token) -> bool {
        let client = self.clients[token];
        &&& self.front_tokens().contains(token)
        &&& client.token == Some(token)
        &&& client.front.len() <= BUFFER_SIZE
        &&& client.back.len() <= BUFFER_SIZE
        &&& client.backend == client.backend_token is Some
        &&& client.backend ==> client.http_state is Proxying
        &&& client.status_valid()
        &&& client.backend_token matches Some(back) ==> self.backends.contains_key(back)
            && self.backends[back] == token
    }

    /// A backend connection belongs to a client that has it as its backend.
    pub open spec fn backend_valid(self, token: Token) -> bool {
        &&& self.back_tokens().contains(token)
        &&& self.clients.contains_key(self.backends[token])
        &&& self.clients[self.backends[token]].backend_token == Some(token)
    }

    /// Every client and every backend connection is valid, and there is one listener.
    pub open spec fn valid(self) -> bool {
        &&& self.max_listeners == 1
        &&& self.max_listeners + 2 * self.max_connections <= usize::MAX
        &&& forall|token: Token| #[trigger]
            self.clients.contains_key(token) ==> self.client_valid(token)
        &&& forall|token: Token| #[trigger]
            self.backends.contains_key(token) ==> self.backend_valid(token)
    }

    /// The state with one client put in place.
    pub open spec fn with_client(self, token: Token, client: ClientView) -> ServerView {
        ServerView { clients: self.clients.insert(token, client), ..self }
    }

    /// The state after a client has been closed. Its backend connection goes with it.
    pub open spec fn closed(self, token: Token) -> ServerView {
        ServerView {
            clients: self.clients.remove(token),
            backends: match self.clients[token].backend_token {
                Some(back) => self.backends.remove(back),
                None => self.backends,
            },
            ..self
        }
    }

    /// The state after the backend of a client was connected under `back`.
    pub open spec fn proxied(self, token: Token, back: Token) -> ServerView {
        ServerView {
            backends: self.backends.insert(back, token),
            ..self.with_client(token, self.clients[token].proxied(back))
        }
    }

    /// What a token stands for. The listener comes first, then the TLS streams,
    /// then the backend connections.
    pub open spec fn target(self, token: Token) -> Target {
        if token.0 < self.max_listeners {
            Target::Listener
        } else if token.0 < self.max_listeners + self.max_connections {
            if self.clients.contains_key(token) {
                Target::Client(token)
            } else {
                Target::Nobody
            }
        } else if token.0 < self.max_listeners + 2 * self.max_connections {
            if self.backends.contains_key(token) && self.clients.contains_key(
                self.backends[token],
            ) {
                Target::Backend(self.backends[token])
            } else {
                Target::Nobody
            }
        } else {
            Target::Nobody
        }
    }

    /// A client that has just been put under `token`.
    pub open spec fn newcomer(token: Token) -> ClientView {
        ClientView {
            token: Some(token),
            status: ConnectionStatus::ClientConnected,
            ..ClientView::fresh()
        }
    }

    /// The state with other routes.
    pub open spec fn with_routes(self, routes: RoutesView) -> ServerView {
        ServerView { routes, ..self }
    }

    /// The state after an order has been carried out. `address` is what the address
    /// that the order names was parsed to.
    pub open spec fn ordered(self, order: HttpProxyOrder, address: Option<SocketAddr>) -> ServerView {
        match order {
            HttpProxyOrder::Command(Command::AddHttpFront(front)) => self.with_routes(
                self.routes.with_front(front@),
            ),
            HttpProxyOrder::Command(Command::RemoveHttpFront(front)) => self.with_routes(
                self.routes.without_front(front@),
            ),
            HttpProxyOrder::Command(Command::AddInstance(instance)) if address is Some => {
                self.with_routes(self.routes.with_instance(instance.app_id@, address->0))
            },
            HttpProxyOrder::Command(Command::RemoveInstance(instance)) if address is Some => {
                self.with_routes(self.routes.without_instance(instance.app_id@, address->0))
            },
            _ => self,
        }
    }

    /// The answer to an order. One with an address that could not be parsed gets
    /// none, nor does one that the proxy does not know.
    pub open spec fn answer(order: HttpProxyOrder, address: Option<SocketAddr>) -> Answer {
        match order {
            HttpProxyOrder::Command(Command::AddHttpFront(_)) => Answer::Message(
                ServerMessage::AddedHttpFront,
            ),
            HttpProxyOrder::Command(Command::RemoveHttpFront(_)) => Answer::Message(
                ServerMessage::RemovedHttpFront,
            ),
            HttpProxyOrder::Command(Command::AddInstance(_)) if address is Some => Answer::Message(
                ServerMessage::AddedInstance,
            ),
            HttpProxyOrder::Command(Command::RemoveInstance(_)) if address is Some => {
                Answer::Message(ServerMessage::RemovedInstance)
            },
            HttpProxyOrder::Stop => Answer::Shutdown,
            _ => Answer::Nothing,
        }
    }

    /// The client hung up. It is closed where the backend did so before or was never
    /// there.
    pub open spec fn front_hup(self, token: Token) -> ServerView {
        let client = self.clients[token];
        if client.status == ConnectionStatus::ServerClosed || client.status
            == ConnectionStatus::ClientConnected {
            self.closed(token)
        } else {
            self.with_client(token, ClientView { status: ConnectionStatus::ClientClosed, ..client })
        }
    }

    /// The backend of a client hung up. The client is closed where it hung up before.
    pub open spec fn back_hup(self, token: Token) -> ServerView {
        let client = self.clients[token];
        if client.status == ConnectionStatus::ClientClosed {
            self.closed(token)
        } else {
            self.with_client(token, ClientView { status: ConnectionStatus::ServerClosed, ..client })
        }
    }
}

/// A client that keeps its tokens can take its place without harm.
proof fn lemma_with_client_valid(server: ServerView, token: Token, client: ClientView)
    requires
        server.valid(),
        server.clients.contains_key(token),
        client.token == server.clients[token].token,
        client.backend == server.clients[token].backend,
        client.backend_token == server.clients[token].backend_token,
        client.backend ==> client.http_state is Proxying,
        client.status_valid(),
        client.front.len() <= BUFFER_SIZE,
        client.back.len() <= BUFFER_SIZE,
    ensures
        server.with_client(token, client).valid(),
{
    let next = server.with_client(token, client);
    assert(server.client_valid(token));
    assert forall|other: Token| #[trigger] next.clients.contains_key(other) implies next.client_valid(
        other,
    ) by {
        assert(server.clients.contains_key(other));
        assert(server.client_valid(other));
    }
    assert forall|other: Token| #[trigger]
        next.backends.contains_key(other) implies next.backend_valid(other) by {
        assert(server.backends.contains_key(other));
        assert(server.backend_valid(other));
    }
}

/// Closing a client leaves the others and their backends as they were.
proof fn lemma_closed_valid(server: ServerView, token: Token)
    requires
        server.valid(),
        server.clients.contains_key(token),
    ensures
        server.closed(token).valid(),
{
    let next = server.closed(token);
    assert(server.client_valid(token));
    assert forall|other: Token| #[trigger] next.clients.contains_key(other) implies next.client_valid(
        other,
    ) by {
        assert(server.clients.contains_key(other));
        assert(server.client_valid(other));
    }
    assert forall|other: Token| #[trigger]
        next.backends.contains_key(other) implies next.backend_valid(other) by {
        assert(server.backends.contains_key(other));
        assert(server.backend_valid(other));
    }
}

/// A client that has just arrived takes a free token without harm.
proof fn lemma_newcomer_valid(server: ServerView, token: Token)
    requires
        server.valid(),
        server.front_tokens().contains(token),
        !server.clients.contains_key(token),
    ensures
        server.with_client(token, ServerView::newcomer(token)).valid(),
{
    let next = server.with_client(token, ServerView::newcomer(token));
    assert forall|other: Token| #[trigger] next.clients.contains_key(other) implies next.client_valid(
        other,
    ) by {
        if other != token {
            assert(server.clients.contains_key(other));
            assert(server.client_valid(other));
        }
    }
    assert forall|other: Token| #[trigger]
        next.backends.contains_key(other) implies next.backend_valid(other) by {
        assert(server.backends.contains_key(other));
        assert(server.backend_valid(other));
    }
}

/// A client without a backend gets one without harm.
proof fn lemma_proxied_valid(server: ServerView, token: Token, back: Token)
    requires
        server.valid(),
        server.clients.contains_key(token),
        server.clients[token].backend_token is None,
        server.clients[token].http_state.host() is Some,
        server.clients[token].http_state.request_line() is Some,
        server.back_tokens().contains(back),
        !server.backends.contains_key(back),
    ensures
        server.proxied(token, back).valid(),
{
    let next = server.proxied(token, back);
    assert(server.client_valid(token));
    assert forall|other: Token| #[trigger] next.clients.contains_key(other) implies next.client_valid(
        other,
    ) by {
        assert(server.clients.contains_key(other));
        assert(server.client_valid(other));
    }
    assert forall|other: Token| #[trigger]
        next.backends.contains_key(other) implies next.backend_valid(other) by {
        if other != back {
            assert(server.backends.contains_key(other));
            assert(server.backend_valid(other));
        }
    }
}

/// The states of the clients of a slab.
spec fn views(slots: Map<Token, Client>) -> Map<Token, ClientView> {
    slots.map_values(|client: Client| client@)
}

/// The proxy.
pub struct Server {
    routes: Routes,
    listener: ApplicationListener,
    clients: ClientSlab,
    backend: TokenSlab,
    max_listeners: usize,
    max_connections: usize,
}

impl View for Server {
    type V = ServerView;

    closed spec fn view(&self) -> ServerView {
        ServerView {
            routes: self.routes@,
            listener: self.listener,
            clients: views(client_slots(self.clients)),
            backends: token_slots(self.backend),
            max_listeners: self.max_listeners as nat,
            max_connections: self.max_connections as nat,
        }
    }
}

impl Server {
    /// The slabs hand out the tokens that are meant for them, and the buffers of
    /// every client are in place.
    pub closed spec fn stored(&self) -> bool {
        &&& client_tokens(self.clients) == self@.front_tokens()
        &&& token_tokens(self.backend) == self@.back_tokens()
        &&& forall|token: Token| #[trigger]
            client_slots(self.clients).contains_key(token) ==> client_slots(
                self.clients,
            )[token].wf()
    }

    /// The proxy is in a state that it can get into.
    pub open spec fn wf(&self) -> bool {
        self.stored() && self@.valid()
    }

    /// A proxy without routes and without clients, for at most `max_connections`
    /// clients at a time.
    pub fn new(listener: ApplicationListener, max_connections: usize) -> (server: Server)
        requires
            max_connections * 1024 <= isize::MAX,
        ensures
            server.wf(),
            server@ == (ServerView {
                routes: RoutesView::empty(),
                listener,
                clients: Map::empty(),
                backends: Map::empty(),
                max_listeners: 1,
                max_connections: max_connections as nat,
            }),
    {
        let server = Server {
            routes: Routes::new(),
            listener,
            clients: ClientSlab::new_starting_at(Token(1), max_connections),
            backend: TokenSlab::new_starting_at(Token(1 + max_connections), max_connections),
            max_listeners: 1,
            max_connections,
        };
        assert(server@.clients =~= Map::empty());
        assert(server@.backends =~= Map::empty());
        server
    }

    /// What a token stands for.
    pub fn target(&self, token: Token) -> (target: Target)
        requires
            self.wf(),
        ensures
            target == self@.target(token),
    {
        if token.as_usize() < self.max_listeners {
            Target::Listener
        } else if token.as_usize() < self.max_listeners + self.max_connections {
            if self.clients.contains(token) {
                Target::Client(token)
            } else {
                Target::Nobody
            }
        } else if token.as_usize() < self.max_listeners + 2 * self.max_connections {
            if self.backend.contains(token) {
                let owner = self.backend.index(token);
                assert(self@.backends.contains_key(token));
                assert(self@.clients.contains_key(owner));
                assert(self@.client_valid(owner));
                if self.clients.contains(owner) {
                    Target::Backend(owner)
                } else {
                    Target::Nobody
                }
            } else {
                Target::Nobody
            }
        } else {
            Target::Nobody
        }
    }

    /// The client under a token.
    pub fn client(&self, token: Token) -> (client: &Client)
        requires
            self.wf(),
            self@.clients.contains_key(token),
        ensures
            client.wf(),
            client@ == self@.clients[token],
    {
        self.clients.index(token)
    }

    /// Closes a client. Its backend connection goes with it.
    pub fn close_client(&mut self, token: Token) -> (effects: Vec<Effect>)
        requires
            old(self).wf(),
            old(self)@.clients.contains_key(token),
        ensures
            final(self).wf(),
            final(self)@ == old(self)@.closed(token),
            effects@ == close_effects(old(self)@.clients[token]),
    {
        proof {
            assert(self@.client_valid(token));
            lemma_closed_valid(self@, token);
        }
        let mut effects: Vec<Effect> = Vec::new();
        effects.push(Effect::Shutdown { side: Side::Front });
        effects.push(Effect::Deregister { side: Side::Front });
        let client = self.clients.index(token);
        if client.has_backend() {
            effects.push(Effect::Shutdown { side: Side::Back });
            effects.push(Effect::Deregister { side: Side::Back });
        }
        effects.push(Effect::Release);
        if let Some(backend_token) = client.backend_token() {
            if self.backend.contains(backend_token) {
                self.backend.remove(backend_token);
            }
        }
        self.clients.remove(token);
        assert(self@ =~= old(self)@.closed(token));
        effects
    }

    /// Adds a front at the end of those of its host.
    pub fn add_http_front(&mut self, http_front: HttpFront)
        requires
            old(self).wf(),
        ensures
            final(self).wf(),
            final(self)@ == old(self)@.with_routes(old(self)@.routes.with_front(http_front@)),
    {
        self.routes.add_http_front(http_front);
    }

    /// Removes every front like the given one.
    pub fn remove_http_front(&mut self, front: HttpFront)
        requires
            old(self).wf(),
        ensures
            final(self).wf(),
            final(self)@ == old(self)@.with_routes(old(self)@.routes.without_front(front@)),
    {
        self.routes.remove_http_front(front);
    }

    /// Adds an instance at the end of those of its application.
    pub fn add_instance(&mut self, app_id: &str, instance_address: &SocketAddr)
        requires
            old(self).wf(),
        ensures
            final(self).wf(),
            final(self)@ == old(self)@.with_routes(
                old(self)@.routes.with_instance(app_id@, *instance_address),
            ),
    {
        self.routes.add_instance(app_id, instance_address);
    }

    /// Removes every instance of the application that has the given address.
    pub fn remove_instance(&mut self, app_id: &str, instance_address: &SocketAddr)
        requires
            old(self).wf(),
        ensures
            final(self).wf(),
            final(self)@ == old(self)@.with_routes(
                old(self)@.routes.without_instance(app_id@, *instance_address),
            ),
    {
        self.routes.remove_instance(app_id, instance_address);
    }

    /// An instance for a request for `host`, drawn at random from those it may go to.
    pub fn backend_from_request(&self, host: &str, uri: &str) -> (address: Option<SocketAddr>)
        requires
            self@.routes.drawable(host@),
        ensures
            match self@.routes.candidates(host@) {
                Some(instances) => address is Some && instances.contains(address->0),
                None => address is None,
            },
    {
        self.routes.backend_from_request(host, uri)
    }

    /// Takes in a client whose TLS stream has been set up, if one was, under a free
    /// token. Where there is none left the client is turned away.
    pub fn accept(&mut self, established: bool) -> (accepted: (Option<Token>, Vec<Effect>))
        requires
            old(self).wf(),
        ensures
            final(self).wf(),
            match accepted.0 {
                Some(token) => {
                    &&& established
                    &&& old(self)@.front_tokens().contains(token)
                    &&& !old(self)@.clients.contains_key(token)
                    &&& final(self)@ == old(self)@.with_client(token, ServerView::newcomer(token))
                    &&& accepted.1@ == seq![
                        Effect::Register {
                            side: Side::Front,
                            token,
                            interest: EventSet::readable(),
                            oneshot: false,
                        },
                    ]
                },
                None => {
                    &&& !established || old(self)@.clients.dom() == old(self)@.front_tokens()
                    &&& final(self)@ == old(self)@
                    &&& accepted.1@.len() == 0
                },
            },
    {
        let mut effects: Vec<Effect> = Vec::new();
        if established {
            if let Some(client) = Client::new() {
                match self.clients.insert(client) {
                    Ok(token) => {
                        proof {
                            lemma_newcomer_valid(old(self)@, token);
                        }
                        effects.push(
                            Effect::Register {
                                side: Side::Front,
                                token,
                                interest: EventSet::readable(),
                                oneshot: false,
                            },
                        );
                        let client = self.clients.index_mut(token);
                        client.set_front_token(token);
                        client.set_status(ConnectionStatus::ClientConnected);
                        assert(self@ =~= old(self)@.with_client(
                            token,
                            ServerView::newcomer(token),
                        ));
                        return (Some(token), effects);
                    },
                    Err(_) => {
                        assert(self@ =~= old(self)@);
                        assert(old(self)@.clients.dom() =~= client_slots(old(self).clients).dom());
                    },
                }
            }
        }
        (None, effects)
    }

    /// Whether a request can be answered without drawing from an empty list of
    /// instances.
    pub fn can_draw(&self, state: &HttpState) -> (drawable: bool)
        ensures
            drawable == self@.routes.request_drawable(*state),
    {
        match (state.get_host(), state.get_uri()) {
            (Some(host), Some(_)) => self.routes.can_draw(host.as_str()),
            _ => true,
        }
    }

    /// Looks for a backend for a client, drawn at random from the instances that its
    /// request may go to. Where there is none the client is closed.
    pub fn connect_to_backend(&mut self, token: Token) -> (connection: Connection)
        requires
            old(self).wf(),
            old(self)@.clients.contains_key(token),
            old(self)@.routes.request_drawable(old(self)@.clients[token].http_state),
        ensures
            final(self).wf(),
            match old(self)@.routes.request_candidates(old(self)@.clients[token].http_state) {
                Some(instances) => {
                    &&& connection matches Connection::To(address) && instances.contains(address)
                    &&& final(self)@ == old(self)@
                },
                None => {
                    &&& connection matches Connection::Closed(effects) && effects@
                        == close_effects(old(self)@.clients[token])
                    &&& final(self)@ == old(self)@.closed(token)
                },
            },
    {
        let state = self.clients.index(token).http_state();
        let address = match (state.get_host(), state.get_uri()) {
            (Some(host), Some(uri)) => self.backend_from_request(host.as_str(), uri.as_str()),
            _ => None,
        };
        self.connect_to_instance(token, address)
    }

    /// Goes on with the instance that was found for a client. Where there is none the
    /// client is closed.
    pub fn connect_to_instance(
        &mut self,
        token: Token,
        address: Option<SocketAddr>,
    ) -> (connection: Connection)
        requires
            old(self).wf(),
            old(self)@.clients.contains_key(token),
        ensures
            final(self).wf(),
            match address {
                Some(instance) => {
                    &&& connection == Connection::To(instance)
                    &&& final(self)@ == old(self)@
                },
                None => {
                    &&& connection matches Connection::Closed(effects) && effects@
                        == close_effects(old(self)@.clients[token])
                    &&& final(self)@ == old(self)@.closed(token)
                },
            },
    {
        match address {
            Some(instance) => Connection::To(instance),
            None => Connection::Closed(self.close_client(token)),
        }
    }

    /// Takes in what came of connecting a client to an instance. A connection gets
    /// a free token; where there is no connection, or no token left for it, the client
    /// is closed.
    pub fn backend_connected(&mut self, token: Token, connected: bool) -> (effects: Vec<Effect>)
        requires
            old(self).wf(),
            old(self)@.clients.contains_key(token),
            old(self)@.clients[token].backend_token is None,
            old(self)@.clients[token].http_state.host() is Some,
        ensures
            final(self).wf(),
            if connected && old(self)@.backends.dom() != old(self)@.back_tokens() {
                exists|back: Token|
                    {
                        &&& old(self)@.back_tokens().contains(back)
                        &&& !old(self)@.backends.contains_key(back)
                        &&& final(self)@ == #[trigger] old(self)@.proxied(token, back)
                        &&& effects@ == seq![
                            Effect::Register {
                                side: Side::Back,
                                token: back,
                                interest: EventSet::writable(),
                                oneshot: false,
                            },
                        ]
                    }
            } else {
                &&& final(self)@ == old(self)@.closed(token)
                &&& effects@ == close_effects(old(self)@.clients[token])
            },
    {
        if connected {
            match self.backend.insert(token) {
                Ok(back) => {
                    proof {
                        lemma_proxied_valid(old(self)@, token, back);
                    }
                    let client = self.clients.index_mut(token);
                    client.set_backend(back);
                    let mut effects: Vec<Effect> = Vec::new();
                    effects.push(
                        Effect::Register {
                            side: Side::Back,
                            token: back,
                            interest: EventSet::writable(),
                            oneshot: false,
                        },
                    );
                    assert(self@ =~= old(self)@.proxied(token, back));
                    return effects;
                },
                Err(_) => {
                    assert(self@ =~= old(self)@);
                },
            }
        }
        self.close_client(token)
    }

    /// Deals with a read from the TLS stream of a client.
    pub fn readable(&mut self, token: Token, read: FrontRead) -> (next: AfterRead)
        requires
            old(self).wf(),
            old(self)@.clients.contains_key(token),
            old(self)@.clients[token].can_take(read),
        ensures
            final(self).wf(),
            final(self)@ == old(self)@.with_client(
                token,
                old(self)@.clients[token].front_read(read),
            ),
            old(self)@.clients[token].after_read(read, next),
    {
        proof {
            assert(self@.client_valid(token));
            lemma_with_client_valid(self@, token, self@.clients[token].front_read(read));
        }
        let client = self.clients.index_mut(token);
        let next = client.readable(read);
        assert(self@ =~= old(self)@.with_client(
            token,
            old(self)@.clients[token].front_read(read),
        ));
        next
    }

    /// Takes in what the bytes of a client were parsed to.
    pub fn headers_parsed(&mut self, token: Token, state: HttpState) -> (effects: Vec<Effect>)
        requires
            old(self).wf(),
            old(self)@.clients.contains_key(token),
            !(old(self)@.clients[token].http_state is Proxying),
            !(state is Error),
        ensures
            final(self).wf(),
            final(self)@ == old(self)@.with_client(token, old(self)@.clients[token].parsed(state)),
            effects@ == old(self)@.clients[token].parsed_effects(state),
    {
        proof {
            assert(self@.client_valid(token));
            lemma_with_client_valid(self@, token, self@.clients[token].parsed(state));
        }
        let client = self.clients.index_mut(token);
        let effects = client.headers_parsed(state);
        assert(self@ =~= old(self)@.with_client(token, old(self)@.clients[token].parsed(state)));
        effects
    }

    /// Deals with a write of the waiting bytes to the TLS stream of a client.
    pub fn writable(&mut self, token: Token, write: FrontWrite) -> (effects: Vec<Effect>)
        requires
            old(self).wf(),
            old(self)@.clients.contains_key(token),
            old(self)@.clients[token].can_send(write),
        ensures
            final(self).wf(),
            final(self)@ == old(self)@.with_client(
                token,
                old(self)@.clients[token].front_write(write),
            ),
            effects@ == old(self)@.clients[token].front_write_effects(write),
    {
        proof {
            assert(self@.client_valid(token));
            lemma_with_client_valid(self@, token, self@.clients[token].front_write(write));
        }
        let client = self.clients.index_mut(token);
        let effects = client.writable(write);
        assert(self@ =~= old(self)@.with_client(
            token,
            old(self)@.clients[token].front_write(write),
        ));
        effects
    }

    /// Deals with a read from the backend of a client.
    pub fn back_readable(&mut self, token: Token, read: BackRead) -> (effects: Vec<Effect>)
        requires
            old(self).wf(),
            old(self)@.clients.contains_key(token),
            old(self)@.clients[token].can_take_back(read),
        ensures
            final(self).wf(),
            final(self)@ == old(self)@.with_client(
                token,
                old(self)@.clients[token].back_read(read),
            ),
            effects@ == final(self)@.clients[token].registrations(
                final(self)@.clients[token].back_interest,
            ),
    {
        proof {
            assert(self@.client_valid(token));
            lemma_with_client_valid(self@, token, self@.clients[token].back_read(read));
        }
        let client = self.clients.index_mut(token);
        let effects = client.back_readable(read);
        assert(self@ =~= old(self)@.with_client(
            token,
            old(self)@.clients[token].back_read(read),
        ));
        effects
    }

    /// Deals with a write of the waiting bytes to the backend of a client.
    pub fn back_writable(&mut self, token: Token, write: BackWrite) -> (effects: Vec<Effect>)
        requires
            old(self).wf(),
            old(self)@.clients.contains_key(token),
        ensures
            final(self).wf(),
            final(self)@ == old(self)@.with_client(
                token,
                old(self)@.clients[token].back_written(write),
            ),
            effects@ == final(self)@.clients[token].registrations(
                final(self)@.clients[token].back_interest,
            ),
    {
        proof {
            assert(self@.client_valid(token));
            lemma_with_client_valid(self@, token, self@.clients[token].back_written(write));
        }
        let client = self.clients.index_mut(token);
        let effects = client.back_writable(write);
        assert(self@ =~= old(self)@.with_client(
            token,
            old(self)@.clients[token].back_written(write),
        ));
        effects
    }

    /// Notes how far the connection of a client has come.
    fn set_status(&mut self, token: Token, status: ConnectionStatus)
        requires
            old(self).wf(),
            old(self)@.clients.contains_key(token),
            (ClientView { status, ..old(self)@.clients[token] }).status_valid(),
        ensures
            final(self).wf(),
            final(self)@ == old(self)@.with_client(
                token,
                ClientView { status, ..old(self)@.clients[token] },
            ),
    {
        proof {
            assert(self@.client_valid(token));
            lemma_with_client_valid(
                self@,
                token,
                ClientView { status, ..self@.clients[token] },
            );
        }
        let client = self.clients.index_mut(token);
        client.set_status(status);
        assert(self@ =~= old(self)@.with_client(
            token,
            ClientView { status, ..old(self)@.clients[token] },
        ));
    }

    /// Deals with a client that hung up.
    pub fn front_hup(&mut self, token: Token) -> (effects: Vec<Effect>)
        requires
            old(self).wf(),
            old(self)@.clients.contains_key(token),
        ensures
            final(self).wf(),
            final(self)@ == old(self)@.front_hup(token),
            effects@ == (if final(self)@.clients.contains_key(token) {
                Seq::empty()
            } else {
                close_effects(old(self)@.clients[token])
            }),
    {
        assert(self@.client_valid(token));
        let status = self.clients.index(token).status();
        if status == ConnectionStatus::ServerClosed || status == ConnectionStatus::ClientConnected {
            self.close_client(token)
        } else {
            self.set_status(token, ConnectionStatus::ClientClosed);
            Vec::new()
        }
    }

    /// Deals with a backend that hung up on its client.
    pub fn back_hup(&mut self, token: Token) -> (effects: Vec<Effect>)
        requires
            old(self).wf(),
            old(self)@.clients.contains_key(token),
            old(self)@.clients[token].backend,
        ensures
            final(self).wf(),
            final(self)@ == old(self)@.back_hup(token),
            effects@ == (if final(self)@.clients.contains_key(token) {
                Seq::empty()
            } else {
                close_effects(old(self)@.clients[token])
            }),
    {
        let status = self.clients.index(token).status();
        if status == ConnectionStatus::ClientClosed {
            self.close_client(token)
        } else {
            self.set_status(token, ConnectionStatus::ServerClosed);
            Vec::new()
        }
    }

    /// Carries out an order. `address` is what the address that the order names was
    /// parsed to; other orders do not look at it.
    pub fn notify(&mut self, order: HttpProxyOrder, address: Option<SocketAddr>) -> (answer: Answer)
        requires
            old(self).wf(),
        ensures
            final(self).wf(),
            final(self)@ == old(self)@.ordered(order, address),
            answer == ServerView::answer(order, address),
    {
        match order {
            HttpProxyOrder::Command(Command::AddHttpFront(front)) => {
                self.add_http_front(front);
                Answer::Message(ServerMessage::AddedHttpFront)
            },
            HttpProxyOrder::Command(Command::RemoveHttpFront(front)) => {
                self.remove_http_front(front);
                Answer::Message(ServerMessage::RemovedHttpFront)
            },
            HttpProxyOrder::Command(Command::AddInstance(instance)) => {
                if let Some(addr) = address {
                    self.add_instance(instance.app_id.as_str(), &addr);
                    Answer::Message(ServerMessage::AddedInstance)
                } else {
                    Answer::Nothing
                }
            },
            HttpProxyOrder::Command(Command::RemoveInstance(instance)) => {
                if let Some(addr) = address {
                    self.remove_instance(instance.app_id.as_str(), &addr);
                    Answer::Message(ServerMessage::RemovedInstance)
                } else {
                    Answer::Nothing
                }
            },
            HttpProxyOrder::Stop => Answer::Shutdown,
            _ => Answer::Nothing,
        }
    }
}

} // verus!
