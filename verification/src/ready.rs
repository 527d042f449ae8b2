//! The course of one readiness notification of the event loop.
//!
//! A notification says which events happened on the socket of a token. They are
//! dealt with in order: first readable, then writable, then hang-up. On the way
//! sockets have to be read, written, accepted and connected, and requests have
//! to be parsed, all of which happens outside. `Server::ready` goes one step
//! further each time it is called: it is handed the reply to its last request
//! and says what to do next.

use crate::address::SocketAddr;
use crate::client::{
    AfterRead, BackRead, BackWrite, Effect, FrontRead, FrontWrite, Side, BUFFER_SIZE,
};
use crate::event::{EventSet, Token};
use crate::http::HttpState;
use crate::server::{close_effects, Connection, Server, ServerView, Target};
use vstd::prelude::*;

verus! {

/// How far a notification has been dealt with. The tokens are those of clients.
#[derive(Debug, Clone, Copy, PartialEq, Eq, Structural)]
pub enum Stage {
    /// The readable event comes next.
    Readable,
    /// A connection is being accepted.
    Accepting,
    /// The TLS stream of a client is being read.
    Reading(Token),
    /// The request of a client is being parsed.
    Parsing(Token),
    /// A client is being connected to an instance.
    Connecting(Token),
    /// The backend of a client is being read.
    BackReading(Token),
    /// The writable event comes next.
    Writable,
    /// The TLS stream of a client is being written.
    Writing(Token),
    /// The backend of a client is being written.
    BackWriting(Token),
    /// The hang-up event comes next.
    Hup,
    /// Everything has been dealt with.
    Done,
}

/// A notification and how far it has been dealt with.
#[derive(Debug, Clone, Copy, PartialEq, Eq, Structural)]
pub struct Readiness {
    pub token: Token,
    pub events: EventSet,
    pub stage: Stage,
}

/// What has to be done outside before the next step.
#[derive(Debug)]
pub enum Request {
    /// Nothing; the reply is `Reply::Nothing`.
    Continue,
    /// Accept a connection and set up its TLS stream.
    Accept,
    /// Read at most that many bytes from the TLS stream.
    ReadFront { room: usize },
    /// Parse these bytes, starting from the given state.
    ParseHeaders { state: HttpState, data: Vec<u8> },
    /// Connect to an instance.
    Connect { address: SocketAddr },
    /// Read at most that many bytes from the backend.
    ReadBack { room: usize },
    /// Write these bytes to the TLS stream.
    WriteFront { data: Vec<u8> },
    /// Write these bytes to the backend.
    WriteBack { data: Vec<u8> },
    /// Nothing; the notification has been dealt with.
    Done,
}

/// What came of a request.
#[derive(Debug)]
pub enum Reply {
    Nothing,
    /// Whether there is a TLS stream to a new client.
    Accepted(bool),
    FrontRead(FrontRead),
    Parsed(HttpState),
    /// Whether there is a socket to the instance.
    Connected(bool),
    BackRead(BackRead),
    FrontWrote(FrontWrite),
    BackWrote(BackWrite),
}

/// The outcome of one step: the effects come first, then the request. `client` is
/// the client that they concern.
#[derive(Debug)]
pub struct Directive {
    pub client: Option<Token>,
    pub effects: Vec<Effect>,
    pub request: Request,
}

impl Directive {
    /// Nothing is to be done outside.
    pub open spec fn idle(self) -> bool {
        self.client is None && self.effects@.len() == 0 && self.request == Request::Continue
    }

    /// Only the effects on a client have to be carried out.
    pub open spec fn effects_only(self, client: Token, effects: Seq<Effect>) -> bool {
        self.client == Some(client) && self.effects@ == effects && self.request == Request::Continue
    }
}

impl Readiness {
    /// The same notification at another stage.
    pub open spec fn at(self, stage: Stage) -> Readiness {
        Readiness { stage, ..self }
    }

    /// The client that a stage speaks of is there, and is as the stage has it.
    pub open spec fn fits(self, server: ServerView) -> bool {
        match self.stage {
            Stage::Reading(token) => server.clients.contains_key(token),
            Stage::Parsing(token) => server.clients.contains_key(token)
                && !(server.clients[token].http_state is Proxying),
            Stage::Connecting(token) => server.clients.contains_key(token)
                && server.clients[token].http_state is HasHost,
            Stage::BackReading(token) => server.clients.contains_key(token)
                && server.clients[token].backend,
            Stage::Writing(token) => server.clients.contains_key(token)
                && server.clients[token].back.len() > 0,
            Stage::BackWriting(token) => server.clients.contains_key(token)
                && server.clients[token].backend,
            _ => true,
        }
    }

    /// The reply is one to what was asked for, brings no more bytes than there is
    /// room for and takes no more than there were, is no parse error, and asks for no
    /// draw from an empty list of instances.
    pub open spec fn accepts(self, server: ServerView, reply: Reply) -> bool {
        match self.stage {
            Stage::Accepting => reply is Accepted,
            Stage::Reading(token) => {
                &&& reply matches Reply::FrontRead(read) && server.clients[token].can_take(read)
                &&& server.clients[token].http_state is HasHost ==> server.routes.request_drawable(
                    server.clients[token].http_state,
                )
            },
            Stage::Parsing(_) => {
                &&& reply matches Reply::Parsed(state) && !(state is Error) && (state is HasHost
                    ==> server.routes.request_drawable(state))
            },
            Stage::Connecting(_) => reply is Connected,
            Stage::BackReading(token) => {
                reply matches Reply::BackRead(read) && server.clients[token].can_take_back(read)
            },
            Stage::Writing(token) => {
                reply matches Reply::FrontWrote(write) && server.clients[token].can_send(write)
            },
            Stage::BackWriting(_) => reply is BackWrote,
            _ => reply is Nothing,
        }
    }
}

/// The steps of a notification, each from the state before it to the state after it.
impl ServerView {
    /// The readable event starts.
    pub open spec fn start_readable(
        self,
        job: Readiness,
        next_job: Readiness,
        directive: Directive,
    ) -> bool {
        let target = if job.events.readable {
            self.target(job.token)
        } else {
            Target::Nobody
        };
        match target {
            Target::Listener => {
                &&& next_job == job.at(Stage::Accepting)
                &&& directive.client is None
                &&& directive.effects@.len() == 0
                &&& directive.request == Request::Accept
            },
            Target::Client(token) => {
                &&& next_job == job.at(Stage::Reading(token))
                &&& directive.client == Some(token)
                &&& directive.effects@.len() == 0
                &&& directive.request matches Request::ReadFront { room } && room
                    == BUFFER_SIZE - self.clients[token].front.len()
            },
            Target::Backend(token) => {
                &&& next_job == job.at(Stage::BackReading(token))
                &&& directive.client == Some(token)
                &&& directive.effects@.len() == 0
                &&& directive.request matches Request::ReadBack { room } && room
                    == BUFFER_SIZE - self.clients[token].back.len()
            },
            Target::Nobody => next_job == job.at(Stage::Writable) && directive.idle(),
        }
    }

    /// A connection was accepted, or was not. The client is taken in where a token is
    /// free.
    pub open spec fn accepted(self, established: bool, next: ServerView, directive: Directive) -> bool {
        match directive.client {
            Some(token) => {
                &&& established
                &&& self.front_tokens().contains(token)
                &&& !self.clients.contains_key(token)
                &&& next == self.with_client(token, ServerView::newcomer(token))
                &&& directive.effects@ == seq![
                    Effect::Register {
                        side: Side::Front,
                        token,
                        interest: EventSet::readable(),
                        oneshot: false,
                    },
                ]
                &&& directive.request == Request::Continue
            },
            None => {
                &&& !established || self.clients.dom() == self.front_tokens()
                &&& next == self
                &&& directive.idle()
            },
        }
    }

    /// A read from the TLS stream of a client has been dealt with, with the given
    /// effects. Once its host is known the client is connected to an instance, or
    /// closed where there is none; it is closed as well where its request makes no
    /// sense.
    pub open spec fn settled(
        self,
        token: Token,
        effects: Seq<Effect>,
        job: Readiness,
        next: ServerView,
        next_job: Readiness,
        directive: Directive,
    ) -> bool {
        let state = self.clients[token].http_state;
        let candidates = self.routes.request_candidates(state);
        if state is HasHost && candidates is Some {
            &&& next == self
            &&& next_job == job.at(Stage::Connecting(token))
            &&& directive.client == Some(token)
            &&& directive.effects@ == effects
            &&& directive.request matches Request::Connect { address } && candidates->0.contains(
                address,
            )
        } else if state is HasHost || state is Error {
            &&& next == self.closed(token)
            &&& next_job == job.at(Stage::Writable)
            &&& directive.effects_only(token, effects + close_effects(self.clients[token]))
        } else {
            &&& next == self
            &&& next_job == job.at(Stage::Writable)
            &&& directive.effects_only(token, effects)
        }
    }

    /// The TLS stream of a client was read.
    pub open spec fn read(
        self,
        token: Token,
        read: FrontRead,
        job: Readiness,
        next: ServerView,
        next_job: Readiness,
        directive: Directive,
    ) -> bool {
        let client = self.clients[token];
        let filled = self.with_client(token, client.front_read(read));
        if read is Received && !(client.http_state is Proxying) {
            &&& next == filled
            &&& next_job == job.at(Stage::Parsing(token))
            &&& directive.client == Some(token)
            &&& directive.effects@.len() == 0
            &&& directive.request matches Request::ParseHeaders { state, data } && state
                == client.http_state && data@ == next.clients[token].front
        } else {
            let effects = if read is Received {
                client.front_read(read).read_effects()
            } else {
                client.front_read(read).front_registrations()
            };
            filled.settled(token, effects, job, next, next_job, directive)
        }
    }

    /// The request of a client was parsed.
    pub open spec fn parsed(
        self,
        token: Token,
        state: HttpState,
        job: Readiness,
        next: ServerView,
        next_job: Readiness,
        directive: Directive,
    ) -> bool {
        let client = self.clients[token];
        self.with_client(token, client.parsed(state)).settled(
            token,
            client.parsed_effects(state),
            job,
            next,
            next_job,
            directive,
        )
    }

    /// A client was connected to an instance, or was not. The connection gets a free
    /// token; without a connection or a token the client is closed.
    pub open spec fn connected(
        self,
        token: Token,
        connected: bool,
        next: ServerView,
        directive: Directive,
    ) -> bool {
        &&& directive.client == Some(token)
        &&& directive.request == Request::Continue
        &&& if connected && self.backends.dom() != self.back_tokens() {
            exists|back: Token|
                {
                    &&& self.back_tokens().contains(back)
                    &&& !self.backends.contains_key(back)
                    &&& next == #[trigger] self.proxied(token, back)
                    &&& directive.effects@ == seq![
                        Effect::Register {
                            side: Side::Back,
                            token: back,
                            interest: EventSet::writable(),
                            oneshot: false,
                        },
                    ]
                }
        } else {
            &&& next == self.closed(token)
            &&& directive.effects@ == close_effects(self.clients[token])
        }
    }

    /// The writable event starts. A TLS stream with nothing waiting for it is left
    /// alone.
    pub open spec fn start_writable(
        self,
        job: Readiness,
        next_job: Readiness,
        directive: Directive,
    ) -> bool {
        let target = if job.events.writable {
            self.target(job.token)
        } else {
            Target::Nobody
        };
        match target {
            Target::Client(token) if self.clients[token].back.len() > 0 => {
                &&& next_job == job.at(Stage::Writing(token))
                &&& directive.client == Some(token)
                &&& directive.effects@.len() == 0
                &&& directive.request matches Request::WriteFront { data } && data@
                    == self.clients[token].back
            },
            Target::Backend(token) => {
                &&& next_job == job.at(Stage::BackWriting(token))
                &&& directive.client == Some(token)
                &&& directive.effects@.len() == 0
                &&& directive.request matches Request::WriteBack { data } && data@
                    == self.clients[token].front
            },
            _ => next_job == job.at(Stage::Hup) && directive.idle(),
        }
    }

    /// The hang-up event, after which everything has been dealt with.
    pub open spec fn hung_up(self, job: Readiness, next: ServerView, directive: Directive) -> bool {
        let target = if job.events.hup {
            self.target(job.token)
        } else {
            Target::Nobody
        };
        match target {
            Target::Client(token) => {
                &&& next == self.front_hup(token)
                &&& directive.effects_only(
                    token,
                    if next.clients.contains_key(token) {
                        Seq::empty()
                    } else {
                        close_effects(self.clients[token])
                    },
                )
            },
            Target::Backend(token) => {
                &&& next == self.back_hup(token)
                &&& directive.effects_only(
                    token,
                    if next.clients.contains_key(token) {
                        Seq::empty()
                    } else {
                        close_effects(self.clients[token])
                    },
                )
            },
            _ => next == self && directive.idle(),
        }
    }

    /// One step of a notification.
    pub open spec fn step(
        self,
        job: Readiness,
        reply: Reply,
        next: ServerView,
        next_job: Readiness,
        directive: Directive,
    ) -> bool {
        match (job.stage, reply) {
            (Stage::Readable, _) => next == self && self.start_readable(job, next_job, directive),
            (Stage::Accepting, Reply::Accepted(established)) => {
                &&& self.accepted(established, next, directive)
                &&& next_job == job.at(Stage::Writable)
            },
            (Stage::Reading(token), Reply::FrontRead(read)) => self.read(
                token,
                read,
                job,
                next,
                next_job,
                directive,
            ),
            (Stage::Parsing(token), Reply::Parsed(state)) => self.parsed(
                token,
                state,
                job,
                next,
                next_job,
                directive,
            ),
            (Stage::Connecting(token), Reply::Connected(connected)) => {
                &&& self.connected(token, connected, next, directive)
                &&& next_job == job.at(Stage::Writable)
            },
            (Stage::BackReading(token), Reply::BackRead(read)) => {
                let client = self.clients[token].back_read(read);
                &&& next == self.with_client(token, client)
                &&& next_job == job.at(Stage::Writable)
                &&& directive.effects_only(token, client.registrations(client.back_interest))
            },
            (Stage::Writable, _) => next == self && self.start_writable(job, next_job, directive),
            (Stage::Writing(token), Reply::FrontWrote(write)) => {
                &&& next == self.with_client(token, self.clients[token].front_write(write))
                &&& next_job == job.at(Stage::Hup)
                &&& directive.effects_only(token, self.clients[token].front_write_effects(write))
            },
            (Stage::BackWriting(token), Reply::BackWrote(write)) => {
                let client = self.clients[token].back_written(write);
                &&& next == self.with_client(token, client)
                &&& next_job == job.at(Stage::Hup)
                &&& directive.effects_only(token, client.registrations(client.back_interest))
            },
            (Stage::Hup, _) => {
                &&& self.hung_up(job, next, directive)
                &&& next_job == job.at(Stage::Done)
            },
            _ => {
                &&& next == self
                &&& next_job == job
                &&& directive.client is None
                &&& directive.effects@.len() == 0
                &&& directive.request == Request::Done
            },
        }
    }
}

impl Readiness {
    /// A notification with which nothing has been done yet.
    pub fn new(token: Token, events: EventSet) -> (job: Readiness)
        ensures
            job == (Readiness { token, events, stage: Stage::Readable }),
    {
        Readiness { token, events, stage: Stage::Readable }
    }
}

impl Server {
    /// What the token of a notification stands for, if the event happened at all.
    fn target_if(&self, happened: bool, token: Token) -> (target: Target)
        requires
            self.wf(),
        ensures
            target == (if happened {
                self@.target(token)
            } else {
                Target::Nobody
            }),
    {
        if happened {
            self.target(token)
        } else {
            Target::Nobody
        }
    }

    /// Goes on after a read from the TLS stream of a client has been dealt with.
    fn settle(&mut self, job: &mut Readiness, token: Token, effects: Vec<Effect>) -> (directive:
        Directive)
        requires
            old(self).wf(),
            old(self)@.clients.contains_key(token),
            old(self)@.clients[token].http_state is HasHost
                ==> old(self)@.routes.request_drawable(old(self)@.clients[token].http_state),
        ensures
            final(self).wf(),
            final(job).fits(final(self)@),
            old(self)@.settled(
                token,
                effects@,
                *old(job),
                final(self)@,
                *final(job),
                directive,
            ),
    {
        let mut effects = effects;
        let closed = match self.client(token).http_state() {
            HttpState::HasHost(_, _, _) => match self.connect_to_backend(token) {
                Connection::To(address) => {
                    job.stage = Stage::Connecting(token);
                    return Directive {
                        client: Some(token),
                        effects,
                        request: Request::Connect { address },
                    };
                },
                Connection::Closed(closed) => closed,
            },
            HttpState::Error(_) => self.close_client(token),
            _ => Vec::new(),
        };
        let mut closed = closed;
        effects.append(&mut closed);
        job.stage = Stage::Writable;
        Directive { client: Some(token), effects, request: Request::Continue }
    }

    /// Goes one step further with a notification.
    pub fn ready(&mut self, job: &mut Readiness, reply: Reply) -> (directive: Directive)
        requires
            old(self).wf(),
            old(job).fits(old(self)@),
            old(job).accepts(old(self)@, reply),
        ensures
            final(self).wf(),
            final(job).fits(final(self)@),
            old(self)@.step(*old(job), reply, final(self)@, *final(job), directive),
    {
        let mut client: Option<Token> = None;
        let mut effects: Vec<Effect> = Vec::new();
        let mut request = Request::Continue;
        match (job.stage, reply) {
            (Stage::Readable, _) => {
                match self.target_if(job.events.is_readable(), job.token) {
                    Target::Listener => {
                        job.stage = Stage::Accepting;
                        request = Request::Accept;
                    },
                    Target::Client(token) => {
                        job.stage = Stage::Reading(token);
                        client = Some(token);
                        request = Request::ReadFront { room: self.client(token).front_room() };
                    },
                    Target::Backend(token) => {
                        job.stage = Stage::BackReading(token);
                        client = Some(token);
                        request = Request::ReadBack { room: self.client(token).back_room() };
                    },
                    Target::Nobody => {
                        job.stage = Stage::Writable;
                    },
                }
            },
            (Stage::Accepting, Reply::Accepted(established)) => {
                let accepted = self.accept(established);
                client = accepted.0;
                effects = accepted.1;
                job.stage = Stage::Writable;
            },
            (Stage::Reading(token), Reply::FrontRead(read)) => {
                match self.readable(token, read) {
                    AfterRead::Parse { state, data } => {
                        job.stage = Stage::Parsing(token);
                        client = Some(token);
                        request = Request::ParseHeaders { state, data };
                    },
                    AfterRead::Effects(registrations) => {
                        return self.settle(job, token, registrations);
                    },
                }
            },
            (Stage::Parsing(token), Reply::Parsed(state)) => {
                let registrations = self.headers_parsed(token, state);
                return self.settle(job, token, registrations);
            },
            (Stage::Connecting(token), Reply::Connected(connected)) => {
                assert(self@.client_valid(token));
                effects = self.backend_connected(token, connected);
                client = Some(token);
                job.stage = Stage::Writable;
            },
            (Stage::BackReading(token), Reply::BackRead(read)) => {
                effects = self.back_readable(token, read);
                client = Some(token);
                job.stage = Stage::Writable;
            },
            (Stage::Writable, _) => {
                job.stage = Stage::Hup;
                match self.target_if(job.events.is_writable(), job.token) {
                    Target::Client(token) => {
                        let data = self.client(token).back_data();
                        if data.len() > 0 {
                            job.stage = Stage::Writing(token);
                            client = Some(token);
                            request = Request::WriteFront { data };
                        }
                    },
                    Target::Backend(token) => {
                        job.stage = Stage::BackWriting(token);
                        client = Some(token);
                        request = Request::WriteBack { data: self.client(token).front_data() };
                    },
                    _ => {},
                }
            },
            (Stage::Writing(token), Reply::FrontWrote(write)) => {
                effects = self.writable(token, write);
                client = Some(token);
                job.stage = Stage::Hup;
            },
            (Stage::BackWriting(token), Reply::BackWrote(write)) => {
                effects = self.back_writable(token, write);
                client = Some(token);
                job.stage = Stage::Hup;
            },
            (Stage::Hup, _) => {
                job.stage = Stage::Done;
                match self.target_if(job.events.is_hup(), job.token) {
                    Target::Client(token) => {
                        effects = self.front_hup(token);
                        client = Some(token);
                    },
                    Target::Backend(token) => {
                        effects = self.back_hup(token);
                        client = Some(token);
                    },
                    _ => {},
                }
            },
            _ => {
                request = Request::Done;
            },
        }
        Directive { client, effects, request }
    }
}

} // verus!
