//! One client of the proxy: its TLS side, its backend side and the bytes
//! between them.
//!
//! The sockets themselves live outside. What was read from them, or how much
//! they took of what was to be written, is handed in, and what is to be done
//! with them at the event loop comes back as a list of effects.

use crate::buffer::{advance, power_of_two, remaining, room, write_capacity, written};
use crate::event::{EventSet, Token};
use crate::http::HttpState;
use bytes::{ByteBuf, MutByteBuf};
use vstd::prelude::*;
use vstd::slice::slice_to_vec;

verus! {

/// The number of bytes that wait in one direction at most.
pub const BUFFER_SIZE: usize = 2048;

/// How far the connection of a client has come.
#[derive(Debug, Clone, Copy, PartialEq, Eq, Structural)]
pub enum ConnectionStatus {
    /// The client has not been taken in yet.
    Initial,
    /// The client is there, its backend is not.
    ClientConnected,
    /// The client and its backend are there.
    Connected,
    /// The client hung up.
    ClientClosed,
    /// The backend hung up.
    ServerClosed,
    /// Both are gone.
    Closed,
}

/// One of the two sockets of a client.
#[derive(Debug, Clone, Copy, PartialEq, Eq, Structural)]
pub enum Side {
    /// The TLS stream to the client itself.
    Front,
    /// The stream to the application.
    Back,
}

/// Something to be done with a socket of a client. All registrations are
/// edge-triggered; `oneshot` says whether they also end with the first event.
#[derive(Debug, Clone, Copy, PartialEq, Eq, Structural)]
pub enum Effect {
    /// Make the socket known to the event loop.
    Register { side: Side, token: Token, interest: EventSet, oneshot: bool },
    /// Change what the event loop waits for on the socket.
    Reregister { side: Side, token: Token, interest: EventSet, oneshot: bool },
    /// Shut the socket down in both directions.
    Shutdown { side: Side },
    /// Take the socket from the event loop.
    Deregister { side: Side },
    /// Drop both sockets.
    Release,
}

/// What a read from the TLS stream brought.
#[derive(Debug)]
pub enum FrontRead {
    /// Bytes arrived, or none where the stream has ended.
    Received(Vec<u8>),
    /// The stream has to be readable first.
    WantRead,
    /// The stream has to be writable first.
    WantWrite,
}

/// What a write to the TLS stream came to.
#[derive(Debug, Clone, Copy, PartialEq, Eq, Structural)]
pub enum FrontWrite {
    /// That many bytes were taken.
    Wrote(usize),
    /// The stream has to be readable first.
    WantRead,
    /// The stream has to be writable first.
    WantWrite,
}

/// What a read from the backend brought.
#[derive(Debug)]
pub enum BackRead {
    /// Bytes arrived, or none where the stream has ended.
    Received(Vec<u8>),
    /// There was nothing to read, or the read failed.
    Nothing,
}

/// What a write to the backend came to.
#[derive(Debug, Clone, Copy, PartialEq, Eq, Structural)]
pub enum BackWrite {
    /// That many bytes were taken.
    Wrote(usize),
    /// The socket takes nothing at the moment.
    WouldBlock,
    /// The write failed.
    Failed,
}

/// What follows a read from the TLS stream.
#[derive(Debug)]
pub enum AfterRead {
    /// The request head is not complete: all bytes received so far have to be
    /// parsed, starting from the given state.
    Parse { state: HttpState, data: Vec<u8> },
    /// The read has been dealt with.
    Effects(Vec<Effect>),
}

/// The state of a client. `front` holds the bytes on their way from the client
/// to the backend, `back` those on their way to the client.
#[verifier::ext_equal]
pub struct ClientView {
    pub backend: bool,
    pub http_state: HttpState,
    pub front: Seq<u8>,
    pub back: Seq<u8>,
    pub token: Option<Token>,
    pub backend_token: Option<Token>,
    pub back_interest: EventSet,
    pub front_interest: EventSet,
    pub status: ConnectionStatus,
    pub rx_count: nat,
    pub tx_count: nat,
}

/// A registration of the TLS stream for the events that the client waits for.
pub open spec fn front_registration(token: Token, interest: EventSet) -> Effect {
    Effect::Reregister { side: Side::Front, token, interest, oneshot: true }
}

/// A registration of the backend socket.
pub open spec fn back_registration(token: Token, interest: EventSet) -> Effect {
    Effect::Reregister { side: Side::Back, token, interest, oneshot: false }
}

impl ClientView {
    /// A client that has just been accepted.
    pub open spec fn fresh() -> ClientView {
        ClientView {
            backend: false,
            http_state: HttpState::Initial,
            front: Seq::empty(),
            back: Seq::empty(),
            token: None,
            backend_token: None,
            back_interest: EventSet::all(),
            front_interest: EventSet::all(),
            status: ConnectionStatus::Initial,
            rx_count: 0,
            tx_count: 0,
        }
    }

    /// The token of the TLS stream and that of the backend, once both are set.
    pub open spec fn tokens(self) -> Option<(Token, Token)> {
        match (self.token, self.backend_token) {
            (Some(front), Some(back)) => Some((front, back)),
            _ => None,
        }
    }

    /// A client that is only connected itself has no backend; one that was connected to
    /// a backend, whichever side hung up since, has one. A client of the proxy is past
    /// its initial status, and is gone once it is closed.
    pub open spec fn status_valid(self) -> bool {
        match self.status {
            ConnectionStatus::ClientConnected => !self.backend,
            ConnectionStatus::Connected => self.backend,
            ConnectionStatus::ClientClosed => self.backend,
            ConnectionStatus::ServerClosed => self.backend,
            ConnectionStatus::Initial => false,
            ConnectionStatus::Closed => false,
        }
    }

    /// Both sockets, the backend first, are registered anew: the backend for
    /// `back_interest`, the TLS stream for what the client waits for. Nothing
    /// happens before both tokens are set.
    pub open spec fn registrations(self, back_interest: EventSet) -> Seq<Effect> {
        match self.tokens() {
            Some((front, back)) => {
                let first = if self.backend {
                    seq![back_registration(back, back_interest)]
                } else {
                    Seq::empty()
                };
                first.push(front_registration(front, self.front_interest))
            },
            None => Seq::empty(),
        }
    }

    /// The TLS stream is registered anew once its token is set.
    pub open spec fn front_registrations(self) -> Seq<Effect> {
        match self.token {
            Some(front) => seq![front_registration(front, self.front_interest)],
            None => Seq::empty(),
        }
    }

    /// The client no longer waits for bytes from its TLS stream but for the
    /// backend to take those that are there.
    pub open spec fn awaiting_backend(self) -> ClientView {
        ClientView {
            front_interest: self.front_interest.without(EventSet::readable()),
            back_interest: self.back_interest.with(EventSet::writable()),
            ..self
        }
    }

    /// The client after `bytes` arrived on its TLS stream.
    pub open spec fn received(self, bytes: Seq<u8>) -> ClientView {
        let filled = ClientView { front: self.front + bytes, ..self };
        if self.http_state is Proxying {
            ClientView { rx_count: self.rx_count + bytes.len(), ..filled.awaiting_backend() }
        } else {
            filled
        }
    }

    /// The client after the bytes in `front` have been parsed to `state`.
    pub open spec fn parsed(self, state: HttpState) -> ClientView {
        if state is HasHost {
            ClientView {
                http_state: state,
                rx_count: (BUFFER_SIZE - self.front.len()) as nat,
                ..self.awaiting_backend()
            }
        } else {
            ClientView {
                http_state: state,
                front_interest: self.front_interest.with(EventSet::readable()),
                ..self
            }
        }
    }

    /// What happens at the event loop once a read from the TLS stream has been
    /// dealt with. Where its bytes go to the backend both sockets are registered,
    /// and the TLS stream is in any case.
    pub open spec fn read_effects(self) -> Seq<Effect> {
        if self.http_state is Proxying || self.http_state is HasHost {
            self.registrations(EventSet::readable()) + self.front_registrations()
        } else {
            self.front_registrations()
        }
    }

    /// A read from the TLS stream brought no more than there is room for, and the
    /// count of received bytes can hold it.
    pub open spec fn can_take(self, read: FrontRead) -> bool {
        read matches FrontRead::Received(bytes) ==> {
            &&& self.front.len() + bytes@.len() <= BUFFER_SIZE
            &&& self.http_state is Proxying ==> self.rx_count + bytes@.len() <= usize::MAX
        }
    }

    /// The client after a read from its TLS stream.
    pub open spec fn front_read(self, read: FrontRead) -> ClientView {
        match read {
            FrontRead::Received(bytes) => self.received(bytes@),
            FrontRead::WantRead => ClientView {
                front_interest: self.front_interest.with(EventSet::readable()),
                ..self
            },
            FrontRead::WantWrite => ClientView {
                front_interest: self.front_interest.with(EventSet::writable()),
                ..self
            },
        }
    }

    /// What follows a read from the TLS stream: bytes that arrived before the
    /// client was proxied are parsed together with all that came before them.
    pub open spec fn after_read(self, read: FrontRead, next: AfterRead) -> bool {
        if read is Received && !(self.http_state is Proxying) {
            next matches AfterRead::Parse { state, data } && state == self.http_state && data@
                == self.front_read(read).front
        } else {
            next matches AfterRead::Effects(effects) && effects@ == (if read is Received {
                self.front_read(read).read_effects()
            } else {
                self.front_read(read).front_registrations()
            })
        }
    }

    /// What happens at the event loop once the received bytes have been parsed.
    pub open spec fn parsed_effects(self, state: HttpState) -> Seq<Effect> {
        if state is HasHost {
            self.parsed(state).read_effects()
        } else {
            self.parsed(state).front_registrations()
        }
    }

    /// A write to the TLS stream took no more than there was, and the count of
    /// sent bytes can hold it.
    pub open spec fn can_send(self, write: FrontWrite) -> bool {
        write matches FrontWrite::Wrote(count) ==> count <= self.back.len() && self.tx_count
            + count <= usize::MAX
    }

    /// The client after a write of the bytes in `back` to its TLS stream, if there
    /// were any.
    pub open spec fn front_write(self, write: FrontWrite) -> ClientView {
        if self.back.len() == 0 {
            self
        } else {
            self.front_written(write)
        }
    }

    /// What happens at the event loop once a write to the TLS stream has been dealt
    /// with.
    pub open spec fn front_write_effects(self, write: FrontWrite) -> Seq<Effect> {
        if self.back.len() == 0 {
            Seq::empty()
        } else {
            self.front_written(write).registrations(self.front_written(write).back_interest)
        }
    }

    /// A read from the backend brought no more than there is room for.
    pub open spec fn can_take_back(self, read: BackRead) -> bool {
        read matches BackRead::Received(bytes) ==> self.back.len() + bytes@.len() <= BUFFER_SIZE
    }

    /// The client after a read from its backend.
    pub open spec fn back_read(self, read: BackRead) -> ClientView {
        match read {
            BackRead::Received(bytes) if self.backend => self.back_received(bytes@),
            _ => self,
        }
    }

    /// The client after a write of the bytes in `back` to its TLS stream. Whatever
    /// was not taken is lost.
    pub open spec fn front_written(self, write: FrontWrite) -> ClientView {
        let emptied = ClientView { back: Seq::empty(), ..self };
        match write {
            FrontWrite::Wrote(count) => ClientView {
                tx_count: self.tx_count + count as nat,
                front_interest: self.front_interest.without(EventSet::writable()),
                back_interest: self.back_interest.with(EventSet::readable()),
                ..emptied
            },
            FrontWrite::WantRead => ClientView {
                front_interest: self.front_interest.with(EventSet::readable()),
                ..emptied
            },
            FrontWrite::WantWrite => ClientView {
                front_interest: self.front_interest.with(EventSet::writable()),
                ..emptied
            },
        }
    }

    /// The client after a write of the bytes in `front` to its backend. Whatever
    /// was not taken is lost, and so is everything where there is no backend.
    pub open spec fn back_written(self, write: BackWrite) -> ClientView {
        let emptied = ClientView { front: Seq::empty(), ..self };
        if !self.backend {
            emptied
        } else {
            match write {
                BackWrite::Wrote(_) => ClientView {
                    front_interest: self.front_interest.with(EventSet::readable()),
                    back_interest: self.back_interest.without(EventSet::writable()).with(
                        EventSet::readable(),
                    ),
                    ..emptied
                },
                BackWrite::WouldBlock => ClientView {
                    back_interest: self.back_interest.with(EventSet::writable()),
                    ..emptied
                },
                BackWrite::Failed => emptied,
            }
        }
    }

    /// The client after its backend was connected under the given token.
    pub open spec fn proxied(self, token: Token) -> ClientView {
        ClientView {
            backend: true,
            backend_token: Some(token),
            status: ConnectionStatus::Connected,
            http_state: match (self.http_state.request_line(), self.http_state.host()) {
                (Some(line), Some(host)) => HttpState::Proxying(line, host),
                _ => self.http_state,
            },
            ..self
        }
    }

    /// The client after `bytes` arrived from its backend.
    pub open spec fn back_received(self, bytes: Seq<u8>) -> ClientView {
        ClientView {
            back: self.back + bytes,
            back_interest: self.back_interest.without(EventSet::readable()),
            front_interest: self.front_interest.with(EventSet::writable()),
            ..self
        }
    }
}

/// A client of the proxy.
pub struct Client {
    backend: bool,
    http_state: HttpState,
    front_buf: Option<MutByteBuf>,
    back_buf: Option<MutByteBuf>,
    token: Option<Token>,
    backend_token: Option<Token>,
    back_interest: EventSet,
    front_interest: EventSet,
    status: ConnectionStatus,
    rx_count: usize,
    tx_count: usize,
}

impl View for Client {
    type V = ClientView;

    closed spec fn view(&self) -> ClientView {
        ClientView {
            backend: self.backend,
            http_state: self.http_state,
            front: written(self.front_buf->0),
            back: written(self.back_buf->0),
            token: self.token,
            backend_token: self.backend_token,
            back_interest: self.back_interest,
            front_interest: self.front_interest,
            status: self.status,
            rx_count: self.rx_count as nat,
            tx_count: self.tx_count as nat,
        }
    }
}

impl Client {
    /// Both buffers are in place, are as large as they were made, and hold no
    /// more than that.
    pub closed spec fn wf(&self) -> bool {
        &&& self.front_buf is Some
        &&& self.back_buf is Some
        &&& write_capacity(self.front_buf->0) == BUFFER_SIZE
        &&& write_capacity(self.back_buf->0) == BUFFER_SIZE
        &&& written(self.front_buf->0).len() <= BUFFER_SIZE
        &&& written(self.back_buf->0).len() <= BUFFER_SIZE
    }

    /// A client whose TLS stream has just been set up.
    pub fn new() -> (client: Option<Client>)
        ensures
            client is Some,
            client->0.wf(),
            client->0@ == ClientView::fresh(),
    {
        proof {
            reveal_with_fuel(power_of_two, 12);
        }
        let client = Client {
            backend: false,
            http_state: HttpState::Initial,
            front_buf: Some(ByteBuf::mut_with_capacity(BUFFER_SIZE)),
            back_buf: Some(ByteBuf::mut_with_capacity(BUFFER_SIZE)),
            token: None,
            backend_token: None,
            back_interest: EventSet::all(),
            front_interest: EventSet::all(),
            status: ConnectionStatus::Initial,
            rx_count: 0,
            tx_count: 0,
        };
        Some(client)
    }

    /// Sets the token of the TLS stream.
    pub fn set_front_token(&mut self, token: Token)
        requires
            old(self).wf(),
        ensures
            final(self).wf(),
            final(self)@ == (ClientView { token: Some(token), ..old(self)@ }),
    {
        self.token = Some(token);
    }

    /// Sets the token of the backend.
    pub fn set_back_token(&mut self, token: Token)
        requires
            old(self).wf(),
        ensures
            final(self).wf(),
            final(self)@ == (ClientView { backend_token: Some(token), ..old(self)@ }),
    {
        self.backend_token = Some(token);
    }

    /// Sets both tokens.
    pub fn set_tokens(&mut self, token: Token, backend: Token)
        requires
            old(self).wf(),
        ensures
            final(self).wf(),
            final(self)@ == (ClientView {
                token: Some(token),
                backend_token: Some(backend),
                ..old(self)@
            }),
    {
        self.token = Some(token);
        self.backend_token = Some(backend);
    }

    /// The token of the TLS stream and that of the backend, once both are set.
    pub fn tokens(&self) -> (tokens: Option<(Token, Token)>)
        ensures
            tokens == self@.tokens(),
    {
        if let Some(front) = self.token {
            if let Some(back) = self.backend_token {
                return Some((front, back));
            }
        }
        None
    }

    /// Closing the sockets is left to whoever holds them.
    pub fn close(&self) {
    }

    /// Whether the host of the request has just become known.
    pub fn has_host(&self) -> (known: bool)
        ensures
            known == (self@.http_state is HasHost),
    {
        if let HttpState::HasHost(_, _, _) = self.http_state {
            true
        } else {
            false
        }
    }

    /// Whether the bytes of the client go to a backend unread.
    pub fn is_proxying(&self) -> (proxying: bool)
        ensures
            proxying == (self@.http_state is Proxying),
    {
        if let HttpState::Proxying(_, _) = self.http_state {
            true
        } else {
            false
        }
    }

    /// Appends the effects that register both sockets anew.
    fn push_registrations(&self, back_interest: EventSet, effects: &mut Vec<Effect>)
        ensures
            final(effects)@ == old(effects)@ + self@.registrations(back_interest),
    {
        if let Some((front, back)) = self.tokens() {
            if self.backend {
                effects.push(
                    Effect::Reregister {
                        side: Side::Back,
                        token: back,
                        interest: back_interest,
                        oneshot: false,
                    },
                );
            }
            effects.push(
                Effect::Reregister {
                    side: Side::Front,
                    token: front,
                    interest: self.front_interest,
                    oneshot: true,
                },
            );
        }
    }

    /// Appends the effect that registers the TLS stream anew.
    fn push_front_registration(&self, effects: &mut Vec<Effect>)
        ensures
            final(effects)@ == old(effects)@ + self@.front_registrations(),
    {
        if let Some(front) = self.token {
            effects.push(
                Effect::Reregister {
                    side: Side::Front,
                    token: front,
                    interest: self.front_interest,
                    oneshot: true,
                },
            );
        }
    }

    /// The bytes that wait to be written to the TLS stream.
    pub fn back_data(&self) -> (data: Vec<u8>)
        requires
            self.wf(),
        ensures
            data@ == self@.back,
            data@.len() <= BUFFER_SIZE,
    {
        match &self.back_buf {
            Some(buf) => slice_to_vec(buf.bytes()),
            None => Vec::new(),
        }
    }

    /// The bytes that wait to be written to the backend.
    pub fn front_data(&self) -> (data: Vec<u8>)
        requires
            self.wf(),
        ensures
            data@ == self@.front,
            data@.len() <= BUFFER_SIZE,
    {
        match &self.front_buf {
            Some(buf) => slice_to_vec(buf.bytes()),
            None => Vec::new(),
        }
    }

    /// The number of bytes that may be read from the TLS stream.
    pub fn front_room(&self) -> (count: usize)
        requires
            self.wf(),
        ensures
            count == BUFFER_SIZE - self@.front.len(),
    {
        match &self.front_buf {
            Some(buf) => room(buf),
            None => 0,
        }
    }

    /// The number of bytes that may be read from the backend.
    pub fn back_room(&self) -> (count: usize)
        requires
            self.wf(),
        ensures
            count == BUFFER_SIZE - self@.back.len(),
    {
        match &self.back_buf {
            Some(buf) => room(buf),
            None => 0,
        }
    }

    /// Deals with a write of the waiting bytes to the TLS stream. Where none were
    /// waiting nothing happens.
    pub fn writable(&mut self, write: FrontWrite) -> (effects: Vec<Effect>)
        requires
            old(self).wf(),
            old(self)@.can_send(write),
        ensures
            final(self).wf(),
            final(self)@ == old(self)@.front_write(write),
            effects@ == old(self)@.front_write_effects(write),
    {
        let mut effects: Vec<Effect> = Vec::new();
        if let Some(buf) = self.back_buf.take() {
            let mut b = buf.flip();
            if remaining(&b) == 0 {
                self.back_buf = Some(b.flip());
                assert(self@ =~= old(self)@);
                return effects;
            }
            match write {
                FrontWrite::Wrote(count) => {
                    advance(&mut b, count);
                    self.tx_count = self.tx_count + count;
                    self.front_interest.remove(EventSet::writable());
                    self.back_interest.insert(EventSet::readable());
                },
                FrontWrite::WantRead => {
                    self.front_interest.insert(EventSet::readable());
                },
                FrontWrite::WantWrite => {
                    self.front_interest.insert(EventSet::writable());
                },
            }
            self.back_buf = Some(b.flip());
        }
        self.push_registrations(self.back_interest, &mut effects);
        effects
    }

    /// Deals with a read from the TLS stream. Once the client is proxied its bytes
    /// wait for the backend; before that they are to be parsed.
    pub fn readable(&mut self, read: FrontRead) -> (next: AfterRead)
        requires
            old(self).wf(),
            old(self)@.can_take(read),
        ensures
            final(self).wf(),
            final(self)@ == old(self)@.front_read(read),
            old(self)@.after_read(read, next),
    {
        let mut effects: Vec<Effect> = Vec::new();
        if let Some(mut buf) = self.front_buf.take() {
            match read {
                FrontRead::Received(bytes) => {
                    buf.write_slice(bytes.as_slice());
                    assert(bytes@.take(bytes@.len() as int) =~= bytes@);
                    if self.is_proxying() {
                        self.front_interest.remove(EventSet::readable());
                        self.back_interest.insert(EventSet::writable());
                        self.push_registrations(EventSet::readable(), &mut effects);
                        self.rx_count = self.rx_count + bytes.len();
                    } else {
                        let data = slice_to_vec(buf.bytes());
                        self.front_buf = Some(buf);
                        return AfterRead::Parse { state: self.http_state.clone(), data };
                    }
                },
                FrontRead::WantRead => {
                    self.front_interest.insert(EventSet::readable());
                },
                FrontRead::WantWrite => {
                    self.front_interest.insert(EventSet::writable());
                },
            }
            self.front_buf = Some(buf);
        }
        self.push_front_registration(&mut effects);
        AfterRead::Effects(effects)
    }

    /// Takes in what the bytes received so far were parsed to.
    pub fn headers_parsed(&mut self, state: HttpState) -> (effects: Vec<Effect>)
        requires
            old(self).wf(),
            !(state is Error),
        ensures
            final(self).wf(),
            final(self)@ == old(self)@.parsed(state),
            effects@ == old(self)@.parsed_effects(state),
    {
        let mut effects: Vec<Effect> = Vec::new();
        self.http_state = state;
        if self.has_host() {
            self.rx_count = self.front_room();
            self.front_interest.remove(EventSet::readable());
            self.back_interest.insert(EventSet::writable());
            self.push_registrations(EventSet::readable(), &mut effects);
        } else {
            self.front_interest.insert(EventSet::readable());
        }
        self.push_front_registration(&mut effects);
        effects
    }

    /// Deals with a write of the waiting bytes to the backend.
    pub fn back_writable(&mut self, write: BackWrite) -> (effects: Vec<Effect>)
        requires
            old(self).wf(),
        ensures
            final(self).wf(),
            final(self)@ == old(self)@.back_written(write),
            effects@ == final(self)@.registrations(final(self)@.back_interest),
    {
        let mut effects: Vec<Effect> = Vec::new();
        if let Some(buf) = self.front_buf.take() {
            let mut b = buf.flip();
            if self.backend {
                match write {
                    BackWrite::WouldBlock => {
                        self.back_interest.insert(EventSet::writable());
                    },
                    BackWrite::Wrote(count) => {
                        advance(&mut b, count);
                        self.front_interest.insert(EventSet::readable());
                        self.back_interest.remove(EventSet::writable());
                        self.back_interest.insert(EventSet::readable());
                    },
                    BackWrite::Failed => {},
                }
            }
            self.front_buf = Some(b.flip());
        }
        self.push_registrations(self.back_interest, &mut effects);
        effects
    }

    /// Deals with a read from the backend.
    pub fn back_readable(&mut self, read: BackRead) -> (effects: Vec<Effect>)
        requires
            old(self).wf(),
            old(self)@.can_take_back(read),
        ensures
            final(self).wf(),
            final(self)@ == old(self)@.back_read(read),
            effects@ == final(self)@.registrations(final(self)@.back_interest),
    {
        let mut effects: Vec<Effect> = Vec::new();
        if let Some(mut buf) = self.back_buf.take() {
            if self.backend {
                match read {
                    BackRead::Received(bytes) => {
                        buf.write_slice(bytes.as_slice());
                        assert(bytes@.take(bytes@.len() as int) =~= bytes@);
                        self.back_interest.remove(EventSet::readable());
                        self.front_interest.insert(EventSet::writable());
                    },
                    BackRead::Nothing => {},
                }
            }
            self.back_buf = Some(buf);
        }
        self.push_registrations(self.back_interest, &mut effects);
        effects
    }

    /// How far the connection has come.
    pub fn status(&self) -> (status: ConnectionStatus)
        ensures
            status == self@.status,
    {
        self.status
    }

    /// What is known of the request.
    pub fn http_state(&self) -> (state: &HttpState)
        ensures
            *state == self@.http_state,
    {
        &self.http_state
    }

    /// The token of the backend, once it is set.
    pub fn backend_token(&self) -> (token: Option<Token>)
        ensures
            token == self@.backend_token,
    {
        self.backend_token
    }

    /// The number of bytes received from the client since its host became known, on top
    /// of the room that the head of its request left in the buffer.
    pub fn rx_count(&self) -> (count: usize)
        ensures
            count == self@.rx_count,
    {
        self.rx_count
    }

    /// The number of bytes that the TLS stream of the client has taken.
    pub fn tx_count(&self) -> (count: usize)
        ensures
            count == self@.tx_count,
    {
        self.tx_count
    }

    /// Whether there is a socket to a backend.
    pub fn has_backend(&self) -> (connected: bool)
        ensures
            connected == self@.backend,
    {
        self.backend
    }

    /// Notes how far the connection has come.
    pub(crate) fn set_status(&mut self, status: ConnectionStatus)
        requires
            old(self).wf(),
        ensures
            final(self).wf(),
            final(self)@ == (ClientView { status, ..old(self)@ }),
    {
        self.status = status;
    }

    /// Notes that there is a socket to a backend, and its token. From now on the
    /// request is proxied.
    pub(crate) fn set_backend(&mut self, token: Token)
        requires
            old(self).wf(),
        ensures
            final(self).wf(),
            final(self)@ == old(self)@.proxied(token),
    {
        self.backend = true;
        self.backend_token = Some(token);
        self.status = ConnectionStatus::Connected;
        if let Some(line) = self.http_state.get_request_line() {
            if let Some(host) = self.http_state.get_host() {
                self.http_state = HttpState::Proxying(line, host);
            }
        }
    }
}

} // verus!
