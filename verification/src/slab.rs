//! The two slabs of the proxy: its clients, and the clients that its backend
//! connections belong to. A slab hands out a token for each value put into it.

use crate::client::Client;
use crate::event::Token;
use vstd::prelude::*;

verus! {

/// The clients, in a slab of the `mio` crate.
#[verifier::external_body]
pub struct ClientSlab {
    slab: mio::util::Slab<Client>,
}

/// For each backend connection the token of its client, in a slab of the `mio` crate.
#[verifier::external_body]
pub struct TokenSlab {
    slab: mio::util::Slab<mio::Token>,
}

/// The clients in a slab, each under its token.
pub uninterp spec fn client_slots(slab: ClientSlab) -> Map<Token, Client>;

/// The tokens that a slab was made to hand out.
pub uninterp spec fn client_tokens(slab: ClientSlab) -> Set<Token>;

/// The values in a slab, each under its token.
pub uninterp spec fn token_slots(slab: TokenSlab) -> Map<Token, Token>;

/// The tokens that a slab was made to hand out.
pub uninterp spec fn token_tokens(slab: TokenSlab) -> Set<Token>;

/// The `count` tokens from `first` on.
pub open spec fn token_range(first: nat, count: nat) -> Set<Token> {
    Set::new(|token: Token| first <= token.0 < first + count)
}

impl ClientSlab {
    /// `Slab::new_starting_at`: an empty slab with that many tokens. It allocates
    /// its slots at once, which a kilobyte for each leaves room for.
    #[verifier::external_body]
    pub(crate) fn new_starting_at(first: Token, count: usize) -> (slab: ClientSlab)
        requires
            count * 1024 <= isize::MAX,
            first.0 + count <= usize::MAX,
        ensures
            client_slots(slab).dom() == Set::<Token>::empty(),
            client_tokens(slab) == token_range(first.0 as nat, count as nat),
    {
        ClientSlab { slab: mio::util::Slab::new_starting_at(mio::Token(first.0), count) }
    }

    /// `Slab::contains`: whether a value is stored under the token.
    #[verifier::external_body]
    pub(crate) fn contains(&self, token: Token) -> (found: bool)
        requires
            client_tokens(*self).contains(token),
        ensures
            found == client_slots(*self).contains_key(token),
    {
        self.slab.contains(mio::Token(token.0))
    }

    /// Indexing a `Slab`: the value under the token.
    #[verifier::external_body]
    pub(crate) fn index(&self, token: Token) -> (client: &Client)
        requires
            client_slots(*self).contains_key(token),
        ensures
            *client == client_slots(*self)[token],
    {
        &self.slab[mio::Token(token.0)]
    }

    /// Indexing a `Slab` to change the value under the token.
    #[verifier::external_body]
    pub(crate) fn index_mut(&mut self, token: Token) -> (client: &mut Client)
        requires
            client_slots(*old(self)).contains_key(token),
        ensures
            *client == client_slots(*old(self))[token],
            client_slots(*final(self)) == client_slots(*old(self)).insert(token, *final(client)),
            client_tokens(*final(self)) == client_tokens(*old(self)),
    {
        &mut self.slab[mio::Token(token.0)]
    }

    /// `Slab::insert`: stores the value under a token of the slab that is free, and
    /// hands the value back where none is.
    #[verifier::external_body]
    pub(crate) fn insert(&mut self, client: Client) -> (stored: Result<Token, Client>)
        ensures
            client_tokens(*final(self)) == client_tokens(*old(self)),
            match stored {
                Ok(token) => {
                    &&& client_tokens(*old(self)).contains(token)
                    &&& !client_slots(*old(self)).contains_key(token)
                    &&& client_slots(*final(self)) == client_slots(*old(self)).insert(token, client)
                },
                Err(value) => {
                    &&& value == client
                    &&& client_slots(*final(self)) == client_slots(*old(self))
                    &&& client_tokens(*old(self)) == client_slots(*old(self)).dom()
                },
            },
    {
        match self.slab.insert(client) {
            Ok(token) => Ok(Token(token.0)),
            Err(client) => Err(client),
        }
    }

    /// `Slab::remove`: takes the value under the token out; the token is free again.
    #[verifier::external_body]
    pub(crate) fn remove(&mut self, token: Token) -> (client: Option<Client>)
        requires
            client_slots(*old(self)).contains_key(token),
        ensures
            client == Some(client_slots(*old(self))[token]),
            client_slots(*final(self)) == client_slots(*old(self)).remove(token),
            client_tokens(*final(self)) == client_tokens(*old(self)),
    {
        self.slab.remove(mio::Token(token.0))
    }
}

impl TokenSlab {
    /// `Slab::new_starting_at`: an empty slab with that many tokens. It allocates
    /// its slots at once, which a kilobyte for each leaves room for.
    #[verifier::external_body]
    pub(crate) fn new_starting_at(first: Token, count: usize) -> (slab: TokenSlab)
        requires
            count * 1024 <= isize::MAX,
            first.0 + count <= usize::MAX,
        ensures
            token_slots(slab).dom() == Set::<Token>::empty(),
            token_tokens(slab) == token_range(first.0 as nat, count as nat),
    {
        TokenSlab { slab: mio::util::Slab::new_starting_at(mio::Token(first.0), count) }
    }

    /// `Slab::contains`: whether a value is stored under the token.
    #[verifier::external_body]
    pub(crate) fn contains(&self, token: Token) -> (found: bool)
        requires
            token_tokens(*self).contains(token),
        ensures
            found == token_slots(*self).contains_key(token),
    {
        self.slab.contains(mio::Token(token.0))
    }

    /// Indexing a `Slab`: the value under the token.
    #[verifier::external_body]
    pub(crate) fn index(&self, token: Token) -> (value: Token)
        requires
            token_slots(*self).contains_key(token),
        ensures
            value == token_slots(*self)[token],
    {
        Token(self.slab[mio::Token(token.0)].0)
    }

    /// `Slab::insert`: stores the value under a token of the slab that is free, and
    /// hands the value back where none is.
    #[verifier::external_body]
    pub(crate) fn insert(&mut self, value: Token) -> (stored: Result<Token, Token>)
        ensures
            token_tokens(*final(self)) == token_tokens(*old(self)),
            match stored {
                Ok(token) => {
                    &&& token_tokens(*old(self)).contains(token)
                    &&& !token_slots(*old(self)).contains_key(token)
                    &&& token_slots(*final(self)) == token_slots(*old(self)).insert(token, value)
                },
                Err(back) => {
                    &&& back == value
                    &&& token_slots(*final(self)) == token_slots(*old(self))
                    &&& token_tokens(*old(self)) == token_slots(*old(self)).dom()
                },
            },
    {
        match self.slab.insert(mio::Token(value.0)) {
            Ok(token) => Ok(Token(token.0)),
            Err(back) => Err(Token(back.0)),
        }
    }

    /// `Slab::remove`: takes the value under the token out; the token is free again.
    #[verifier::external_body]
    pub(crate) fn remove(&mut self, token: Token) -> (value: Option<Token>)
        requires
            token_slots(*old(self)).contains_key(token),
        ensures
            value == Some(token_slots(*old(self))[token]),
            token_slots(*final(self)) == token_slots(*old(self)).remove(token),
            token_tokens(*final(self)) == token_tokens(*old(self)),
    {
        match self.slab.remove(mio::Token(token.0)) {
            Some(value) => Some(Token(value.0)),
            None => None,
        }
    }
}

} // verus!
