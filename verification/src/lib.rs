//! The verified core of a TLS reverse proxy.
//!
//! The proxy accepts TLS connections on one listener, reads the head of the
//! HTTP request that arrives on each of them, picks a backend for the host it
//! names, and from then on forwards bytes in both directions. This crate holds
//! every decision of that process; sockets, the event loop and the TLS library
//! are driven from outside and handed in as plain values.

pub mod address;
pub mod buffer;
pub mod client;
pub mod event;
pub mod http;
pub mod laws;
pub mod messages;
pub mod ready;
pub mod routes;
pub mod server;
pub mod slab;

pub use address::SocketAddr;
pub use client::{
    AfterRead, BackRead, BackWrite, Client, ConnectionStatus, Effect, FrontRead, FrontWrite, Side,
    BUFFER_SIZE,
};
pub use event::{EventSet, Token};
pub use http::{HttpState, RequestLine};
pub use messages::{Command, HttpFront, HttpProxyOrder, Instance, ServerMessage};
pub use ready::{Directive, Readiness, Reply, Request, Stage};
pub use routes::Routes;
pub use server::{Answer, ApplicationListener, Connection, Server, Target};
