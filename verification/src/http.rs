//! What is known so far of the request that a client is sending.

use vstd::prelude::*;

verus! {

/// The first line of an HTTP request.
#[derive(Debug)]
pub struct RequestLine {
    pub method: String,
    pub uri: String,
    pub version: String,
}

impl Clone for RequestLine {
    fn clone(&self) -> (copy: Self)
        ensures
            copy == *self,
    {
        RequestLine {
            method: self.method.clone(),
            uri: self.uri.clone(),
            version: self.version.clone(),
        }
    }
}

/// How far the head of a request has been understood.
///
/// The number in `HasRequestLine` and `HasHost` is the offset up to which the
/// bytes received so far have been consumed.
#[derive(Debug)]
pub enum HttpState {
    /// Nothing has been understood yet.
    Initial,
    /// The bytes are no HTTP request.
    Error(String),
    /// The request line has been read.
    HasRequestLine(usize, RequestLine),
    /// The request line and the host have been read.
    HasHost(usize, RequestLine, String),
    /// The request goes to a backend; its bytes are no longer looked at.
    Proxying(RequestLine, String),
}

impl Clone for HttpState {
    fn clone(&self) -> (copy: Self)
        ensures
            copy == *self,
    {
        match self {
            HttpState::Initial => HttpState::Initial,
            HttpState::Error(reason) => HttpState::Error(reason.clone()),
            HttpState::HasRequestLine(offset, line) => HttpState::HasRequestLine(
                *offset,
                line.clone(),
            ),
            HttpState::HasHost(offset, line, host) => HttpState::HasHost(
                *offset,
                line.clone(),
                host.clone(),
            ),
            HttpState::Proxying(line, host) => HttpState::Proxying(line.clone(), host.clone()),
        }
    }
}

impl HttpState {
    /// The host that the request names, once it is known.
    pub open spec fn host(self) -> Option<String> {
        match self {
            HttpState::HasHost(_, _, host) => Some(host),
            HttpState::Proxying(_, host) => Some(host),
            _ => None,
        }
    }

    /// The request line, once it is known.
    pub open spec fn request_line(self) -> Option<RequestLine> {
        match self {
            HttpState::HasRequestLine(_, line) => Some(line),
            HttpState::HasHost(_, line, _) => Some(line),
            HttpState::Proxying(line, _) => Some(line),
            _ => None,
        }
    }

    /// The resource that the request names, once it is known.
    pub open spec fn uri(self) -> Option<String> {
        match self.request_line() {
            Some(line) => Some(line.uri),
            None => None,
        }
    }

    /// The host that the request names, once it is known.
    pub fn get_host(&self) -> (host: Option<String>)
        ensures
            host == self.host(),
    {
        match self {
            HttpState::HasHost(_, _, host) => Some(host.clone()),
            HttpState::Proxying(_, host) => Some(host.clone()),
            _ => None,
        }
    }

    /// The resource that the request names, once it is known.
    pub fn get_uri(&self) -> (uri: Option<String>)
        ensures
            uri == self.uri(),
    {
        match self {
            HttpState::HasRequestLine(_, line) => Some(line.uri.clone()),
            HttpState::HasHost(_, line, _) => Some(line.uri.clone()),
            HttpState::Proxying(line, _) => Some(line.uri.clone()),
            _ => None,
        }
    }

    /// The request line, once it is known.
    pub fn get_request_line(&self) -> (line: Option<RequestLine>)
        ensures
            line == self.request_line(),
    {
        match self {
            HttpState::HasRequestLine(_, line) => Some(line.clone()),
            HttpState::HasHost(_, line, _) => Some(line.clone()),
            HttpState::Proxying(line, _) => Some(line.clone()),
            _ => None,
        }
    }
}

} // verus!
