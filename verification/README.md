# tls_proxy

The verified core of a TLS reverse proxy. It accepts TLS connections, reads the
head of the HTTP request on each of them, draws an instance of the application
that serves the named host, and forwards bytes in both directions until both
sides have hung up.

- `src/` is the library. It holds no socket: `Server::ready` goes through a
  notification of the event loop step by step, saying what to do with the
  sockets and being told what came of it. `src/laws.rs` states what holds of
  the proxy as a whole.
- `tests/` runs the library.
- `app/` is the event loop, the sockets and the TLS streams around it.

Memory comes from the `bytes` crate, the slabs of clients and backend
connections from `mio`, random numbers from `rand`. What is taken for granted
of them is written above each declaration in `src/buffer.rs`, `src/slab.rs` and
`src/routes.rs`.
