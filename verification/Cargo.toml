[package]
name = "tls_proxy"
version = "0.1.0"
edition = "2021"

[dependencies]
bytes = "0.3"
mio = "0.5"
openssl = "0.7"
rand = "0.3"
