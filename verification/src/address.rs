//! Addresses of the application instances.

use vstd::prelude::*;

verus! {

/// An internet address with a port. The bytes of the IP address, in network
/// order, are the digits of one number.
#[derive(Debug, Clone, Copy, PartialEq, Eq, Structural)]
pub enum SocketAddr {
    V4 { octets: u32, port: u16 },
    V6 { segments: u128, port: u16, flowinfo: u32, scope_id: u32 },
}

} // verus!
