//! Network endpoints and peer identifiers.

use vstd::prelude::*;

verus! {

/// A network endpoint: an IP address and a port. Port `0` asks the system to
/// bind any available ephemeral port.
#[derive(Clone, Copy, Debug, PartialEq, Eq, Hash)]
pub enum SocketAddress {
    /// An IPv4 address, as its four octets, and a port.
    V4 { ip: [u8; 4], port: u16 },
    /// An IPv6 address, as its eight segments, a port, and the flow
    /// information and scope id of the IPv6 socket address.
    V6 { ip: [u16; 8], port: u16, flowinfo: u32, scope_id: u32 },
}

/// Whether `a` is the IPv4 loopback address `127.0.0.1` with port `0`.
pub open spec fn is_localhost_any(a: SocketAddress) -> bool {
    a matches SocketAddress::V4 { ip, port } && ip@ == seq![127u8, 0u8, 0u8, 1u8] && port == 0
}

/// Localhost binding to any available port, i.e. `127.0.0.1:0`.
pub fn localhost_any() -> (r: SocketAddress)
    ensures
        is_localhost_any(r),
{
    let r = SocketAddress::V4 { ip: [127u8, 0u8, 0u8, 1u8], port: 0u16 };
    assert(r->V4_ip@ =~= seq![127u8, 0u8, 0u8, 1u8]);
    r
}

/// The identifier of a peer: the bytes of its public key.
#[derive(Clone, Copy, Debug, PartialEq, Eq, Hash)]
pub struct PeerId(pub [u8; 32]);

} // verus!
