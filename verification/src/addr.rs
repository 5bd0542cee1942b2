//! Socket addresses.

use vstd::prelude::*;

verus! {

/// The address of one end of a connection.
#[derive(Clone, Copy, Debug, PartialEq, Eq, Hash, Structural)]
pub enum SocketAddr {
    /// An IPv4 address, its first byte the most significant of `octets`.
    V4 { octets: u32, port: u16 },
    /// An IPv6 address, its first byte the most significant of `segments`.
    V6 { segments: u128, port: u16, flowinfo: u32, scope_id: u32 },
}

} // verus!
