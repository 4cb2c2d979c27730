//! Socket addresses as plain values.

use vstd::prelude::*;

verus! {

/// The integers by which an address is found in the session table:
/// family tag, IP, port, flow information, scope id.
pub type AddrKey = (u8, u128, u16, u32, u32);

/// An IPv4 or IPv6 socket address: what `std::net::SocketAddr` holds.
#[derive(Clone, Copy, Debug, PartialEq, Eq, Structural, Hash)]
#[allow(inconsistent_fields)]
pub enum SocketAddress {
    V4 { ip: u32, port: u16 },
    V6 { ip: u128, port: u16, flowinfo: u32, scope_id: u32 },
}

/// Why no address could be chosen for a host name.
#[derive(Clone, Copy, Debug, PartialEq, Eq, Structural)]
pub enum ResolveError {
    /// The name resolved to no address at all.
    NotFound,
}

impl SocketAddress {
    /// The key that stands for this address. Two addresses share a key only
    /// if they are equal (`lemma_key_injective`).
    pub open spec fn key(self) -> AddrKey {
        match self {
            SocketAddress::V4 { ip, port } => (4u8, ip as u128, port, 0u32, 0u32),
            SocketAddress::V6 { ip, port, flowinfo, scope_id } => (6u8, ip, port, flowinfo, scope_id),
        }
    }

    /// Computes `key`.
    pub fn to_key(&self) -> (k: AddrKey)
        ensures
            k == self.key(),
    {
        match *self {
            SocketAddress::V4 { ip, port } => (4u8, ip as u128, port, 0u32, 0u32),
            SocketAddress::V6 { ip, port, flowinfo, scope_id } => (6u8, ip, port, flowinfo, scope_id),
        }
    }

    /// Distinct addresses have distinct keys.
    pub proof fn lemma_key_injective(a: SocketAddress, b: SocketAddress)
        requires
            a.key() == b.key(),
        ensures
            a == b,
    {
    }
}

/// The wildcard address with port zero of the chosen family: `0.0.0.0:0`
/// for IPv4, `[::]:0` for IPv6.
pub open spec fn wildcard(ipv4: bool) -> SocketAddress {
    if ipv4 {
        SocketAddress::V4 { ip: 0, port: 0 }
    } else {
        SocketAddress::V6 { ip: 0, port: 0, flowinfo: 0, scope_id: 0 }
    }
}

/// The local address an upstream socket is bound to, so that the system
/// picks an ephemeral port.
pub fn upstream_bind_addr(ipv4: bool) -> (local: SocketAddress)
    ensures
        local == wildcard(ipv4),
{
    if ipv4 {
        SocketAddress::V4 { ip: 0, port: 0 }
    } else {
        SocketAddress::V6 { ip: 0, port: 0, flowinfo: 0, scope_id: 0 }
    }
}

/// Picks the address to use out of those a host name resolved to: the
/// first one. An empty list is the only failure.
pub fn first_resolved(candidates: &Vec<SocketAddress>) -> (chosen: Result<SocketAddress, ResolveError>)
    ensures
        candidates@.len() > 0 ==> chosen == Ok::<SocketAddress, ResolveError>(candidates@[0]),
        candidates@.len() == 0 ==> chosen == Err::<SocketAddress, ResolveError>(ResolveError::NotFound),
{
    if candidates.len() > 0 {
        Ok(candidates[0])
    } else {
        Err(ResolveError::NotFound)
    }
}

} // verus!
