//! Socket addresses as plain values.
use vstd::prelude::*;

verus! {

/// An IPv4 or IPv6 socket address. The IPv4 address and the IPv6 address are
/// held as big-endian integers of their octets.
#[allow(inconsistent_fields)]
#[derive(Clone, Copy, Debug, PartialEq, Eq, Structural)]
pub enum SocketAddress {
    V4 { ip: u32, port: u16 },
    V6 { ip: u128, port: u16, flowinfo: u32, scope_id: u32 },
}

impl SocketAddress {
    /// The port of the address.
    pub open spec fn port_of(self) -> u16 {
        match self {
            SocketAddress::V4 { port, .. } => port,
            SocketAddress::V6 { port, .. } => port,
        }
    }

    /// The address with the same IP and `port`; an IPv6 address gets no flow
    /// information and no scope, as a fresh socket address of that IP has.
    pub open spec fn at_port(self, port: u16) -> SocketAddress {
        match self {
            SocketAddress::V4 { ip, .. } => SocketAddress::V4 { ip, port },
            SocketAddress::V6 { ip, .. } => SocketAddress::V6 { ip, port, flowinfo: 0, scope_id: 0 },
        }
    }

    pub fn port(&self) -> (p: u16)
        ensures
            p == self.port_of(),
    {
        match self {
            SocketAddress::V4 { port, .. } => *port,
            SocketAddress::V6 { port, .. } => *port,
        }
    }

    /// The socket address of the same IP at `port`.
    pub fn with_port(&self, port: u16) -> (a: SocketAddress)
        ensures
            a == self.at_port(port),
    {
        match self {
            SocketAddress::V4 { ip, .. } => SocketAddress::V4 { ip: *ip, port },
            SocketAddress::V6 { ip, .. } => SocketAddress::V6 {
                ip: *ip,
                port,
                flowinfo: 0,
                scope_id: 0,
            },
        }
    }
}

} // verus!
