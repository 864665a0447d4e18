//! Socket addresses as the native library passes them: an address family, a
//! port in network byte order, and the address of the family's version of IP.

use vstd::prelude::*;

verus! {

/// Family of an IP address.
pub type AddressFamily = u16;

/// No family: the address holds nothing.
pub const ADDRESS_FAMILY_UNSPEC: AddressFamily = 0;

/// The family of IPv4 addresses.
pub const ADDRESS_FAMILY_INET: AddressFamily = 2;

/// The family of IPv6 addresses.
pub const ADDRESS_FAMILY_INET6: AddressFamily = 10;

/// The port that two bytes in network byte order stand for.
pub open spec fn port_of(bytes: Seq<u8>) -> int {
    bytes[0] as int * 256 + bytes[1] as int
}

/// An internet socket address of either version of IP.
#[allow(inconsistent_fields)]
#[derive(Debug, Clone, Copy, PartialEq, Eq)]
pub enum SocketAddress {
    /// An IPv4 address and a port.
    V4 { ip: [u8; 4], port: u16 },
    /// An IPv6 address, a port, and the flow and scope of the address.
    V6 { ip: [u8; 16], port: u16, flow_info: u32, scope_id: u32 },
}

/// Generic representation of IPv4 or IPv6 addresses, as the native library
/// holds it. Which of the two addresses is meant follows from the family.
#[derive(Debug, Clone, Copy)]
pub struct Addr {
    /// The address family.
    pub family: AddressFamily,
    /// The port, in network byte order.
    pub port: [u8; 2],
    /// The IPv4 address, read where the family is that of IPv4.
    pub ipv4: [u8; 4],
    /// The IPv6 flow information.
    pub flow_info: u32,
    /// The IPv6 address, read where the family is that of IPv6.
    pub ipv6: [u8; 16],
    /// The IPv6 scope.
    pub scope_id: u32,
}

impl Addr {
    /// The socket address that this value stands for, if its family is one of
    /// the two internet families.
    pub open spec fn socket(self) -> Option<SocketAddress> {
        if self.family == ADDRESS_FAMILY_INET {
            Some(SocketAddress::V4 { ip: self.ipv4, port: port_of(self.port@) as u16 })
        } else if self.family == ADDRESS_FAMILY_INET6 {
            Some(
                SocketAddress::V6 {
                    ip: self.ipv6,
                    port: port_of(self.port@) as u16,
                    flow_info: self.flow_info,
                    scope_id: self.scope_id,
                },
            )
        } else {
            None
        }
    }

    /// The address that stands for `addr`: its family, its port in network byte
    /// order and its fields, and zero in all that the family does not use.
    pub open spec fn of_socket(addr: SocketAddress) -> Addr {
        match addr {
            SocketAddress::V4 { ip, port } => Addr {
                family: ADDRESS_FAMILY_INET,
                port: [(port / 256) as u8, (port % 256) as u8],
                ipv4: ip,
                flow_info: 0,
                ipv6: [
                    0u8, 0u8, 0u8, 0u8, 0u8, 0u8, 0u8, 0u8, 0u8, 0u8, 0u8, 0u8, 0u8, 0u8, 0u8, 0u8,
                ],
                scope_id: 0,
            },
            SocketAddress::V6 { ip, port, flow_info, scope_id } => Addr {
                family: ADDRESS_FAMILY_INET6,
                port: [(port / 256) as u8, (port % 256) as u8],
                ipv4: [0u8, 0u8, 0u8, 0u8],
                flow_info,
                ipv6: ip,
                scope_id,
            },
        }
    }

    /// Converts the `Addr` to a socket address; there is none where the
    /// family is neither of the internet families.
    pub fn as_socket(&self) -> (socket: Option<SocketAddress>)
        ensures
            socket == self.socket(),
    {
        if self.family == ADDRESS_FAMILY_INET {
            Some(SocketAddress::V4 { ip: self.ipv4, port: self.port() })
        } else if self.family == ADDRESS_FAMILY_INET6 {
            Some(
                SocketAddress::V6 {
                    ip: self.ipv6,
                    port: self.port(),
                    flow_info: self.flow_info,
                    scope_id: self.scope_id,
                },
            )
        } else {
            None
        }
    }

    /// Get port number from the `Addr`, in host byte order.
    pub fn port(&self) -> (port: u16)
        ensures
            port == port_of(self.port@),
    {
        let high: u16 = self.port[0] as u16;
        let low: u16 = self.port[1] as u16;
        high * 256 + low
    }
}

impl From<SocketAddress> for Addr {
    fn from(addr: SocketAddress) -> (out: Addr) {
        match addr {
            SocketAddress::V4 { ip, port } => Addr {
                family: ADDRESS_FAMILY_INET,
                port: [(port / 256) as u8, (port % 256) as u8],
                ipv4: ip,
                flow_info: 0,
                ipv6: [
                    0u8, 0u8, 0u8, 0u8, 0u8, 0u8, 0u8, 0u8, 0u8, 0u8, 0u8, 0u8, 0u8, 0u8, 0u8, 0u8,
                ],
                scope_id: 0,
            },
            SocketAddress::V6 { ip, port, flow_info, scope_id } => Addr {
                family: ADDRESS_FAMILY_INET6,
                port: [(port / 256) as u8, (port % 256) as u8],
                ipv4: [0u8, 0u8, 0u8, 0u8],
                flow_info,
                ipv6: ip,
                scope_id,
            },
        }
    }
}

impl vstd::std_specs::convert::FromSpecImpl<SocketAddress> for Addr {
    open spec fn obeys_from_spec() -> bool {
        true
    }

    open spec fn from_spec(addr: SocketAddress) -> Self {
        Addr::of_socket(addr)
    }
}

/// An address made from a socket address stands for that socket address.
pub proof fn lemma_socket_of_from(addr: SocketAddress)
    ensures
        Addr::of_socket(addr).socket() == Some(addr),
{
}

} // verus!
