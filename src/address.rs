//! Network addresses as plain values, and the default Tor proxy endpoint.
use vstd::prelude::*;

verus! {

/// The port on which a local Tor daemon listens for SOCKS5 clients.
pub const TOR_PORT: u16 = 9050;

/// An IP address: four octets for IPv4, eight 16-bit segments for IPv6.
#[derive(Clone, Copy, Debug, PartialEq, Eq)]
pub enum IpAddress {
    V4([u8; 4]),
    V6([u16; 8]),
}

/// The endpoint of a SOCKS5 proxy: an IP address and a port.
#[derive(Clone, Copy, Debug, PartialEq, Eq)]
pub struct ProxyAddress {
    pub ip: IpAddress,
    pub port: u16,
}

impl IpAddress {
    /// Whether this is the IPv4 loopback address `127.0.0.1`.
    pub open spec fn is_ipv4_loopback(self) -> bool {
        match self {
            IpAddress::V4(o) => o@ == seq![127u8, 0u8, 0u8, 1u8],
            IpAddress::V6(_) => false,
        }
    }
}

impl ProxyAddress {
    /// Builds the endpoint `ip:port`.
    pub fn new(ip: IpAddress, port: u16) -> (r: ProxyAddress)
        ensures
            r.ip == ip,
            r.port == port,
    {
        ProxyAddress { ip, port }
    }
}

/// The default proxy endpoint: IPv4 loopback on the Tor SOCKS port.
pub open spec fn tor_proxy_spec() -> ProxyAddress {
    ProxyAddress { ip: IpAddress::V4([127u8, 0u8, 0u8, 1u8]), port: TOR_PORT }
}

/// The endpoint of a local Tor daemon, `127.0.0.1:9050`.
pub fn tor_proxy() -> (r: ProxyAddress)
    ensures
        r == tor_proxy_spec(),
        r.ip.is_ipv4_loopback(),
        r.port == 9050,
{
    let r = ProxyAddress { ip: IpAddress::V4([127u8, 0u8, 0u8, 1u8]), port: TOR_PORT };
    proof {
        if let IpAddress::V4(o) = r.ip {
            assert(o@ =~= seq![127u8, 0u8, 0u8, 1u8]);
        }
    }
    r
}

} // verus!
