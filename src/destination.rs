//! Destinations of a tunnel and the SOCKS5 limit on their encoding.
use vstd::prelude::*;
use vstd::utf8::encode_utf8;
use crate::address::IpAddress;

verus! {

/// The longest host name, in bytes, that the SOCKS5 domain-name encoding
/// can carry: its length travels in a single byte.
pub const MAX_HOST_LEN: usize = 255;

/// Where the proxy is asked to connect.
///
/// A host name is never resolved locally: it is passed to the proxy as is,
/// which is what lets `.onion` names reach the Tor network.
#[derive(Clone, Debug, PartialEq, Eq)]
pub enum Destination {
    /// An IP address and a port.
    Ip(IpAddress, u16),
    /// A host name, resolved by the proxy, and a port.
    Host(String, u16),
}

/// Why a destination cannot be put into a SOCKS5 CONNECT request.
#[derive(Clone, Copy, Debug, PartialEq, Eq)]
pub enum DestinationError {
    /// The host name is longer than `MAX_HOST_LEN` bytes; `len` is its length.
    HostTooLong { len: usize },
}

/// The bytes of a host name as it goes on the wire: its UTF-8 encoding.
pub open spec fn host_bytes(host: Seq<char>) -> Seq<u8> {
    encode_utf8(host)
}

impl Destination {
    /// The port to connect to.
    pub open spec fn port_spec(self) -> u16 {
        match self {
            Destination::Ip(_, p) => p,
            Destination::Host(_, p) => p,
        }
    }

    /// Whether the destination fits the SOCKS5 address encoding: an IP
    /// address always does, a host name when it has at most 255 bytes.
    pub open spec fn is_encodable(self) -> bool {
        match self {
            Destination::Ip(_, _) => true,
            Destination::Host(h, _) => host_bytes(h@).len() <= MAX_HOST_LEN,
        }
    }

    /// The outcome of checking the destination against the SOCKS5 encoding.
    pub open spec fn check_spec(self) -> Result<(), DestinationError> {
        match self {
            Destination::Ip(_, _) => Ok(()),
            Destination::Host(h, _) => if host_bytes(h@).len() <= MAX_HOST_LEN {
                Ok(())
            } else {
                Err(DestinationError::HostTooLong { len: host_bytes(h@).len() as usize })
            },
        }
    }

    /// The port to connect to.
    pub fn port(&self) -> (r: u16)
        ensures
            r == self.port_spec(),
    {
        match self {
            Destination::Ip(_, p) => *p,
            Destination::Host(_, p) => *p,
        }
    }

    /// Checks that the destination can be encoded in a CONNECT request,
    /// before anything is sent.
    pub fn check_encodable(&self) -> (r: Result<(), DestinationError>)
        ensures
            r == self.check_spec(),
            (r is Ok) <==> self.is_encodable(),
    {
        match self {
            Destination::Ip(_, _) => Ok(()),
            Destination::Host(h, _) => {
                let len = h.as_str().as_bytes().len();
                if len > MAX_HOST_LEN {
                    Err(DestinationError::HostTooLong { len })
                } else {
                    Ok(())
                }
            },
        }
    }
}

} // verus!
