//! A CONNECT request that is ready for the SOCKS5 handshake.
use vstd::prelude::*;
use crate::address::{tor_proxy, tor_proxy_spec, IpAddress, ProxyAddress};
use crate::destination::{Destination, DestinationError};

verus! {

/// A proxy endpoint together with a destination that fits the SOCKS5
/// address encoding. Only a request of this kind is handed to the
/// handshake, so an over-long host name is refused before any connection
/// to the proxy is opened.
#[derive(Debug)]
pub struct ConnectRequest {
    proxy: ProxyAddress,
    destination: Destination,
}

/// Whether `r` is what asking for a tunnel to `destination` through
/// `proxy` yields: the request itself when the destination can be encoded,
/// else the encoding error.
pub open spec fn is_request_for(
    r: Result<ConnectRequest, DestinationError>,
    proxy: ProxyAddress,
    destination: Destination,
) -> bool {
    match r {
        Ok(q) => destination.is_encodable() && q.proxy_spec() == proxy && q.destination_spec()
            == destination,
        Err(e) => destination.check_spec() == Err::<(), DestinationError>(e),
    }
}

impl ConnectRequest {
    #[verifier::type_invariant]
    spec fn inv(self) -> bool {
        self.destination.is_encodable()
    }

    /// The proxy endpoint of the request.
    pub closed spec fn proxy_spec(self) -> ProxyAddress {
        self.proxy
    }

    /// The destination of the request.
    pub closed spec fn destination_spec(self) -> Destination {
        self.destination
    }

    /// A request for a tunnel to `destination` through the proxy at
    /// `tor_proxy`; fails when the destination cannot be encoded.
    pub fn with_address(tor_proxy: ProxyAddress, destination: Destination) -> (r: Result<
        ConnectRequest,
        DestinationError,
    >)
        ensures
            is_request_for(r, tor_proxy, destination),
            (r is Ok) <==> destination.is_encodable(),
    {
        match destination.check_encodable() {
            Ok(()) => Ok(ConnectRequest { proxy: tor_proxy, destination }),
            Err(e) => Err(e),
        }
    }

    /// A request for a tunnel to `destination` through the local Tor
    /// daemon at `127.0.0.1:9050`.
    pub fn to_tor(destination: Destination) -> (r: Result<ConnectRequest, DestinationError>)
        ensures
            is_request_for(r, tor_proxy_spec(), destination),
            (r is Ok) <==> destination.is_encodable(),
    {
        ConnectRequest::with_address(tor_proxy(), destination)
    }

    /// The proxy endpoint to open the TCP connection to.
    pub fn proxy(&self) -> (r: ProxyAddress)
        ensures
            r == self.proxy_spec(),
    {
        self.proxy
    }

    /// The destination to name in the CONNECT request; it always fits the
    /// SOCKS5 address encoding.
    pub fn destination(&self) -> (r: &Destination)
        ensures
            *r == self.destination_spec(),
            r.is_encodable(),
    {
        proof {
            use_type_invariant(self);
        }
        &self.destination
    }

    /// Splits the request into its proxy endpoint and destination.
    pub fn into_parts(self) -> (r: (ProxyAddress, Destination))
        ensures
            r.0 == self.proxy_spec(),
            r.1 == self.destination_spec(),
            r.1.is_encodable(),
    {
        proof {
            use_type_invariant(&self);
        }
        (self.proxy, self.destination)
    }
}

/// Asking for a tunnel through the default proxy is asking for one through
/// `127.0.0.1:9050` explicitly: for a given destination there is a single
/// outcome of the second kind, and the outcome of the first kind equals it.
pub proof fn lemma_default_is_explicit(
    destination: Destination,
    by_default: Result<ConnectRequest, DestinationError>,
    explicit: Result<ConnectRequest, DestinationError>,
)
    requires
        is_request_for(by_default, tor_proxy_spec(), destination),
        is_request_for(
            explicit,
            ProxyAddress { ip: IpAddress::V4([127u8, 0u8, 0u8, 1u8]), port: 9050 },
            destination,
        ),
    ensures
        by_default == explicit,
{
}

} // verus!
