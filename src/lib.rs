//! Verified core of a client that reaches TCP destinations through a Tor
//! SOCKS5 proxy: the proxy and destination addresses, the check that a
//! destination fits the SOCKS5 address encoding, and the validated request
//! that is handed to the SOCKS5 handshake.
use vstd::prelude::*;

pub mod address;
pub mod destination;
pub mod request;

pub use address::{tor_proxy, IpAddress, ProxyAddress, TOR_PORT};
pub use destination::{Destination, DestinationError, MAX_HOST_LEN};
pub use request::{lemma_default_is_explicit, ConnectRequest};
