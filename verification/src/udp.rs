//! The two directions of a UDP socket, as resources.

use crate::component::resources::FixedHostHeapUsage;
use std::sync::Arc;
use vstd::prelude::*;

verus! {

/// The UDP socket of the `tokio` crate, as an opaque value.
#[verifier::external_type_specification]
#[verifier::external_body]
pub struct ExUdpSocket(tokio::net::UdpSocket);

/// The address of a socket.
#[allow(inconsistent_fields)]
#[derive(Debug, Clone, Copy, PartialEq, Eq, Structural)]
pub enum SocketAddr {
    V4 { ip: u32, port: u16 },
    V6 { ip: u128, port: u16, flowinfo: u32, scope_id: u32 },
}

/// The family of the addresses of a socket.
#[derive(Debug, Clone, Copy, PartialEq, Eq, Structural)]
pub enum SocketAddressFamily {
    Ipv4,
    Ipv6,
}

/// The datagrams that come in.
pub struct IncomingDatagramStream {
    pub inner: Arc<tokio::net::UdpSocket>,
    /// If this has a value, the stream is "connected".
    pub remote_address: Option<SocketAddr>,
}

/// The datagrams that go out. `K` decides which addresses are allowed.
pub struct OutgoingDatagramStream<K> {
    pub inner: Arc<tokio::net::UdpSocket>,
    /// If this has a value, the stream is "connected".
    pub remote_address: Option<SocketAddr>,
    /// Socket address family.
    pub family: SocketAddressFamily,
    /// The check of allowed addresses
    pub socket_addr_check: Option<K>,
    /// Remaining number of datagrams permitted by most recent `check-send`
    /// call.
    pub check_send_permit_count: usize,
}

/// The socket is shared, and its buffers are those of the operating system.
impl FixedHostHeapUsage for IncomingDatagramStream {

}

/// The socket is shared, and its buffers are those of the operating system. What
/// the check owns is not known.
impl<K> FixedHostHeapUsage for OutgoingDatagramStream<K> {

}

} // verus!
