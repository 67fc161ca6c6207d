//! A node's network endpoint as plain values: the IP address octets, the TCP
//! port of the listening socket, and the UDP discovery port.
use vstd::prelude::*;

verus! {

/// A network endpoint: an IP address (four octets for version 4, sixteen for
/// version 6), the TCP port paired with it, and a UDP port.
pub struct NodeEndpoint {
    /// The address octets: big-endian, four or sixteen of them.
    pub ip: Vec<u8>,
    /// The TCP port of the socket address.
    pub tcp_port: u16,
    /// The UDP discovery port.
    pub udp_port: u16,
}

impl NodeEndpoint {
    /// An endpoint is well formed when its address is four or sixteen octets.
    pub open spec fn wf(self) -> bool {
        self.ip@.len() == 4 || self.ip@.len() == 16
    }

    /// Whether the address is an IP version 4 one.
    pub open spec fn is_v4(self) -> bool {
        self.ip@.len() == 4
    }
}

} // verus!
