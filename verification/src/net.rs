//! Listening addresses of the servers, as plain values.

use vstd::prelude::*;

verus! {

/// An IP address: four octets for IPv4, sixteen for IPv6.
#[derive(Clone, Copy, Debug)]
pub enum IpAddress {
    V4([u8; 4]),
    V6([u8; 16]),
}

/// An IP address together with a port.
#[derive(Clone, Copy, Debug)]
pub struct SocketAddress {
    pub ip: IpAddress,
    pub port: u16,
}

impl SocketAddress {
    /// The socket address for `ip` and `port`.
    pub fn new(ip: IpAddress, port: u16) -> (res: SocketAddress)
        ensures
            res.ip == ip,
            res.port == port,
    {
        SocketAddress { ip, port }
    }
}

} // verus!
