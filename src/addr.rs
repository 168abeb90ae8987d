//! Network identity of a peer: the only key that ties a datagram to a player.

use vstd::prelude::*;

verus! {

/// An IP address as plain integers.
#[derive(Clone, Copy, Debug, PartialEq, Eq, Hash, Structural)]
pub enum IpAddress {
    V4(u32),
    V6(u128),
}

/// The address and port a datagram came from.
#[derive(Clone, Copy, Debug, PartialEq, Eq, Hash, Structural)]
pub struct PeerAddr {
    pub ip: IpAddress,
    pub port: u16,
}

impl PeerAddr {
    pub fn new(ip: IpAddress, port: u16) -> (r: PeerAddr)
        ensures
            r == (PeerAddr { ip, port }),
    {
        PeerAddr { ip, port }
    }
}

} // verus!
