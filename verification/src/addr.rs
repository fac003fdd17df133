use vstd::prelude::*;

verus! {

/// A peer's socket address, reduced to the two values the routing logic
/// reads: the IP address as one integer (an IPv4 address occupies the low
/// 32 bits) and the port.  A peer that migrates to a new source port is a
/// brand-new connection: the address is both the route key and the reaping
/// key of the connection table.
#[derive(Clone, Copy, PartialEq, Eq, Structural, Hash, Debug)]
pub struct PeerAddr {
    pub ip: u128,
    pub port: u16,
}

impl View for PeerAddr {
    type V = PeerAddr;

    open spec fn view(&self) -> PeerAddr {
        *self
    }
}

} // verus!
