use vstd::prelude::*;

use crate::addr::PeerAddr;
use crate::error::NetError;
use crate::udp::io::{connect_rejects, spec_connect, spec_stop, UdpIo};
use crate::udp::stream::UdpStream;

verus! {

/// A client capable of opening multiple virtual UDP streams over one
/// engine.  The engine runs in client mode: datagrams from unknown
/// sources are unrouted and dropped.  The surrounding event loop drives
/// `io`; dropping the client is a stop request, modelled by `stop`.
pub struct UdpClient {
    pub io: UdpIo,
}

impl UdpClient {
    /// A fresh client-mode engine with the given queue bounds.
    pub fn new(outbound_cap: usize, inbound_cap: usize) -> (r: Self)
        requires
            outbound_cap >= 1,
            inbound_cap >= 1,
        ensures
            r.io.wf(),
            r.io@.peers == Map::<PeerAddr, crate::table::InboxView>::empty(),
            r.io@.acceptor is None,
            !r.io@.stopped,
    {
        UdpClient { io: UdpIo::new(outbound_cap, inbound_cap, None) }
    }

    /// Opens a virtual stream to a peer: fails with `AlreadyConnected`
    /// while that address has a live entry, and registers a fresh one
    /// otherwise.
    pub fn connect(&mut self, peer: PeerAddr) -> (r: Result<UdpStream, NetError>)
        requires
            old(self).io.wf(),
        ensures
            final(self).io.wf(),
            connect_rejects(old(self).io@, peer) ==> {
                &&& r matches Err(e) && e == NetError::AlreadyConnected
                &&& final(self).io@ == old(self).io@
            },
            !connect_rejects(old(self).io@, peer) ==> {
                &&& r matches Ok(s) && s.peer_spec() == peer && s.writable()
                &&& final(self).io@ == spec_connect(old(self).io@, peer)
            },
    {
        self.io.connect(peer)
    }

    /// The owner's stop request (explicit, or the destructor's): ends
    /// the engine loop and closes every queue.  Idempotent.
    pub fn stop(&mut self)
        requires
            old(self).io.wf(),
        ensures
            final(self).io.wf(),
            final(self).io@ == spec_stop(old(self).io@),
    {
        self.io.stop()
    }
}

} // verus!
