use vstd::prelude::*;

use crate::udp::io::{
    accept_has_entry, accept_would_pend, accept_would_reset, spec_accept_next, spec_stop,
    AcceptPoll, UdpIo,
};

verus! {

/// A server accepting virtual UDP streams from one engine running in
/// server mode: the first datagram from an unknown source admits it and
/// offers the new stream to the bounded acceptance queue.
pub struct UdpServer {
    pub io: UdpIo,
}

impl UdpServer {
    /// A fresh server-mode engine with the given queue bounds.
    pub fn new(outbound_cap: usize, inbound_cap: usize, accept_cap: usize) -> (r: Self)
        requires
            outbound_cap >= 1,
            inbound_cap >= 1,
            accept_cap >= 1,
        ensures
            r.io.wf(),
            r.io@.peers == Map::<crate::addr::PeerAddr, crate::table::InboxView>::empty(),
            r.io@.acceptor == Some(crate::chan::chan_empty::<crate::addr::PeerAddr>(
                accept_cap as nat)),
            !r.io@.stopped,
    {
        UdpServer { io: UdpIo::new(outbound_cap, inbound_cap, Some(accept_cap)) }
    }

    /// One poll of an accept: the next admitted peer's stream, a
    /// suspension while none is queued, or `ConnectionReset` once the
    /// acceptance queue is closed.
    pub fn accept(&mut self) -> (r: AcceptPoll)
        requires
            old(self).io.wf(),
            old(self).io@.acceptor is Some,
        ensures
            final(self).io.wf(),
            final(self).io@.acceptor is Some,
            accept_has_entry(old(self).io@) ==> {
                &&& r matches AcceptPoll::Stream(s)
                    && s.peer_spec() == old(self).io@.acceptor.unwrap().msgs[0]
                    && s.writable()
                &&& final(self).io@ == spec_accept_next(old(self).io@)
            },
            accept_would_pend(old(self).io@)
                ==> (r matches AcceptPoll::Pending) && final(self).io@ == old(self).io@,
            accept_would_reset(old(self).io@)
                ==> (r matches AcceptPoll::Reset) && final(self).io@ == old(self).io@,
    {
        self.io.accept_poll()
    }

    /// The owner's stop request (explicit, or the destructor's).
    /// Idempotent.
    pub fn stop(&mut self)
        requires
            old(self).io.wf(),
        ensures
            final(self).io.wf(),
            final(self).io@ == spec_stop(old(self).io@),
    {
        self.io.stop()
    }
}

} // verus!
