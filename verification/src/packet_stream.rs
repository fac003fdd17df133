use vstd::prelude::*;

use crate::addr::PeerAddr;
use crate::chan::chan_can_take;
use crate::udp::io::UdpIo;
use crate::udp::stream::{
    read_data, read_has_data, read_would_pend, read_would_reset, spec_read_next,
    spec_write_push, ReadPoll, WritePoll,
};

verus! {

/// The packet-stream capability: send one opaque payload, receive one
/// opaque payload, through the engine the transport is routed over.
/// Plain virtual streams and DTLS sessions satisfy it with the same
/// contract, which is the only surface upper layers depend on.
pub trait PacketFramed {
    /// The peer the transport is bound to.
    spec fn pf_peer(&self) -> PeerAddr;

    /// Whether the transport's outbound side is still open.
    spec fn pf_writable(&self) -> bool;

    /// One poll of a send: the full buffer is accepted by the shared
    /// outbound queue, or the caller suspends on a full queue, or the
    /// outbound side is closed.
    fn send(&mut self, io: &mut UdpIo, buf: &[u8]) -> (r: WritePoll)
        requires
            old(io).wf(),
        ensures
            final(io).wf(),
            final(self).pf_peer() == old(self).pf_peer(),
            final(self).pf_writable() == old(self).pf_writable(),
            !old(self).pf_writable() || old(io)@.outbound.closed ==> {
                &&& r == WritePoll::Broken
                &&& final(io)@ == old(io)@
            },
            old(self).pf_writable() && !old(io)@.outbound.closed
                && old(io)@.outbound.msgs.len() >= old(io)@.outbound.cap ==> {
                &&& r == WritePoll::Pending
                &&& final(io)@ == old(io)@
            },
            old(self).pf_writable() && chan_can_take(old(io)@.outbound) ==> {
                &&& r == WritePoll::Written(buf@.len() as usize)
                &&& final(io)@ == spec_write_push(old(io)@, old(self).pf_peer(), buf@)
            },
    ;

    /// One poll of a receive into a buffer of capacity `cap`: one
    /// datagram truncated to the capacity, a suspension, or a reset once
    /// the inbound queue is closed and drained.
    fn next(&mut self, io: &mut UdpIo, cap: usize) -> (r: ReadPoll)
        requires
            old(io).wf(),
        ensures
            final(io).wf(),
            final(self).pf_peer() == old(self).pf_peer(),
            final(self).pf_writable() == old(self).pf_writable(),
            read_would_reset(old(io)@, old(self).pf_peer())
                ==> (r matches ReadPoll::Reset) && final(io)@ == old(io)@,
            read_would_pend(old(io)@, old(self).pf_peer())
                ==> (r matches ReadPoll::Pending) && final(io)@ == old(io)@,
            read_has_data(old(io)@, old(self).pf_peer()) ==> {
                &&& r matches ReadPoll::Data(d)
                    && d@ == read_data(old(io)@.peers[old(self).pf_peer()], cap as nat)
                &&& final(io)@ == spec_read_next(old(io)@, old(self).pf_peer())
            },
    ;
}

impl PacketFramed for crate::udp::stream::UdpStream {
    open spec fn pf_peer(&self) -> PeerAddr {
        self.peer_spec()
    }

    open spec fn pf_writable(&self) -> bool {
        self.writable()
    }

    fn send(&mut self, io: &mut UdpIo, buf: &[u8]) -> (r: WritePoll) {
        self.poll_write(io, buf)
    }

    fn next(&mut self, io: &mut UdpIo, cap: usize) -> (r: ReadPoll) {
        self.poll_read(io, cap)
    }
}

impl PacketFramed for crate::session::Session {
    open spec fn pf_peer(&self) -> PeerAddr {
        self.peer_spec()
    }

    open spec fn pf_writable(&self) -> bool {
        self.writable()
    }

    fn send(&mut self, io: &mut UdpIo, buf: &[u8]) -> (r: WritePoll) {
        self.write(io, buf)
    }

    fn next(&mut self, io: &mut UdpIo, cap: usize) -> (r: ReadPoll) {
        self.read(io, cap)
    }
}

} // verus!
