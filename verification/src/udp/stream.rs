use vstd::prelude::*;

use crate::addr::PeerAddr;
use crate::chan::{chan_can_take, chan_pop, chan_push, ChanView};
use crate::udp::io::{EngineView, OutgoingView, UdpIo};

verus! {

/// The bytes a read delivers: the front payload truncated to the
/// caller's capacity.  Excess bytes are discarded, not buffered for a
/// follow-up read.
pub open spec fn read_data(q: ChanView<Seq<u8>>, cap: nat) -> Seq<u8> {
    q.msgs[0].take(if cap < q.msgs[0].len() { cap as int } else { q.msgs[0].len() as int })
}

/// A read on this engine state for this peer finds a payload queued.
pub open spec fn read_has_data(v: EngineView, peer: PeerAddr) -> bool {
    v.peers.contains_key(peer) && v.peers[peer].msgs.len() > 0
}

/// A read would suspend: nothing queued, but the route is still open.
pub open spec fn read_would_pend(v: EngineView, peer: PeerAddr) -> bool {
    v.peers.contains_key(peer) && v.peers[peer].msgs.len() == 0 && !v.peers[peer].closed
}

/// A read fails with `ConnectionReset`: the inbound queue is gone or was
/// closed with no further payloads.
pub open spec fn read_would_reset(v: EngineView, peer: PeerAddr) -> bool {
    !v.peers.contains_key(peer) || (v.peers[peer].msgs.len() == 0 && v.peers[peer].closed)
}

/// The engine after a successful read: the front payload of the peer's
/// queue is consumed whole, whatever part of it the caller's buffer
/// took.
pub open spec fn spec_read_next(v: EngineView, peer: PeerAddr) -> EngineView {
    EngineView { peers: v.peers.insert(peer, chan_pop(v.peers[peer])), ..v }
}

/// The engine after a successful write: the shared outbound queue gains
/// one (destination, payload) pair.
pub open spec fn spec_write_push(v: EngineView, peer: PeerAddr, p: Seq<u8>) -> EngineView {
    EngineView {
        outbound: chan_push(v.outbound, OutgoingView { dest: peer, payload: p }),
        ..v
    }
}

/// What one poll of a stream read produced.
#[derive(Debug)]
pub enum ReadPoll {
    /// One datagram's bytes, truncated to the capacity the caller gave.
    Data(Vec<u8>),
    /// Nothing queued yet; the caller suspends and polls again.
    Pending,
    /// The inbound queue is closed and drained: `ConnectionReset`.
    Reset,
}

/// What one poll of a stream write produced.
#[derive(Clone, Copy, PartialEq, Eq, Structural, Debug)]
pub enum WritePoll {
    /// The whole buffer was accepted by the shared outbound queue.
    Written(usize),
    /// The outbound queue is at capacity; the caller suspends and polls
    /// again.
    Pending,
    /// The outbound side is closed: `BrokenPipe`.
    Broken,
}

/// A per-peer virtual stream: a handle bound to one peer address, backed
/// by that peer's inbound queue and the engine's shared outbound queue.
/// Every operation routes through the engine that created the handle.
#[derive(Debug)]
pub struct UdpStream {
    peer: PeerAddr,
    out_open: bool,
}

impl UdpStream {
    /// The peer this stream is bound to.
    pub closed spec fn peer_spec(&self) -> PeerAddr {
        self.peer
    }

    /// Whether the stream's own outbound side is still open (it is until
    /// `poll_shutdown`).
    pub closed spec fn writable(&self) -> bool {
        self.out_open
    }

    /// Binds a handle to a peer address.  Only admission creates one:
    /// the engine's `connect` and its acceptance path.
    pub(crate) fn new(peer: PeerAddr) -> (r: Self)
        ensures
            r.peer_spec() == peer,
            r.writable(),
    {
        UdpStream { peer, out_open: true }
    }

    /// The peer address.
    pub fn peer(&self) -> (r: PeerAddr)
        ensures
            r == self.peer_spec(),
    {
        self.peer
    }

    /// One poll of a read, delivering at most one datagram truncated to
    /// `cap` bytes; what the buffer cannot take is discarded.  Fails
    /// with a reset exactly when the inbound queue is closed with no
    /// further payloads (or its table entry is gone).
    pub fn poll_read(&self, io: &mut UdpIo, cap: usize) -> (r: ReadPoll)
        requires
            old(io).wf(),
        ensures
            final(io).wf(),
            read_would_reset(old(io)@, self.peer_spec())
                ==> (r matches ReadPoll::Reset) && final(io)@ == old(io)@,
            read_would_pend(old(io)@, self.peer_spec())
                ==> (r matches ReadPoll::Pending) && final(io)@ == old(io)@,
            read_has_data(old(io)@, self.peer_spec()) ==> {
                &&& r matches ReadPoll::Data(d)
                    && d@ == read_data(old(io)@.peers[self.peer_spec()], cap as nat)
                &&& final(io)@ == spec_read_next(old(io)@, self.peer_spec())
            },
    {
        let ghost pre = io@;
        match io.peers_take(self.peer) {
            None => ReadPoll::Reset,
            Some(mut inbox) => {
                match inbox.try_recv() {
                    Some(payload) => {
                        let data = copy_prefix(&payload, cap);
                        io.peers_put_back(self.peer, inbox);
                        proof {
                            assert(final(io)@.peers =~= spec_read_next(pre, self.peer).peers);
                            assert(final(io)@ =~= spec_read_next(pre, self.peer));
                        }
                        ReadPoll::Data(data)
                    }
                    None => {
                        let closed = inbox.is_closed();
                        io.peers_put_back(self.peer, inbox);
                        proof {
                            assert(final(io)@.peers =~= pre.peers);
                            assert(final(io)@ =~= pre);
                        }
                        if closed {
                            ReadPoll::Reset
                        } else {
                            ReadPoll::Pending
                        }
                    }
                }
            }
        }
    }

    /// One poll of a write: suspends while the shared outbound queue is
    /// at capacity, fails with `BrokenPipe` once the outbound side is
    /// closed (the engine stopped, or this stream was shut down), and
    /// otherwise enqueues (own peer address, copy of the buffer) and
    /// reports the full buffer length as written.
    pub fn poll_write(&self, io: &mut UdpIo, buf: &[u8]) -> (r: WritePoll)
        requires
            old(io).wf(),
        ensures
            final(io).wf(),
            !self.writable() || old(io)@.outbound.closed ==> {
                &&& r == WritePoll::Broken
                &&& final(io)@ == old(io)@
            },
            self.writable() && !old(io)@.outbound.closed
                && old(io)@.outbound.msgs.len() >= old(io)@.outbound.cap ==> {
                &&& r == WritePoll::Pending
                &&& final(io)@ == old(io)@
            },
            self.writable() && chan_can_take(old(io)@.outbound) ==> {
                &&& r == WritePoll::Written(buf@.len() as usize)
                &&& final(io)@ == spec_write_push(old(io)@, self.peer_spec(), buf@)
            },
    {
        if !self.out_open {
            return WritePoll::Broken;
        }
        let payload = vstd::slice::slice_to_vec(buf);
        let n = buf.len();
        match io.outbound_send(self.peer, payload) {
            crate::chan::SendOutcome::Sent => WritePoll::Written(n),
            crate::chan::SendOutcome::Full => WritePoll::Pending,
            crate::chan::SendOutcome::Closed => WritePoll::Broken,
        }
    }

    /// One poll of a flush.  Writes are handed to the shared queue
    /// immediately, so a flush only reports whether the outbound side is
    /// still usable; no network-level acknowledgement is implied.
    pub fn poll_flush(&self, io: &UdpIo) -> (r: WritePoll)
        ensures
            self.writable() && !io@.outbound.closed ==> r == WritePoll::Written(0),
            !self.writable() || io@.outbound.closed ==> r == WritePoll::Broken,
    {
        if self.out_open && !io.outbound_is_closed() {
            WritePoll::Written(0)
        } else {
            WritePoll::Broken
        }
    }

    /// Marks this stream's outbound side closed; subsequent writes fail
    /// with `BrokenPipe`.  Idempotent, and touches nothing else.
    pub fn poll_shutdown(&mut self)
        ensures
            final(self).peer_spec() == old(self).peer_spec(),
            !final(self).writable(),
    {
        self.out_open = false;
    }

    /// The destructor path: consumes the handle and notifies the engine
    /// that this peer's table entry should be reclaimed.  The engine
    /// removes the entry exactly once; a datagram from the same address
    /// afterwards is a brand-new connection.
    pub fn close(self, io: &mut UdpIo)
        requires
            old(io).wf(),
        ensures
            final(io).wf(),
            final(io)@ == crate::udp::io::spec_remove(old(io)@, self.peer_spec()),
    {
        io.handle_done(self.peer);
    }
}

/// The first `cap` bytes of a payload (all of it when it is shorter):
/// the truncation a bounded read buffer imposes.
pub fn copy_prefix(payload: &Vec<u8>, cap: usize) -> (r: Vec<u8>)
    ensures
        r@ == payload@.take(if cap < payload@.len() { cap as int } else { payload@.len() as int }),
{
    let n = if cap < payload.len() { cap } else { payload.len() };
    let mut r: Vec<u8> = Vec::new();
    let mut i: usize = 0;
    while i < n
        invariant
            i <= n,
            n <= payload@.len(),
            r@ == payload@.take(i as int),
        decreases n - i,
    {
        r.push(payload[i]);
        proof {
            assert(r@ =~= payload@.take(i + 1));
        }
        i += 1;
    }
    proof {
        assert(r@ =~= payload@.take(n as int));
    }
    r
}

} // verus!
