use vstd::prelude::*;

use crate::addr::PeerAddr;
use crate::chan::{
    chan_can_take, chan_close, chan_empty, chan_pop, chan_push, Chan, ChanView, SendOutcome,
};
use crate::error::NetError;
use crate::table::{InboxView, PeerTable};
use crate::udp::stream::UdpStream;

verus! {

/// One outbound datagram: a destination and a payload, queued by a
/// virtual stream for the engine to send on the shared socket.
pub struct Outgoing {
    pub dest: PeerAddr,
    pub payload: Vec<u8>,
}

/// The outbound datagram as the contracts see it.
#[verifier::ext_equal]
pub ghost struct OutgoingView {
    pub dest: PeerAddr,
    pub payload: Seq<u8>,
}

impl View for Outgoing {
    type V = OutgoingView;

    open spec fn view(&self) -> OutgoingView {
        OutgoingView { dest: self.dest, payload: self.payload@ }
    }
}

/// Mathematical state of the demultiplexing engine: the connection table
/// (each peer's inbound-queue state), the shared outbound queue, the
/// acceptance queue when running in server mode, the stop flag, and the
/// capacity given to each freshly admitted peer's inbound queue.
#[verifier::ext_equal]
pub ghost struct EngineView {
    pub peers: Map<PeerAddr, InboxView>,
    pub outbound: ChanView<OutgoingView>,
    pub acceptor: Option<ChanView<PeerAddr>>,
    pub stopped: bool,
    pub inbound_cap: nat,
}

/// A connect for this address would be refused: it already has a live
/// table entry.
pub open spec fn connect_rejects(v: EngineView, a: PeerAddr) -> bool {
    v.peers.contains_key(a)
}

/// The engine after a successful connect: a fresh empty inbound queue is
/// registered for the address.
pub open spec fn spec_connect(v: EngineView, a: PeerAddr) -> EngineView {
    EngineView { peers: v.peers.insert(a, chan_empty(v.inbound_cap)), ..v }
}

/// The engine after a peer's table entry was reclaimed.
pub open spec fn spec_remove(v: EngineView, a: PeerAddr) -> EngineView {
    EngineView { peers: v.peers.remove(a), ..v }
}

/// What the engine does with one inbound datagram.
#[derive(Clone, Copy, PartialEq, Eq, Structural, Debug)]
pub enum InboundOutcome {
    /// The source has a live entry and its queue took the payload.
    Delivered,
    /// The source has a live entry whose queue is at capacity; the
    /// payload was dropped, the entry kept.
    DroppedFull,
    /// The source's queue was closed (its stream was dropped): the entry
    /// was reclaimed and the payload dropped.
    PeerRemoved,
    /// An unknown source was admitted: a fresh stream was registered,
    /// its queue holds this first payload, and the address was offered
    /// to the acceptance queue.
    Admitted,
    /// An unknown source arrived while the acceptance queue was full or
    /// closed: the datagram was discarded and no entry retained.
    AcceptOverflow,
    /// An unknown source arrived in client mode: the datagram is
    /// unrouted and dropped.
    Unrouted,
}

/// The engine's routing step for one inbound datagram from `src`: the
/// next state and what was decided.
pub open spec fn spec_inbound(v: EngineView, src: PeerAddr, p: Seq<u8>) -> (EngineView, InboundOutcome) {
    if v.peers.contains_key(src) {
        let q = v.peers[src];
        if q.closed {
            (spec_remove(v, src), InboundOutcome::PeerRemoved)
        } else if q.msgs.len() >= q.cap {
            (v, InboundOutcome::DroppedFull)
        } else {
            (EngineView { peers: v.peers.insert(src, chan_push(q, p)), ..v }, InboundOutcome::Delivered)
        }
    } else {
        match v.acceptor {
            None => (v, InboundOutcome::Unrouted),
            Some(acc) => {
                if chan_can_take(acc) {
                    (EngineView {
                        peers: v.peers.insert(src, ChanView {
                            msgs: seq![p],
                            cap: v.inbound_cap,
                            closed: false,
                        }),
                        acceptor: Some(chan_push(acc, src)),
                        ..v
                    }, InboundOutcome::Admitted)
                } else {
                    (v, InboundOutcome::AcceptOverflow)
                }
            }
        }
    }
}

/// The engine after the stop signal: the loop has returned, every peer's
/// inbound queue and the acceptance queue are closed (readers drain and
/// then observe the reset), and the outbound queue takes no more writes.
pub open spec fn spec_stop(v: EngineView) -> EngineView {
    EngineView {
        peers: Map::new(|a: PeerAddr| v.peers.contains_key(a), |a: PeerAddr| chan_close(v.peers[a])),
        outbound: chan_close(v.outbound),
        acceptor: match v.acceptor {
            None => None,
            Some(acc) => Some(chan_close(acc)),
        },
        stopped: true,
        inbound_cap: v.inbound_cap,
    }
}

/// An accept would yield a stream: an admitted peer is queued.
pub open spec fn accept_has_entry(v: EngineView) -> bool {
    v.acceptor matches Some(acc) && acc.msgs.len() > 0
}

/// An accept would suspend: nothing queued, queue still open.
pub open spec fn accept_would_pend(v: EngineView) -> bool {
    v.acceptor matches Some(acc) && acc.msgs.len() == 0 && !acc.closed
}

/// An accept fails with `ConnectionReset`: the acceptance queue is
/// closed and drained.
pub open spec fn accept_would_reset(v: EngineView) -> bool {
    v.acceptor matches Some(acc) && acc.msgs.len() == 0 && acc.closed
}

/// The engine after an accept took the front admitted peer.
pub open spec fn spec_accept_next(v: EngineView) -> EngineView {
    EngineView { acceptor: Some(chan_pop(v.acceptor.unwrap())), ..v }
}

/// What one poll of the acceptance queue produced.
#[derive(Debug)]
pub enum AcceptPoll {
    /// A newly admitted peer's virtual stream.
    Stream(UdpStream),
    /// No admitted peer yet; the caller suspends and polls again.
    Pending,
    /// The acceptance queue is closed: `ConnectionReset`.
    Reset,
}

/// The demultiplexing engine.  It owns the connection table and the
/// shared queues; virtual streams and sessions are handles that route
/// every operation through it.  The surrounding (unverified) event loop
/// owns the physical socket: it feeds `handle_inbound` with each received
/// datagram, drains `poll_outbound` to the socket, relays each dropped
/// stream's address to `handle_done`, and calls `stop` on the stop
/// signal.
pub struct UdpIo {
    peers: PeerTable,
    outbound: Chan<Outgoing>,
    acceptor: Option<Chan<PeerAddr>>,
    stopped: bool,
    inbound_cap: usize,
}

impl View for UdpIo {
    type V = EngineView;

    closed spec fn view(&self) -> EngineView {
        EngineView {
            peers: self.peers@,
            outbound: self.outbound@,
            acceptor: match self.acceptor {
                None => None,
                Some(acc) => Some(acc@),
            },
            stopped: self.stopped,
            inbound_cap: self.inbound_cap as nat,
        }
    }
}

impl UdpIo {
    /// The engine's invariant: the table is well formed and every queue
    /// bound is at least one, so a freshly admitted queue can always hold
    /// the datagram that created it.
    pub closed spec fn wf(&self) -> bool {
        &&& self.peers.wf()
        &&& self.inbound_cap >= 1
        &&& self@.outbound.cap >= 1
        &&& match self@.acceptor {
            None => true,
            Some(acc) => acc.cap >= 1,
        }
    }

    /// A fresh engine.  `accept_cap` chooses the mode: a bounded
    /// acceptance queue for a server, none for a client.
    pub fn new(outbound_cap: usize, inbound_cap: usize, accept_cap: Option<usize>) -> (r: Self)
        requires
            outbound_cap >= 1,
            inbound_cap >= 1,
            accept_cap matches Some(c) ==> c >= 1,
        ensures
            r.wf(),
            r@.peers == Map::<PeerAddr, InboxView>::empty(),
            r@.outbound == chan_empty::<OutgoingView>(outbound_cap as nat),
            match accept_cap {
                None => r@.acceptor is None,
                Some(c) => r@.acceptor == Some(chan_empty::<PeerAddr>(c as nat)),
            },
            !r@.stopped,
            r@.inbound_cap == inbound_cap as nat,
    {
        UdpIo {
            peers: PeerTable::new(),
            outbound: Chan::new(outbound_cap),
            acceptor: match accept_cap {
                None => None,
                Some(c) => Some(Chan::new(c)),
            },
            stopped: false,
            inbound_cap,
        }
    }

    /// Registers an outbound connection to `peer`.  Fails with
    /// `AlreadyConnected`, touching nothing, when the address already has
    /// a live entry; otherwise atomically registers a fresh empty inbound
    /// queue and returns a stream bound to it and to the shared outbound
    /// queue.
    pub fn connect(&mut self, peer: PeerAddr) -> (r: Result<UdpStream, NetError>)
        requires
            old(self).wf(),
        ensures
            final(self).wf(),
            connect_rejects(old(self)@, peer) ==> {
                &&& r matches Err(e) && e == NetError::AlreadyConnected
                &&& final(self)@ == old(self)@
            },
            !connect_rejects(old(self)@, peer) ==> {
                &&& r matches Ok(s) && s.peer_spec() == peer && s.writable()
                &&& final(self)@ == spec_connect(old(self)@, peer)
            },
    {
        let inbox = Chan::new(self.inbound_cap);
        if self.peers.insert(peer, inbox) {
            proof {
                assert(final(self)@ =~= spec_connect(old(self)@, peer));
            }
            Ok(UdpStream::new(peer))
        } else {
            proof {
                assert(final(self)@ =~= old(self)@);
            }
            Err(NetError::AlreadyConnected)
        }
    }

    /// One poll of the acceptance queue (server mode): the next admitted
    /// peer as a fresh stream handle, a suspension while the queue is
    /// empty but open, or `ConnectionReset` once it is closed.
    pub fn accept_poll(&mut self) -> (r: AcceptPoll)
        requires
            old(self).wf(),
            old(self)@.acceptor is Some,
        ensures
            final(self).wf(),
            accept_has_entry(old(self)@) ==> {
                &&& r matches AcceptPoll::Stream(s)
                    && s.peer_spec() == old(self)@.acceptor.unwrap().msgs[0]
                    && s.writable()
                &&& final(self)@ == spec_accept_next(old(self)@)
            },
            accept_would_pend(old(self)@) ==> (r matches AcceptPoll::Pending) && final(self)@ == old(self)@,
            accept_would_reset(old(self)@) ==> (r matches AcceptPoll::Reset) && final(self)@ == old(self)@,
    {
        match &mut self.acceptor {
            None => {
                proof {
                    assert(false);
                }
                AcceptPoll::Reset
            }
            Some(acc) => {
                match acc.try_recv() {
                    Some(peer) => {
                        proof {
                            assert(final(self)@ =~= spec_accept_next(old(self)@));
                        }
                        AcceptPoll::Stream(UdpStream::new(peer))
                    }
                    None => {
                        let closed = acc.is_closed();
                        proof {
                            assert(final(self)@ =~= old(self)@);
                        }
                        if closed {
                            AcceptPoll::Reset
                        } else {
                            AcceptPoll::Pending
                        }
                    }
                }
            }
        }
    }

    /// Routes one inbound datagram, exactly as `spec_inbound` says: a
    /// known source's queue takes the payload (a closed queue reclaims
    /// the entry, a full one sheds the payload), an unknown source is
    /// admitted in server mode when the acceptance queue has room, and is
    /// dropped otherwise.
    pub fn handle_inbound(&mut self, src: PeerAddr, payload: Vec<u8>) -> (r: InboundOutcome)
        requires
            old(self).wf(),
        ensures
            final(self).wf(),
            final(self)@ == spec_inbound(old(self)@, src, payload@).0,
            r == spec_inbound(old(self)@, src, payload@).1,
    {
        let ghost pre = self@;
        match self.peers.take(src) {
            Some(mut inbox) => {
                match inbox.try_send(payload) {
                    SendOutcome::Sent => {
                        let inserted = self.peers.insert(src, inbox);
                        proof {
                            assert(inserted);
                            assert(final(self)@.peers =~= spec_inbound(pre, src, payload@).0.peers);
                            assert(final(self)@ =~= spec_inbound(pre, src, payload@).0);
                        }
                        InboundOutcome::Delivered
                    }
                    SendOutcome::Closed => {
                        proof {
                            assert(final(self)@ =~= spec_inbound(pre, src, payload@).0);
                        }
                        InboundOutcome::PeerRemoved
                    }
                    SendOutcome::Full => {
                        let inserted = self.peers.insert(src, inbox);
                        proof {
                            assert(inserted);
                            assert(final(self)@.peers =~= pre.peers);
                            assert(final(self)@ =~= spec_inbound(pre, src, payload@).0);
                        }
                        InboundOutcome::DroppedFull
                    }
                }
            }
            None => {
                match &mut self.acceptor {
                    None => {
                        proof {
                            assert(final(self)@ =~= spec_inbound(pre, src, payload@).0);
                        }
                        InboundOutcome::Unrouted
                    }
                    Some(acc) => {
                        if acc.ready() {
                            let mut inbox: Chan<Vec<u8>> = Chan::new(self.inbound_cap);
                            let sent = inbox.try_send(payload);
                            let offered = acc.try_send(src);
                            let inserted = self.peers.insert(src, inbox);
                            proof {
                                assert(sent == SendOutcome::Sent);
                                assert(offered == SendOutcome::Sent);
                                assert(inserted);
                                assert(inbox@.msgs =~= seq![payload@]);
                                assert(final(self)@.peers =~=
                                    spec_inbound(pre, src, payload@).0.peers);
                                assert(final(self)@ =~= spec_inbound(pre, src, payload@).0);
                            }
                            InboundOutcome::Admitted
                        } else {
                            proof {
                                assert(final(self)@ =~= spec_inbound(pre, src, payload@).0);
                            }
                            InboundOutcome::AcceptOverflow
                        }
                    }
                }
            }
        }
    }

    /// Dequeues the next outbound datagram for the socket, if one is
    /// queued.  Datagrams come out in the order the streams' writes
    /// reached the shared queue.
    pub fn poll_outbound(&mut self) -> (r: Option<Outgoing>)
        requires
            old(self).wf(),
        ensures
            final(self).wf(),
            old(self)@.outbound.msgs.len() == 0 ==> r is None && final(self)@ == old(self)@,
            old(self)@.outbound.msgs.len() > 0 ==> {
                &&& r matches Some(o) && o@ == old(self)@.outbound.msgs[0]
                &&& final(self)@ == EngineView {
                    outbound: chan_pop(old(self)@.outbound),
                    ..old(self)@
                }
            },
    {
        let r = self.outbound.try_recv();
        proof {
            if old(self)@.outbound.msgs.len() == 0 {
                assert(final(self)@ =~= old(self)@);
            } else {
                assert(final(self)@ =~= EngineView {
                    outbound: chan_pop(old(self)@.outbound),
                    ..old(self)@
                });
            }
        }
        r
    }

    /// Reclaims a peer's table entry on the explicit peer-closed
    /// notification sent when its stream is destroyed.  Best-effort on
    /// the stream's side; here the entry, if any, is removed exactly
    /// once.
    pub fn handle_done(&mut self, peer: PeerAddr)
        requires
            old(self).wf(),
        ensures
            final(self).wf(),
            final(self)@ == spec_remove(old(self)@, peer),
    {
        let taken = self.peers.take(peer);
        proof {
            if !old(self)@.peers.contains_key(peer) {
                assert(final(self)@.peers =~= old(self)@.peers.remove(peer));
            }
            assert(final(self)@ =~= spec_remove(old(self)@, peer));
        }
    }

    /// The stop signal: ends the loop, closes every peer's inbound queue
    /// and the acceptance queue so that pending reads and accepts resolve
    /// to `ConnectionReset` rather than suspending forever, and closes
    /// the outbound queue so that later writes fail with `BrokenPipe`.
    /// Idempotent.
    pub fn stop(&mut self)
        requires
            old(self).wf(),
        ensures
            final(self).wf(),
            final(self)@ == spec_stop(old(self)@),
    {
        self.peers.close_all();
        self.outbound.close();
        match &mut self.acceptor {
            None => {}
            Some(acc) => {
                acc.close();
            }
        }
        self.stopped = true;
        proof {
            assert(final(self)@.peers =~= spec_stop(old(self)@).peers);
            assert(final(self)@ =~= spec_stop(old(self)@));
        }
    }

    /// Removes a peer's inbound queue for one routed operation; the
    /// caller hands it back with `peers_put_back` unless the entry is to
    /// be reclaimed.
    pub(crate) fn peers_take(&mut self, a: PeerAddr) -> (r: Option<Chan<Vec<u8>>>)
        requires
            old(self).wf(),
        ensures
            final(self).wf(),
            old(self)@.peers.contains_key(a) ==> {
                &&& r matches Some(c) && c@ == old(self)@.peers[a]
                &&& final(self)@ == EngineView { peers: old(self)@.peers.remove(a), ..old(self)@ }
            },
            !old(self)@.peers.contains_key(a) ==> r is None && final(self)@ == old(self)@,
    {
        let r = self.peers.take(a);
        proof {
            if old(self)@.peers.contains_key(a) {
                assert(final(self)@ =~= EngineView {
                    peers: old(self)@.peers.remove(a),
                    ..old(self)@
                });
            } else {
                assert(final(self)@ =~= old(self)@);
            }
        }
        r
    }

    /// Returns a queue taken by `peers_take` to the table.
    pub(crate) fn peers_put_back(&mut self, a: PeerAddr, inbox: Chan<Vec<u8>>)
        requires
            old(self).wf(),
            !old(self)@.peers.contains_key(a),
        ensures
            final(self).wf(),
            final(self)@ == (EngineView {
                peers: old(self)@.peers.insert(a, inbox@),
                ..old(self)@
            }),
    {
        let inserted = self.peers.insert(a, inbox);
        proof {
            assert(inserted);
            assert(final(self)@ =~= EngineView {
                peers: old(self)@.peers.insert(a, inbox@),
                ..old(self)@
            });
        }
    }

    /// A stream's write: offers one (destination, payload) pair to the
    /// shared outbound queue.
    pub(crate) fn outbound_send(&mut self, dest: PeerAddr, payload: Vec<u8>) -> (r: SendOutcome)
        requires
            old(self).wf(),
        ensures
            final(self).wf(),
            old(self)@.outbound.closed ==> r == SendOutcome::Closed && final(self)@ == old(self)@,
            !old(self)@.outbound.closed
                && old(self)@.outbound.msgs.len() >= old(self)@.outbound.cap
                ==> r == SendOutcome::Full && final(self)@ == old(self)@,
            chan_can_take(old(self)@.outbound) ==> {
                &&& r == SendOutcome::Sent
                &&& final(self)@ == EngineView {
                    outbound: chan_push(
                        old(self)@.outbound,
                        OutgoingView { dest, payload: payload@ },
                    ),
                    ..old(self)@
                }
            },
    {
        let ghost p = payload@;
        let r = self.outbound.try_send(Outgoing { dest, payload });
        proof {
            if chan_can_take(old(self)@.outbound) {
                assert(final(self)@ =~= EngineView {
                    outbound: chan_push(old(self)@.outbound, OutgoingView { dest, payload: p }),
                    ..old(self)@
                });
            } else {
                assert(final(self)@ =~= old(self)@);
            }
        }
        r
    }

    /// Whether the shared outbound queue has been closed.
    pub(crate) fn outbound_is_closed(&self) -> (r: bool)
        ensures
            r == self@.outbound.closed,
    {
        self.outbound.is_closed()
    }

    /// Whether the stop signal has been taken.
    pub fn is_stopped(&self) -> (r: bool)
        ensures
            r == self@.stopped,
    {
        self.stopped
    }
}

} // verus!
