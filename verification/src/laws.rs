use vstd::prelude::*;

use crate::addr::PeerAddr;
use crate::chan::{chan_can_take, chan_pop, ChanView};
use crate::udp::io::{
    accept_would_pend, connect_rejects, spec_connect, spec_inbound, spec_remove, spec_stop,
    EngineView, InboundOutcome,
};
use crate::udp::stream::{read_data, read_would_pend, read_would_reset, spec_read_next, spec_write_push};

verus! {

/// Connecting is exclusive per address: once an address holds a live
/// table entry — in particular right after a successful connect — a
/// second connect to it is rejected with `AlreadyConnected`; and once
/// the entry is destroyed and reclaimed, a connect to the same address
/// succeeds again.
pub proof fn lemma_connect_exclusive(v: EngineView, a: PeerAddr)
    ensures
        connect_rejects(spec_connect(v, a), a),
        !connect_rejects(spec_remove(v, a), a),
        !connect_rejects(v, a) ==> spec_remove(spec_connect(v, a), a).peers =~= v.peers,
{
}

/// Reading truncates to the caller's capacity: exactly the buffer's
/// length of leading bytes of the front payload are delivered when the
/// buffer is shorter, the whole payload when it is not, and the
/// remainder is discarded — the queue moves on to the next payload, so
/// nothing is carried to a follow-up read.
pub proof fn lemma_read_truncates(q: ChanView<Seq<u8>>, cap: nat)
    requires
        q.msgs.len() > 0,
    ensures
        cap < q.msgs[0].len() ==> read_data(q, cap) == q.msgs[0].take(cap as int),
        cap >= q.msgs[0].len() ==> read_data(q, cap) == q.msgs[0],
        chan_pop(q).msgs == q.msgs.drop_first(),
{
    if cap >= q.msgs[0].len() {
        assert(q.msgs[0].take(q.msgs[0].len() as int) =~= q.msgs[0]);
    }
}

/// The full echo round trip, for any payload that fits the reader's
/// buffer: a payload written on a client stream reaches the shared
/// outbound queue unmodified; delivered to the echoing server it is
/// queued, read full-length, and written back unmodified; delivered
/// back to the client it is read byte-identical and full-length.
pub proof fn lemma_echo_round_trip(
    client: EngineView,
    server: EngineView,
    caddr: PeerAddr,
    saddr: PeerAddr,
    p: Seq<u8>,
    cap: nat,
)
    requires
        // the client's queues are quiet and open
        chan_can_take(client.outbound),
        client.outbound.msgs.len() == 0,
        client.peers.contains_key(saddr),
        !client.peers[saddr].closed,
        client.peers[saddr].msgs.len() == 0,
        client.peers[saddr].cap >= 1,
        // the server knows the client, its queues quiet and open
        server.peers.contains_key(caddr),
        !server.peers[caddr].closed,
        server.peers[caddr].msgs.len() == 0,
        server.peers[caddr].cap >= 1,
        chan_can_take(server.outbound),
        server.outbound.msgs.len() == 0,
        // the reader's buffer holds the payload
        cap >= p.len(),
    ensures
        ({
            // the client stream writes p towards the server
            let c1 = spec_write_push(client, saddr, p);
            let out = c1.outbound.msgs[0];
            let c2 = EngineView { outbound: chan_pop(c1.outbound), ..c1 };
            // the server engine routes the received datagram
            let step_s = spec_inbound(server, caddr, out.payload);
            // the server reads it and echoes it back
            let rx = read_data(step_s.0.peers[caddr], cap);
            let s2 = spec_write_push(spec_read_next(step_s.0, caddr), caddr, rx);
            let back = s2.outbound.msgs[0];
            // the client engine routes the echo
            let step_c = spec_inbound(c2, saddr, back.payload);
            let fin = read_data(step_c.0.peers[saddr], cap);
            &&& out.dest == saddr && out.payload == p
            &&& step_s.1 == InboundOutcome::Delivered
            &&& rx == p
            &&& back.dest == caddr && back.payload == p
            &&& step_c.1 == InboundOutcome::Delivered
            &&& fin == p
        }),
{
    let c1 = spec_write_push(client, saddr, p);
    let out = c1.outbound.msgs[0];
    let c2 = EngineView { outbound: chan_pop(c1.outbound), ..c1 };
    let step_s = spec_inbound(server, caddr, out.payload);
    assert(step_s.0.peers[caddr].msgs =~= seq![p]);
    let rx = read_data(step_s.0.peers[caddr], cap);
    assert(rx =~= p);
    let s2 = spec_write_push(spec_read_next(step_s.0, caddr), caddr, rx);
    let back = s2.outbound.msgs[0];
    let step_c = spec_inbound(c2, saddr, back.payload);
    assert(step_c.0.peers[saddr].msgs =~= seq![p]);
    let fin = read_data(step_c.0.peers[saddr], cap);
    assert(fin =~= p);
}

/// Teardown makes an address brand new: once a peer's entry is
/// reclaimed, a datagram from that address is not routed to the defunct
/// stream — in server mode with room on the acceptance queue it is
/// admitted as a fresh connection holding exactly this first payload,
/// and in client mode it is silently dropped.
pub proof fn lemma_teardown_fresh_peer(v: EngineView, a: PeerAddr, p: Seq<u8>)
    ensures
        !spec_remove(v, a).peers.contains_key(a),
        ({
            let w = spec_remove(v, a);
            let step = spec_inbound(w, a, p);
            &&& (w.acceptor is None ==> step.1 == InboundOutcome::Unrouted && step.0 == w)
            &&& (w.acceptor is Some && chan_can_take(w.acceptor.unwrap()) ==> {
                &&& step.1 == InboundOutcome::Admitted
                &&& step.0.peers[a].msgs == seq![p]
                &&& step.0.acceptor == Some(crate::chan::chan_push(w.acceptor.unwrap(), a))
            })
        }),
{
}

/// Load shedding at the acceptance queue never blocks the engine: with
/// the acceptance queue saturated, a datagram from an unseen address
/// changes nothing — no entry is retained — and a datagram from an
/// already-established peer is still delivered to its queue exactly as
/// before.
pub proof fn lemma_acceptance_backpressure(
    v: EngineView,
    fresh: PeerAddr,
    est: PeerAddr,
    p: Seq<u8>,
    q: Seq<u8>,
)
    requires
        !v.peers.contains_key(fresh),
        v.acceptor is Some,
        !chan_can_take(v.acceptor.unwrap()),
        v.peers.contains_key(est),
        !v.peers[est].closed,
        v.peers[est].msgs.len() < v.peers[est].cap,
    ensures
        spec_inbound(v, fresh, p).0 == v,
        spec_inbound(v, fresh, p).1 == InboundOutcome::AcceptOverflow,
        ({
            let after = spec_inbound(spec_inbound(v, fresh, p).0, est, q);
            &&& after.1 == InboundOutcome::Delivered
            &&& after.0.peers[est].msgs == v.peers[est].msgs.push(q)
        }),
{
}

/// Ordering between two sends from the same virtual stream is
/// preserved: writing one payload and then another leaves them in the
/// shared outbound queue in that order, both addressed to the stream's
/// peer, behind whatever was queued before.
pub proof fn lemma_write_order(v: EngineView, a: PeerAddr, p1: Seq<u8>, p2: Seq<u8>)
    ensures
        ({
            let w = spec_write_push(spec_write_push(v, a, p1), a, p2);
            let n = v.outbound.msgs.len();
            &&& w.outbound.msgs.len() == n + 2
            &&& w.outbound.msgs[n as int].dest == a && w.outbound.msgs[n as int].payload == p1
            &&& w.outbound.msgs[n as int + 1].dest == a && w.outbound.msgs[n as int + 1].payload == p2
            &&& w.outbound.msgs.take(n as int) == v.outbound.msgs
        }),
{
    let w = spec_write_push(spec_write_push(v, a, p1), a, p2);
    let n = v.outbound.msgs.len();
    assert(w.outbound.msgs.take(n as int) =~= v.outbound.msgs);
}

/// Per-peer inbound delivery preserves network arrival order: two
/// datagrams from the same peer, both delivered, sit in its inbound
/// queue in arrival order behind what was already queued.
pub proof fn lemma_inbound_order(v: EngineView, a: PeerAddr, p1: Seq<u8>, p2: Seq<u8>)
    requires
        v.peers.contains_key(a),
        !v.peers[a].closed,
        v.peers[a].msgs.len() + 1 < v.peers[a].cap,
    ensures
        ({
            let w = spec_inbound(spec_inbound(v, a, p1).0, a, p2).0;
            let n = v.peers[a].msgs.len();
            &&& spec_inbound(v, a, p1).1 == InboundOutcome::Delivered
            &&& spec_inbound(spec_inbound(v, a, p1).0, a, p2).1 == InboundOutcome::Delivered
            &&& w.peers[a].msgs.len() == n + 2
            &&& w.peers[a].msgs[n as int] == p1
            &&& w.peers[a].msgs[n as int + 1] == p2
            &&& w.peers[a].msgs.take(n as int) == v.peers[a].msgs
        }),
{
    let w = spec_inbound(spec_inbound(v, a, p1).0, a, p2).0;
    let n = v.peers[a].msgs.len();
    assert(w.peers[a].msgs.take(n as int) =~= v.peers[a].msgs);
}

/// One routing step touches nothing but its own source: whatever the
/// engine decides for a datagram from `src`, every other peer's queue,
/// the outbound queue and the stop flag are exactly as before — no
/// datagram, however unwelcome, can stall or disturb the other peers.
pub proof fn lemma_inbound_isolates_other_peers(v: EngineView, src: PeerAddr, p: Seq<u8>, other: PeerAddr)
    requires
        other != src,
    ensures
        ({
            let w = spec_inbound(v, src, p).0;
            &&& w.peers.contains_key(other) == v.peers.contains_key(other)
            &&& (v.peers.contains_key(other) ==> w.peers[other] == v.peers[other])
            &&& w.outbound == v.outbound
            &&& w.stopped == v.stopped
        }),
{
}

/// Stopping the engine releases every waiter instead of leaving it
/// suspended: afterwards no read of a live peer and no accept can
/// suspend — each drains what was already queued and then resolves to
/// `ConnectionReset` — and a stream write fails with `BrokenPipe`.
/// Stopping twice is the same as stopping once.
pub proof fn lemma_stop_releases_waiters(v: EngineView, a: PeerAddr)
    ensures
        spec_stop(v).stopped,
        spec_stop(v).outbound.closed,
        !read_would_pend(spec_stop(v), a),
        v.peers.contains_key(a) ==> spec_stop(v).peers[a].msgs == v.peers[a].msgs,
        v.peers.contains_key(a) && v.peers[a].msgs.len() == 0
            ==> read_would_reset(spec_stop(v), a),
        !accept_would_pend(spec_stop(v)),
        spec_stop(spec_stop(v)) == spec_stop(v),
{
    assert(spec_stop(spec_stop(v)).peers =~= spec_stop(v).peers);
    assert(spec_stop(spec_stop(v)) =~= spec_stop(v));
}

} // verus!
