use vstd::prelude::*;
use vstd::map::*;

use crate::addr::PeerAddr;
use crate::chan::{Chan, ChanView, chan_close};

verus! {

/// One row of the connection table: a peer address and the inbound queue
/// the engine pushes that peer's datagrams into.
pub struct PeerEntry {
    pub addr: PeerAddr,
    pub inbox: Chan<Vec<u8>>,
}

/// The inbound queues as the contracts see them.
pub type InboxView = ChanView<Seq<u8>>;

/// No address appears in two rows.
pub open spec fn uniq_addrs(s: Seq<PeerEntry>) -> bool {
    forall|i: int, j: int| 0 <= i < j < s.len() ==> s[i].addr != s[j].addr
}

/// The rows folded into a map from peer address to inbound-queue state.
pub open spec fn as_map(s: Seq<PeerEntry>) -> Map<PeerAddr, InboxView>
    decreases s.len(),
{
    if s.len() == 0 {
        Map::empty()
    } else {
        as_map(s.drop_last()).insert(s.last().addr, s.last().inbox@)
    }
}

/// The map contains an address exactly when some row holds it.
pub proof fn lemma_as_map_contains(s: Seq<PeerEntry>, a: PeerAddr)
    ensures
        as_map(s).contains_key(a) <==> exists|i: int| 0 <= i < s.len() && s[i].addr == a,
    decreases s.len(),
{
    if s.len() > 0 {
        lemma_as_map_contains(s.drop_last(), a);
        if s.last().addr == a {
            assert(s[s.len() - 1].addr == a);
        } else if as_map(s).contains_key(a) {
            let i = choose|i: int| 0 <= i < s.drop_last().len() && s.drop_last()[i].addr == a;
            assert(s[i].addr == a);
        } else if exists|i: int| 0 <= i < s.len() && s[i].addr == a {
            let i = choose|i: int| 0 <= i < s.len() && s[i].addr == a;
            assert(i < s.len() - 1);
            assert(s.drop_last()[i].addr == a);
        }
    }
}

/// With unique addresses, the map sends each row's address to that row's
/// inbound queue.
pub proof fn lemma_as_map_value(s: Seq<PeerEntry>, i: int)
    requires
        uniq_addrs(s),
        0 <= i < s.len(),
    ensures
        as_map(s).contains_key(s[i].addr),
        as_map(s)[s[i].addr] == s[i].inbox@,
    decreases s.len(),
{
    if i == s.len() - 1 {
    } else {
        assert(uniq_addrs(s.drop_last())) by {
            assert(forall|x: int, y: int|
                0 <= x < y < s.drop_last().len() ==> s.drop_last()[x].addr != s.drop_last()[y].addr)
                by {
                assert(forall|x: int, y: int| 0 <= x < y < s.len() ==> s[x].addr != s[y].addr);
            }
        }
        assert(s.drop_last()[i] == s[i]);
        lemma_as_map_value(s.drop_last(), i);
        assert(s[i].addr != s.last().addr);
    }
}

/// Appending a row with a fresh address inserts it into the map.
pub proof fn lemma_as_map_push(s: Seq<PeerEntry>, e: PeerEntry)
    ensures
        as_map(s.push(e)) == as_map(s).insert(e.addr, e.inbox@),
{
    assert(s.push(e).drop_last() =~= s);
    assert(s.push(e).last() == e);
}

/// Removing the row that holds an address removes that address from the
/// map, when addresses are unique.
pub proof fn lemma_as_map_remove(s: Seq<PeerEntry>, i: int)
    requires
        uniq_addrs(s),
        0 <= i < s.len(),
    ensures
        as_map(s.remove(i)) == as_map(s).remove(s[i].addr),
    decreases s.len(),
{
    let a = s[i].addr;
    lemma_as_map_contains(s.drop_last(), a);
    if i == s.len() - 1 {
        assert(s.remove(i) =~= s.drop_last());
        assert(!as_map(s.drop_last()).contains_key(a));
        assert(as_map(s.drop_last()) =~= as_map(s.drop_last()).insert(a, s[i].inbox@).remove(a));
    } else {
        assert(uniq_addrs(s.drop_last())) by {
            assert(forall|x: int, y: int| 0 <= x < y < s.len() ==> s[x].addr != s[y].addr);
        }
        lemma_as_map_remove(s.drop_last(), i);
        assert(s.remove(i).drop_last() =~= s.drop_last().remove(i));
        assert(s.remove(i).last() == s.last());
        assert(s.last().addr != a);
        assert(as_map(s.remove(i)) ==
            as_map(s.drop_last()).remove(a).insert(s.last().addr, s.last().inbox@));
        assert(as_map(s).remove(a) =~=
            as_map(s.drop_last()).remove(a).insert(s.last().addr, s.last().inbox@));
    }
}

/// Closing every row's inbound queue closes every queue of the map and
/// changes nothing else.
pub proof fn lemma_as_map_close_all(s1: Seq<PeerEntry>, s2: Seq<PeerEntry>)
    requires
        s1.len() == s2.len(),
        forall|j: int| 0 <= j < s1.len()
            ==> s2[j].addr == s1[j].addr && s2[j].inbox@ == chan_close(s1[j].inbox@),
    ensures
        as_map(s2).dom() =~= as_map(s1).dom(),
        forall|a: PeerAddr| as_map(s1).contains_key(a)
            ==> as_map(s2)[a] == chan_close(as_map(s1)[a]),
    decreases s1.len(),
{
    if s1.len() > 0 {
        assert(forall|j: int| 0 <= j < s1.drop_last().len()
            ==> s2.drop_last()[j].addr == s1.drop_last()[j].addr
                && s2.drop_last()[j].inbox@ == chan_close(s1.drop_last()[j].inbox@)) by {
            assert(forall|j: int| 0 <= j < s1.len()
                ==> s2[j].addr == s1[j].addr && s2[j].inbox@ == chan_close(s1[j].inbox@));
        }
        lemma_as_map_close_all(s1.drop_last(), s2.drop_last());
        assert(s2.last().addr == s1.last().addr);
        assert(s2.last().inbox@ == chan_close(s1.last().inbox@));
    }
}

/// The connection table: at most one live row per peer address.  Rows are
/// inserted on admission (client connect or first-seen inbound datagram)
/// and removed exactly once, when the owning stream is destroyed or when
/// the engine fails to push data to it.
pub struct PeerTable {
    entries: Vec<PeerEntry>,
}

impl View for PeerTable {
    type V = Map<PeerAddr, InboxView>;

    closed spec fn view(&self) -> Map<PeerAddr, InboxView> {
        as_map(self.entries@)
    }
}

impl PeerTable {
    /// The table's invariant: unique addresses per row.
    pub closed spec fn wf(&self) -> bool {
        uniq_addrs(self.entries@)
    }

    /// An empty table.
    pub fn new() -> (r: Self)
        ensures
            r.wf(),
            r@ == Map::<PeerAddr, InboxView>::empty(),
    {
        PeerTable { entries: Vec::new() }
    }

    /// The row index holding an address, if any.
    fn find(&self, a: PeerAddr) -> (r: Option<usize>)
        ensures
            match r {
                Some(i) => i < self.entries@.len() && self.entries@[i as int].addr == a,
                None => forall|i: int| 0 <= i < self.entries@.len()
                    ==> self.entries@[i].addr != a,
            },
    {
        let mut i: usize = 0;
        while i < self.entries.len()
            invariant
                i <= self.entries@.len(),
                forall|j: int| 0 <= j < i ==> self.entries@[j].addr != a,
            decreases self.entries@.len() - i,
        {
            if self.entries[i].addr == a {
                return Some(i);
            }
            i += 1;
        }
        None
    }

    /// Whether an address has a live row.
    pub fn contains(&self, a: PeerAddr) -> (r: bool)
        ensures
            r == self@.contains_key(a),
    {
        proof {
            lemma_as_map_contains(self.entries@, a);
        }
        self.find(a).is_some()
    }

    /// Inserts a fresh row.  Refused (and nothing changes) when the
    /// address already has one: at most one live entry per address.
    pub fn insert(&mut self, a: PeerAddr, inbox: Chan<Vec<u8>>) -> (r: bool)
        requires
            old(self).wf(),
        ensures
            final(self).wf(),
            r == !old(self)@.contains_key(a),
            r ==> final(self)@ == old(self)@.insert(a, inbox@),
            !r ==> final(self)@ == old(self)@,
    {
        proof {
            lemma_as_map_contains(self.entries@, a);
        }
        if self.find(a).is_some() {
            false
        } else {
            let ghost pre = self.entries@;
            let e = PeerEntry { addr: a, inbox };
            proof {
                lemma_as_map_push(pre, e);
            }
            self.entries.push(e);
            true
        }
    }

    /// Removes and returns the inbound queue of an address, if present.
    pub fn take(&mut self, a: PeerAddr) -> (r: Option<Chan<Vec<u8>>>)
        requires
            old(self).wf(),
        ensures
            final(self).wf(),
            old(self)@.contains_key(a) ==> {
                &&& r matches Some(c) && c@ == old(self)@[a]
                &&& final(self)@ == old(self)@.remove(a)
            },
            !old(self)@.contains_key(a) ==> r is None && final(self)@ == old(self)@,
    {
        proof {
            lemma_as_map_contains(self.entries@, a);
        }
        match self.find(a) {
            None => None,
            Some(i) => {
                let ghost pre = self.entries@;
                proof {
                    lemma_as_map_value(pre, i as int);
                    lemma_as_map_remove(pre, i as int);
                }
                let e = self.entries.remove(i);
                proof {
                    assert(uniq_addrs(pre.remove(i as int))) by {
                        assert(forall|x: int, y: int| 0 <= x < y < pre.len()
                            ==> pre[x].addr != pre[y].addr);
                    }
                }
                Some(e.inbox)
            }
        }
    }

    /// Closes every row's inbound queue, keeping the rows and their
    /// queued messages: readers drain what was delivered, then observe
    /// the closure.
    pub fn close_all(&mut self)
        requires
            old(self).wf(),
        ensures
            final(self).wf(),
            final(self)@.dom() == old(self)@.dom(),
            forall|a: PeerAddr| old(self)@.contains_key(a)
                ==> final(self)@[a] == chan_close(old(self)@[a]),
    {
        let ghost orig = self.entries@;
        let n = self.entries.len();
        let mut i: usize = 0;
        while i < n
            invariant
                n == orig.len(),
                i <= n,
                self.entries@.len() == n,
                forall|j: int| 0 <= j < n - i ==> self.entries@[j] == orig[j + i],
                forall|j: int| n - i <= j < n
                    ==> self.entries@[j].addr == orig[j - (n - i)].addr
                        && self.entries@[j].inbox@ == chan_close(orig[j - (n - i)].inbox@),
            decreases n - i,
        {
            let mut e = self.entries.remove(0);
            e.inbox.close();
            self.entries.push(e);
            i += 1;
        }
        proof {
            let fin = self.entries@;
            assert(forall|j: int| 0 <= j < n
                ==> fin[j].addr == orig[j].addr && fin[j].inbox@ == chan_close(orig[j].inbox@));
            lemma_as_map_close_all(orig, fin);
            assert(uniq_addrs(fin)) by {
                assert(forall|x: int, y: int| 0 <= x < y < orig.len()
                    ==> orig[x].addr != orig[y].addr);
            }
        }
    }
}

} // verus!
