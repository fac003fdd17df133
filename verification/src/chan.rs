use vstd::prelude::*;

verus! {

/// Mathematical state of a bounded channel: the messages still queued (in
/// FIFO order), the capacity it was created with, and whether the sending
/// side has been closed.  Closing a channel keeps the queued messages: a
/// receiver drains them and only then observes the closure.
#[verifier::ext_equal]
pub ghost struct ChanView<A> {
    pub msgs: Seq<A>,
    pub cap: nat,
    pub closed: bool,
}

/// A channel that is open and has room accepts one more message.
pub open spec fn chan_can_take<A>(c: ChanView<A>) -> bool {
    !c.closed && c.msgs.len() < c.cap
}

/// The channel after one message was enqueued.
pub open spec fn chan_push<A>(c: ChanView<A>, m: A) -> ChanView<A> {
    ChanView { msgs: c.msgs.push(m), ..c }
}

/// The channel after the front message was dequeued.
pub open spec fn chan_pop<A>(c: ChanView<A>) -> ChanView<A> {
    ChanView { msgs: c.msgs.drop_first(), ..c }
}

/// The channel with its sending side closed.
pub open spec fn chan_close<A>(c: ChanView<A>) -> ChanView<A> {
    ChanView { closed: true, ..c }
}

/// An empty open channel of the given capacity.
pub open spec fn chan_empty<A>(cap: nat) -> ChanView<A> {
    ChanView { msgs: Seq::empty(), cap, closed: false }
}

/// Result of a non-blocking send on a bounded channel.
#[derive(Clone, Copy, PartialEq, Eq, Structural, Debug)]
pub enum SendOutcome {
    /// The message was enqueued.
    Sent,
    /// The channel is at capacity; the message was not enqueued.
    Full,
    /// The channel is closed; the message was not enqueued.
    Closed,
}

/// A bounded FIFO queue with a closeable sending side.  This is the model
/// shared by the per-peer inbound queues, the engine's outbound queue and
/// the acceptance queue; each is bounded so that no hop of the engine can
/// be stalled without limit by a slow consumer.
pub struct Chan<T> {
    items: Vec<T>,
    cap: usize,
    closed: bool,
}

impl<T: View> View for Chan<T> {
    type V = ChanView<T::V>;

    closed spec fn view(&self) -> ChanView<T::V> {
        ChanView {
            msgs: self.items@.map_values(|t: T| t@),
            cap: self.cap as nat,
            closed: self.closed,
        }
    }
}

impl<T: View> Chan<T> {
    /// A fresh open channel holding at most `cap` messages.
    pub fn new(cap: usize) -> (r: Self)
        requires
            cap >= 1,
        ensures
            r@ == chan_empty::<T::V>(cap as nat),
    {
        let r = Chan { items: Vec::new(), cap, closed: false };
        proof {
            assert(r@.msgs =~= Seq::<T::V>::empty());
            assert(r@ =~= chan_empty::<T::V>(cap as nat));
        }
        r
    }

    /// Non-blocking send: enqueues the message unless the channel is
    /// closed or at capacity, and reports which of the three held.
    pub fn try_send(&mut self, m: T) -> (r: SendOutcome)
        ensures
            old(self)@.closed ==> r == SendOutcome::Closed && final(self)@ == old(self)@,
            !old(self)@.closed && old(self)@.msgs.len() >= old(self)@.cap
                ==> r == SendOutcome::Full && final(self)@ == old(self)@,
            chan_can_take(old(self)@)
                ==> r == SendOutcome::Sent && final(self)@ == chan_push(old(self)@, m@),
    {
        if self.closed {
            SendOutcome::Closed
        } else if self.items.len() >= self.cap {
            SendOutcome::Full
        } else {
            let ghost pre = self.items@;
            self.items.push(m);
            proof {
                assert(self@.msgs =~= pre.map_values(|t: T| t@).push(m@));
                assert(self@ =~= chan_push(old(self)@, m@));
            }
            SendOutcome::Sent
        }
    }

    /// Non-blocking receive: dequeues the front message if one is queued.
    /// An empty result means the receiver must either suspend (channel
    /// still open) or treat the channel as finished (channel closed).
    pub fn try_recv(&mut self) -> (r: Option<T>)
        ensures
            old(self)@.msgs.len() == 0 ==> r is None && final(self)@ == old(self)@,
            old(self)@.msgs.len() > 0 ==> {
                &&& r matches Some(m) && m@ == old(self)@.msgs[0]
                &&& final(self)@ == chan_pop(old(self)@)
            },
    {
        if self.items.len() == 0 {
            None
        } else {
            let ghost pre = self.items@;
            let m = self.items.remove(0);
            proof {
                assert(self@.msgs =~= pre.map_values(|t: T| t@).drop_first());
                assert(self@ =~= chan_pop(old(self)@));
            }
            Some(m)
        }
    }

    /// Closes the sending side.  Queued messages stay readable; further
    /// sends fail with `Closed`.  Idempotent.
    pub fn close(&mut self)
        ensures
            final(self)@ == chan_close(old(self)@),
    {
        self.closed = true;
        proof {
            assert(self@ =~= chan_close(old(self)@));
        }
    }

    /// True when a send would be accepted right now.
    pub fn ready(&self) -> (r: bool)
        ensures
            r == chan_can_take(self@),
    {
        !self.closed && self.items.len() < self.cap
    }

    /// True when the sending side has been closed.
    pub fn is_closed(&self) -> (r: bool)
        ensures
            r == self@.closed,
    {
        self.closed
    }

    /// The number of queued messages.
    pub fn len(&self) -> (r: usize)
        ensures
            r == self@.msgs.len(),
    {
        self.items.len()
    }
}

} // verus!
