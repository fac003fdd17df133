use vstd::prelude::*;

use crate::error::NetError;
use crate::session::{HandshakeOutcome, Session};
use crate::udp::io::{
    accept_has_entry, accept_would_pend, accept_would_reset, spec_accept_next, spec_remove,
    spec_stop, AcceptPoll, UdpIo,
};

verus! {

/// What one poll of a server accept produced.
#[derive(Debug)]
pub enum Accepted {
    /// A session over a newly admitted peer's stream.
    Session(Session),
    /// No admitted peer yet; the caller suspends and polls again.
    Pending,
    /// `ConnectionReset`: the acceptance queue is closed, or the
    /// handshake over the accepted stream failed and the stream was
    /// dropped.
    Reset,
}

/// A server producing sessions, plain or DTLS-secured, over one engine
/// in server mode.  As on the client side, the handshake is performed by
/// the external TLS collaborator; a failure surfaces as
/// `ConnectionReset` with no session, and the accepted stream is
/// dropped, which reclaims its table entry.
pub struct Server {
    pub io: UdpIo,
}

impl Server {
    /// A fresh server-mode engine with the given queue bounds.
    pub fn new(outbound_cap: usize, inbound_cap: usize, accept_cap: usize) -> (r: Self)
        requires
            outbound_cap >= 1,
            inbound_cap >= 1,
            accept_cap >= 1,
        ensures
            r.io.wf(),
            r.io@.peers == Map::<crate::addr::PeerAddr, crate::table::InboxView>::empty(),
            r.io@.acceptor == Some(crate::chan::chan_empty::<crate::addr::PeerAddr>(
                accept_cap as nat)),
            !r.io@.stopped,
    {
        Server { io: UdpIo::new(outbound_cap, inbound_cap, Some(accept_cap)) }
    }

    /// One poll of an accept, building the session the handshake outcome
    /// calls for, with the same failure semantics as the client side.
    pub fn accept(&mut self, tls: Option<HandshakeOutcome>) -> (r: Accepted)
        requires
            old(self).io.wf(),
            old(self).io@.acceptor is Some,
        ensures
            final(self).io.wf(),
            final(self).io@.acceptor is Some,
            accept_would_pend(old(self).io@)
                ==> (r matches Accepted::Pending) && final(self).io@ == old(self).io@,
            accept_would_reset(old(self).io@)
                ==> (r matches Accepted::Reset) && final(self).io@ == old(self).io@,
            accept_has_entry(old(self).io@) && tls is None ==> {
                &&& r matches Accepted::Session(s) && s.wf()
                    && s.peer_spec() == old(self).io@.acceptor.unwrap().msgs[0]
                    && !s.secured_spec() && s.cert_spec() is None && s.writable()
                &&& final(self).io@ == spec_accept_next(old(self).io@)
            },
            accept_has_entry(old(self).io@)
                && (tls matches Some(HandshakeOutcome::Established(cert))) ==> {
                &&& r matches Accepted::Session(s) && s.wf()
                    && s.peer_spec() == old(self).io@.acceptor.unwrap().msgs[0]
                    && s.secured_spec() && s.writable()
                &&& r matches Accepted::Session(s) && s.cert_spec() == (match tls {
                    Some(HandshakeOutcome::Established(Some(c))) => Some(c@),
                    _ => None,
                })
                &&& final(self).io@ == spec_accept_next(old(self).io@)
            },
            accept_has_entry(old(self).io@)
                && (tls matches Some(HandshakeOutcome::Failed)) ==> {
                &&& r matches Accepted::Reset
                &&& final(self).io@ == spec_remove(
                    spec_accept_next(old(self).io@),
                    old(self).io@.acceptor.unwrap().msgs[0],
                )
            },
    {
        let stream = match self.io.accept_poll() {
            AcceptPoll::Stream(s) => s,
            AcceptPoll::Pending => {
                return Accepted::Pending;
            }
            AcceptPoll::Reset => {
                return Accepted::Reset;
            }
        };
        match tls {
            None => Accepted::Session(Session::new_udp(stream)),
            Some(HandshakeOutcome::Established(cert)) => {
                Accepted::Session(Session::new_dtls(stream, cert))
            }
            Some(HandshakeOutcome::Failed) => {
                stream.close(&mut self.io);
                Accepted::Reset
            }
        }
    }

    /// The owner's stop request (explicit, or the destructor's).
    /// Idempotent.
    pub fn stop(&mut self)
        requires
            old(self).io.wf(),
        ensures
            final(self).io.wf(),
            final(self).io@ == spec_stop(old(self).io@),
    {
        self.io.stop()
    }
}

} // verus!
