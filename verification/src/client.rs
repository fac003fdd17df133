use vstd::prelude::*;

use crate::addr::PeerAddr;
use crate::error::NetError;
use crate::session::{HandshakeOutcome, Session};
use crate::udp::io::{connect_rejects, spec_connect, spec_stop, UdpIo};

verus! {

/// A client producing sessions, plain or DTLS-secured, over one engine.
/// The DTLS handshake itself is performed by the external TLS
/// collaborator over the freshly opened stream; its reported outcome is
/// the event this layer decides on: a failure surfaces as
/// `ConnectionReset` with no session returned, and the stream is dropped,
/// which reclaims the table entry.
pub struct Client {
    pub io: UdpIo,
}

impl Client {
    /// A fresh client-mode engine with the given queue bounds.
    pub fn new(outbound_cap: usize, inbound_cap: usize) -> (r: Self)
        requires
            outbound_cap >= 1,
            inbound_cap >= 1,
        ensures
            r.io.wf(),
            r.io@.peers == Map::<PeerAddr, crate::table::InboxView>::empty(),
            r.io@.acceptor is None,
            !r.io@.stopped,
    {
        Client { io: UdpIo::new(outbound_cap, inbound_cap, None) }
    }

    /// Opens a stream to the peer and builds the session the handshake
    /// outcome calls for: plain when no security context was supplied,
    /// secured and carrying the peer's certificate when the handshake
    /// completed, and no session at all when it failed — then the stream
    /// is dropped and its table entry reclaimed, leaving the engine as
    /// it was.
    pub fn connect(&mut self, peer: PeerAddr, tls: Option<HandshakeOutcome>) -> (r: Result<Session, NetError>)
        requires
            old(self).io.wf(),
        ensures
            final(self).io.wf(),
            connect_rejects(old(self).io@, peer) ==> {
                &&& r matches Err(e) && e == NetError::AlreadyConnected
                &&& final(self).io@ == old(self).io@
            },
            !connect_rejects(old(self).io@, peer) && tls is None ==> {
                &&& r matches Ok(s) && s.wf() && s.peer_spec() == peer
                    && !s.secured_spec() && s.cert_spec() is None && s.writable()
                &&& final(self).io@ == spec_connect(old(self).io@, peer)
            },
            !connect_rejects(old(self).io@, peer)
                && (tls matches Some(HandshakeOutcome::Established(cert))) ==> {
                &&& r matches Ok(s) && s.wf() && s.peer_spec() == peer
                    && s.secured_spec() && s.writable()
                &&& r matches Ok(s) && s.cert_spec() == (match tls {
                    Some(HandshakeOutcome::Established(Some(c))) => Some(c@),
                    _ => None,
                })
                &&& final(self).io@ == spec_connect(old(self).io@, peer)
            },
            !connect_rejects(old(self).io@, peer)
                && (tls matches Some(HandshakeOutcome::Failed)) ==> {
                &&& r matches Err(e) && e == NetError::ConnectionReset
                &&& final(self).io@ == old(self).io@
            },
    {
        let stream = match self.io.connect(peer) {
            Ok(s) => s,
            Err(e) => {
                return Err(e);
            }
        };
        match tls {
            None => Ok(Session::new_udp(stream)),
            Some(HandshakeOutcome::Established(cert)) => Ok(Session::new_dtls(stream, cert)),
            Some(HandshakeOutcome::Failed) => {
                stream.close(&mut self.io);
                proof {
                    assert(final(self).io@.peers =~= old(self).io@.peers);
                    assert(final(self).io@ =~= old(self).io@);
                }
                Err(NetError::ConnectionReset)
            }
        }
    }

    /// The owner's stop request (explicit, or the destructor's).
    /// Idempotent.
    pub fn stop(&mut self)
        requires
            old(self).io.wf(),
        ensures
            final(self).io.wf(),
            final(self).io@ == spec_stop(old(self).io@),
    {
        self.io.stop()
    }
}

} // verus!
