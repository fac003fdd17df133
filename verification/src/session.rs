use vstd::prelude::*;

use crate::addr::PeerAddr;
use crate::udp::io::UdpIo;
use crate::udp::stream::{ReadPoll, UdpStream, WritePoll};

verus! {

/// What the external TLS collaborator reported for a finished handshake
/// attempt.  The handshake itself (and the record layer it negotiates)
/// is performed outside the verified core; this is the event the session
/// layer decides on.
#[derive(Debug)]
pub enum HandshakeOutcome {
    /// The handshake completed; the peer's certificate, when one was
    /// presented, as opaque encoded bytes.
    Established(Option<Vec<u8>>),
    /// The handshake failed (verification failure, timeout).
    Failed,
}

/// A virtual stream optionally upgraded by a completed DTLS handshake,
/// exposed uniformly to callers.  The transport kind is fixed at
/// construction and never changes; the certificate is present only if
/// DTLS was used and the peer presented one.
#[derive(Debug)]
pub struct Session {
    stream: UdpStream,
    secured: bool,
    cert: Option<Vec<u8>>,
}

impl Session {
    /// The peer this session speaks to.
    pub closed spec fn peer_spec(&self) -> PeerAddr {
        self.stream.peer_spec()
    }

    /// Whether this session was built from a completed DTLS handshake.
    pub closed spec fn secured_spec(&self) -> bool {
        self.secured
    }

    /// The peer certificate the handshake yielded, if any.
    pub closed spec fn cert_spec(&self) -> Option<Seq<u8>> {
        match self.cert {
            None => None,
            Some(c) => Some(c@),
        }
    }

    /// Whether the session's outbound side is still open.
    pub closed spec fn writable(&self) -> bool {
        self.stream.writable()
    }

    /// The session invariant: a certificate is only ever present on a
    /// secured session.
    pub closed spec fn wf(&self) -> bool {
        self.cert is Some ==> self.secured
    }

    /// A plain session over a raw virtual stream: no handshake, no
    /// certificate.
    pub fn new_udp(stream: UdpStream) -> (r: Session)
        ensures
            r.wf(),
            r.peer_spec() == stream.peer_spec(),
            r.writable() == stream.writable(),
            !r.secured_spec(),
            r.cert_spec() is None,
    {
        Session { stream, secured: false, cert: None }
    }

    /// A session over the same stream wrapped by a completed DTLS
    /// handshake, carrying the certificate the peer presented, if any.
    pub fn new_dtls(stream: UdpStream, cert: Option<Vec<u8>>) -> (r: Session)
        ensures
            r.wf(),
            r.peer_spec() == stream.peer_spec(),
            r.writable() == stream.writable(),
            r.secured_spec(),
            r.cert_spec() == (match cert {
                None => None,
                Some(v) => Some(v@),
            }),
    {
        Session { stream, secured: true, cert }
    }

    /// The certificate the peer presented during the handshake: always
    /// absent for plain sessions and anonymous DTLS peers.
    pub fn ssl(&self) -> (r: Option<&Vec<u8>>)
        requires
            self.wf(),
        ensures
            match r {
                Some(c) => self.cert_spec() == Some(c@) && self.secured_spec(),
                None => self.cert_spec() is None,
            },
    {
        match &self.cert {
            None => None,
            Some(c) => Some(c),
        }
    }

    /// Turns the session back into the underlying stream/sink handle.
    pub fn stream_sink(self) -> (r: UdpStream)
        ensures
            r.peer_spec() == self.peer_spec(),
            r.writable() == self.writable(),
    {
        self.stream
    }

    /// Writes one datagram, delegating to the transport with the virtual
    /// stream's semantics; the external record layer carries the payload
    /// through unchanged.
    pub fn write(&mut self, io: &mut UdpIo, buf: &[u8]) -> (r: WritePoll)
        requires
            old(io).wf(),
        ensures
            final(io).wf(),
            *final(self) == *old(self),
            !old(self).writable() || old(io)@.outbound.closed ==> {
                &&& r == WritePoll::Broken
                &&& final(io)@ == old(io)@
            },
            old(self).writable() && !old(io)@.outbound.closed
                && old(io)@.outbound.msgs.len() >= old(io)@.outbound.cap ==> {
                &&& r == WritePoll::Pending
                &&& final(io)@ == old(io)@
            },
            old(self).writable() && crate::chan::chan_can_take(old(io)@.outbound) ==> {
                &&& r == WritePoll::Written(buf@.len() as usize)
                &&& final(io)@ == crate::udp::stream::spec_write_push(
                    old(io)@, old(self).peer_spec(), buf@)
            },
    {
        self.stream.poll_write(io, buf)
    }

    /// Reads one datagram into a buffer of capacity `cap`, with the
    /// virtual stream's truncation and error semantics.
    pub fn read(&mut self, io: &mut UdpIo, cap: usize) -> (r: ReadPoll)
        requires
            old(io).wf(),
        ensures
            final(io).wf(),
            *final(self) == *old(self),
            crate::udp::stream::read_would_reset(old(io)@, old(self).peer_spec())
                ==> (r matches ReadPoll::Reset) && final(io)@ == old(io)@,
            crate::udp::stream::read_would_pend(old(io)@, old(self).peer_spec())
                ==> (r matches ReadPoll::Pending) && final(io)@ == old(io)@,
            crate::udp::stream::read_has_data(old(io)@, old(self).peer_spec()) ==> {
                &&& r matches ReadPoll::Data(d)
                    && d@ == crate::udp::stream::read_data(
                        old(io)@.peers[old(self).peer_spec()], cap as nat)
                &&& final(io)@ == crate::udp::stream::spec_read_next(
                    old(io)@, old(self).peer_spec())
            },
    {
        self.stream.poll_read(io, cap)
    }
}

/// The certificate invariant of the session layer: the transport kind
/// is fixed at construction, and a certificate is present only if DTLS
/// was used and the peer presented one — a plain session never yields
/// one.
pub proof fn lemma_plain_session_has_no_certificate(s: Session)
    requires
        s.wf(),
        !s.secured_spec(),
    ensures
        s.cert_spec() is None,
{
}

} // verus!
