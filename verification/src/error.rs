use vstd::prelude::*;

verus! {

/// The error taxonomy of the multiplexer.
#[derive(Clone, Copy, PartialEq, Eq, Structural, Debug)]
pub enum NetError {
    /// The caller-supplied peer address resolves to no usable socket
    /// address.  Address resolution is I/O and happens outside the
    /// verified core; this variant exists so that the surrounding code can
    /// surface the failure through the same taxonomy.
    AddressUnavailable,
    /// A second connect to an address with a live table entry.  The
    /// existing connection is left untouched.
    AlreadyConnected,
    /// The inbound queue was exhausted and closed on a read; the
    /// acceptance queue was closed on an accept; or a handshake failed.
    ConnectionReset,
    /// The outbound channel was closed under a stream write or flush: the
    /// peer's route is gone.
    BrokenPipe,
}

} // verus!
