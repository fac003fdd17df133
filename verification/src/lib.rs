//! A verified model of a UDP connection multiplexer with an optional
//! datagram-TLS session layer.
//!
//! One engine owns a peer-address-keyed connection table and three bounded
//! queues (per-peer inbound, shared outbound, acceptance).  Virtual streams
//! are per-peer handles routed through the engine; sessions wrap a stream,
//! either plain or upgraded by an externally performed handshake.

pub mod addr;
pub mod chan;
pub mod client;
pub mod error;
pub mod laws;
pub mod packet_stream;
pub mod server;
pub mod session;
pub mod table;
pub mod udp;
