use dtls_stream::addr::PeerAddr;
use dtls_stream::error::NetError;
use dtls_stream::udp::client::UdpClient;
use dtls_stream::udp::io::{AcceptPoll, InboundOutcome, UdpIo};
use dtls_stream::udp::server::UdpServer;
use dtls_stream::chan::{Chan, SendOutcome};
use dtls_stream::udp::stream::{copy_prefix, ReadPoll, WritePoll};

fn addr(ip: u128, port: u16) -> PeerAddr {
    PeerAddr { ip, port }
}

#[test]
fn connect_twice_fails_until_reclaimed() {
    let mut client = UdpClient::new(8, 8);
    let a = addr(0x7f000001, 4000);

    let first = client.connect(a).unwrap();
    assert_eq!(a, first.peer());

    match client.connect(a) {
        Err(e) => assert_eq!(NetError::AlreadyConnected, e),
        Ok(_) => panic!("second connect to a live address must fail"),
    }

    // destroying the stream reclaims the table entry
    first.close(&mut client.io);
    let again = client.connect(a).unwrap();
    assert_eq!(a, again.peer());
}

#[test]
fn inbound_routes_to_connected_peer() {
    let mut io = UdpIo::new(8, 8, None);
    let a = addr(10, 9000);
    let stream = io.connect(a).unwrap();

    assert!(matches!(io.handle_inbound(a, vec![1, 2, 3]), InboundOutcome::Delivered));
    match stream.poll_read(&mut io, 2048) {
        ReadPoll::Data(d) => assert_eq!(vec![1, 2, 3], d),
        _ => panic!("expected data"),
    }
    assert!(matches!(stream.poll_read(&mut io, 2048), ReadPoll::Pending));
}

#[test]
fn inbound_from_unknown_peer_is_unrouted_in_client_mode() {
    let mut io = UdpIo::new(8, 8, None);
    assert!(matches!(io.handle_inbound(addr(1, 1), vec![42]), InboundOutcome::Unrouted));
}

#[test]
fn inbound_queue_sheds_payload_when_full() {
    let mut io = UdpIo::new(8, 1, None);
    let a = addr(10, 9000);
    let stream = io.connect(a).unwrap();

    assert!(matches!(io.handle_inbound(a, vec![1]), InboundOutcome::Delivered));
    assert!(matches!(io.handle_inbound(a, vec![2]), InboundOutcome::DroppedFull));
    match stream.poll_read(&mut io, 2048) {
        ReadPoll::Data(d) => assert_eq!(vec![1], d),
        _ => panic!("expected the first payload"),
    }
    assert!(matches!(stream.poll_read(&mut io, 2048), ReadPoll::Pending));
}

#[test]
fn read_truncates_and_discards_remainder() {
    let mut io = UdpIo::new(8, 8, None);
    let a = addr(10, 9000);
    let stream = io.connect(a).unwrap();

    assert!(matches!(io.handle_inbound(a, vec![1, 2, 3, 4, 5]), InboundOutcome::Delivered));
    assert!(matches!(io.handle_inbound(a, vec![9, 9]), InboundOutcome::Delivered));

    // a 3-byte buffer takes exactly the 3 leading bytes
    match stream.poll_read(&mut io, 3) {
        ReadPoll::Data(d) => assert_eq!(vec![1, 2, 3], d),
        _ => panic!("expected truncated data"),
    }
    // the cut-off bytes are gone; the next read yields the next datagram
    match stream.poll_read(&mut io, 3) {
        ReadPoll::Data(d) => assert_eq!(vec![9, 9], d),
        _ => panic!("expected the second payload"),
    }
}

#[test]
fn write_enqueues_own_address_and_full_payload() {
    let mut io = UdpIo::new(8, 8, None);
    let a = addr(10, 9000);
    let stream = io.connect(a).unwrap();

    assert_eq!(WritePoll::Written(4), stream.poll_write(&mut io, b"PING"));
    assert_eq!(WritePoll::Written(0), stream.poll_flush(&io));
    let out = io.poll_outbound().unwrap();
    assert_eq!(a, out.dest);
    assert_eq!(b"PING".to_vec(), out.payload);
    assert!(io.poll_outbound().is_none());
}

#[test]
fn per_stream_write_order_is_preserved() {
    let mut io = UdpIo::new(8, 8, None);
    let a = addr(10, 9000);
    let stream = io.connect(a).unwrap();

    assert_eq!(WritePoll::Written(1), stream.poll_write(&mut io, &[1]));
    assert_eq!(WritePoll::Written(1), stream.poll_write(&mut io, &[2]));
    assert_eq!(vec![1], io.poll_outbound().unwrap().payload);
    assert_eq!(vec![2], io.poll_outbound().unwrap().payload);
}

#[test]
fn write_suspends_on_full_outbound_queue() {
    let mut io = UdpIo::new(1, 8, None);
    let a = addr(10, 9000);
    let stream = io.connect(a).unwrap();

    assert_eq!(WritePoll::Written(1), stream.poll_write(&mut io, &[1]));
    assert_eq!(WritePoll::Pending, stream.poll_write(&mut io, &[2]));
    assert_eq!(vec![1], io.poll_outbound().unwrap().payload);
    assert_eq!(WritePoll::Written(1), stream.poll_write(&mut io, &[2]));
}

#[test]
fn shutdown_closes_only_the_write_side() {
    let mut io = UdpIo::new(8, 8, None);
    let a = addr(10, 9000);
    let mut stream = io.connect(a).unwrap();

    stream.poll_shutdown();
    assert_eq!(WritePoll::Broken, stream.poll_write(&mut io, b"x"));
    assert_eq!(WritePoll::Broken, stream.poll_flush(&io));

    // reads still drain what the engine delivers
    assert!(matches!(io.handle_inbound(a, vec![5]), InboundOutcome::Delivered));
    match stream.poll_read(&mut io, 2048) {
        ReadPoll::Data(d) => assert_eq!(vec![5], d),
        _ => panic!("expected data after shutdown of the write side"),
    }
}

#[test]
fn teardown_makes_address_brand_new() {
    // server mode: a reclaimed peer is admitted again
    let mut server = UdpServer::new(8, 8, 4);
    let a = addr(77, 7);
    assert!(matches!(server.io.handle_inbound(a, vec![1]), InboundOutcome::Admitted));
    let stream = match server.accept() {
        AcceptPoll::Stream(s) => s,
        _ => panic!("expected an admitted stream"),
    };
    assert_eq!(a, stream.peer());
    stream.close(&mut server.io);
    assert!(matches!(server.io.handle_inbound(a, vec![2]), InboundOutcome::Admitted));

    // client mode: a reclaimed peer's datagram is unrouted
    let mut client = UdpClient::new(8, 8);
    let b = addr(78, 8);
    let s = client.connect(b).unwrap();
    s.close(&mut client.io);
    assert!(matches!(client.io.handle_inbound(b, vec![3]), InboundOutcome::Unrouted));
}

#[test]
fn acceptance_overflow_sheds_new_peers_not_established_ones() {
    let mut server = UdpServer::new(8, 8, 1);
    let a = addr(1, 1);
    let b = addr(2, 2);

    assert!(matches!(server.io.handle_inbound(a, vec![1]), InboundOutcome::Admitted));
    // the acceptance queue (bound 1) is saturated: b is shed, no entry kept
    assert!(matches!(server.io.handle_inbound(b, vec![2]), InboundOutcome::AcceptOverflow));
    // the established peer is still served
    assert!(matches!(server.io.handle_inbound(a, vec![3]), InboundOutcome::Delivered));

    let stream = match server.accept() {
        AcceptPoll::Stream(s) => s,
        _ => panic!("expected the admitted stream"),
    };
    assert_eq!(a, stream.peer());
    match stream.poll_read(&mut server.io, 2048) {
        ReadPoll::Data(d) => assert_eq!(vec![1], d),
        _ => panic!("expected the admission payload"),
    }
    match stream.poll_read(&mut server.io, 2048) {
        ReadPoll::Data(d) => assert_eq!(vec![3], d),
        _ => panic!("expected the follow-up payload"),
    }
    // b was never retained: its next datagram is admitted afresh
    assert!(matches!(server.io.handle_inbound(b, vec![4]), InboundOutcome::Admitted));
}

#[test]
fn accept_pends_then_resets_after_stop() {
    let mut server = UdpServer::new(8, 8, 4);
    assert!(matches!(server.accept(), AcceptPoll::Pending));
    server.stop();
    assert!(matches!(server.accept(), AcceptPoll::Reset));
}

#[test]
fn stop_releases_waiting_readers_and_writers() {
    let mut client = UdpClient::new(8, 8);
    let a = addr(5, 5);
    let stream = client.connect(a).unwrap();
    assert!(matches!(client.io.handle_inbound(a, vec![1]), InboundOutcome::Delivered));

    client.stop();
    assert!(client.io.is_stopped());

    // queued data is still drained, then the read resolves to a reset
    match stream.poll_read(&mut client.io, 2048) {
        ReadPoll::Data(d) => assert_eq!(vec![1], d),
        _ => panic!("expected the queued payload"),
    }
    assert!(matches!(stream.poll_read(&mut client.io, 2048), ReadPoll::Reset));
    assert_eq!(WritePoll::Broken, stream.poll_write(&mut client.io, b"x"));

    // a datagram for the stopped peer reclaims the closed entry
    assert!(matches!(client.io.handle_inbound(a, vec![2]), InboundOutcome::PeerRemoved));

    // stop is idempotent
    client.stop();
    assert!(client.io.is_stopped());
}

#[test]
fn copy_prefix_truncates_exactly() {
    let payload = vec![10, 20, 30, 40];
    assert_eq!(vec![10, 20], copy_prefix(&payload, 2));
    assert_eq!(vec![10, 20, 30, 40], copy_prefix(&payload, 4));
    assert_eq!(vec![10, 20, 30, 40], copy_prefix(&payload, 100));
    assert_eq!(Vec::<u8>::new(), copy_prefix(&payload, 0));
}

#[test]
fn bounded_queue_is_fifo_and_closeable() {
    let mut q: Chan<Vec<u8>> = Chan::new(2);
    assert_eq!(0, q.len());
    assert!(q.ready());
    assert!(matches!(q.try_send(vec![1]), SendOutcome::Sent));
    assert!(matches!(q.try_send(vec![2]), SendOutcome::Sent));
    assert_eq!(2, q.len());
    assert!(matches!(q.try_send(vec![3]), SendOutcome::Full));

    q.close();
    assert!(q.is_closed());
    assert!(matches!(q.try_send(vec![4]), SendOutcome::Closed));

    // queued messages drain in order even after the close
    assert_eq!(Some(vec![1]), q.try_recv());
    assert_eq!(Some(vec![2]), q.try_recv());
    assert_eq!(None, q.try_recv());
}
