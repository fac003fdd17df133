use dtls_stream::addr::PeerAddr;
use dtls_stream::client::Client;
use dtls_stream::error::NetError;
use dtls_stream::packet_stream::PacketFramed;
use dtls_stream::server::{Accepted, Server};
use dtls_stream::session::HandshakeOutcome;
use dtls_stream::udp::io::InboundOutcome;
use dtls_stream::udp::stream::{ReadPoll, WritePoll};

fn addr(ip: u128, port: u16) -> PeerAddr {
    PeerAddr { ip, port }
}

#[test]
fn plain_client_echo() {
    let mut client = Client::new(8, 8);
    let mut server = Server::new(8, 8, 4);
    let caddr = addr(0x7f000001, 40001);
    let saddr = addr(0x7f000001, 40002);

    let mut stream = client.connect(saddr, None).unwrap();
    assert_eq!(WritePoll::Written(4), stream.write(&mut client.io, b"PING"));

    // the engine drains the shared queue to the socket; the datagram
    // arrives at the server from the client's address
    let out = client.io.poll_outbound().unwrap();
    assert_eq!(saddr, out.dest);
    assert!(matches!(server.io.handle_inbound(caddr, out.payload), InboundOutcome::Admitted));

    // the echoing server accepts and sends every payload back
    let mut peer = match server.accept(None) {
        Accepted::Session(s) => s,
        _ => panic!("expected an admitted session"),
    };
    let rx = match peer.read(&mut server.io, 2048) {
        ReadPoll::Data(d) => d,
        _ => panic!("expected the client's payload"),
    };
    assert_eq!(b"PING".to_vec(), rx);
    assert_eq!(WritePoll::Written(4), peer.write(&mut server.io, &rx));

    let back = server.io.poll_outbound().unwrap();
    assert_eq!(caddr, back.dest);
    assert!(matches!(client.io.handle_inbound(saddr, back.payload), InboundOutcome::Delivered));

    match stream.read(&mut client.io, 2048) {
        ReadPoll::Data(d) => assert_eq!(b"PING".to_vec(), d),
        _ => panic!("expected the echo"),
    }
}

#[test]
fn plain_sessions_have_no_certificate() {
    let mut client = Client::new(8, 8);
    let session = client.connect(addr(1, 1), None).unwrap();
    assert!(session.ssl().is_none());
}

#[test]
fn dtls_echo_with_certificate() {
    let client_cert = vec![0x30, 0x82, 0x01, 0x0a];
    let server_cert = vec![0x30, 0x82, 0x02, 0x0b];

    let mut client = Client::new(8, 8);
    let mut server = Server::new(8, 8, 4);
    let caddr = addr(0x7f000001, 40003);
    let saddr = addr(0x7f000001, 40004);

    // the external collaborator completed both handshake halves; each
    // side's session carries the certificate the peer presented
    let mut stream = client
        .connect(saddr, Some(HandshakeOutcome::Established(Some(server_cert.clone()))))
        .unwrap();
    assert_eq!(Some(&server_cert), stream.ssl());

    assert_eq!(WritePoll::Written(4), stream.write(&mut client.io, b"PING"));
    let out = client.io.poll_outbound().unwrap();
    assert!(matches!(server.io.handle_inbound(caddr, out.payload), InboundOutcome::Admitted));

    let mut peer = match server.accept(Some(HandshakeOutcome::Established(Some(client_cert.clone())))) {
        Accepted::Session(s) => s,
        _ => panic!("expected a secured session"),
    };
    assert_eq!(Some(&client_cert), peer.ssl());

    let rx = match peer.read(&mut server.io, 2048) {
        ReadPoll::Data(d) => d,
        _ => panic!("expected the client's payload"),
    };
    assert_eq!(b"PING".to_vec(), rx);
}

#[test]
fn dtls_anonymous_peer_yields_no_certificate() {
    let mut client = Client::new(8, 8);
    let session = client
        .connect(addr(1, 1), Some(HandshakeOutcome::Established(None)))
        .unwrap();
    assert!(session.ssl().is_none());
}

#[test]
fn failed_handshake_resets_and_reclaims_on_connect() {
    let mut client = Client::new(8, 8);
    let a = addr(9, 9);

    match client.connect(a, Some(HandshakeOutcome::Failed)) {
        Err(e) => assert_eq!(NetError::ConnectionReset, e),
        Ok(_) => panic!("a failed handshake must not yield a session"),
    }
    // the stream was dropped and its entry reclaimed: connecting again works
    assert!(client.connect(a, None).is_ok());
}

#[test]
fn failed_handshake_resets_on_accept() {
    let mut server = Server::new(8, 8, 4);
    let a = addr(9, 9);
    assert!(matches!(server.io.handle_inbound(a, vec![1]), InboundOutcome::Admitted));

    assert!(matches!(server.accept(Some(HandshakeOutcome::Failed)), Accepted::Reset));
    // the accepted stream was dropped: the address is brand new again
    assert!(matches!(server.io.handle_inbound(a, vec![2]), InboundOutcome::Admitted));
}

#[test]
fn accept_reports_reset_once_acceptor_closed() {
    let mut server = Server::new(8, 8, 4);
    assert!(matches!(server.accept(None), Accepted::Pending));
    server.stop();
    assert!(matches!(server.accept(None), Accepted::Reset));
}

#[test]
fn session_read_truncates_like_the_stream() {
    let mut client = Client::new(8, 8);
    let a = addr(3, 3);
    let mut session = client.connect(a, None).unwrap();

    assert!(matches!(client.io.handle_inbound(a, vec![1, 2, 3, 4]), InboundOutcome::Delivered));
    match session.read(&mut client.io, 2) {
        ReadPoll::Data(d) => assert_eq!(vec![1, 2], d),
        _ => panic!("expected truncated data"),
    }
    assert!(matches!(session.read(&mut client.io, 2), ReadPoll::Pending));
}

#[test]
fn stream_sink_returns_the_underlying_stream() {
    let mut client = Client::new(8, 8);
    let a = addr(4, 4);
    let session = client.connect(a, None).unwrap();
    let stream = session.stream_sink();
    assert_eq!(a, stream.peer());
    assert_eq!(WritePoll::Written(2), stream.poll_write(&mut client.io, &[8, 8]));
}

// one echo bounce through any packet-framed transport
fn bounce<T: PacketFramed>(t: &mut T, io: &mut dtls_stream::udp::io::UdpIo, payload: &[u8]) -> Vec<u8> {
    match t.send(io, payload) {
        WritePoll::Written(n) => assert_eq!(payload.len(), n),
        _ => panic!("send not accepted"),
    }
    let out = io.poll_outbound().unwrap();
    let back = out.payload;
    let src = out.dest;
    assert!(matches!(io.handle_inbound(src, back), InboundOutcome::Delivered));
    match t.next(io, 2048) {
        ReadPoll::Data(d) => d,
        _ => panic!("expected data"),
    }
}

#[test]
fn packet_framed_is_uniform_over_plain_and_secured() {
    let mut client = Client::new(8, 8);
    let a = addr(6, 6);
    let mut session = client.connect(a, None).unwrap();
    assert_eq!(b"hello".to_vec(), bounce(&mut session, &mut client.io, b"hello"));

    let mut client2 = Client::new(8, 8);
    let b = addr(6, 7);
    let mut stream = client2.connect(b, None).unwrap().stream_sink();
    assert_eq!(b"world".to_vec(), bounce(&mut stream, &mut client2.io, b"world"));
}
