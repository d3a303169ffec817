use papercups::network::{Connection, ConnectionState, IpAddress, LinkAction};
use papercups::protocol::{Handshake, Message, ProtocolError, ProtocolMessage, Serializable};
use papercups::ChannelMessage;

const IP_A: IpAddress = IpAddress::V4(127, 0, 0, 1);

/// Brings `b` from listening to connected on `a`'s handshake, and `a` to
/// connected on `b`'s echo.
fn connect(a: &mut Connection, b: &mut Connection) {
    let hello = a.handshake();
    match b.handshake_received(IP_A, Some(hello)) {
        LinkAction::Emit(ChannelMessage::ConnectRequest(id, ip)) => {
            assert_eq!(id, a.local_id());
            assert_eq!(ip, IP_A);
        }
        other => panic!("expected a connect request, got {:?}", other),
    }
    let echo = match b.approval(ChannelMessage::ConnectAccept) {
        LinkAction::Write(bytes) => bytes,
        other => panic!("expected the echo, got {:?}", other),
    };
    assert_eq!(a.initiate_reply(Some(echo)), Ok(()));
}

/// What `b` hands the interactive side when `bytes` arrive on its socket,
/// peeking at the header first as the network loop does.
fn deliver(b: &mut Connection, bytes: Vec<u8>) -> Vec<LinkAction> {
    let mut out = Vec::new();
    match b.peeked(&bytes[..bytes.len().min(8)]) {
        LinkAction::Read(n) => {
            assert_eq!(n as usize, bytes.len());
            out.push(b.frame_received(bytes));
        }
        other => out.push(other),
    }
    out
}

#[test]
fn initiate_with_wrong_echo_is_rejected() {
    let mut a = Connection::new(7);
    assert_eq!(a.state(), ConnectionState::Listening);
    let _ = a.handshake();
    let reply = Handshake::new(8).to_bytes();
    assert_eq!(a.initiate_reply(Some(reply)), Err(ProtocolError::HandshakeRejected));
    assert_eq!(a.state(), ConnectionState::Listening);
}

#[test]
fn initiate_without_reply_fails() {
    let mut a = Connection::new(7);
    assert_eq!(a.initiate_reply(None), Err(ProtocolError::ConnectionFailed));
    assert_eq!(a.initiate_reply(Some(b"Hello".to_vec())), Err(ProtocolError::MalformedHandshake));
    assert_eq!(a.state(), ConnectionState::Listening);
}

#[test]
fn initiate_with_own_echo_connects() {
    let mut a = Connection::new(0xabcd);
    assert_eq!(a.handshake(), b"Hello\x00\x00\xab\xcd".to_vec());
    assert_eq!(a.initiate_reply(Some(a.handshake())), Ok(()));
    assert_eq!(a.state(), ConnectionState::Connected);
    assert!(a.is_connected());
}

#[test]
fn end_to_end_connect_after_approval() {
    let mut a = Connection::new(11);
    let mut b = Connection::new(22);
    let hello = a.handshake();
    let request = b.handshake_received(IP_A, Some(hello.clone()));
    assert!(matches!(request, LinkAction::Emit(ChannelMessage::ConnectRequest(11, IP_A))));
    assert_eq!(
        b.state(),
        ConnectionState::AwaitingApproval { requester_id: 11, requester_ip: IP_A }
    );
    match b.approval(ChannelMessage::ConnectAccept) {
        LinkAction::Write(echo) => {
            assert_eq!(echo, hello);
            assert_eq!(b.state(), ConnectionState::Connected);
            assert_eq!(a.initiate_reply(Some(echo)), Ok(()));
            assert_eq!(a.state(), ConnectionState::Connected);
        }
        other => panic!("expected the echo, got {:?}", other),
    }
}

#[test]
fn refused_request_drops_the_peer() {
    let mut a = Connection::new(11);
    let mut b = Connection::new(22);
    b.handshake_received(IP_A, Some(a.handshake()));
    assert!(matches!(b.approval(ChannelMessage::Disconnect), LinkAction::Close(None)));
    assert_eq!(b.state(), ConnectionState::Listening);
    assert_eq!(a.initiate_reply(None), Err(ProtocolError::ConnectionFailed));
}

#[test]
fn malformed_or_missing_handshake_is_dropped() {
    let mut b = Connection::new(22);
    assert!(matches!(b.handshake_received(IP_A, Some(b"Hel".to_vec())), LinkAction::Close(None)));
    assert_eq!(b.state(), ConnectionState::Listening);
    assert!(matches!(b.handshake_received(IP_A, None), LinkAction::Close(None)));
    assert_eq!(b.state(), ConnectionState::Listening);
}

#[test]
fn end_to_end_chat_is_delivered_once() {
    let mut a = Connection::new(11);
    let mut b = Connection::new(22);
    connect(&mut a, &mut b);
    let bytes = a.send(&ProtocolMessage::Message(Message::new("hi".to_string()))).unwrap();
    let events = deliver(&mut b, bytes);
    assert_eq!(events.len(), 1);
    match &events[0] {
        LinkAction::Emit(ChannelMessage::Message(m)) => assert_eq!(m.message(), "hi"),
        other => panic!("expected the message, got {:?}", other),
    }
    assert_eq!(b.state(), ConnectionState::Connected);
}

#[test]
fn end_to_end_peer_exit_emits_one_disconnect() {
    let mut a = Connection::new(11);
    let mut b = Connection::new(22);
    connect(&mut a, &mut b);
    let mut a_inbound = Connection::new(11);
    connect(&mut b, &mut a_inbound);
    let events: Vec<LinkAction> = vec![a_inbound.peeked(&[])];
    let disconnects = events
        .iter()
        .filter(|e| matches!(e, LinkAction::Close(Some(ChannelMessage::Disconnect))))
        .count();
    assert_eq!(disconnects, 1);
    assert_eq!(a_inbound.state(), ConnectionState::Listening);
}

#[test]
fn partial_header_waits() {
    let mut a = Connection::new(11);
    let mut b = Connection::new(22);
    connect(&mut a, &mut b);
    assert!(matches!(b.peeked(b"chat"), LinkAction::Wait));
    assert_eq!(b.state(), ConnectionState::Connected);
    assert!(matches!(b.peeked(b"chat\x00\x00\x01\x00"), LinkAction::Read(264)));
}

#[test]
fn undecodable_frame_ends_the_connection() {
    let mut a = Connection::new(11);
    let mut b = Connection::new(22);
    connect(&mut a, &mut b);
    let action = b.frame_received(b"ping\x00\x00\x00\x00".to_vec());
    assert!(matches!(action, LinkAction::Close(Some(ChannelMessage::Disconnect))));
    assert_eq!(b.state(), ConnectionState::Listening);
}

#[test]
fn disconnect_command_shuts_the_link() {
    let mut a = Connection::new(11);
    let mut b = Connection::new(22);
    connect(&mut a, &mut b);
    assert!(matches!(b.command_polled(None), LinkAction::Wait));
    assert!(matches!(b.command_polled(Some(ChannelMessage::ConnectAccept)), LinkAction::Wait));
    assert_eq!(b.state(), ConnectionState::Connected);
    assert!(matches!(b.command_polled(Some(ChannelMessage::Disconnect)), LinkAction::Close(None)));
    assert_eq!(b.state(), ConnectionState::Listening);
}

#[test]
fn send_without_peer_is_refused() {
    let a = Connection::new(11);
    let msg = ProtocolMessage::Message(Message::new("x".to_string()));
    assert!(matches!(a.send(&msg), Err(ProtocolError::NotConnected)));
}

#[test]
fn file_is_delivered_over_the_link() {
    let mut a = Connection::new(11);
    let mut b = Connection::new(22);
    connect(&mut a, &mut b);
    let file = papercups::protocol::File::new("notes.md".to_string(), b"# hi".to_vec());
    let bytes = a.send(&ProtocolMessage::File(file)).unwrap();
    let events = deliver(&mut b, bytes);
    match &events[..] {
        [LinkAction::Emit(ChannelMessage::File(f))] => {
            assert_eq!(f.name(), "notes.md");
            assert_eq!(f.data(), &b"# hi".to_vec());
        }
        other => panic!("expected the file, got {:?}", other),
    }
}

#[test]
fn accepted_handshake_is_echoed_verbatim() {
    let mut b = Connection::new(22);
    let hello = b"HELLO\x00\x00\x00\x2a".to_vec();
    assert!(matches!(
        b.handshake_received(IP_A, Some(hello.clone())),
        LinkAction::Emit(ChannelMessage::ConnectRequest(42, IP_A))
    ));
    match b.approval(ChannelMessage::ConnectAccept) {
        LinkAction::Write(echo) => assert_eq!(echo, hello),
        other => panic!("expected the echo, got {:?}", other),
    }
}
