use bitcoin_handshake::commands::Command;
use bitcoin_handshake::errors::BitcoinHandshakeError;
use bitcoin_handshake::handshake::{
    BitcoinConnectionInfo, BitcoinConnectionProtocol, BitcoinConnectionStates,
    BitcoinOwnConfiguration, HandshakeAction, HandshakeEvent, PeerAddress,
};
use bitcoin_handshake::header::{HeaderCodec, HeaderMessage};
use bitcoin_handshake::types::BitcoinIpAddr;
use bitcoin_handshake::version::{VersionCodec, VersionMessage};

type Channel = u32;

const CH: Channel = 7;

fn peer_info() -> BitcoinConnectionInfo {
    BitcoinConnectionInfo {
        public_address: PeerAddress { ip: BitcoinIpAddr::from_ipv4_octets([1, 2, 3, 4]), port: 8333 },
        version: None,
    }
}

fn own_configuration() -> BitcoinOwnConfiguration {
    BitcoinOwnConfiguration { user_agent: "my test user agent".to_owned(), verify_version: true }
}

fn new_protocol() -> BitcoinConnectionProtocol {
    BitcoinConnectionProtocol::new(peer_info(), own_configuration())
}

/// The fake peer's `version` message: current clock, routable
/// addresses, nonzero ports, so that strict verification accepts it.
fn fake_peer_version() -> VersionMessage {
    let mut message = VersionMessage::new("/fake peer/", 0);
    message.addr_recv_ip = BitcoinIpAddr::from_ipv4_octets([8, 8, 8, 8]);
    message.addr_recv_port = 8333;
    message.addr_trans_ip = BitcoinIpAddr::from_ipv4_octets([9, 9, 9, 9]);
    message.addr_trans_port = 8333;
    message
}

/// A whole frame from the fake peer: (header bytes, payload bytes).
fn fake_version_frame(message: &VersionMessage) -> (Vec<u8>, Vec<u8>) {
    let mut payload: Vec<u8> = Vec::new();
    VersionCodec.encode(message, &mut payload).unwrap();
    let header = HeaderMessage::new(Command::Version, &payload);
    let mut header_bytes: Vec<u8> = Vec::new();
    HeaderCodec.encode(header, &mut header_bytes).unwrap();
    (header_bytes, payload)
}

fn fake_verack_header() -> Vec<u8> {
    let header = HeaderMessage::new(Command::VerAck, &[]);
    let mut bytes: Vec<u8> = Vec::new();
    HeaderCodec.encode(header, &mut bytes).unwrap();
    bytes
}

/// Drives a fresh machine up to the point where it awaits the peer's
/// `version` header, checking the client's own frame on the way, as a
/// careful peer would.
fn drive_to_await_version(protocol: &mut BitcoinConnectionProtocol) -> Channel {
    let action = protocol.advance::<Channel>(HandshakeEvent::Begin);
    assert!(matches!(action, HandshakeAction::Dial));

    let action = protocol.advance(HandshakeEvent::Dialed(CH));
    let (channel, frame) = match action {
        HandshakeAction::Write(c, frame) => (c, frame),
        _ => panic!("expected the version frame write"),
    };
    assert_eq!(channel, CH);

    // The fake peer reads the client's header and payload and verifies
    // the checksum.
    let mut buffer = frame;
    let header = HeaderCodec.decode(&mut buffer).unwrap().unwrap();
    assert_eq!(header.command, Command::Version);
    assert_eq!(buffer.len(), header.payload_length as usize);
    let recomputed = HeaderMessage::new(Command::Version, &buffer);
    assert_eq!(recomputed.checksum, header.checksum);
    let client_version = VersionCodec.decode(&buffer).unwrap().unwrap();
    assert_eq!(client_version.user_agent, protocol.user_agent);

    let action = protocol.advance(HandshakeEvent::Wrote(CH));
    assert!(matches!(action, HandshakeAction::ReadHeader(c) if c == CH));
    CH
}

/// Feeds the fake peer's `version` frame and expects the client's
/// `verack` in return.
fn exchange_version(protocol: &mut BitcoinConnectionProtocol, message: &VersionMessage) {
    let (header_bytes, payload) = fake_version_frame(message);
    let action = protocol.advance(HandshakeEvent::HeaderRead(CH, header_bytes));
    let expected_len = payload.len() as u32;
    assert!(matches!(action, HandshakeAction::ReadPayload(c, n) if c == CH && n == expected_len));

    let action = protocol.advance(HandshakeEvent::PayloadRead(CH, payload));
    let verack = match action {
        HandshakeAction::Write(c, frame) => {
            assert_eq!(c, CH);
            frame
        }
        _ => panic!("expected the verack write"),
    };
    // The fake peer expects and reads the client's verack.
    let mut buffer = verack;
    let header = HeaderCodec.decode(&mut buffer).unwrap().unwrap();
    assert_eq!(header.command, Command::VerAck);
    assert_eq!(header.payload_length, 0);
    assert!(buffer.is_empty());
}

#[test]
fn happy_path_handshake() {
    let mut protocol = new_protocol();
    drive_to_await_version(&mut protocol);
    exchange_version(&mut protocol, &fake_peer_version());

    let action = protocol.advance(HandshakeEvent::Wrote(CH));
    assert!(matches!(action, HandshakeAction::ReadHeader(c) if c == CH));

    // The fake peer sends its verack.
    let action = protocol.advance(HandshakeEvent::HeaderRead(CH, fake_verack_header()));
    match action {
        HandshakeAction::Finished(channel, info) => {
            assert_eq!(channel, CH);
            assert!(info.version.is_some());
            assert_eq!(info.version.unwrap().user_agent, "/fake peer/");
        }
        _ => panic!("expected the handshake to finish"),
    }
    assert!(matches!(protocol.state, BitcoinConnectionStates::Established));
    assert!(protocol.connection_info.version.is_some());
}

#[test]
fn peer_sends_wrong_magic() {
    let mut protocol = new_protocol();
    drive_to_await_version(&mut protocol);

    let mut bad_header: Vec<u8> = Vec::new();
    bad_header.extend_from_slice(&0x12345678u32.to_le_bytes());
    bad_header.extend_from_slice(b"version\x00\x00\x00\x00\x00");
    bad_header.extend_from_slice(&0u32.to_le_bytes());
    bad_header.extend_from_slice(&[0; 4]);

    let action = protocol.advance(HandshakeEvent::HeaderRead(CH, bad_header));
    match action {
        HandshakeAction::Failed(BitcoinHandshakeError::InvalidResponse(detail)) => {
            assert!(detail.contains("magic"), "detail was: {detail}");
        }
        _ => panic!("expected an invalid-response failure"),
    }
    assert!(matches!(protocol.state, BitcoinConnectionStates::Failed(_)));
}

#[test]
fn peer_sends_bad_checksum() {
    let mut protocol = new_protocol();
    drive_to_await_version(&mut protocol);

    let (_, payload) = fake_version_frame(&fake_peer_version());
    let mut header = HeaderMessage::new(Command::Version, &payload);
    header.checksum = [0, 0, 0, 0];
    let mut header_bytes: Vec<u8> = Vec::new();
    HeaderCodec.encode(header, &mut header_bytes).unwrap();

    let action = protocol.advance(HandshakeEvent::HeaderRead(CH, header_bytes));
    assert!(matches!(action, HandshakeAction::ReadPayload(c, _) if c == CH));
    let action = protocol.advance(HandshakeEvent::PayloadRead(CH, payload));
    match action {
        HandshakeAction::Failed(BitcoinHandshakeError::InvalidResponse(detail)) => {
            assert!(detail.contains("checksum"), "detail was: {detail}");
        }
        _ => panic!("expected an invalid-response failure"),
    }
}

#[test]
fn peer_drops_connection_after_version() {
    let mut protocol = new_protocol();
    drive_to_await_version(&mut protocol);
    exchange_version(&mut protocol, &fake_peer_version());

    let action = protocol.advance(HandshakeEvent::Wrote(CH));
    assert!(matches!(action, HandshakeAction::ReadHeader(c) if c == CH));

    // The socket is closed: every read attempt comes back empty. After
    // three attempts the handshake fails.
    let action = protocol.advance(HandshakeEvent::ReadIncomplete(CH));
    assert!(matches!(action, HandshakeAction::ReadHeader(c) if c == CH));
    let action = protocol.advance(HandshakeEvent::ReadIncomplete(CH));
    assert!(matches!(action, HandshakeAction::ReadHeader(c) if c == CH));
    let action = protocol.advance(HandshakeEvent::ReadIncomplete(CH));
    assert!(matches!(
        action,
        HandshakeAction::Failed(BitcoinHandshakeError::ProtocolError(_))
    ));
    assert!(matches!(protocol.state, BitcoinConnectionStates::Failed(_)));
}

#[test]
fn verack_instead_of_version_is_invalid_response() {
    let mut protocol = new_protocol();
    drive_to_await_version(&mut protocol);

    let action = protocol.advance(HandshakeEvent::HeaderRead(CH, fake_verack_header()));
    match action {
        HandshakeAction::Failed(BitcoinHandshakeError::InvalidResponse(detail)) => {
            assert!(detail.contains("version"), "detail was: {detail}");
        }
        _ => panic!("expected an invalid-response failure"),
    }
}

#[test]
fn version_instead_of_verack_is_protocol_error() {
    let mut protocol = new_protocol();
    drive_to_await_version(&mut protocol);
    exchange_version(&mut protocol, &fake_peer_version());
    let action = protocol.advance(HandshakeEvent::Wrote(CH));
    assert!(matches!(action, HandshakeAction::ReadHeader(c) if c == CH));

    let (header_bytes, _) = fake_version_frame(&fake_peer_version());
    let action = protocol.advance(HandshakeEvent::HeaderRead(CH, header_bytes));
    assert!(matches!(
        action,
        HandshakeAction::Failed(BitcoinHandshakeError::ProtocolError(_))
    ));
}

#[test]
fn dial_failure_is_connection_failed() {
    let mut protocol = new_protocol();
    let action = protocol.advance::<Channel>(HandshakeEvent::Begin);
    assert!(matches!(action, HandshakeAction::Dial));
    let action = protocol.advance::<Channel>(HandshakeEvent::DialFailed(
        "connection refused".to_owned(),
    ));
    match action {
        HandshakeAction::Failed(BitcoinHandshakeError::ConnectionFailed(detail)) => {
            assert_eq!(detail, "connection refused");
        }
        _ => panic!("expected a connection failure"),
    }
}

#[test]
fn timeout_and_cancellation() {
    let mut protocol = new_protocol();
    protocol.advance::<Channel>(HandshakeEvent::Begin);
    let action = protocol.advance::<Channel>(HandshakeEvent::TimedOut);
    assert!(matches!(action, HandshakeAction::Failed(BitcoinHandshakeError::Timeout)));

    let mut protocol = new_protocol();
    let action = protocol.advance::<Channel>(HandshakeEvent::Cancelled);
    assert!(matches!(action, HandshakeAction::Failed(BitcoinHandshakeError::Cancelled)));
}

#[test]
fn strict_verification_rejects_a_stale_version() {
    let mut protocol = new_protocol();
    drive_to_await_version(&mut protocol);

    let mut message = fake_peer_version();
    message.timestamp -= 100_000;
    let (header_bytes, payload) = fake_version_frame(&message);
    let action = protocol.advance(HandshakeEvent::HeaderRead(CH, header_bytes));
    assert!(matches!(action, HandshakeAction::ReadPayload(c, _) if c == CH));
    let action = protocol.advance(HandshakeEvent::PayloadRead(CH, payload));
    match action {
        HandshakeAction::Failed(BitcoinHandshakeError::InvalidResponse(detail)) => {
            assert!(detail.contains("skew"), "detail was: {detail}");
        }
        _ => panic!("expected an invalid-response failure"),
    }
}

#[test]
fn lenient_mode_accepts_a_stale_version() {
    let mut protocol = BitcoinConnectionProtocol::new(
        peer_info(),
        BitcoinOwnConfiguration { user_agent: "lenient".to_owned(), verify_version: false },
    );
    drive_to_await_version(&mut protocol);
    let mut message = fake_peer_version();
    message.timestamp -= 100_000;
    exchange_version(&mut protocol, &message);
    assert!(matches!(protocol.state, BitcoinConnectionStates::SendVerAck));
}

#[test]
fn unexpected_event_is_a_protocol_error() {
    let mut protocol = new_protocol();
    let action = protocol.advance(HandshakeEvent::Wrote(CH));
    assert!(matches!(
        action,
        HandshakeAction::Failed(BitcoinHandshakeError::ProtocolError(_))
    ));
}

#[test]
fn failed_machine_keeps_reporting_its_error() {
    let mut protocol = new_protocol();
    protocol.advance::<Channel>(HandshakeEvent::Begin);
    protocol.advance::<Channel>(HandshakeEvent::TimedOut);
    let action = protocol.advance::<Channel>(HandshakeEvent::Begin);
    assert!(matches!(action, HandshakeAction::Failed(BitcoinHandshakeError::Timeout)));
}
