use bitcoin_handshake::errors::CodecError;
use bitcoin_handshake::types::{BitcoinIpAddr, CompactSize};
use bitcoin_handshake::version::{VersionCodec, VersionMessage, VersionVerificationError};

fn sample_message() -> VersionMessage {
    VersionMessage {
        version: 70015,
        services: 1,
        timestamp: 1_700_000_000,
        addr_recv_services: 1,
        addr_recv_ip: BitcoinIpAddr::from_ipv4_octets([8, 8, 8, 8]),
        addr_recv_port: 8333,
        addr_trans_services: 1,
        addr_trans_ip: BitcoinIpAddr::from_ipv4_octets([9, 9, 9, 9]),
        addr_trans_port: 8333,
        nonce: 0x0123_4567_89AB_CDEF,
        user_agent_bytes: CompactSize::new(8),
        user_agent: "/agent:/".to_owned(),
        start_height: 100,
        relay: true,
    }
}

#[test]
fn encode_decode_version() {
    let expected_message = VersionMessage::new("user_agent", 70);
    let mut codec = VersionCodec;
    let mut bytes: Vec<u8> = Vec::new();
    codec.encode(&expected_message, &mut bytes).unwrap();

    let decoded_message = codec.decode(&bytes).unwrap().unwrap();
    assert_eq!(expected_message, decoded_message);
}

#[test]
fn full_message_round_trip() {
    let message = sample_message();
    let mut codec = VersionCodec;
    let mut bytes: Vec<u8> = Vec::new();
    codec.encode(&message, &mut bytes).unwrap();
    let decoded = codec.decode(&bytes).unwrap().unwrap();
    assert_eq!(decoded, message);
}

#[test]
fn ports_are_big_endian_on_the_wire() {
    let message = sample_message();
    let mut codec = VersionCodec;
    let mut bytes: Vec<u8> = Vec::new();
    codec.encode(&message, &mut bytes).unwrap();
    // 8333 = 0x208D: high byte first at the receive-address port, offset 44.
    assert_eq!(bytes[44], 0x20);
    assert_eq!(bytes[45], 0x8D);
}

#[test]
fn short_prefix_is_incomplete() {
    let mut codec = VersionCodec;
    let bytes = vec![0u8; 85];
    assert!(codec.decode(&bytes).unwrap().is_none());
}

#[test]
fn truncated_user_agent_is_incomplete() {
    let message = sample_message();
    let mut codec = VersionCodec;
    let mut bytes: Vec<u8> = Vec::new();
    codec.encode(&message, &mut bytes).unwrap();
    bytes.truncate(bytes.len() - 3);
    assert!(codec.decode(&bytes).unwrap().is_none());
}

#[test]
fn wide_length_prefix_without_bytes_is_short_buffer() {
    let mut bytes = vec![0u8; 86];
    // A 0xFF length marker announces eight more bytes that are not there.
    bytes[80] = 0xFF;
    let mut codec = VersionCodec;
    assert_eq!(codec.decode(&bytes).unwrap_err(), CodecError::ShortBuffer);
}

#[test]
fn invalid_utf8_user_agent_is_rejected() {
    let message = sample_message();
    let mut codec = VersionCodec;
    let mut bytes: Vec<u8> = Vec::new();
    codec.encode(&message, &mut bytes).unwrap();
    // The user agent starts right after the one-byte length at offset 80.
    bytes[81] = 0xFF;
    assert_eq!(codec.decode(&bytes).unwrap_err(), CodecError::InvalidEncoding);
}

#[test]
fn verification_accepts_a_sound_message() {
    let message = sample_message();
    assert_eq!(message.verify_message(1_700_000_100), Ok(()));
}

#[test]
fn verification_rejects_each_fault() {
    let now = 1_700_000_000;

    let mut m = sample_message();
    m.version = 70000;
    assert_eq!(m.verify_message(now), Err(VersionVerificationError::UnsupportedVersion));

    let mut m = sample_message();
    m.services = 2;
    assert_eq!(m.verify_message(now), Err(VersionVerificationError::UnsupportedServices));

    let m = sample_message();
    assert_eq!(
        m.verify_message(now + 5401),
        Err(VersionVerificationError::TimestampSkew)
    );
    assert_eq!(m.verify_message(now + 5400), Ok(()));

    let mut m = sample_message();
    m.addr_recv_ip = BitcoinIpAddr::from_ipv4_octets([127, 0, 0, 1]);
    assert_eq!(m.verify_message(now), Err(VersionVerificationError::InvalidAddress));

    let mut m = sample_message();
    m.addr_trans_ip = BitcoinIpAddr::unspecified();
    assert_eq!(m.verify_message(now), Err(VersionVerificationError::InvalidAddress));

    let mut m = sample_message();
    m.addr_trans_port = 0;
    assert_eq!(m.verify_message(now), Err(VersionVerificationError::InvalidPort));

    let mut m = sample_message();
    m.user_agent = "x".repeat(257);
    assert_eq!(m.verify_message(now), Err(VersionVerificationError::UserAgentTooLong));

    let mut m = sample_message();
    m.start_height = -1;
    assert_eq!(m.verify_message(now), Err(VersionVerificationError::InvalidStartHeight));
}

#[test]
fn new_message_carries_the_defaults() {
    let message = VersionMessage::new("my agent", 42);
    assert_eq!(message.version, 70015);
    assert_eq!(message.services, 1);
    assert_eq!(message.addr_recv_ip.to_bytes(), [0u8; 16]);
    assert_eq!(message.addr_recv_port, 0);
    assert_eq!(message.addr_trans_port, 0);
    assert_eq!(message.user_agent, "my agent");
    assert_eq!(message.user_agent_bytes.value_as_usize(), 8);
    assert_eq!(message.start_height, 42);
    assert!(!message.relay);
}

#[test]
fn non_canonical_length_prefix_decodes_and_normalizes() {
    let message = sample_message();
    let mut codec = VersionCodec;
    let mut canonical: Vec<u8> = Vec::new();
    codec.encode(&message, &mut canonical).unwrap();
    // The canonical one-byte length at offset 80 widened to the 0xFD form.
    let mut widened: Vec<u8> = canonical[..80].to_vec();
    widened.push(0xFD);
    widened.push(canonical[80]);
    widened.push(0x00);
    widened.extend_from_slice(&canonical[81..]);
    let decoded = codec.decode(&widened).unwrap().unwrap();
    assert_eq!(decoded, message);
    // Re-encoding yields the minimal form again.
    let mut reencoded: Vec<u8> = Vec::new();
    codec.encode(&decoded, &mut reencoded).unwrap();
    assert_eq!(reencoded, canonical);
}
