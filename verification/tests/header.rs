use bitcoin_handshake::commands::Command;
use bitcoin_handshake::errors::CodecError;
use bitcoin_handshake::header::{verack_checksum, HeaderCodec, HeaderMessage};

const MAINNET_MAGIC: u32 = 0xD9B4BEF9;

#[test]
fn decode_valid_header() {
    let mut codec = HeaderCodec;
    let mut buf: Vec<u8> = Vec::new();
    buf.extend_from_slice(&MAINNET_MAGIC.to_le_bytes());
    buf.extend_from_slice(b"version\x00\x00\x00\x00\x00");
    buf.extend_from_slice(&100u32.to_le_bytes());
    buf.extend_from_slice(&[0xAB; 4]);

    match codec.decode(&mut buf) {
        Ok(Some(header)) => {
            assert_eq!(header.magic, MAINNET_MAGIC);
        }
        Ok(None) => panic!("Failed to decode a valid header, buffer to short"),
        Err(e) => panic!("Failed to decode a valid header {:?}", e),
    }
}

#[test]
fn decode_invalid_magic() {
    let mut codec = HeaderCodec;
    let mut buf: Vec<u8> = Vec::new();
    buf.extend_from_slice(&0x12345678u32.to_le_bytes());
    buf.extend_from_slice(b"version\x00\x00\x00\x00\x00");
    buf.extend_from_slice(&100u32.to_le_bytes());
    buf.extend_from_slice(&[0xAB; 4]);

    match codec.decode(&mut buf) {
        Err(e) => {
            assert_eq!(e, CodecError::InvalidMagic);
        }
        _ => panic!("Expected an error due to invalid magic number"),
    }
}

#[test]
fn mainnet_verack_frame_encode() {
    let header = HeaderMessage::new_without_payload(Command::VerAck, verack_checksum());
    let mut codec = HeaderCodec;
    let mut wire: Vec<u8> = Vec::new();
    codec.encode(header, &mut wire).unwrap();
    let expected: Vec<u8> = vec![
        0xF9, 0xBE, 0xB4, 0xD9, // mainnet magic, little-endian on the wire
        0x76, 0x65, 0x72, 0x61, 0x63, 0x6B, 0x00, 0x00, 0x00, 0x00, 0x00, 0x00, // "verack"
        0x00, 0x00, 0x00, 0x00, // payload length 0
        0x5D, 0xF6, 0xE0, 0xE2, // empty-payload checksum
    ];
    assert_eq!(wire, expected);
}

#[test]
fn mainnet_empty_payload_checksum() {
    let header = HeaderMessage::new(Command::VerAck, &[]);
    assert_eq!(header.checksum, [0x5D, 0xF6, 0xE0, 0xE2]);
}

#[test]
fn checksum_depends_on_payload() {
    let a = HeaderMessage::new(Command::Version, &[1, 2, 3]);
    let b = HeaderMessage::new(Command::Version, &[1, 2, 4]);
    assert_ne!(a.checksum, b.checksum);
    assert_ne!(a.checksum, [1, 2, 3, 0]);
}

#[test]
fn header_round_trip() {
    let header = HeaderMessage::new(Command::Ping, &[9, 9, 9, 9]);
    let mut codec = HeaderCodec;
    let mut wire: Vec<u8> = Vec::new();
    codec.encode(header, &mut wire).unwrap();
    assert_eq!(wire.len(), 24);
    let decoded = codec.decode(&mut wire).unwrap().unwrap();
    assert_eq!(decoded, header);
    assert!(wire.is_empty());
}

#[test]
fn encode_rejects_unknown_magic() {
    let header = HeaderMessage {
        magic: 0x12345678,
        command: Command::Version,
        payload_length: 0,
        checksum: [0; 4],
    };
    let mut codec = HeaderCodec;
    let mut wire: Vec<u8> = Vec::new();
    assert_eq!(codec.encode(header, &mut wire).unwrap_err(), CodecError::InvalidMagic);
    assert!(wire.is_empty());
}

#[test]
fn decode_short_buffer_asks_for_more() {
    let mut codec = HeaderCodec;
    let mut buf: Vec<u8> = vec![0xF9, 0xBE, 0xB4];
    assert!(codec.decode(&mut buf).unwrap().is_none());
    assert_eq!(buf.len(), 3);
}

#[test]
fn decode_unknown_command_is_rejected() {
    let mut codec = HeaderCodec;
    let mut buf: Vec<u8> = Vec::new();
    buf.extend_from_slice(&MAINNET_MAGIC.to_le_bytes());
    buf.extend_from_slice(b"nonsense\x00\x00\x00\x00");
    buf.extend_from_slice(&0u32.to_le_bytes());
    buf.extend_from_slice(&[0; 4]);
    assert_eq!(codec.decode(&mut buf).unwrap_err(), CodecError::UnknownCommand);
}

#[test]
fn decode_consumes_exactly_one_header() {
    let header = HeaderMessage::new(Command::Ping, &[1, 2]);
    let mut codec = HeaderCodec;
    let mut wire: Vec<u8> = Vec::new();
    codec.encode(header, &mut wire).unwrap();
    wire.extend_from_slice(&[1, 2, 0xEE]);
    let decoded = codec.decode(&mut wire).unwrap().unwrap();
    assert_eq!(decoded.payload_length, 2);
    assert_eq!(wire, vec![1, 2, 0xEE]);
}
