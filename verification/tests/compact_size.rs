use bitcoin_handshake::errors::CodecError;
use bitcoin_handshake::types::CompactSize;

#[test]
fn boundary_values_round_trip() {
    let cases: [(u64, usize); 8] = [
        (0, 1),
        (0xFC, 1),
        (0xFD, 3),
        (0xFFFF, 3),
        (0x10000, 5),
        (0xFFFF_FFFF, 5),
        (0x1_0000_0000, 9),
        (u64::MAX, 9),
    ];
    for (value, expected_len) in cases {
        let encoded = CompactSize::new(value).encode();
        assert_eq!(encoded.len(), expected_len, "wrong width for {value:#x}");
        let (decoded, consumed) = CompactSize::decode(&encoded).unwrap();
        assert_eq!(decoded.value(), value);
        assert_eq!(consumed, expected_len);
    }
}

#[test]
fn exact_small_encoding() {
    assert_eq!(CompactSize::new(0xAB).encode(), vec![0xAB]);
    assert_eq!(CompactSize::new(0xFD).encode(), vec![0xFD, 0xFD, 0x00]);
    assert_eq!(CompactSize::new(0x1234).encode(), vec![0xFD, 0x34, 0x12]);
    assert_eq!(
        CompactSize::new(0x12345678).encode(),
        vec![0xFE, 0x78, 0x56, 0x34, 0x12]
    );
}

#[test]
fn decode_empty_is_short_buffer() {
    assert_eq!(CompactSize::decode(&[]).unwrap_err(), CodecError::ShortBuffer);
}

#[test]
fn decode_truncated_is_short_buffer() {
    assert_eq!(
        CompactSize::decode(&[0xFD, 0x01]).unwrap_err(),
        CodecError::ShortBuffer
    );
    assert_eq!(
        CompactSize::decode(&[0xFE, 1, 2, 3]).unwrap_err(),
        CodecError::ShortBuffer
    );
    assert_eq!(
        CompactSize::decode(&[0xFF, 1, 2, 3, 4, 5, 6, 7]).unwrap_err(),
        CodecError::ShortBuffer
    );
}

#[test]
fn decode_accepts_non_canonical_and_trailing_bytes() {
    let (decoded, consumed) = CompactSize::decode(&[0xFD, 0x05, 0x00, 0x99]).unwrap();
    assert_eq!(decoded.value(), 5);
    assert_eq!(consumed, 3);
}

#[test]
fn from_length_counts_bytes() {
    let data = vec![1u8, 2, 3, 4, 5, 6];
    let size = CompactSize::from_length(&data);
    assert_eq!(size.value_as_usize(), 6);
}
