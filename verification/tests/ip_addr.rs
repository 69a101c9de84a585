use bitcoin_handshake::errors::CodecError;
use bitcoin_handshake::types::BitcoinIpAddr;

#[test]
fn ipv4_loopback_encodes_as_mapped_form() {
    let addr = BitcoinIpAddr::from_ipv4_octets([127, 0, 0, 1]);
    assert_eq!(
        addr.to_bytes(),
        [0, 0, 0, 0, 0, 0, 0, 0, 0, 0, 0xFF, 0xFF, 0x7F, 0x00, 0x00, 0x01]
    );
}

#[test]
fn ipv4_loopback_decodes_back_to_ipv4_form() {
    let wire = [0, 0, 0, 0, 0, 0, 0, 0, 0, 0, 0xFF, 0xFF, 0x7F, 0x00, 0x00, 0x01];
    let addr = BitcoinIpAddr::try_from_bytes(&wire).unwrap();
    assert!(addr.is_ipv4_mapped());
    assert_eq!(addr.ipv4_octets(), Some([127, 0, 0, 1]));
    assert!(addr.is_loopback());
}

#[test]
fn wrong_length_is_bad_length() {
    assert_eq!(
        BitcoinIpAddr::try_from_bytes(&[1, 2, 3]).unwrap_err(),
        CodecError::BadLength
    );
    assert_eq!(
        BitcoinIpAddr::try_from_bytes(&[0u8; 17]).unwrap_err(),
        CodecError::BadLength
    );
}

#[test]
fn unspecified_and_loopback_classification() {
    assert!(BitcoinIpAddr::unspecified().is_unspecified());
    assert!(BitcoinIpAddr::from_ipv4_octets([0, 0, 0, 0]).is_unspecified());
    assert!(!BitcoinIpAddr::from_ipv4_octets([8, 8, 8, 8]).is_unspecified());
    let mut v6_loopback = [0u8; 16];
    v6_loopback[15] = 1;
    assert!(BitcoinIpAddr::from_ipv6_octets(v6_loopback).is_loopback());
    assert!(BitcoinIpAddr::from_ipv4_octets([127, 5, 5, 5]).is_loopback());
    assert!(!BitcoinIpAddr::from_ipv4_octets([128, 0, 0, 1]).is_loopback());
}

#[test]
fn plain_ipv6_address_is_not_mapped() {
    let addr = BitcoinIpAddr::from_ipv6_octets([
        0x20, 0x01, 0x0d, 0xb8, 0, 0, 0, 0, 0, 0, 0, 0, 0, 0, 0, 1,
    ]);
    assert!(!addr.is_ipv4_mapped());
    assert_eq!(addr.ipv4_octets(), None);
    assert!(!addr.is_unspecified());
    assert!(!addr.is_loopback());
}
