use bitcoin_handshake::commands::Command;

fn all_commands() -> Vec<Command> {
    vec![
        Command::Version,
        Command::VerAck,
        Command::Addr,
        Command::Inv,
        Command::GetData,
        Command::NotFound,
        Command::GetBlocks,
        Command::GetHeaders,
        Command::Tx,
        Command::Block,
        Command::Headers,
        Command::GetAddr,
        Command::MemPool,
        Command::CheckOrder,
        Command::SubmitOrder,
        Command::Reply,
        Command::Ping,
        Command::Pong,
        Command::Reject,
        Command::FilterLoad,
        Command::FilterAdd,
        Command::FilterClear,
        Command::MerkleBlock,
        Command::Alert,
        Command::SendHeaders,
        Command::FeeFilter,
        Command::SendCmpct,
        Command::CmpctBlock,
        Command::GetBlockTxn,
        Command::BlockTxn,
    ]
}

#[test]
fn test_enum_to_string() {
    assert_eq!(Command::Version.name(), "version");
    assert_eq!(Command::VerAck.name(), "verack");
}

#[test]
fn test_string_to_enum() {
    assert_eq!("version".parse::<Command>().unwrap(), Command::Version);
    assert_eq!("verack".parse::<Command>().unwrap(), Command::VerAck);
}

#[test]
fn test_encode_decode_all_commands() {
    for command in all_commands() {
        let encoded = command.encode().unwrap();
        let decoded = Command::decode(encoded)
            .expect(&format!("Decoding failed for command: {}", command.name()));
        assert_eq!(command, decoded, "Failed on command: {:?}", command);
    }
}

#[test]
fn test_decode_invalid_command() {
    let invalid_array = [b'x'; 12];
    assert!(Command::decode(invalid_array).is_err());
}

#[test]
fn test_encode_is_nul_padded() {
    let encoded = Command::VerAck.encode().unwrap();
    assert_eq!(
        encoded,
        [b'v', b'e', b'r', b'a', b'c', b'k', 0, 0, 0, 0, 0, 0]
    );
}

#[test]
fn test_decode_ignores_bytes_after_first_nul() {
    let mut field = [0u8; 12];
    field[..7].copy_from_slice(b"version");
    field[8..].copy_from_slice(b"junk");
    assert_eq!(Command::decode(field).unwrap(), Command::Version);
}

#[test]
fn test_decode_rejects_name_without_nul_boundary() {
    let mut field = [0u8; 12];
    field[..8].copy_from_slice(b"versionx");
    assert!(Command::decode(field).is_err());
}

#[test]
fn test_parse_all_names_round_trip() {
    for command in all_commands() {
        let name = command.name();
        assert_eq!(name.parse::<Command>().unwrap(), command);
    }
}
