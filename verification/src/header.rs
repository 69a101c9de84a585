//! The 24-byte Bitcoin wire message header: magic, command, payload
//! length and double-SHA-256 checksum.

use sha2::Digest;
use vstd::bytes::{
    spec_u32_from_le_bytes, spec_u32_to_le_bytes, u32_from_le_bytes, u32_to_le_bytes,
    lemma_auto_spec_u32_to_from_le_bytes,
};
use vstd::prelude::*;
use vstd::slice::slice_subrange;

use crate::commands::{
    lemma_command_round_trip, lemma_command_wire_len, spec_command_decode, spec_command_wire,
    Command,
};
use crate::errors::CodecError;

verus! {

broadcast use vstd::array::group_array_axioms;

/// The network magic of Bitcoin mainnet.
pub const MAINNET_MAGIC: u32 = 0xD9B4BEF9;

/// The network magic of testnet3.
pub const TESTNET_MAGIC: u32 = 0x0709110B;

/// A magic that headers may carry on the wire: mainnet or testnet.
pub open spec fn spec_valid_magic(magic: u32) -> bool {
    magic == MAINNET_MAGIC || magic == TESTNET_MAGIC
}

/// The first four bytes of SHA-256(SHA-256(payload)).
pub uninterp spec fn spec_double_sha256_checksum(payload: Seq<u8>) -> Seq<u8>;

/// Relies on `sha2::Sha256::digest`: hashing the payload twice and taking
/// the first four bytes is a function of the payload bytes alone, named
/// here by `spec_double_sha256_checksum`.
#[verifier::external_body]
pub(crate) fn sha2_checksum(payload: &[u8]) -> (r: [u8; 4])
    ensures
        r@ == spec_double_sha256_checksum(payload@),
{
    let first = sha2::Sha256::digest(payload);
    let second = sha2::Sha256::digest(&first);
    let mut out = [0u8; 4];
    out.copy_from_slice(&second[0..4]);
    out
}

/// The checksum of an empty payload, as `verack` carries it:
/// `5D F6 E0 E2`.
pub open spec fn spec_verack_checksum() -> Seq<u8> {
    seq![0x5Du8, 0xF6u8, 0xE0u8, 0xE2u8]
}

/// The checksum of an empty payload as a wire value.
pub fn verack_checksum() -> (r: [u8; 4])
    ensures
        r@ == spec_verack_checksum(),
{
    let r = [0x5Du8, 0xF6u8, 0xE0u8, 0xE2u8];
    proof {
        assert(r@ =~= spec_verack_checksum());
    }
    r
}

/// The header that precedes every Bitcoin wire message.
#[derive(Clone, Copy, Debug, PartialEq)]
#[verifier::ext_equal]
pub struct HeaderMessage {
    pub magic: u32,
    pub command: Command,
    pub payload_length: u32,
    pub checksum: [u8; 4],
}

/// The ghost image of a [`HeaderMessage`], with the checksum as its
/// byte sequence.
#[verifier::ext_equal]
pub struct HeaderMessageView {
    pub magic: u32,
    pub command: Command,
    pub payload_length: u32,
    pub checksum: Seq<u8>,
}

impl View for HeaderMessage {
    type V = HeaderMessageView;

    open spec fn view(&self) -> HeaderMessageView {
        HeaderMessageView {
            magic: self.magic,
            command: self.command,
            payload_length: self.payload_length,
            checksum: self.checksum@,
        }
    }
}

/// The 24 wire bytes of a header: magic, NUL-padded command, payload
/// length (both numbers little-endian), then the checksum.
pub open spec fn spec_header_encode(h: HeaderMessageView) -> Seq<u8> {
    spec_u32_to_le_bytes(h.magic) + spec_command_wire(h.command) + spec_u32_to_le_bytes(
        h.payload_length,
    ) + h.checksum
}

/// What reading a header field yields: not enough bytes yet, a
/// rejection, or the decoded header.
pub enum HeaderDecodeResult {
    Incomplete,
    Rejected(CodecError),
    Value(HeaderMessageView),
}

/// Reading one header from the front of `b`: 24 bytes whose magic must
/// be mainnet or testnet and whose command field must spell a known
/// command.
pub open spec fn spec_header_decode(b: Seq<u8>) -> HeaderDecodeResult {
    if b.len() < 24 {
        HeaderDecodeResult::Incomplete
    } else {
        let magic = spec_u32_from_le_bytes(b.subrange(0, 4));
        if !spec_valid_magic(magic) {
            HeaderDecodeResult::Rejected(CodecError::InvalidMagic)
        } else {
            match spec_command_decode(b.subrange(4, 16)) {
                Some(c) => HeaderDecodeResult::Value(
                    HeaderMessageView {
                        magic,
                        command: c,
                        payload_length: spec_u32_from_le_bytes(b.subrange(16, 20)),
                        checksum: b.subrange(20, 24),
                    },
                ),
                None => HeaderDecodeResult::Rejected(CodecError::UnknownCommand),
            }
        }
    }
}

impl HeaderMessage {
    /// A mainnet header for the given command and payload, carrying the
    /// payload's length and double-SHA-256 checksum.
    pub fn new(command: Command, payload: &[u8]) -> (r: Self)
        requires
            payload@.len() <= u32::MAX,
        ensures
            r.magic == MAINNET_MAGIC,
            r.command == command,
            r.payload_length == payload@.len(),
            r.checksum@ == spec_double_sha256_checksum(payload@),
    {
        let checksum = sha2_checksum(payload);
        let payload_length = payload.len() as u32;
        HeaderMessage { command, payload_length, magic: Self::get_magic(), checksum }
    }

    /// A mainnet header for a command without a payload, such as
    /// `verack`, with the checksum supplied by the caller.
    pub fn new_without_payload(command: Command, checksum: [u8; 4]) -> (r: Self)
        ensures
            r.magic == MAINNET_MAGIC,
            r.command == command,
            r.payload_length == 0,
            r.checksum == checksum,
    {
        HeaderMessage { command, payload_length: 0, magic: Self::get_magic(), checksum }
    }

    /// The magic that outbound headers carry: this client speaks to
    /// mainnet.
    pub fn get_magic() -> (r: u32)
        ensures
            r == MAINNET_MAGIC,
    {
        MAINNET_MAGIC
    }
}

/// Encoder and decoder for the 24-byte wire header.
pub struct HeaderCodec;

impl HeaderCodec {
    /// Appends the 24 wire bytes of `item` to `dst`. A header whose
    /// magic is neither mainnet nor testnet is rejected with
    /// `InvalidMagic` and `dst` is left unchanged.
    pub fn encode(&mut self, item: HeaderMessage, dst: &mut Vec<u8>) -> (r: Result<
        (),
        CodecError,
    >)
        ensures
            spec_valid_magic(item.magic) ==> r is Ok && final(dst)@ == old(dst)@
                + spec_header_encode(item@),
            !spec_valid_magic(item.magic) ==> (r matches Err(e) && e == CodecError::InvalidMagic
                && final(dst)@ == old(dst)@),
    {
        if item.magic != MAINNET_MAGIC && item.magic != TESTNET_MAGIC {
            return Err(CodecError::InvalidMagic);
        }
        let mut magic_bytes = u32_to_le_bytes(item.magic);
        dst.append(&mut magic_bytes);
        let command_buf = match item.command.encode() {
            Ok(b) => b,
            Err(_) => {
                proof {
                    assert(false);
                }
                return Err(CodecError::UnknownCommand);
            },
        };
        let mut command_bytes = vstd::slice::slice_to_vec(command_buf.as_slice());
        dst.append(&mut command_bytes);
        let mut length_bytes = u32_to_le_bytes(item.payload_length);
        dst.append(&mut length_bytes);
        let mut checksum_bytes = vstd::slice::slice_to_vec(item.checksum.as_slice());
        dst.append(&mut checksum_bytes);
        proof {
            assert(final(dst)@ =~= old(dst)@ + spec_header_encode(item@));
        }
        Ok(())
    }

    /// Reads one header from the front of `src`. With fewer than 24
    /// bytes nothing is consumed and `Ok(None)` asks for more input;
    /// otherwise 24 bytes are consumed, whether they parse or not, as a
    /// stream decoder must.
    pub fn decode(&mut self, src: &mut Vec<u8>) -> (r: Result<Option<HeaderMessage>, CodecError>)
        ensures
            match r {
                Ok(opt) => match opt {
                    None => spec_header_decode(old(src)@) is Incomplete && final(src)@ == old(
                        src,
                    )@,
                    Some(h) => spec_header_decode(old(src)@) == HeaderDecodeResult::Value(h@)
                        && final(src)@ == old(src)@.skip(24),
                },
                Err(e) => spec_header_decode(old(src)@) == HeaderDecodeResult::Rejected(e)
                    && final(src)@ == old(src)@.skip(24),
            },
    {
        if src.len() < 24 {
            return Ok(None);
        }
        let magic = u32_from_le_bytes(slice_subrange(src.as_slice(), 0, 4));
        let mut command_buf = [0u8; 12];
        let mut i: usize = 0;
        while i < 12
            invariant
                i <= 12,
                src@.len() >= 24,
                command_buf@.len() == 12,
                forall|j: int| 0 <= j < i ==> command_buf@[j] == src@[4 + j],
            decreases 12 - i,
        {
            command_buf[i] = src[4 + i];
            i = i + 1;
        }
        let payload_length = u32_from_le_bytes(slice_subrange(src.as_slice(), 16, 20));
        let mut checksum = [0u8; 4];
        let mut k: usize = 0;
        while k < 4
            invariant
                k <= 4,
                src@.len() >= 24,
                checksum@.len() == 4,
                forall|j: int| 0 <= j < k ==> checksum@[j] == src@[20 + j],
            decreases 4 - k,
        {
            checksum[k] = src[20 + k];
            k = k + 1;
        }
        let rest = src.split_off(24);
        *src = rest;
        proof {
            assert(command_buf@ =~= old(src)@.subrange(4, 16));
            assert(checksum@ =~= old(src)@.subrange(20, 24));
            assert(final(src)@ =~= old(src)@.skip(24));
        }
        if magic != MAINNET_MAGIC && magic != TESTNET_MAGIC {
            return Err(CodecError::InvalidMagic);
        }
        match Command::decode(command_buf) {
            Ok(command) => Ok(Some(HeaderMessage { magic, command, payload_length, checksum })),
            Err(_) => Err(CodecError::UnknownCommand),
        }
    }
}

/// Decoding undoes encoding: the 24 wire bytes of a header with a valid
/// magic and a 4-byte checksum, however continued, parse back into
/// exactly its fields.
pub proof fn lemma_header_round_trip(h: HeaderMessageView, rest: Seq<u8>)
    requires
        spec_valid_magic(h.magic),
        h.checksum.len() == 4,
    ensures
        spec_header_encode(h).len() == 24,
        spec_header_decode(spec_header_encode(h) + rest) == HeaderDecodeResult::Value(h),
{
    lemma_auto_spec_u32_to_from_le_bytes();
    lemma_command_wire_len(h.command);
    lemma_command_round_trip(h.command);
    let b = spec_header_encode(h) + rest;
    assert(b.subrange(0, 4) =~= spec_u32_to_le_bytes(h.magic));
    assert(b.subrange(4, 16) =~= spec_command_wire(h.command));
    assert(b.subrange(16, 20) =~= spec_u32_to_le_bytes(h.payload_length));
    assert(b.subrange(20, 24) =~= h.checksum);
    match spec_header_decode(b) {
        HeaderDecodeResult::Value(w) => {
            assert(w =~= h);
        },
        _ => {
            assert(false);
        },
    }
}

} // verus!
