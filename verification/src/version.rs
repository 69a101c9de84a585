//! The Bitcoin `version` message: its payload codec, its outbound
//! construction, and the semantic checks applied to an inbound one.

use vstd::bytes::{
    spec_u16_to_le_bytes, spec_u32_from_le_bytes, spec_u32_to_le_bytes, spec_u64_from_le_bytes,
    spec_u64_to_le_bytes, u32_from_le_bytes, u32_to_le_bytes, u64_from_le_bytes, u64_to_le_bytes,
    lemma_auto_spec_u32_to_from_le_bytes, lemma_auto_spec_u64_to_from_le_bytes,
};
use vstd::prelude::*;
use vstd::slice::{slice_index_get, slice_subrange, slice_to_vec};
use vstd::string::StringSliceAdditionalSpecFns;
use vstd::utf8::{
    decode_utf8, encode_utf8, encode_utf8_decode_utf8, encode_utf8_valid_utf8, valid_utf8,
};

use crate::errors::CodecError;
use crate::types::{
    lemma_compact_size_round_trip, spec_compact_size_decode, spec_compact_size_encode,
    BitcoinIpAddr, CompactSize,
};

verus! {

/// Relies on `chrono::Utc::now` and `DateTime::timestamp`: the current
/// UNIX time in whole seconds. Nothing is assumed of the value.
#[verifier::external_body]
pub(crate) fn unix_timestamp_now() -> i64 {
    chrono::Utc::now().timestamp()
}

/// Relies on `rand::random`: a fresh 64-bit value. Nothing is assumed of
/// the value.
#[verifier::external_body]
pub(crate) fn random_nonce() -> u64 {
    rand::random()
}

/// Relies on `String::from_utf8`: it succeeds exactly on valid UTF-8,
/// and the resulting text reads those bytes as UTF-8.
#[verifier::external_body]
fn string_from_utf8(bytes: Vec<u8>) -> (r: Result<String, CodecError>)
    ensures
        r matches Ok(s) ==> valid_utf8(bytes@) && s@ == decode_utf8(bytes@),
        r matches Err(e) ==> e == CodecError::InvalidEncoding && !valid_utf8(bytes@),
{
    match String::from_utf8(bytes) {
        Ok(s) => Ok(s),
        Err(_) => Err(CodecError::InvalidEncoding),
    }
}

/// A 16-bit value in big-endian order, as the Bitcoin wire format wants
/// the two port fields.
pub open spec fn spec_u16_to_be_bytes(x: u16) -> Seq<u8> {
    seq![(x >> 8) as u8, (x & 0xFF) as u8]
}

/// The 16-bit value read from two big-endian bytes.
pub open spec fn spec_u16_from_be_bytes(s: Seq<u8>) -> u16
    recommends
        s.len() == 2,
{
    (((s[0] as u16) << 8) | (s[1] as u16)) as u16
}

fn u16_to_be_bytes(x: u16) -> (r: [u8; 2])
    ensures
        r@ == spec_u16_to_be_bytes(x),
{
    let r = [#[verifier::truncate] ((x >> 8) as u8), #[verifier::truncate] ((x & 0xFF) as u8)];
    proof {
        assert(r@ =~= spec_u16_to_be_bytes(x));
    }
    r
}

fn u16_from_be_bytes(s: &[u8]) -> (r: u16)
    requires
        s@.len() == 2,
    ensures
        r == spec_u16_from_be_bytes(s@),
{
    let b0 = *slice_index_get(s, 0);
    let b1 = *slice_index_get(s, 1);
    let hi: u16 = (b0 as u16) << 8;
    hi | (b1 as u16)
}

/// Big-endian 16-bit encode and decode undo one another.
pub proof fn lemma_u16_be_round_trip(x: u16)
    ensures
        spec_u16_from_be_bytes(spec_u16_to_be_bytes(x)) == x,
        spec_u16_to_be_bytes(x).len() == 2,
{
    let s = spec_u16_to_be_bytes(x);
    assert(s[0] == (x >> 8) as u8 && s[1] == (x & 0xFF) as u8);
    assert(((((x >> 8) as u8) as u16) << 8 | ((x & 0xFF) as u8) as u16) as u16 == x)
        by (bit_vector);
}

/// The ghost image of a [`VersionMessage`]: plain values, with the
/// user agent as its character sequence and addresses as their 16 bytes.
#[verifier::ext_equal]
pub struct VersionMessageView {
    pub version: i32,
    pub services: u64,
    pub timestamp: i64,
    pub addr_recv_services: u64,
    pub addr_recv_ip: Seq<u8>,
    pub addr_recv_port: u16,
    pub addr_trans_services: u64,
    pub addr_trans_ip: Seq<u8>,
    pub addr_trans_port: u16,
    pub nonce: u64,
    pub user_agent_bytes: u64,
    pub user_agent: Seq<char>,
    pub start_height: i32,
    pub relay: bool,
}

/// A Bitcoin `version` message.
#[derive(Debug, PartialEq)]
pub struct VersionMessage {
    pub version: i32,
    pub services: u64,
    pub timestamp: i64,
    pub addr_recv_services: u64,
    pub addr_recv_ip: BitcoinIpAddr,
    pub addr_recv_port: u16,
    pub addr_trans_services: u64,
    pub addr_trans_ip: BitcoinIpAddr,
    pub addr_trans_port: u16,
    pub nonce: u64,
    pub user_agent_bytes: CompactSize,
    pub user_agent: String,
    pub start_height: i32,
    pub relay: bool,
}

impl View for VersionMessage {
    type V = VersionMessageView;

    open spec fn view(&self) -> VersionMessageView {
        VersionMessageView {
            version: self.version,
            services: self.services,
            timestamp: self.timestamp,
            addr_recv_services: self.addr_recv_services,
            addr_recv_ip: self.addr_recv_ip@,
            addr_recv_port: self.addr_recv_port,
            addr_trans_services: self.addr_trans_services,
            addr_trans_ip: self.addr_trans_ip@,
            addr_trans_port: self.addr_trans_port,
            nonce: self.nonce,
            user_agent_bytes: self.user_agent_bytes@,
            user_agent: self.user_agent@,
            start_height: self.start_height,
            relay: self.relay,
        }
    }
}

/// The payload bytes of a `version` message: all numbers little-endian
/// except the two ports, which are big-endian by the Bitcoin wire
/// convention; the user agent length-prefixed by a `CompactSize`.
pub open spec fn spec_version_encode(m: VersionMessageView) -> Seq<u8> {
    spec_u32_to_le_bytes(m.version as u32) + spec_u64_to_le_bytes(m.services)
        + spec_u64_to_le_bytes(m.timestamp as u64) + spec_u64_to_le_bytes(m.addr_recv_services)
        + m.addr_recv_ip + spec_u16_to_be_bytes(m.addr_recv_port) + spec_u64_to_le_bytes(
        m.addr_trans_services,
    ) + m.addr_trans_ip + spec_u16_to_be_bytes(m.addr_trans_port) + spec_u64_to_le_bytes(m.nonce)
        + spec_compact_size_encode(encode_utf8(m.user_agent).len() as u64) + encode_utf8(
        m.user_agent,
    ) + spec_u32_to_le_bytes(m.start_height as u32) + seq![
        if m.relay {
            1u8
        } else {
            0u8
        },
    ]
}

impl VersionMessage {
    /// The stored user-agent length matches the user agent, and the two
    /// addresses hold their 16 bytes.
    pub open spec fn wf(self) -> bool {
        &&& self@.user_agent_bytes == encode_utf8(self@.user_agent).len()
        &&& self@.addr_recv_ip.len() == 16
        &&& self@.addr_trans_ip.len() == 16
    }

    /// The outbound `version` message this client advertises: protocol
    /// 70015, `NODE_NETWORK` services, both addresses unspecified with
    /// port zero, the current time, a random nonce, and no relay.
    pub fn new(user_agent: &str, start_height: i32) -> (r: Self)
        ensures
            r@.version == 70015,
            r@.services == 1,
            r@.addr_recv_services == 1,
            r@.addr_recv_ip =~= seq![0u8; 16],
            r@.addr_recv_port == 0,
            r@.addr_trans_services == 1,
            r@.addr_trans_ip =~= seq![0u8; 16],
            r@.addr_trans_port == 0,
            r@.user_agent == user_agent@,
            r@.user_agent_bytes == encode_utf8(user_agent@).len(),
            r@.start_height == start_height,
            r@.relay == false,
            r.wf(),
    {
        let agent_bytes: &[u8] = user_agent.as_bytes();
        VersionMessage {
            version: 70015,
            services: 1,
            timestamp: unix_timestamp_now(),
            addr_recv_services: 1,
            addr_recv_ip: BitcoinIpAddr::unspecified(),
            addr_recv_port: 0,
            addr_trans_services: 1,
            addr_trans_ip: BitcoinIpAddr::unspecified(),
            addr_trans_port: 0,
            nonce: random_nonce(),
            user_agent_bytes: CompactSize::from_length(agent_bytes),
            user_agent: user_agent.to_owned(),
            start_height,
            relay: false,
        }
    }

    /// A value-preserving copy: every field carries over.
    pub fn duplicate(&self) -> (r: Self)
        ensures
            r@ == self@,
    {
        let r = VersionMessage {
            version: self.version,
            services: self.services,
            timestamp: self.timestamp,
            addr_recv_services: self.addr_recv_services,
            addr_recv_ip: self.addr_recv_ip,
            addr_recv_port: self.addr_recv_port,
            addr_trans_services: self.addr_trans_services,
            addr_trans_ip: self.addr_trans_ip,
            addr_trans_port: self.addr_trans_port,
            nonce: self.nonce,
            user_agent_bytes: self.user_agent_bytes,
            user_agent: crate::errors::copy_string(&self.user_agent),
            start_height: self.start_height,
            relay: self.relay,
        };
        proof {
            assert(r@ =~= self@);
        }
        r
    }
}

/// Encoder and decoder for the `version` payload.
pub struct VersionCodec;

impl VersionCodec {
    /// Appends the payload bytes of `msg` to `dst`; encoding never
    /// fails.
    pub fn encode(&mut self, msg: &VersionMessage, dst: &mut Vec<u8>) -> (r: Result<
        (),
        CodecError,
    >)
        ensures
            r is Ok,
            final(dst)@ == old(dst)@ + spec_version_encode(msg@),
    {
        let mut piece = u32_to_le_bytes(#[verifier::truncate] (msg.version as u32));
        dst.append(&mut piece);
        let mut piece = u64_to_le_bytes(msg.services);
        dst.append(&mut piece);
        let mut piece = u64_to_le_bytes(#[verifier::truncate] (msg.timestamp as u64));
        dst.append(&mut piece);
        let mut piece = u64_to_le_bytes(msg.addr_recv_services);
        dst.append(&mut piece);
        let recv_ip = msg.addr_recv_ip.to_bytes();
        let mut piece = slice_to_vec(recv_ip.as_slice());
        dst.append(&mut piece);
        let recv_port = u16_to_be_bytes(msg.addr_recv_port);
        let mut piece = slice_to_vec(recv_port.as_slice());
        dst.append(&mut piece);
        let mut piece = u64_to_le_bytes(msg.addr_trans_services);
        dst.append(&mut piece);
        let trans_ip = msg.addr_trans_ip.to_bytes();
        let mut piece = slice_to_vec(trans_ip.as_slice());
        dst.append(&mut piece);
        let trans_port = u16_to_be_bytes(msg.addr_trans_port);
        let mut piece = slice_to_vec(trans_port.as_slice());
        dst.append(&mut piece);
        let mut piece = u64_to_le_bytes(msg.nonce);
        dst.append(&mut piece);
        let agent_bytes: &[u8] = msg.user_agent.as_str().as_bytes();
        let agent_len = CompactSize::from_length(agent_bytes);
        let mut piece = agent_len.encode();
        dst.append(&mut piece);
        let mut piece = slice_to_vec(agent_bytes);
        dst.append(&mut piece);
        let mut piece = u32_to_le_bytes(#[verifier::truncate] (msg.start_height as u32));
        dst.append(&mut piece);
        dst.push(if msg.relay { 1u8 } else { 0u8 });
        proof {
            assert(final(dst)@ =~= old(dst)@ + spec_version_encode(msg@));
        }
        Ok(())
    }
}

/// What reading a `version` payload yields: not enough bytes yet, a
/// rejection, or the decoded message.
pub enum VersionDecodeResult {
    Incomplete,
    Rejected(CodecError),
    Value(VersionMessageView),
}

/// Reading a `version` payload from `b`: the fixed 80-byte prefix, the
/// `CompactSize` user-agent length, the user agent (UTF-8), the start
/// height and the relay flag.
pub open spec fn spec_version_decode(b: Seq<u8>) -> VersionDecodeResult {
    if b.len() < 86 {
        VersionDecodeResult::Incomplete
    } else {
        match spec_compact_size_decode(b.skip(80)) {
            None => VersionDecodeResult::Rejected(CodecError::ShortBuffer),
            Some((ua_len, used)) => {
                let rem = b.skip(80 + used);
                if rem.len() < ua_len + 5 {
                    VersionDecodeResult::Incomplete
                } else {
                    let ua = rem.take(ua_len as int);
                    if !valid_utf8(ua) {
                        VersionDecodeResult::Rejected(CodecError::InvalidEncoding)
                    } else {
                        VersionDecodeResult::Value(
                            VersionMessageView {
                                version: spec_u32_from_le_bytes(b.subrange(0, 4)) as i32,
                                services: spec_u64_from_le_bytes(b.subrange(4, 12)),
                                timestamp: spec_u64_from_le_bytes(b.subrange(12, 20)) as i64,
                                addr_recv_services: spec_u64_from_le_bytes(b.subrange(20, 28)),
                                addr_recv_ip: b.subrange(28, 44),
                                addr_recv_port: spec_u16_from_be_bytes(b.subrange(44, 46)),
                                addr_trans_services: spec_u64_from_le_bytes(b.subrange(46, 54)),
                                addr_trans_ip: b.subrange(54, 70),
                                addr_trans_port: spec_u16_from_be_bytes(b.subrange(70, 72)),
                                nonce: spec_u64_from_le_bytes(b.subrange(72, 80)),
                                user_agent_bytes: ua_len,
                                user_agent: decode_utf8(ua),
                                start_height: spec_u32_from_le_bytes(
                                    rem.subrange(ua_len as int, ua_len as int + 4),
                                ) as i32,
                                relay: rem[ua_len as int + 4] != 0u8,
                            },
                        )
                    }
                }
            },
        }
    }
}

impl VersionCodec {
    /// Reads a `version` payload from `src` without consuming it.
    /// `Ok(None)` asks for more bytes; a malformed `CompactSize` or
    /// non-UTF-8 user agent is rejected.
    pub fn decode(&mut self, src: &[u8]) -> (r: Result<Option<VersionMessage>, CodecError>)
        ensures
            match r {
                Ok(opt) => match opt {
                    None => spec_version_decode(src@) is Incomplete,
                    Some(v) => spec_version_decode(src@) == VersionDecodeResult::Value(v@)
                        && v.wf(),
                },
                Err(e) => spec_version_decode(src@) == VersionDecodeResult::Rejected(e),
            },
    {
        if src.len() < 86 {
            return Ok(None);
        }
        let version_word = u32_from_le_bytes(slice_subrange(src, 0, 4));
        let services = u64_from_le_bytes(slice_subrange(src, 4, 12));
        let timestamp_word = u64_from_le_bytes(slice_subrange(src, 12, 20));
        let addr_recv_services = u64_from_le_bytes(slice_subrange(src, 20, 28));
        let addr_recv_ip = match BitcoinIpAddr::try_from_bytes(slice_subrange(src, 28, 44)) {
            Ok(a) => a,
            Err(_) => {
                proof {
                    assert(false);
                }
                return Err(CodecError::BadLength);
            },
        };
        let addr_recv_port = u16_from_be_bytes(slice_subrange(src, 44, 46));
        let addr_trans_services = u64_from_le_bytes(slice_subrange(src, 46, 54));
        let addr_trans_ip = match BitcoinIpAddr::try_from_bytes(slice_subrange(src, 54, 70)) {
            Ok(a) => a,
            Err(_) => {
                proof {
                    assert(false);
                }
                return Err(CodecError::BadLength);
            },
        };
        let addr_trans_port = u16_from_be_bytes(slice_subrange(src, 70, 72));
        let nonce = u64_from_le_bytes(slice_subrange(src, 72, 80));
        let cs_slice = slice_subrange(src, 80, src.len());
        proof {
            assert(cs_slice@ =~= src@.skip(80));
        }
        let (ua_size, used) = match CompactSize::decode(cs_slice) {
            Ok(p) => p,
            Err(_) => {
                return Err(CodecError::ShortBuffer);
            },
        };
        proof {
            assert(used <= cs_slice@.len());
        }
        let after: usize = 80 + used;
        let ua_len_word = ua_size.value();
        let rem_len: usize = src.len() - after;
        proof {
            assert(src@.skip(80 + used as int).len() == rem_len);
        }
        if (rem_len as u128) < (ua_len_word as u128) + 5 {
            return Ok(None);
        }
        let ua_len: usize = ua_len_word as usize;
        let ua_end: usize = after + ua_len;
        let ua_slice = slice_subrange(src, after, ua_end);
        proof {
            assert(ua_slice@ =~= src@.skip(80 + used as int).take(ua_len_word as int));
        }
        let ua_vec = slice_to_vec(ua_slice);
        let user_agent = match string_from_utf8(ua_vec) {
            Ok(s) => s,
            Err(_) => {
                return Err(CodecError::InvalidEncoding);
            },
        };
        let start_height_word = u32_from_le_bytes(slice_subrange(src, ua_end, ua_end + 4));
        let relay_byte = *slice_index_get(src, ua_end + 4);
        let v = VersionMessage {
            version: #[verifier::truncate] (version_word as i32),
            services,
            timestamp: #[verifier::truncate] (timestamp_word as i64),
            addr_recv_services,
            addr_recv_ip,
            addr_recv_port,
            addr_trans_services,
            addr_trans_ip,
            addr_trans_port,
            nonce,
            user_agent_bytes: CompactSize::new(ua_len_word),
            user_agent,
            start_height: #[verifier::truncate] (start_height_word as i32),
            relay: relay_byte != 0,
        };
        proof {
            let b = src@;
            let rem = b.skip(80 + used as int);
            let ua = rem.take(ua_len_word as int);
            vstd::utf8::decode_utf8_encode_utf8(ua);
            assert(rem.subrange(ua_len_word as int, ua_len_word as int + 4) =~= b.subrange(
                ua_end as int,
                ua_end as int + 4,
            ));
            assert(rem[ua_len_word as int + 4] == b[ua_end as int + 4]);
            assert(v@ =~= (match spec_version_decode(b) {
                VersionDecodeResult::Value(w) => w,
                _ => v@,
            }));
        }
        Ok(Some(v))
    }
}

/// Casting a 32-bit value to signed and back, or a signed one to
/// unsigned and back, is the identity.
pub proof fn lemma_i32_cast_round_trip(x: i32)
    ensures
        ((x as u32) as i32) == x,
{
    assert((x as u32) as i32 == x) by (bit_vector);
}

/// Casting a 64-bit value to signed and back is the identity.
pub proof fn lemma_i64_cast_round_trip(x: i64)
    ensures
        ((x as u64) as i64) == x,
{
    assert((x as u64) as i64 == x) by (bit_vector);
}

/// A well-formed view: the stored user-agent length is the byte length
/// of the user agent, and the addresses hold 16 bytes each.
pub open spec fn spec_version_wf(m: VersionMessageView) -> bool {
    &&& m.user_agent_bytes == encode_utf8(m.user_agent).len()
    &&& m.addr_recv_ip.len() == 16
    &&& m.addr_trans_ip.len() == 16
}

/// Decoding undoes encoding: the payload bytes of a well-formed
/// `version` message read back as exactly that message.
pub proof fn lemma_version_round_trip(m: VersionMessageView)
    requires
        spec_version_wf(m),
    ensures
        spec_version_decode(spec_version_encode(m)) == VersionDecodeResult::Value(m),
{
    lemma_auto_spec_u32_to_from_le_bytes();
    lemma_auto_spec_u64_to_from_le_bytes();
    lemma_u16_be_round_trip(m.addr_recv_port);
    lemma_u16_be_round_trip(m.addr_trans_port);
    lemma_i32_cast_round_trip(m.version);
    lemma_i32_cast_round_trip(m.start_height);
    lemma_i64_cast_round_trip(m.timestamp);
    encode_utf8_valid_utf8(m.user_agent);
    encode_utf8_decode_utf8(m.user_agent);
    let ua = encode_utf8(m.user_agent);
    let l = ua.len();
    let csb = spec_compact_size_encode(l as u64);
    let shb = spec_u32_to_le_bytes(m.start_height as u32);
    let rlb = seq![
        if m.relay {
            1u8
        } else {
            0u8
        },
    ];
    let b = spec_version_encode(m);
    lemma_compact_size_round_trip(l as u64, ua + shb + rlb);
    assert(b.len() == 80 + csb.len() + l + 5);
    assert(b.subrange(0, 4) =~= spec_u32_to_le_bytes(m.version as u32));
    assert(b.subrange(4, 12) =~= spec_u64_to_le_bytes(m.services));
    assert(b.subrange(12, 20) =~= spec_u64_to_le_bytes(m.timestamp as u64));
    assert(b.subrange(20, 28) =~= spec_u64_to_le_bytes(m.addr_recv_services));
    assert(b.subrange(28, 44) =~= m.addr_recv_ip);
    assert(b.subrange(44, 46) =~= spec_u16_to_be_bytes(m.addr_recv_port));
    assert(b.subrange(46, 54) =~= spec_u64_to_le_bytes(m.addr_trans_services));
    assert(b.subrange(54, 70) =~= m.addr_trans_ip);
    assert(b.subrange(70, 72) =~= spec_u16_to_be_bytes(m.addr_trans_port));
    assert(b.subrange(72, 80) =~= spec_u64_to_le_bytes(m.nonce));
    assert(b.skip(80) =~= csb + (ua + shb + rlb));
    let used = csb.len() as int;
    assert(spec_compact_size_decode(b.skip(80)) == Some((l as u64, used)));
    let rem = b.skip(80 + used);
    assert(rem =~= ua + shb + rlb);
    assert(rem.len() == l + 5);
    assert(rem.take(l as int) =~= ua);
    assert(rem.subrange(l as int, l as int + 4) =~= shb);
    assert(rem[l as int + 4] == (if m.relay {
        1u8
    } else {
        0u8
    }));
    match spec_version_decode(b) {
        VersionDecodeResult::Value(w) => {
            assert(w =~= m);
        },
        _ => {
            assert(false);
        },
    }
}

/// The length of an encoded `version` payload: 85 fixed bytes plus the
/// user-agent length prefix and the user agent itself; the prefix is at
/// most nine bytes.
pub proof fn lemma_version_encode_len(m: VersionMessageView)
    requires
        m.addr_recv_ip.len() == 16,
        m.addr_trans_ip.len() == 16,
    ensures
        spec_version_encode(m).len() == 85 + spec_compact_size_encode(
            encode_utf8(m.user_agent).len() as u64,
        ).len() + encode_utf8(m.user_agent).len(),
        spec_compact_size_encode(encode_utf8(m.user_agent).len() as u64).len() <= 9,
{
    lemma_auto_spec_u32_to_from_le_bytes();
    lemma_auto_spec_u64_to_from_le_bytes();
    vstd::bytes::lemma_auto_spec_u16_to_from_le_bytes();
}

/// The ways an inbound `version` message can fail semantic
/// verification.
#[derive(Clone, Copy, Debug, PartialEq, Eq, Structural)]
pub enum VersionVerificationError {
    UnsupportedVersion,
    UnsupportedServices,
    TimestampSkew,
    InvalidAddress,
    InvalidPort,
    UserAgentTooLong,
    InvalidStartHeight,
}

/// The text that names a verification failure.
pub open spec fn spec_verification_error_text(e: VersionVerificationError) -> Seq<char> {
    match e {
        VersionVerificationError::UnsupportedVersion => "unsupported protocol version"@,
        VersionVerificationError::UnsupportedServices => "peer does not serve the network"@,
        VersionVerificationError::TimestampSkew => "timestamp skew too large"@,
        VersionVerificationError::InvalidAddress => "unspecified or loopback address"@,
        VersionVerificationError::InvalidPort => "zero port"@,
        VersionVerificationError::UserAgentTooLong => "user agent too long"@,
        VersionVerificationError::InvalidStartHeight => "negative start height"@,
    }
}

impl VersionVerificationError {
    /// The failure as text, for an `InvalidResponse` detail.
    pub fn text(&self) -> (r: String)
        ensures
            r@ == spec_verification_error_text(*self),
    {
        match self {
            VersionVerificationError::UnsupportedVersion => "unsupported protocol version"
                .to_owned(),
            VersionVerificationError::UnsupportedServices => "peer does not serve the network"
                .to_owned(),
            VersionVerificationError::TimestampSkew => "timestamp skew too large".to_owned(),
            VersionVerificationError::InvalidAddress => "unspecified or loopback address"
                .to_owned(),
            VersionVerificationError::InvalidPort => "zero port".to_owned(),
            VersionVerificationError::UserAgentTooLong => "user agent too long".to_owned(),
            VersionVerificationError::InvalidStartHeight => "negative start height".to_owned(),
        }
    }
}

/// The semantic checks on an inbound `version` message, in order: the
/// protocol version must be supported, the peer must serve the network,
/// its clock must be within 90 minutes of `now`, its addresses must be
/// routable, its ports nonzero, its user agent at most 256 bytes, and
/// its start height non-negative. The first failing check names the
/// error.
pub open spec fn spec_verify_version(m: VersionMessageView, now: int) -> Result<
    (),
    VersionVerificationError,
> {
    if !(70001 <= m.version && m.version <= 70015) {
        Err(VersionVerificationError::UnsupportedVersion)
    } else if m.services & 1 == 0 {
        Err(VersionVerificationError::UnsupportedServices)
    } else if !(-5400 <= m.timestamp - now && m.timestamp - now <= 5400) {
        Err(VersionVerificationError::TimestampSkew)
    } else if crate::types::spec_ip_is_unspecified(m.addr_recv_ip) || crate::types::spec_ip_is_loopback(m.addr_recv_ip)
        || crate::types::spec_ip_is_unspecified(m.addr_trans_ip) || crate::types::spec_ip_is_loopback(m.addr_trans_ip) {
        Err(VersionVerificationError::InvalidAddress)
    } else if m.addr_recv_port == 0 || m.addr_trans_port == 0 {
        Err(VersionVerificationError::InvalidPort)
    } else if encode_utf8(m.user_agent).len() > 256 {
        Err(VersionVerificationError::UserAgentTooLong)
    } else if m.start_height < 0 {
        Err(VersionVerificationError::InvalidStartHeight)
    } else {
        Ok(())
    }
}

impl VersionMessage {
    /// Applies the semantic checks of [`spec_verify_version`] against
    /// the given current time.
    pub fn verify_message(&self, now: i64) -> (r: Result<(), VersionVerificationError>)
        ensures
            r == spec_verify_version(self@, now as int),
    {
        if self.version < 70001 || self.version > 70015 {
            return Err(VersionVerificationError::UnsupportedVersion);
        }
        if self.services & 1 == 0 {
            return Err(VersionVerificationError::UnsupportedServices);
        }
        let skew: i128 = self.timestamp as i128 - now as i128;
        if skew < -5400 || skew > 5400 {
            return Err(VersionVerificationError::TimestampSkew);
        }
        if self.addr_recv_ip.is_unspecified() || self.addr_recv_ip.is_loopback()
            || self.addr_trans_ip.is_unspecified() || self.addr_trans_ip.is_loopback() {
            return Err(VersionVerificationError::InvalidAddress);
        }
        if self.addr_recv_port == 0 || self.addr_trans_port == 0 {
            return Err(VersionVerificationError::InvalidPort);
        }
        let agent_bytes: &[u8] = self.user_agent.as_str().as_bytes();
        if agent_bytes.len() > 256 {
            return Err(VersionVerificationError::UserAgentTooLong);
        }
        if self.start_height < 0 {
            return Err(VersionVerificationError::InvalidStartHeight);
        }
        Ok(())
    }
}

} // verus!
