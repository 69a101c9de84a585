//! Scalar wire types: the `CompactSize` variable-length integer and the
//! 16-byte Bitcoin network address.

use vstd::bytes::{
    spec_u16_from_le_bytes, spec_u16_to_le_bytes, spec_u32_from_le_bytes, spec_u32_to_le_bytes,
    spec_u64_from_le_bytes, spec_u64_to_le_bytes, u16_from_le_bytes, u16_to_le_bytes,
    u32_from_le_bytes, u32_to_le_bytes, u64_from_le_bytes, u64_to_le_bytes,
    lemma_auto_spec_u16_to_from_le_bytes, lemma_auto_spec_u32_to_from_le_bytes,
    lemma_auto_spec_u64_to_from_le_bytes,
};
use vstd::prelude::*;
use vstd::slice::slice_subrange;

use crate::errors::CodecError;

verus! {

broadcast use vstd::array::group_array_axioms;

/// The minimal wire form of a `CompactSize` value: one byte for values up
/// to `0xFC`, otherwise a one-byte width tag followed by the value in
/// little-endian form of the smallest width that holds it.
pub open spec fn spec_compact_size_encode(n: u64) -> Seq<u8> {
    if n <= 0xFC {
        seq![n as u8]
    } else if n <= 0xFFFF {
        seq![0xFDu8] + spec_u16_to_le_bytes(n as u16)
    } else if n <= 0xFFFF_FFFF {
        seq![0xFEu8] + spec_u32_to_le_bytes(n as u32)
    } else {
        seq![0xFFu8] + spec_u64_to_le_bytes(n)
    }
}

/// Reading a `CompactSize` from the front of `b`: the decoded value and
/// the number of bytes consumed, or `None` when `b` ends before the width
/// that its first byte announces.
pub open spec fn spec_compact_size_decode(b: Seq<u8>) -> Option<(u64, int)> {
    if b.len() == 0 {
        None
    } else if b[0] <= 0xFC {
        Some((b[0] as u64, 1))
    } else if b[0] == 0xFD {
        if b.len() < 3 {
            None
        } else {
            Some((spec_u16_from_le_bytes(b.subrange(1, 3)) as u64, 3))
        }
    } else if b[0] == 0xFE {
        if b.len() < 5 {
            None
        } else {
            Some((spec_u32_from_le_bytes(b.subrange(1, 5)) as u64, 5))
        }
    } else {
        if b.len() < 9 {
            None
        } else {
            Some((spec_u64_from_le_bytes(b.subrange(1, 9)), 9))
        }
    }
}

/// Bitcoin's variable-length non-negative integer.
#[derive(Debug, Clone, Copy, PartialEq, Eq, Structural)]
pub struct CompactSize(u64);

impl View for CompactSize {
    type V = u64;

    closed spec fn view(&self) -> u64 {
        self.0
    }
}

impl CompactSize {
    /// Wraps a plain 64-bit value.
    pub fn new(value: u64) -> (r: Self)
        ensures
            r@ == value,
    {
        CompactSize(value)
    }

    /// The `CompactSize` that records the byte length of `input`.
    pub fn from_length(input: &[u8]) -> (r: Self)
        ensures
            r@ == input@.len(),
    {
        CompactSize(input.len() as u64)
    }

    /// The numeric value represented by this `CompactSize` as `usize`.
    pub fn value_as_usize(&self) -> (r: usize)
        ensures
            r == self@ as usize,
    {
        self.0 as usize
    }

    /// The numeric value represented by this `CompactSize`.
    pub fn value(&self) -> (r: u64)
        ensures
            r == self@,
    {
        self.0
    }

    /// The minimal wire encoding of this value.
    pub fn encode(&self) -> (r: Vec<u8>)
        ensures
            r@ == spec_compact_size_encode(self@),
    {
        let n = self.0;
        if n <= 0xFC {
            let mut v: Vec<u8> = Vec::new();
            v.push(n as u8);
            assert(v@ =~= spec_compact_size_encode(self@));
            v
        } else if n <= 0xFFFF {
            let mut v: Vec<u8> = Vec::new();
            v.push(0xFD);
            let mut tail = u16_to_le_bytes(n as u16);
            v.append(&mut tail);
            assert(v@ =~= spec_compact_size_encode(self@));
            v
        } else if n <= 0xFFFF_FFFF {
            let mut v: Vec<u8> = Vec::new();
            v.push(0xFE);
            let mut tail = u32_to_le_bytes(n as u32);
            v.append(&mut tail);
            assert(v@ =~= spec_compact_size_encode(self@));
            v
        } else {
            let mut v: Vec<u8> = Vec::new();
            v.push(0xFF);
            let mut tail = u64_to_le_bytes(n);
            v.append(&mut tail);
            assert(v@ =~= spec_compact_size_encode(self@));
            v
        }
    }

    /// Reads a `CompactSize` from the front of `buf`, returning the value
    /// and the number of bytes consumed. Any well-formed encoding is
    /// accepted, canonical or not; trailing bytes are ignored.
    pub fn decode(buf: &[u8]) -> (r: Result<(Self, usize), CodecError>)
        ensures
            match r {
                Ok(p) => spec_compact_size_decode(buf@) == Some((p.0@, p.1 as int)),
                Err(e) => e == CodecError::ShortBuffer && spec_compact_size_decode(buf@) is None,
            },
    {
        if buf.len() == 0 {
            return Err(CodecError::ShortBuffer);
        }
        let tag = *vstd::slice::slice_index_get(buf, 0);
        if tag <= 0xFC {
            Ok((CompactSize(tag as u64), 1))
        } else if tag == 0xFD {
            if buf.len() < 3 {
                Err(CodecError::ShortBuffer)
            } else {
                let v = u16_from_le_bytes(slice_subrange(buf, 1, 3));
                Ok((CompactSize(v as u64), 3))
            }
        } else if tag == 0xFE {
            if buf.len() < 5 {
                Err(CodecError::ShortBuffer)
            } else {
                let v = u32_from_le_bytes(slice_subrange(buf, 1, 5));
                Ok((CompactSize(v as u64), 5))
            }
        } else {
            if buf.len() < 9 {
                Err(CodecError::ShortBuffer)
            } else {
                let v = u64_from_le_bytes(slice_subrange(buf, 1, 9));
                Ok((CompactSize(v), 9))
            }
        }
    }
}

/// Decoding undoes encoding: the front of `spec_compact_size_encode(n)`,
/// with anything at all appended, reads back as exactly `n`, consuming
/// exactly the encoding's bytes.
pub proof fn lemma_compact_size_round_trip(n: u64, rest: Seq<u8>)
    ensures
        spec_compact_size_decode(spec_compact_size_encode(n) + rest) == Some(
            (n, spec_compact_size_encode(n).len() as int),
        ),
{
    lemma_auto_spec_u16_to_from_le_bytes();
    lemma_auto_spec_u32_to_from_le_bytes();
    lemma_auto_spec_u64_to_from_le_bytes();
    let b = spec_compact_size_encode(n) + rest;
    if n <= 0xFC {
        assert(b[0] == n as u8);
    } else if n <= 0xFFFF {
        assert(b[0] == 0xFDu8);
        assert(b.subrange(1, 3) =~= spec_u16_to_le_bytes(n as u16));
        assert(spec_u16_from_le_bytes(spec_u16_to_le_bytes(n as u16)) == n as u16);
    } else if n <= 0xFFFF_FFFF {
        assert(b[0] == 0xFEu8);
        assert(b.subrange(1, 5) =~= spec_u32_to_le_bytes(n as u32));
        assert(spec_u32_from_le_bytes(spec_u32_to_le_bytes(n as u32)) == n as u32);
    } else {
        assert(b[0] == 0xFFu8);
        assert(b.subrange(1, 9) =~= spec_u64_to_le_bytes(n));
    }
}

/// The encoding is minimal: every well-formed encoding that decodes to
/// `n` consumes at least as many bytes as `spec_compact_size_encode(n)`.
pub proof fn lemma_compact_size_minimal(n: u64, b: Seq<u8>, k: int)
    requires
        spec_compact_size_decode(b) == Some((n, k)),
    ensures
        spec_compact_size_encode(n).len() <= k,
{
    lemma_auto_spec_u16_to_from_le_bytes();
    lemma_auto_spec_u32_to_from_le_bytes();
    lemma_auto_spec_u64_to_from_le_bytes();
}

/// A Bitcoin network address: 16 raw bytes, an IPv6 address or the
/// IPv4-mapped form `::ffff:a.b.c.d`.
#[derive(Debug, Clone, Copy, PartialEq)]
pub struct BitcoinIpAddr([u8; 16]);

/// The 16-byte IPv4-mapped form of four IPv4 octets: ten zero bytes,
/// `FF FF`, then the octets.
pub open spec fn spec_ipv4_mapped(octets: Seq<u8>) -> Seq<u8> {
    seq![0u8, 0u8, 0u8, 0u8, 0u8, 0u8, 0u8, 0u8, 0u8, 0u8, 0xFFu8, 0xFFu8] + octets
}

impl View for BitcoinIpAddr {
    type V = Seq<u8>;

    closed spec fn view(&self) -> Seq<u8> {
        self.0@
    }
}

/// Whether 16 address bytes carry the IPv4-mapped prefix: ten zero
/// bytes followed by `FF FF`.
pub open spec fn spec_ip_is_ipv4_mapped(b: Seq<u8>) -> bool {
    &&& b[0] == 0u8
    &&& b[1] == 0u8
    &&& b[2] == 0u8
    &&& b[3] == 0u8
    &&& b[4] == 0u8
    &&& b[5] == 0u8
    &&& b[6] == 0u8
    &&& b[7] == 0u8
    &&& b[8] == 0u8
    &&& b[9] == 0u8
    &&& b[10] == 0xFFu8
    &&& b[11] == 0xFFu8
}

/// The last four of 16 address bytes are all zero.
pub open spec fn spec_ip_tail_zero(b: Seq<u8>) -> bool {
    b[12] == 0u8 && b[13] == 0u8 && b[14] == 0u8 && b[15] == 0u8
}

/// The all-zero address `::`, or `0.0.0.0` in IPv4-mapped form.
pub open spec fn spec_ip_is_unspecified(b: Seq<u8>) -> bool {
    ||| (spec_ip_is_ipv4_mapped(b) && spec_ip_tail_zero(b))
    ||| (b[0] == 0u8 && b[1] == 0u8 && b[2] == 0u8 && b[3] == 0u8 && b[4] == 0u8 && b[5] == 0u8
        && b[6] == 0u8 && b[7] == 0u8 && b[8] == 0u8 && b[9] == 0u8 && b[10] == 0u8 && b[11]
        == 0u8 && spec_ip_tail_zero(b))
}

/// The IPv6 loopback `::1`, or an IPv4-mapped `127.0.0.0/8` address.
pub open spec fn spec_ip_is_loopback(b: Seq<u8>) -> bool {
    ||| (spec_ip_is_ipv4_mapped(b) && b[12] == 127u8)
    ||| (b[0] == 0u8 && b[1] == 0u8 && b[2] == 0u8 && b[3] == 0u8 && b[4] == 0u8 && b[5] == 0u8
        && b[6] == 0u8 && b[7] == 0u8 && b[8] == 0u8 && b[9] == 0u8 && b[10] == 0u8 && b[11]
        == 0u8 && b[12] == 0u8 && b[13] == 0u8 && b[14] == 0u8 && b[15] == 1u8)
}

impl BitcoinIpAddr {
    /// Whether the stored bytes carry the IPv4-mapped prefix.
    pub open spec fn spec_is_ipv4_mapped(self) -> bool {
        spec_ip_is_ipv4_mapped(self@)
    }

    /// The last four stored bytes are all zero.
    pub open spec fn spec_tail_zero(self) -> bool {
        spec_ip_tail_zero(self@)
    }

    /// The all-zero address `::`, or `0.0.0.0` in IPv4-mapped form.
    pub open spec fn spec_is_unspecified(self) -> bool {
        spec_ip_is_unspecified(self@)
    }

    /// The IPv6 loopback `::1`, or an IPv4-mapped `127.0.0.0/8` address.
    pub open spec fn spec_is_loopback(self) -> bool {
        spec_ip_is_loopback(self@)
    }

    /// The raw 16-byte wire form.
    pub fn to_bytes(&self) -> (r: [u8; 16])
        ensures
            r@ == self@,
    {
        self.0
    }

    /// Builds an address from a 16-byte buffer; any other length is
    /// rejected with `BadLength`.
    pub fn try_from_bytes(bytes: &[u8]) -> (r: Result<Self, CodecError>)
        ensures
            match r {
                Ok(a) => bytes@.len() == 16 && a@ == bytes@,
                Err(e) => e == CodecError::BadLength && bytes@.len() != 16,
            },
    {
        if bytes.len() == 16 {
            let mut buf = [0u8; 16];
            let mut i: usize = 0;
            while i < 16
                invariant
                    i <= 16,
                    bytes@.len() == 16,
                    buf@.len() == 16,
                    forall|j: int| 0 <= j < i ==> buf@[j] == bytes@[j],
                decreases 16 - i,
            {
                buf[i] = *vstd::slice::slice_index_get(bytes, i);
                i = i + 1;
            }
            assert(buf@ =~= bytes@);
            Ok(BitcoinIpAddr(buf))
        } else {
            Err(CodecError::BadLength)
        }
    }

    /// The IPv4-mapped address `::ffff:a.b.c.d` for the given octets.
    pub fn from_ipv4_octets(octets: [u8; 4]) -> (r: Self)
        ensures
            r@ == spec_ipv4_mapped(octets@),
            r.spec_is_ipv4_mapped(),
    {
        let buf: [u8; 16] = [
            0,
            0,
            0,
            0,
            0,
            0,
            0,
            0,
            0,
            0,
            0xFF,
            0xFF,
            octets[0],
            octets[1],
            octets[2],
            octets[3],
        ];
        let r = BitcoinIpAddr(buf);
        proof {
            assert(r@ =~= spec_ipv4_mapped(octets@));
            assert(r@.subrange(0, 12) =~= spec_ipv4_mapped(Seq::<u8>::empty()));
        }
        r
    }

    /// An address taken verbatim from sixteen IPv6 octets.
    pub fn from_ipv6_octets(octets: [u8; 16]) -> (r: Self)
        ensures
            r@ == octets@,
    {
        BitcoinIpAddr(octets)
    }

    /// The IPv6 unspecified address `::`.
    pub fn unspecified() -> (r: Self)
        ensures
            r@ =~= seq![0u8; 16],
            r.spec_is_unspecified(),
    {
        BitcoinIpAddr([0u8; 16])
    }

    /// Whether the address carries the IPv4-mapped prefix.
    pub fn is_ipv4_mapped(&self) -> (r: bool)
        ensures
            r == self.spec_is_ipv4_mapped(),
    {
        self.0[0] == 0 && self.0[1] == 0 && self.0[2] == 0 && self.0[3] == 0 && self.0[4] == 0
            && self.0[5] == 0 && self.0[6] == 0 && self.0[7] == 0 && self.0[8] == 0 && self.0[9]
            == 0 && self.0[10] == 0xFF && self.0[11] == 0xFF
    }

    /// The four IPv4 octets, when the address is IPv4-mapped.
    pub fn ipv4_octets(&self) -> (r: Option<[u8; 4]>)
        ensures
            match r {
                Some(o) => self.spec_is_ipv4_mapped() && o@ == self@.subrange(12, 16),
                None => !self.spec_is_ipv4_mapped(),
            },
    {
        if self.is_ipv4_mapped() {
            let o: [u8; 4] = [self.0[12], self.0[13], self.0[14], self.0[15]];
            proof {
                assert(o@ =~= self@.subrange(12, 16));
            }
            Some(o)
        } else {
            None
        }
    }

    /// Whether the address is the unspecified address (`::` or a mapped
    /// `0.0.0.0`).
    pub fn is_unspecified(&self) -> (r: bool)
        ensures
            r == self.spec_is_unspecified(),
    {
        let head_zero = self.0[0] == 0 && self.0[1] == 0 && self.0[2] == 0 && self.0[3] == 0
            && self.0[4] == 0 && self.0[5] == 0 && self.0[6] == 0 && self.0[7] == 0 && self.0[8]
            == 0 && self.0[9] == 0;
        let tail_zero = self.0[12] == 0 && self.0[13] == 0 && self.0[14] == 0 && self.0[15] == 0;
        let mapped = head_zero && self.0[10] == 0xFF && self.0[11] == 0xFF;
        let plain = head_zero && self.0[10] == 0 && self.0[11] == 0;
        (mapped || plain) && tail_zero
    }

    /// Whether the address is a loopback address (`::1` or a mapped
    /// `127.0.0.0/8` address).
    pub fn is_loopback(&self) -> (r: bool)
        ensures
            r == self.spec_is_loopback(),
    {
        let head_zero = self.0[0] == 0 && self.0[1] == 0 && self.0[2] == 0 && self.0[3] == 0
            && self.0[4] == 0 && self.0[5] == 0 && self.0[6] == 0 && self.0[7] == 0 && self.0[8]
            == 0 && self.0[9] == 0;
        let mapped = head_zero && self.0[10] == 0xFF && self.0[11] == 0xFF;
        let plain = head_zero && self.0[10] == 0 && self.0[11] == 0;
        (mapped && self.0[12] == 127) || (plain && self.0[12] == 0 && self.0[13] == 0
            && self.0[14] == 0 && self.0[15] == 1)
    }
}

} // verus!
