//! The fixed wire layout of a packet: a big-endian 4-byte sequence number
//! at offset 0, the send timestamp as two big-endian 8-byte fields at
//! offsets 4 and 12 (seconds, then nanoseconds, both signed), one flags
//! byte at offset 20, and padding that carries no meaning.  Everything
//! here works on plain bytes; the sockets live elsewhere.
use vstd::prelude::*;

use crate::MIN_SIZE;

verus! {

/// The four bytes of `x`, most significant first.
pub open spec fn spec_be32(x: u32) -> Seq<u8> {
    seq![(x >> 24) as u8, (x >> 16) as u8, (x >> 8) as u8, x as u8]
}

/// The eight bytes of `x`, most significant first.
pub open spec fn spec_be64(x: u64) -> Seq<u8> {
    seq![
        (x >> 56) as u8,
        (x >> 48) as u8,
        (x >> 40) as u8,
        (x >> 32) as u8,
        (x >> 24) as u8,
        (x >> 16) as u8,
        (x >> 8) as u8,
        x as u8,
    ]
}

/// The value of four big-endian bytes.
pub open spec fn spec_be32_val(s: Seq<u8>) -> u32
    recommends
        s.len() == 4,
{
    ((s[0] as u32) << 24) | ((s[1] as u32) << 16) | ((s[2] as u32) << 8) | (s[3] as u32)
}

/// The value of eight big-endian bytes.
pub open spec fn spec_be64_val(s: Seq<u8>) -> u64
    recommends
        s.len() == 8,
{
    ((s[0] as u64) << 56) | ((s[1] as u64) << 48) | ((s[2] as u64) << 40) | ((s[3] as u64) << 32)
        | ((s[4] as u64) << 24) | ((s[5] as u64) << 16) | ((s[6] as u64) << 8) | (s[7] as u64)
}

pub proof fn lemma_be32_roundtrip(x: u32)
    ensures
        spec_be32_val(spec_be32(x)) == x,
{
    let a = (x >> 24) as u8;
    let b = (x >> 16) as u8;
    let c = (x >> 8) as u8;
    let d = x as u8;
    assert((((a as u32) << 24) | ((b as u32) << 16) | ((c as u32) << 8) | (d as u32)) == x)
        by (bit_vector)
        requires
            a == (x >> 24) as u8,
            b == (x >> 16) as u8,
            c == (x >> 8) as u8,
            d == x as u8,
    ;
}

pub proof fn lemma_be64_roundtrip(x: u64)
    ensures
        spec_be64_val(spec_be64(x)) == x,
{
    let b0 = (x >> 56) as u8;
    let b1 = (x >> 48) as u8;
    let b2 = (x >> 40) as u8;
    let b3 = (x >> 32) as u8;
    let b4 = (x >> 24) as u8;
    let b5 = (x >> 16) as u8;
    let b6 = (x >> 8) as u8;
    let b7 = x as u8;
    assert((((b0 as u64) << 56) | ((b1 as u64) << 48) | ((b2 as u64) << 40) | ((b3 as u64) << 32)
        | ((b4 as u64) << 24) | ((b5 as u64) << 16) | ((b6 as u64) << 8) | (b7 as u64)) == x)
        by (bit_vector)
        requires
            b0 == (x >> 56) as u8,
            b1 == (x >> 48) as u8,
            b2 == (x >> 40) as u8,
            b3 == (x >> 32) as u8,
            b4 == (x >> 24) as u8,
            b5 == (x >> 16) as u8,
            b6 == (x >> 8) as u8,
            b7 == x as u8,
    ;
}

/// A signed value survives the trip through its unsigned bit pattern.
pub proof fn lemma_i64_bits_roundtrip(x: i64)
    ensures
        ((x as u64) as i64) == x,
{
    assert(((x as u64) as i64) == x) by (bit_vector);
}

/// The decoded sequence-number field.
pub open spec fn spec_seq_field(b: Seq<u8>) -> u32
    recommends
        b.len() >= MIN_SIZE,
{
    spec_be32_val(b.subrange(0, 4))
}

/// The decoded seconds field of the send timestamp.
pub open spec fn spec_sec_field(b: Seq<u8>) -> i64
    recommends
        b.len() >= MIN_SIZE,
{
    spec_be64_val(b.subrange(4, 12)) as i64
}

/// The decoded nanoseconds field of the send timestamp.
pub open spec fn spec_nsec_field(b: Seq<u8>) -> i64
    recommends
        b.len() >= MIN_SIZE,
{
    spec_be64_val(b.subrange(12, 20)) as i64
}

/// The flags byte.
pub open spec fn spec_flags_field(b: Seq<u8>) -> u8
    recommends
        b.len() >= MIN_SIZE,
{
    b[20]
}

/// The bytes of `b` with the fixed prefix replaced by the encoding of the
/// four fields; the padding beyond the prefix stays as it was.
pub open spec fn spec_encode_packet(b: Seq<u8>, seq: u32, sec: i64, nsec: i64, flags: u8) -> Seq<
    u8,
>
    recommends
        b.len() >= MIN_SIZE,
{
    spec_be32(seq) + spec_be64(sec as u64) + spec_be64(nsec as u64) + seq![flags] + b.skip(
        MIN_SIZE as int,
    )
}

/// Encoding then decoding a packet round-trips the sequence number, the
/// two timestamp fields and the flags byte exactly, into a buffer of any
/// size at least `MIN_SIZE`.
pub proof fn lemma_packet_roundtrip(b: Seq<u8>, seq: u32, sec: i64, nsec: i64, flags: u8)
    requires
        b.len() >= MIN_SIZE,
    ensures
        spec_encode_packet(b, seq, sec, nsec, flags).len() == b.len(),
        spec_seq_field(spec_encode_packet(b, seq, sec, nsec, flags)) == seq,
        spec_sec_field(spec_encode_packet(b, seq, sec, nsec, flags)) == sec,
        spec_nsec_field(spec_encode_packet(b, seq, sec, nsec, flags)) == nsec,
        spec_flags_field(spec_encode_packet(b, seq, sec, nsec, flags)) == flags,
{
    let e = spec_encode_packet(b, seq, sec, nsec, flags);
    lemma_be32_roundtrip(seq);
    lemma_be64_roundtrip(sec as u64);
    lemma_be64_roundtrip(nsec as u64);
    lemma_i64_bits_roundtrip(sec);
    lemma_i64_bits_roundtrip(nsec);
    assert(e.subrange(0, 4) =~= spec_be32(seq));
    assert(e.subrange(4, 12) =~= spec_be64(sec as u64));
    assert(e.subrange(12, 20) =~= spec_be64(nsec as u64));
}

/// Write the four big-endian bytes of `x` at `at`, leaving the rest of
/// the buffer alone.
pub fn write_be32(buf: &mut Vec<u8>, at: usize, x: u32)
    requires
        at + 4 <= old(buf).len(),
    ensures
        final(buf).len() == old(buf).len(),
        final(buf)@.subrange(at as int, at + 4) =~= spec_be32(x),
        forall|i: int|
            0 <= i < old(buf).len() && !(at <= i < at + 4) ==> final(buf)@[i] == old(buf)@[i],
{
    buf[at] = (x >> 24u32) as u8;
    buf[at + 1] = (x >> 16u32) as u8;
    buf[at + 2] = (x >> 8u32) as u8;
    buf[at + 3] = x as u8;
}

/// Write the eight big-endian bytes of `x` at `at`, leaving the rest of
/// the buffer alone.
pub fn write_be64(buf: &mut Vec<u8>, at: usize, x: u64)
    requires
        at + 8 <= old(buf).len(),
    ensures
        final(buf).len() == old(buf).len(),
        final(buf)@.subrange(at as int, at + 8) =~= spec_be64(x),
        forall|i: int|
            0 <= i < old(buf).len() && !(at <= i < at + 8) ==> final(buf)@[i] == old(buf)@[i],
{
    buf[at] = (x >> 56u64) as u8;
    buf[at + 1] = (x >> 48u64) as u8;
    buf[at + 2] = (x >> 40u64) as u8;
    buf[at + 3] = (x >> 32u64) as u8;
    buf[at + 4] = (x >> 24u64) as u8;
    buf[at + 5] = (x >> 16u64) as u8;
    buf[at + 6] = (x >> 8u64) as u8;
    buf[at + 7] = x as u8;
}

/// Read four big-endian bytes at `at`.
pub fn read_be32(data: &[u8], at: usize) -> (r: u32)
    requires
        at + 4 <= data.len(),
    ensures
        r == spec_be32_val(data@.subrange(at as int, at + 4)),
{
    ((data[at] as u32) << 24u32) | ((data[at + 1] as u32) << 16u32) | (
    (data[at + 2] as u32) << 8u32) | (data[at + 3] as u32)
}

/// Read eight big-endian bytes at `at`.
pub fn read_be64(data: &[u8], at: usize) -> (r: u64)
    requires
        at + 8 <= data.len(),
    ensures
        r == spec_be64_val(data@.subrange(at as int, at + 8)),
{
    ((data[at] as u64) << 56u64) | ((data[at + 1] as u64) << 48u64) | (
    (data[at + 2] as u64) << 40u64) | ((data[at + 3] as u64) << 32u64) | (
    (data[at + 4] as u64) << 24u64) | ((data[at + 5] as u64) << 16u64) | (
    (data[at + 6] as u64) << 8u64) | (data[at + 7] as u64)
}

/// Decode the fixed prefix of a packet: sequence number, send timestamp
/// seconds and nanoseconds, and the flags byte.
pub fn decode_packet(data: &[u8]) -> (r: (u32, i64, i64, u8))
    requires
        data.len() >= MIN_SIZE,
    ensures
        r.0 == spec_seq_field(data@),
        r.1 == spec_sec_field(data@),
        r.2 == spec_nsec_field(data@),
        r.3 == spec_flags_field(data@),
{
    let seq = read_be32(data, 0);
    let sec = read_be64(data, 4) as i64;
    let nsec = read_be64(data, 12) as i64;
    let flags = data[20];
    (seq, sec, nsec, flags)
}

/// Write the four fields of the fixed prefix into `buf`, leaving the
/// padding alone.  Decoding gets the same fields back.
pub fn encode_packet(buf: &mut Vec<u8>, seq: u32, sec: i64, nsec: i64, flags: u8)
    requires
        old(buf).len() >= MIN_SIZE,
    ensures
        final(buf).len() == old(buf).len(),
        spec_seq_field(final(buf)@) == seq,
        spec_sec_field(final(buf)@) == sec,
        spec_nsec_field(final(buf)@) == nsec,
        spec_flags_field(final(buf)@) == flags,
        forall|i: int| MIN_SIZE <= i < old(buf).len() ==> final(buf)@[i] == old(buf)@[i],
{
    write_be32(buf, 0, seq);
    write_be64(buf, 4, sec as u64);
    write_be64(buf, 12, nsec as u64);
    buf[20] = flags;
    proof {
        lemma_be32_roundtrip(seq);
        lemma_be64_roundtrip(sec as u64);
        lemma_be64_roundtrip(nsec as u64);
        lemma_i64_bits_roundtrip(sec);
        lemma_i64_bits_roundtrip(nsec);
        assert(buf@.subrange(0, 4) =~= spec_be32(seq));
        assert(buf@.subrange(4, 12) =~= spec_be64(sec as u64));
        assert(buf@.subrange(12, 20) =~= spec_be64(nsec as u64));
    }
}

} // verus!
