//! Serialization of a finished sample buffer into the two binary container
//! formats.
//!
//! Format A is a 32-byte little-endian header (sample rate `u32`, center
//! frequency `u64`, epoch timestamp `u64`, sample size `u32` fixed at 24,
//! a reserved `u32` fixed at 0, and a CRC-32 of the preceding 28 bytes)
//! followed, per sample, by the little-endian 32-bit rounding of
//! `sample * 10000` with each byte interleaved with a zero quadrature byte.
//!
//! Format B has no header; per sample it carries the signed 8-bit truncation
//! of `sample * 64` followed by a zero quadrature byte.
//!
//! With amplitudes in units of 1/2550 of full scale both quantizations are
//! exact: `round(n / 2550 * 10000) = (400 * n + 51) / 102` (never a tie, as
//! the fractional part is a multiple of 1/51) and
//! `trunc(n / 2550 * 64) = 32 * n / 1275`.

use crate::samples_in_range;
use vstd::arithmetic::div_mod::lemma_div_is_ordered;
use vstd::prelude::*;

verus! {

/// The sample-size field value of every Format A header.
pub const FORMAT_A_SAMPLE_SIZE_BITS: u32 = 24;

/// The variable and fixed fields of a Format A header, as re-read from the
/// serialized bytes.
#[derive(Clone, Copy, Debug, PartialEq, Eq, Structural)]
pub struct FormatAHeader {
    /// Samples per second.
    pub sample_rate: u32,
    /// Center frequency in hertz.
    pub center_frequency_hz: u64,
    /// Unix epoch timestamp.
    pub epoch_timestamp: u64,
    /// Bits per sample; written as 24.
    pub sample_size_bits: u32,
    /// Reserved field; written as 0.
    pub reserved: u32,
}

/// The little-endian bytes of a `u32`.
pub open spec fn spec_u32_le(x: u32) -> Seq<u8> {
    seq![
        (x & 0xff) as u8,
        ((x >> 8) & 0xff) as u8,
        ((x >> 16) & 0xff) as u8,
        ((x >> 24) & 0xff) as u8,
    ]
}

/// The little-endian bytes of a `u64`.
pub open spec fn spec_u64_le(x: u64) -> Seq<u8> {
    seq![
        (x & 0xff) as u8,
        ((x >> 8) & 0xff) as u8,
        ((x >> 16) & 0xff) as u8,
        ((x >> 24) & 0xff) as u8,
        ((x >> 32) & 0xff) as u8,
        ((x >> 40) & 0xff) as u8,
        ((x >> 48) & 0xff) as u8,
        ((x >> 56) & 0xff) as u8,
    ]
}

/// The `u32` read back from four little-endian bytes.
pub open spec fn spec_u32_from_le(b: Seq<u8>) -> u32
    recommends
        b.len() == 4,
{
    (b[0] as u32) | ((b[1] as u32) << 8) | ((b[2] as u32) << 16) | ((b[3] as u32) << 24)
}

/// The `u64` read back from eight little-endian bytes.
pub open spec fn spec_u64_from_le(b: Seq<u8>) -> u64
    recommends
        b.len() == 8,
{
    (b[0] as u64) | ((b[1] as u64) << 8) | ((b[2] as u64) << 16) | ((b[3] as u64) << 24) | (
    (b[4] as u64) << 32) | ((b[5] as u64) << 40) | ((b[6] as u64) << 48) | ((b[7] as u64) << 56)
}

/// The 28 header bytes that precede the checksum.
pub open spec fn spec_header_payload(sample_rate: u32, center_frequency_hz: u64, epoch_timestamp: u64) -> Seq<u8> {
    spec_u32_le(sample_rate) + spec_u64_le(center_frequency_hz) + spec_u64_le(epoch_timestamp)
        + spec_u32_le(FORMAT_A_SAMPLE_SIZE_BITS) + spec_u32_le(0)
}

/// The CRC-32 (IEEE) checksum of a byte sequence, as computed by the
/// checksum routine the exporter calls; a function of the bytes alone.
pub uninterp spec fn crc32_of(data: Seq<u8>) -> u32;

/// Relies on crc32fast::hash: the CRC-32 (IEEE) checksum of the input bytes,
/// a pure function of the bytes alone.
#[verifier::external_body]
fn crc32(data: &[u8]) -> (r: u32)
    ensures
        r == crc32_of(data@),
{
    crc32fast::hash(data)
}

/// The whole 32-byte Format A header: payload then its checksum.
pub open spec fn spec_format_a_header(sample_rate: u32, center_frequency_hz: u64, epoch_timestamp: u64) -> Seq<u8> {
    let payload = spec_header_payload(sample_rate, center_frequency_hz, epoch_timestamp);
    payload + spec_u32_le(crc32_of(payload))
}

/// The 32-bit Format A quantization: `sample * 10000 / 2550` rounded to the
/// nearest integer (ties cannot arise).
pub open spec fn spec_format_a_value(sample: u16) -> u32 {
    ((400 * sample + 51) / 102) as u32
}

/// The eight Format A bytes of one sample: each byte of the little-endian
/// 32-bit value followed by a zero quadrature byte.
pub open spec fn spec_format_a_sample(sample: u16) -> Seq<u8> {
    let b = spec_u32_le(spec_format_a_value(sample));
    seq![b[0], 0u8, b[1], 0u8, b[2], 0u8, b[3], 0u8]
}

/// The Format A body: every sample's eight bytes in order.
pub open spec fn spec_format_a_body(samples: Seq<u16>) -> Seq<u8>
    decreases samples.len(),
{
    if samples.len() == 0 {
        Seq::empty()
    } else {
        spec_format_a_body(samples.drop_last()) + spec_format_a_sample(samples.last())
    }
}

/// The whole Format A container: header then body.
pub open spec fn spec_format_a(samples: Seq<u16>, sample_rate: u32, center_frequency_hz: u64, epoch_timestamp: u64) -> Seq<u8> {
    spec_format_a_header(sample_rate, center_frequency_hz, epoch_timestamp) + spec_format_a_body(
        samples,
    )
}

/// The 8-bit Format B quantization: `sample * 64 / 2550` truncated toward
/// zero.
pub open spec fn spec_format_b_value(sample: u16) -> u8 {
    ((32 * sample) / 1275) as u8
}

/// The two Format B bytes of one sample: the 8-bit value then a zero
/// quadrature byte.
pub open spec fn spec_format_b_sample(sample: u16) -> Seq<u8> {
    seq![spec_format_b_value(sample), 0u8]
}

/// The whole Format B container: every sample's two bytes in order, no
/// header.
pub open spec fn spec_format_b(samples: Seq<u16>) -> Seq<u8>
    decreases samples.len(),
{
    if samples.len() == 0 {
        Seq::empty()
    } else {
        spec_format_b(samples.drop_last()) + spec_format_b_sample(samples.last())
    }
}

/// Appends the little-endian bytes of a `u32`.
fn push_u32_le(out: &mut Vec<u8>, x: u32)
    ensures
        final(out)@ == old(out)@ + spec_u32_le(x),
{
    out.push((x & 0xff) as u8);
    out.push(((x >> 8) & 0xff) as u8);
    out.push(((x >> 16) & 0xff) as u8);
    out.push(((x >> 24) & 0xff) as u8);
    proof {
        assert(out@ =~= old(out)@ + spec_u32_le(x));
    }
}

/// Appends the little-endian bytes of a `u64`.
fn push_u64_le(out: &mut Vec<u8>, x: u64)
    ensures
        final(out)@ == old(out)@ + spec_u64_le(x),
{
    out.push((x & 0xff) as u8);
    out.push(((x >> 8) & 0xff) as u8);
    out.push(((x >> 16) & 0xff) as u8);
    out.push(((x >> 24) & 0xff) as u8);
    out.push(((x >> 32) & 0xff) as u8);
    out.push(((x >> 40) & 0xff) as u8);
    out.push(((x >> 48) & 0xff) as u8);
    out.push(((x >> 56) & 0xff) as u8);
    proof {
        assert(out@ =~= old(out)@ + spec_u64_le(x));
    }
}

/// Serializes the buffer as Format A: the 32-byte header for the given
/// metadata, then each sample's interleaved (I, 0) byte pairs.
pub fn format_a_bytes(samples: &Vec<u16>, sample_rate: u32, center_frequency_hz: u64, epoch_timestamp: u64) -> (r: Vec<u8>)
    ensures
        r@ == spec_format_a(samples@, sample_rate, center_frequency_hz, epoch_timestamp),
{
    let mut out: Vec<u8> = Vec::new();
    push_u32_le(&mut out, sample_rate);
    push_u64_le(&mut out, center_frequency_hz);
    push_u64_le(&mut out, epoch_timestamp);
    push_u32_le(&mut out, FORMAT_A_SAMPLE_SIZE_BITS);
    push_u32_le(&mut out, 0);
    proof {
        assert(out@ =~= spec_header_payload(sample_rate, center_frequency_hz, epoch_timestamp));
    }
    let crc = crc32(out.as_slice());
    push_u32_le(&mut out, crc);
    let ghost header = spec_format_a_header(sample_rate, center_frequency_hz, epoch_timestamp);
    proof {
        assert(out@ =~= header);
        assert(out@ =~= header + spec_format_a_body(samples@.take(0)));
    }
    let mut i: usize = 0;
    while i < samples.len()
        invariant
            i <= samples@.len(),
            out@ == header + spec_format_a_body(samples@.take(i as int)),
        decreases samples@.len() - i,
    {
        let v = (400 * (samples[i] as u32) + 51) / 102;
        out.push((v & 0xff) as u8);
        out.push(0);
        out.push(((v >> 8) & 0xff) as u8);
        out.push(0);
        out.push(((v >> 16) & 0xff) as u8);
        out.push(0);
        out.push(((v >> 24) & 0xff) as u8);
        out.push(0);
        proof {
            assert(samples@.take(i + 1).drop_last() =~= samples@.take(i as int));
            assert(samples@.take(i + 1).last() == samples@[i as int]);
            assert(out@ =~= header + spec_format_a_body(samples@.take(i + 1)));
        }
        i = i + 1;
    }
    proof {
        assert(samples@.take(samples@.len() as int) =~= samples@);
    }
    out
}

/// Serializes the buffer as Format B: per sample, the signed 8-bit value and
/// a zero byte.
pub fn format_b_bytes(samples: &Vec<u16>) -> (r: Vec<u8>)
    requires
        samples_in_range(samples@),
    ensures
        r@ == spec_format_b(samples@),
{
    let mut out: Vec<u8> = Vec::new();
    proof {
        assert(out@ =~= spec_format_b(samples@.take(0)));
    }
    let mut i: usize = 0;
    while i < samples.len()
        invariant
            i <= samples@.len(),
            samples_in_range(samples@),
            out@ == spec_format_b(samples@.take(i as int)),
        decreases samples@.len() - i,
    {
        let s = samples[i];
        proof {
            lemma_div_is_ordered(32 * (s as int), 81600, 1275);
        }
        let v = (32 * (s as u32)) / 1275;
        out.push(v as u8);
        out.push(0);
        proof {
            assert(samples@.take(i + 1).drop_last() =~= samples@.take(i as int));
            assert(samples@.take(i + 1).last() == samples@[i as int]);
            assert(out@ =~= spec_format_b(samples@.take(i + 1)));
        }
        i = i + 1;
    }
    proof {
        assert(samples@.take(samples@.len() as int) =~= samples@);
    }
    out
}

/// The header a reader recovers from Format A bytes: the five fields, with
/// the checksum recomputed over the first 28 bytes and compared to the
/// stored one; too-short input or a mismatch yields nothing.
pub open spec fn spec_parse_format_a_header(b: Seq<u8>) -> Option<FormatAHeader> {
    if b.len() < 32 {
        None
    } else if spec_u32_from_le(b.subrange(28, 32)) != crc32_of(b.subrange(0, 28)) {
        None
    } else {
        Some(
            FormatAHeader {
                sample_rate: spec_u32_from_le(b.subrange(0, 4)),
                center_frequency_hz: spec_u64_from_le(b.subrange(4, 12)),
                epoch_timestamp: spec_u64_from_le(b.subrange(12, 20)),
                sample_size_bits: spec_u32_from_le(b.subrange(20, 24)),
                reserved: spec_u32_from_le(b.subrange(24, 28)),
            },
        )
    }
}

/// Reads a Format A header back from serialized bytes, recomputing and
/// checking the checksum.
pub fn parse_format_a_header(bytes: &[u8]) -> (r: Option<FormatAHeader>)
    ensures
        r == spec_parse_format_a_header(bytes@),
{
    if bytes.len() < 32 {
        return None;
    }
    let mut payload: Vec<u8> = Vec::new();
    proof {
        assert(payload@ =~= bytes@.subrange(0, 0));
    }
    let mut i: usize = 0;
    while i < 28
        invariant
            i <= 28,
            bytes@.len() >= 32,
            payload@ == bytes@.subrange(0, i as int),
        decreases 28 - i,
    {
        payload.push(bytes[i]);
        proof {
            assert(payload@ =~= bytes@.subrange(0, i + 1));
        }
        i = i + 1;
    }
    let crc = crc32(payload.as_slice());
    let stored = read_u32_le(bytes, 28);
    if stored != crc {
        return None;
    }
    Some(
        FormatAHeader {
            sample_rate: read_u32_le(bytes, 0),
            center_frequency_hz: read_u64_le(bytes, 4),
            epoch_timestamp: read_u64_le(bytes, 12),
            sample_size_bits: read_u32_le(bytes, 20),
            reserved: read_u32_le(bytes, 24),
        },
    )
}

/// Reads a little-endian `u32` at `at`.
fn read_u32_le(bytes: &[u8], at: usize) -> (r: u32)
    requires
        at + 4 <= bytes@.len(),
    ensures
        r == spec_u32_from_le(bytes@.subrange(at as int, at + 4)),
{
    let r = (bytes[at] as u32) | ((bytes[at + 1] as u32) << 8) | ((bytes[at + 2] as u32) << 16) | (
    (bytes[at + 3] as u32) << 24);
    proof {
        let b = bytes@.subrange(at as int, at + 4);
        assert(b[0] == bytes@[at as int] && b[1] == bytes@[at + 1] && b[2] == bytes@[at + 2] && b[3]
            == bytes@[at + 3]);
    }
    r
}

/// Reads a little-endian `u64` at `at`.
fn read_u64_le(bytes: &[u8], at: usize) -> (r: u64)
    requires
        at + 8 <= bytes@.len(),
    ensures
        r == spec_u64_from_le(bytes@.subrange(at as int, at + 8)),
{
    let r = (bytes[at] as u64) | ((bytes[at + 1] as u64) << 8) | ((bytes[at + 2] as u64) << 16) | (
    (bytes[at + 3] as u64) << 24) | ((bytes[at + 4] as u64) << 32) | ((bytes[at + 5] as u64) << 40)
        | ((bytes[at + 6] as u64) << 48) | ((bytes[at + 7] as u64) << 56);
    proof {
        let b = bytes@.subrange(at as int, at + 8);
        assert(b[0] == bytes@[at as int] && b[1] == bytes@[at + 1] && b[2] == bytes@[at + 2] && b[3]
            == bytes@[at + 3] && b[4] == bytes@[at + 4] && b[5] == bytes@[at + 5] && b[6]
            == bytes@[at + 6] && b[7] == bytes@[at + 7]);
    }
    r
}

/// Reading four little-endian bytes recovers the `u32` they were written
/// from.
proof fn lemma_u32_le_roundtrip(x: u32)
    ensures
        spec_u32_from_le(spec_u32_le(x)) == x,
{
    assert((((x & 0xff) as u8) as u32) | ((((x >> 8) & 0xff) as u8) as u32) << 8 | ((((x >> 16)
        & 0xff) as u8) as u32) << 16 | ((((x >> 24) & 0xff) as u8) as u32) << 24 == x)
        by (bit_vector);
}

/// Reading eight little-endian bytes recovers the `u64` they were written
/// from.
proof fn lemma_u64_le_roundtrip(x: u64)
    ensures
        spec_u64_from_le(spec_u64_le(x)) == x,
{
    assert((((x & 0xff) as u8) as u64) | ((((x >> 8) & 0xff) as u8) as u64) << 8 | ((((x >> 16)
        & 0xff) as u8) as u64) << 16 | ((((x >> 24) & 0xff) as u8) as u64) << 24 | ((((x >> 32)
        & 0xff) as u8) as u64) << 32 | ((((x >> 40) & 0xff) as u8) as u64) << 40 | ((((x >> 48)
        & 0xff) as u8) as u64) << 48 | ((((x >> 56) & 0xff) as u8) as u64) << 56 == x)
        by (bit_vector);
}

/// Writing Format A and re-reading its header yields exactly the fields that
/// were written, the fixed sample-size and reserved values, and a checksum
/// that matches when recomputed.
pub proof fn lemma_format_a_header_roundtrip(samples: Seq<u16>, sample_rate: u32, center_frequency_hz: u64, epoch_timestamp: u64)
    ensures
        spec_parse_format_a_header(
            spec_format_a(samples, sample_rate, center_frequency_hz, epoch_timestamp),
        ) == Some(
            FormatAHeader {
                sample_rate,
                center_frequency_hz,
                epoch_timestamp,
                sample_size_bits: FORMAT_A_SAMPLE_SIZE_BITS,
                reserved: 0,
            },
        ),
{
    let payload = spec_header_payload(sample_rate, center_frequency_hz, epoch_timestamp);
    let bytes = spec_format_a(samples, sample_rate, center_frequency_hz, epoch_timestamp);
    assert(bytes.subrange(0, 28) =~= payload);
    assert(bytes.subrange(28, 32) =~= spec_u32_le(crc32_of(payload)));
    assert(bytes.subrange(0, 4) =~= spec_u32_le(sample_rate));
    assert(bytes.subrange(4, 12) =~= spec_u64_le(center_frequency_hz));
    assert(bytes.subrange(12, 20) =~= spec_u64_le(epoch_timestamp));
    assert(bytes.subrange(20, 24) =~= spec_u32_le(FORMAT_A_SAMPLE_SIZE_BITS));
    assert(bytes.subrange(24, 28) =~= spec_u32_le(0));
    lemma_u32_le_roundtrip(crc32_of(payload));
    lemma_u32_le_roundtrip(sample_rate);
    lemma_u64_le_roundtrip(center_frequency_hz);
    lemma_u64_le_roundtrip(epoch_timestamp);
    lemma_u32_le_roundtrip(FORMAT_A_SAMPLE_SIZE_BITS);
    lemma_u32_le_roundtrip(0);
}

} // verus!
