//! Teletext packet encoding: the Hamming(8,4) forward-error-correcting code,
//! packet addresses, and the two-level line modulation of packet bytes.
//!
//! The encoder is independent of the video waveform path: every value is a
//! pure function of its inputs.

use vstd::prelude::*;

verus! {

/// Bit `i` of a byte, as 0 or 1.
pub open spec fn bit_of(x: u8, i: u8) -> u8 {
    (x >> i) & 1
}

/// The number of set bits of a byte.
pub open spec fn weight8(x: u8) -> int {
    bit_of(x, 0) + bit_of(x, 1) + bit_of(x, 2) + bit_of(x, 3) + bit_of(x, 4) + bit_of(x, 5)
        + bit_of(x, 6) + bit_of(x, 7)
}

/// The number of bit positions where two bytes differ.
pub open spec fn hamming_distance(a: u8, b: u8) -> int {
    weight8(a ^ b)
}

/// The Hamming(8,4) codeword of the low nibble of `data`: data bits d1..d4
/// interleaved with even-parity bits, in bit order (least significant first)
/// p1, d1, p2, d2, p3, d3, d4, p4.
pub open spec fn spec_hamming_8_4(data: u8) -> u8 {
    let d1 = data & 1;
    let d2 = (data >> 1) & 1;
    let d3 = (data >> 2) & 1;
    let d4 = (data >> 3) & 1;
    let p1 = 1 ^ d1 ^ d3 ^ d4;
    let p2 = 1 ^ d1 ^ d2 ^ d4;
    let p3 = 1 ^ d1 ^ d2 ^ d3;
    let p4 = 1 ^ p1 ^ d1 ^ p2 ^ d2 ^ p3 ^ d3 ^ d4;
    p1 | (d1 << 1) | (p2 << 2) | (d2 << 3) | (p3 << 4) | (d3 << 5) | (d4 << 6) | (p4 << 7)
}

/// The address codeword pair of a packet: the high byte encodes the packet
/// number's upper bits, the low byte the magazine and the packet number's
/// least significant bit.  Out-of-range magazine or packet-number bits are
/// masked off, not rejected.
pub open spec fn spec_packet_address(magazine: u8, packet_number: u8) -> Seq<u8> {
    seq![
        spec_hamming_8_4(packet_number >> 1),
        spec_hamming_8_4((magazine & 7) | ((packet_number & 1) << 3)),
    ]
}

/// Accumulates encoded packet bytes.
pub struct TeleTextEncoder {
    /// Bytes encoded so far.
    pub data: Vec<u8>,
}

impl TeleTextEncoder {
    /// Starts a packet: its bytes so far are the clock run-in byte alone.
    pub fn encode_packet(&mut self) -> (r: Vec<u8>)
        ensures
            r@ == seq![0b01010101u8],
            final(self).data@ == old(self).data@,
    {
        let mut data = Vec::<u8>::new();
        // Clock run in
        data.push(0b01010101);
        proof {
            assert(data@ =~= seq![0b01010101u8]);
        }
        data
    }

    /// The even-parity bit of a byte with its top bit forced on: the XOR of
    /// all eight bits, i.e. the bit count modulo two.
    pub fn parity(data: u8) -> (r: u8)
        ensures
            r == weight8(data | 0x80) % 2,
    {
        let forced = data | 0x80;
        let a = forced ^ (forced >> 4);
        let b = a ^ (a >> 2);
        let c = b ^ (b >> 1);
        let r = c & 1;
        proof {
            assert(r == weight8(forced) % 2) by (bit_vector)
                requires
                    a == forced ^ (forced >> 4),
                    b == a ^ (a >> 2),
                    c == b ^ (b >> 1),
                    r == c & 1,
            ;
        }
        r
    }

    /// Encodes the low nibble as a Hamming(8,4) codeword.
    pub fn hamming_8_4(data: u8) -> (r: u8)
        ensures
            r == spec_hamming_8_4(data),
    {
        let d1 = data & 1;
        let d2 = (data >> 1) & 1;
        let d3 = (data >> 2) & 1;
        let d4 = (data >> 3) & 1;

        let p1 = 1 ^ d1 ^ d3 ^ d4;
        let p2 = 1 ^ d1 ^ d2 ^ d4;
        let p3 = 1 ^ d1 ^ d2 ^ d3;
        let p4 = 1 ^ p1 ^ d1 ^ p2 ^ d2 ^ p3 ^ d3 ^ d4;

        p1 | (d1 << 1) | (p2 << 2) | (d2 << 3) | (p3 << 4) | (d3 << 5) | (d4 << 6) | (p4 << 7)
    }

    /// Encodes magazine and packet number as the two address codewords,
    /// returned high byte first.
    pub fn packet_address(magazine: u8, packet_number: u8) -> (r: [u8; 2])
        ensures
            r@ == spec_packet_address(magazine, packet_number),
    {
        // Magazine 0-7, lsb of packet number
        let packet_1 = Self::hamming_8_4((magazine & 7) | ((packet_number & 1) << 3));

        // Top bits of packet number
        let packet_2 = Self::hamming_8_4(packet_number >> 1);

        let r = [packet_2, packet_1];
        proof {
            assert(r@ =~= spec_packet_address(magazine, packet_number));
        }
        r
    }
}

/// The sixteen codewords lie pairwise at Hamming distance at least four, and
/// a pair at exactly four exists: the code corrects any single-bit error and
/// detects any double-bit error.
pub proof fn lemma_hamming_min_distance()
    by (bit_vector)
    ensures
        forall|a: u8, b: u8|
            a < 16 && b < 16 && a != b ==> #[trigger] hamming_distance(
                spec_hamming_8_4(a),
                spec_hamming_8_4(b),
            ) >= 4,
        hamming_distance(spec_hamming_8_4(0), spec_hamming_8_4(1)) == 4,
{
}

/// A byte within Hamming distance one of two codewords decodes both to the
/// same nibble: after any single-bit error, nearest-codeword decoding
/// recovers the nibble that was encoded.
pub proof fn lemma_hamming_single_error_unique()
    by (bit_vector)
    ensures
        forall|a: u8, b: u8, r: u8|
            a < 16 && b < 16 && #[trigger] hamming_distance(spec_hamming_8_4(a), r) <= 1
                && #[trigger] hamming_distance(spec_hamming_8_4(b), r) <= 1 ==> a == b,
{
}

/// The blanking-level amplitude carrying a teletext 0 bit.
pub const TELETEXT_LEVEL_0: u16 = 765;

/// The amplitude carrying a teletext 1 bit: 0.66 of full scale.
pub const TELETEXT_LEVEL_1: u16 = 1683;

/// The amplitude of one data bit.
pub open spec fn spec_bit_level(bit: u8) -> u16 {
    if bit == 1 {
        TELETEXT_LEVEL_1
    } else {
        TELETEXT_LEVEL_0
    }
}

/// The amplitudes of one byte's bits, least significant first.
pub open spec fn byte_levels_spec(data: u8) -> Seq<u16> {
    Seq::new(8, |i: int| spec_bit_level(bit_of(data, i as u8)))
}

/// The amplitudes opening every teletext line: sixteen clock run-in samples
/// alternating 1 and 0, then the eight framing-code bits 1,1,1,0,0,1,0,0.
pub open spec fn line_prefix_spec() -> Seq<u16> {
    byte_levels_spec(0b01010101) + byte_levels_spec(0b01010101) + byte_levels_spec(0b00100111)
}

/// Accumulates the amplitude samples of a teletext line.
pub struct TeleTextModulator {
    /// Samples produced so far.
    pub data: Vec<u16>,
}

impl TeleTextModulator {
    /// Appends the amplitude of a 0 bit.
    pub fn push_0(&mut self)
        ensures
            final(self).data@ == old(self).data@.push(TELETEXT_LEVEL_0),
    {
        self.data.push(TELETEXT_LEVEL_0);
    }

    /// Appends the amplitude of a 1 bit.
    pub fn push_1(&mut self)
        ensures
            final(self).data@ == old(self).data@.push(TELETEXT_LEVEL_1),
    {
        self.data.push(TELETEXT_LEVEL_1);
    }

    /// Appends one byte as eight bit amplitudes, least significant bit first.
    pub fn push_byte(&mut self, data: u8)
        ensures
            final(self).data@ == old(self).data@ + byte_levels_spec(data),
    {
        proof {
            assert(old(self).data@ + byte_levels_spec(data).take(0) =~= old(self).data@);
        }
        let mut i: u8 = 0;
        while i < 8
            invariant
                i <= 8,
                self.data@ == old(self).data@ + byte_levels_spec(data).take(i as int),
            decreases 8 - i,
        {
            let bit = (data >> i) & 1;
            proof {
                assert(bit == 0 || bit == 1) by (bit_vector)
                    requires
                        bit == (data >> i) & 1,
                ;
            }
            if bit == 1 {
                self.push_1();
            } else {
                self.push_0();
            }
            proof {
                assert(old(self).data@ + byte_levels_spec(data).take(i + 1) =~= (old(self).data@
                    + byte_levels_spec(data).take(i as int)).push(spec_bit_level(bit_of(data, i))));
            }
            i = i + 1;
        }
        proof {
            assert(byte_levels_spec(data).take(8) =~= byte_levels_spec(data));
        }
    }

    /// Appends the fixed opening of a teletext line: the clock run-in (the
    /// run-in byte twice) and the framing code.
    pub fn encode_line(&mut self)
        ensures
            final(self).data@ == old(self).data@ + line_prefix_spec(),
    {
        // Generate clock run in
        self.push_byte(0b01010101);
        self.push_byte(0b01010101);
        // Framing code
        self.push_byte(0b00100111);
        proof {
            assert(self.data@ =~= old(self).data@ + line_prefix_spec());
        }
    }
}

} // verus!
