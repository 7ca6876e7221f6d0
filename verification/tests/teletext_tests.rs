use lumamod::teletext::{TeleTextEncoder, TeleTextModulator, TELETEXT_LEVEL_0, TELETEXT_LEVEL_1};

fn codebook() -> Vec<u8> {
    (0u8..16).map(TeleTextEncoder::hamming_8_4).collect()
}

#[test]
fn create_packet_adress() {
    assert_eq!(TeleTextEncoder::packet_address(0, 0), [0x15, 0x15])
}

#[test]
fn packet_address_of_magazine_one_packet_two() {
    // Both address nibbles are 1: magazine bits 001, packet number 0b10.
    assert_eq!(TeleTextEncoder::packet_address(1, 2), [0x02, 0x02]);
}

#[test]
fn packet_address_masks_out_of_range_values() {
    // Magazine keeps its low three bits, the packet number its low five.
    assert_eq!(
        TeleTextEncoder::packet_address(9, 0),
        TeleTextEncoder::packet_address(1, 0)
    );
    assert_eq!(
        TeleTextEncoder::packet_address(0, 32),
        TeleTextEncoder::packet_address(0, 0)
    );
}

#[test]
fn hamming_known_codewords() {
    assert_eq!(TeleTextEncoder::hamming_8_4(0), 0x15);
    assert_eq!(TeleTextEncoder::hamming_8_4(1), 0x02);
    assert_eq!(TeleTextEncoder::hamming_8_4(15), 0xea);
}

#[test]
fn hamming_uses_low_nibble_only() {
    for n in 0u8..16 {
        assert_eq!(
            TeleTextEncoder::hamming_8_4(n),
            TeleTextEncoder::hamming_8_4(n | 0xf0)
        );
    }
}

#[test]
fn hamming_minimum_pairwise_distance_is_four() {
    let codes = codebook();
    let mut min = u32::MAX;
    for a in 0..16 {
        for b in 0..16 {
            if a != b {
                let d = (codes[a] ^ codes[b]).count_ones();
                assert!(d >= 4, "codewords {a} and {b} differ in only {d} bits");
                min = min.min(d);
            }
        }
    }
    assert_eq!(min, 4);
}

#[test]
fn hamming_single_bit_flip_recovers_nibble() {
    let codes = codebook();
    for n in 0..16usize {
        for bit in 0..8 {
            let received = codes[n] ^ (1u8 << bit);
            // The nearest codeword is unique and belongs to the original nibble.
            let mut best = (u32::MAX, 0usize);
            for (m, c) in codes.iter().enumerate() {
                let d = (received ^ c).count_ones();
                if d < best.0 {
                    best = (d, m);
                }
            }
            assert_eq!(best.0, 1);
            assert_eq!(best.1, n, "flipping bit {bit} of codeword {n} decoded wrongly");
        }
    }
}

#[test]
fn parity_matches_bit_count() {
    for b in 0u8..=255 {
        let expected = ((b | 0x80).count_ones() % 2) as u8;
        assert_eq!(TeleTextEncoder::parity(b), expected);
    }
}

#[test]
fn encode_packet_starts_with_clock_run_in() {
    let mut enc = TeleTextEncoder { data: Vec::new() };
    assert_eq!(enc.encode_packet(), vec![0b01010101]);
    assert!(enc.data.is_empty());
}

#[test]
fn push_byte_emits_bits_lsb_first() {
    let mut m = TeleTextModulator { data: Vec::new() };
    m.push_byte(0b00100111);
    let one = TELETEXT_LEVEL_1;
    let zero = TELETEXT_LEVEL_0;
    assert_eq!(m.data, vec![one, one, one, zero, zero, one, zero, zero]);
}

#[test]
fn encode_line_emits_run_in_and_framing_code() {
    let mut m = TeleTextModulator { data: Vec::new() };
    m.encode_line();
    assert_eq!(m.data.len(), 24);
    let one = TELETEXT_LEVEL_1;
    let zero = TELETEXT_LEVEL_0;
    for pair in 0..8 {
        assert_eq!(m.data[2 * pair], one);
        assert_eq!(m.data[2 * pair + 1], zero);
    }
    assert_eq!(
        &m.data[16..],
        &[one, one, one, zero, zero, one, zero, zero]
    );
}
