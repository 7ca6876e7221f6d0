use lumamod::export::{format_a_bytes, format_b_bytes, parse_format_a_header, FormatAHeader};

#[test]
fn format_a_header_layout_and_checksum() {
    let samples: Vec<u16> = vec![0, 765, 2550];
    let bytes = format_a_bytes(&samples, 4_000_000, 400_000_000, 0);
    assert_eq!(bytes.len(), 32 + 8 * samples.len());
    assert_eq!(&bytes[0..4], &4_000_000u32.to_le_bytes());
    assert_eq!(&bytes[4..12], &400_000_000u64.to_le_bytes());
    assert_eq!(&bytes[12..20], &0u64.to_le_bytes());
    assert_eq!(&bytes[20..24], &24u32.to_le_bytes());
    assert_eq!(&bytes[24..28], &0u32.to_le_bytes());
    let recomputed = crc32fast::hash(&bytes[0..28]);
    assert_eq!(&bytes[28..32], &recomputed.to_le_bytes());
}

#[test]
fn format_a_round_trip_recovers_header_fields() {
    let samples: Vec<u16> = (0..=2550).step_by(17).collect();
    let bytes = format_a_bytes(&samples, 4_000_000, 400_000_000, 1_700_000_000);
    let header = parse_format_a_header(&bytes).unwrap();
    assert_eq!(
        header,
        FormatAHeader {
            sample_rate: 4_000_000,
            center_frequency_hz: 400_000_000,
            epoch_timestamp: 1_700_000_000,
            sample_size_bits: 24,
            reserved: 0,
        }
    );
}

#[test]
fn format_a_rejects_corruption_and_short_input() {
    let samples: Vec<u16> = vec![765; 4];
    let mut bytes = format_a_bytes(&samples, 48_000, 182_250_000, 7);
    assert!(parse_format_a_header(&bytes).is_some());
    bytes[5] ^= 0x01;
    assert!(parse_format_a_header(&bytes).is_none());
    bytes[5] ^= 0x01;
    assert!(parse_format_a_header(&bytes).is_some());
    assert!(parse_format_a_header(&bytes[..31]).is_none());
}

#[test]
fn format_a_body_quantizes_to_ten_thousandths() {
    // 0.0, 0.3 and 1.0 of full scale become 0, 3000 and 10000.
    let samples: Vec<u16> = vec![0, 765, 2550];
    let bytes = format_a_bytes(&samples, 4_000_000, 400_000_000, 0);
    let expect = |v: i32| -> Vec<u8> {
        v.to_le_bytes().iter().flat_map(|&b| [b, 0]).collect()
    };
    assert_eq!(&bytes[32..40], expect(0).as_slice());
    assert_eq!(&bytes[40..48], expect(3000).as_slice());
    assert_eq!(&bytes[48..56], expect(10000).as_slice());
}

#[test]
fn format_a_rounds_to_nearest() {
    // 1/2550 of full scale is 3.92 ten-thousandths, which rounds up to 4.
    let bytes = format_a_bytes(&vec![1u16], 1, 1, 1);
    assert_eq!(&bytes[32..40], &[4, 0, 0, 0, 0, 0, 0, 0]);
    // 2549/2550 is 9996.08 ten-thousandths, which rounds down to 9996.
    let bytes = format_a_bytes(&vec![2549u16], 1, 1, 1);
    assert_eq!(&bytes[32..40], &[0x0c, 0, 0x27, 0, 0, 0, 0, 0]);
}

#[test]
fn format_b_truncates_to_sixty_fourths() {
    // 0.0, 0.3, 0.66 and 1.0 of full scale truncate to 0, 19, 42 and 64.
    let samples: Vec<u16> = vec![0, 765, 1683, 2550];
    let bytes = format_b_bytes(&samples);
    assert_eq!(bytes, vec![0, 0, 19, 0, 42, 0, 64, 0]);
}

#[test]
fn format_b_has_no_header_and_two_bytes_per_sample() {
    let samples: Vec<u16> = vec![765; 10];
    let bytes = format_b_bytes(&samples);
    assert_eq!(bytes.len(), 20);
    assert!(bytes.chunks(2).all(|pair| pair == [19, 0]));
}
