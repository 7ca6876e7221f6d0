use lumamod::frame::{compose, SourceImage};
use lumamod::timing::compute;
use lumamod::waveform::WaveformError;
use lumamod::{luma_level, FULL_SCALE, SYNC_LEVEL};

fn test_image(width: usize) -> SourceImage {
    let rows: Vec<Vec<u8>> = (0..625)
        .map(|y| (0..width).map(|x| ((x + y) % 256) as u8).collect())
        .collect();
    SourceImage::new(width, rows).unwrap()
}

#[test]
fn compose_is_deterministic() {
    let p = compute(208).unwrap();
    let image = test_image(208);
    let first = compose(&image, &p).unwrap();
    let second = compose(&image, &p).unwrap();
    assert_eq!(first, second);
}

#[test]
fn frame_length_matches_closed_form() {
    let p = compute(208).unwrap();
    let image = test_image(208);
    let frame = compose(&image, &p).unwrap();
    // 32 half-lines plus 609 active scanlines; with 254 samples per line this
    // is exactly 625 whole scanlines.
    assert_eq!(frame.len(), 32 * 127 + 609 * 254);
    assert_eq!(frame.len(), 625 * 254);
}

#[test]
fn frame_interlaces_even_then_odd_rows() {
    let p = compute(208).unwrap();
    let image = test_image(208);
    let frame = compose(&image, &p).unwrap();
    // Two five-half-line blocks precede field one.
    let field_one = 2 * 5 * 127;
    // Row 0's scanline: sync pulse, back porch, then its first pixel.
    assert!(frame[field_one..field_one + 18].iter().all(|&s| s == SYNC_LEVEL));
    assert_eq!(frame[field_one + 18 + 22], luma_level(0));
    // The second scanline of field one comes from row 2.
    assert_eq!(frame[field_one + 254 + 18 + 22], luma_level(2));
    // Field two starts after 305 scanlines and four more blocks of
    // half-lines: short, broad, short, and one blank half-line.
    let field_two = field_one + 305 * 254 + 3 * 5 * 127 + 127;
    assert!(frame[field_two..field_two + 18].iter().all(|&s| s == SYNC_LEVEL));
    assert_eq!(frame[field_two + 18 + 22], luma_level(1));
    assert_eq!(frame[field_two + 254 + 18 + 22], luma_level(3));
}

#[test]
fn frame_samples_stay_in_range() {
    let p = compute(208).unwrap();
    let image = test_image(208);
    let frame = compose(&image, &p).unwrap();
    assert!(frame.iter().all(|&s| s <= FULL_SCALE));
}

#[test]
fn width_mismatch_is_a_malformed_row() {
    let p = compute(208).unwrap();
    let image = test_image(100);
    assert_eq!(compose(&image, &p), Err(WaveformError::MalformedRow));
}

#[test]
fn source_image_validates_geometry() {
    assert!(SourceImage::new(8, vec![vec![0u8; 8]; 625]).is_some());
    assert!(SourceImage::new(8, vec![vec![0u8; 8]; 624]).is_none());
    let mut rows = vec![vec![0u8; 8]; 625];
    rows[300] = vec![0u8; 7];
    assert!(SourceImage::new(8, rows).is_none());
}
