use lumamod::timing::{compute, TimingError, ACTIVE_PERIOD_TICKS};

#[test]
fn timing_literal_vector_for_208_pixels() {
    let p = compute(208).unwrap();
    assert_eq!(p.pixels_per_line, 208);
    assert_eq!(p.front_porch, 6);
    assert_eq!(p.hsync_pulse, 18);
    assert_eq!(p.back_porch, 22);
    assert_eq!(p.scanline_samples, 254);
    assert_eq!(p.half_line_short_pulse, 9);
    assert_eq!(p.half_line_broad_pulse, 109);
    assert_eq!(p.sample_frequency_hz, 3_968_750);
    // The exact pixel frequency 208 / 51.95us rounds to 4 003 850 Hz.
    let den = ACTIVE_PERIOD_TICKS as u64;
    let rounded = (p.pixel_frequency_num_hz + den / 2) / den;
    assert_eq!(rounded, 4_003_850);
}

#[test]
fn timing_vector_for_original_width_1443() {
    let p = compute(1443).unwrap();
    assert_eq!(p.front_porch, 45);
    assert_eq!(p.hsync_pulse, 130);
    assert_eq!(p.back_porch, 158);
    assert_eq!(p.scanline_samples, 1776);
    assert_eq!(p.half_line_short_pulse, 65);
    assert_eq!(p.half_line_broad_pulse, 758);
    assert_eq!(p.sample_frequency_hz, 27_750_000);
}

#[test]
fn scanline_is_sum_of_its_parts() {
    for width in [1usize, 2, 7, 208, 520, 1443, 65535] {
        let p = compute(width).unwrap();
        assert_eq!(
            p.scanline_samples,
            p.front_porch + p.hsync_pulse + width + p.back_porch
        );
        assert_eq!(p.sample_frequency_hz, p.scanline_samples as u64 * 15625);
    }
}

#[test]
fn zero_width_is_rejected() {
    assert_eq!(compute(0), Err(TimingError::ZeroPixelsPerLine));
}
