use lumamod::timing::compute;
use lumamod::waveform::{
    push_blank_halfline, push_broad_sync_section, push_image_scanline, push_short_sync_section,
    push_synced_halfline, WaveformError,
};
use lumamod::{luma_level, BLANK_LEVEL, SYNC_LEVEL};

#[test]
fn luma_mapping_endpoints() {
    assert_eq!(luma_level(0), 765);
    assert_eq!(luma_level(100), 1465);
    assert_eq!(luma_level(255), 2550);
}

#[test]
fn broad_sync_section_shape() {
    let p = compute(208).unwrap();
    let mut buffer = Vec::new();
    push_broad_sync_section(&mut buffer, &p);
    // Five half-lines of 127 samples: 109 sync-tip, 18 blanking each.
    assert_eq!(buffer.len(), 5 * 127);
    for rep in 0..5 {
        let half = &buffer[rep * 127..(rep + 1) * 127];
        assert!(half[..109].iter().all(|&s| s == SYNC_LEVEL));
        assert!(half[109..].iter().all(|&s| s == BLANK_LEVEL));
    }
}

#[test]
fn short_sync_section_shape() {
    let p = compute(208).unwrap();
    let mut buffer = Vec::new();
    push_short_sync_section(&mut buffer, &p);
    assert_eq!(buffer.len(), 5 * 127);
    for rep in 0..5 {
        let half = &buffer[rep * 127..(rep + 1) * 127];
        assert!(half[..9].iter().all(|&s| s == SYNC_LEVEL));
        assert!(half[9..].iter().all(|&s| s == BLANK_LEVEL));
    }
}

#[test]
fn blank_halfline_is_all_blanking() {
    let p = compute(208).unwrap();
    let mut buffer = Vec::new();
    push_blank_halfline(&mut buffer, &p);
    assert_eq!(buffer, vec![BLANK_LEVEL; 127]);
}

#[test]
fn synced_halfline_shape() {
    let p = compute(208).unwrap();
    let mut buffer = Vec::new();
    push_synced_halfline(&mut buffer, &p);
    assert_eq!(buffer.len(), 127);
    assert!(buffer[..18].iter().all(|&s| s == SYNC_LEVEL));
    assert!(buffer[18..].iter().all(|&s| s == BLANK_LEVEL));
}

#[test]
fn image_scanline_shape() {
    let p = compute(208).unwrap();
    let mut row = vec![0u8; 208];
    row[0] = 255;
    row[207] = 100;
    let mut buffer = Vec::new();
    assert_eq!(push_image_scanline(&mut buffer, &row, &p), Ok(()));
    assert_eq!(buffer.len(), 254);
    assert!(buffer[..18].iter().all(|&s| s == SYNC_LEVEL));
    assert!(buffer[18..40].iter().all(|&s| s == BLANK_LEVEL));
    assert_eq!(buffer[40], 2550);
    assert!(buffer[41..247].iter().all(|&s| s == 765));
    assert_eq!(buffer[247], 1465);
    assert!(buffer[248..].iter().all(|&s| s == BLANK_LEVEL));
}

#[test]
fn malformed_row_is_rejected_without_output() {
    let p = compute(208).unwrap();
    let row = vec![0u8; 207];
    let mut buffer = vec![42u16];
    assert_eq!(
        push_image_scanline(&mut buffer, &row, &p),
        Err(WaveformError::MalformedRow)
    );
    assert_eq!(buffer, vec![42u16]);
}
