//! Sample-accurate synthesis of an analog 625-line interlaced video waveform
//! from a luma raster, together with a teletext packet encoder.
//!
//! Amplitudes are carried as exact fixed-point values in units of 1/2550 of
//! full scale, so that every level the waveform uses (sync tip 0.0, blanking
//! 0.3, the luma mapping onto [0.3, 1.0], and the export quantizations) is
//! represented without rounding error.

use vstd::prelude::*;

pub mod export;
pub mod frame;
pub mod session;
pub mod teletext;
pub mod timing;
pub mod waveform;

verus! {

/// Full scale (1.0) of the normalized sample amplitude, in fixed-point units.
pub const FULL_SCALE: u16 = 2550;

/// The blanking / black level (0.3 of full scale).
pub const BLANK_LEVEL: u16 = 765;

/// The sync tip level (0.0 of full scale).
pub const SYNC_LEVEL: u16 = 0;

/// Maps an 8-bit luma value onto the active-video range [0.3, 1.0] of full
/// scale: 765 + 7 * luma is exactly ((luma / 255) * 0.7 + 0.3) * 2550.
pub open spec fn spec_luma_level(luma: u8) -> u16 {
    (BLANK_LEVEL + 7 * luma) as u16
}

/// Exact fixed-point image of the luma-to-amplitude mapping.
pub fn luma_level(luma: u8) -> (r: u16)
    ensures
        r == spec_luma_level(luma),
        r <= FULL_SCALE,
{
    765 + 7 * (luma as u16)
}

/// Whether every sample lies in the normalized amplitude range [0, 1].
pub open spec fn samples_in_range(s: Seq<u16>) -> bool {
    forall|i: int| 0 <= i < s.len() ==> #[trigger] s[i] <= FULL_SCALE
}

} // verus!

