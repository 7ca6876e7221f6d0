//! Append-only construction of the standard sync, blanking and active-video
//! segments of the waveform.
//!
//! Every emitter's growth of the target buffer is stated exactly: the new
//! buffer equals the old one followed by the segment's sample sequence, a
//! spec-level function of the timing profile (and, for an active scanline,
//! of the row's luma values).

use crate::timing::{valid_profile, TimingProfile};
use crate::{spec_luma_level, luma_level, BLANK_LEVEL, SYNC_LEVEL};
use vstd::prelude::*;

verus! {

/// `n` copies of one amplitude level (empty when `n` is negative).
pub open spec fn repeat_level(level: u16, n: int) -> Seq<u16> {
    Seq::new(
        if n >= 0 {
            n as nat
        } else {
            0
        },
        |i: int| level,
    )
}

/// One half-line opened by `pulse` sync-tip samples and filled with blanking.
pub open spec fn sync_halfline_spec(pulse: int, half: int) -> Seq<u16> {
    repeat_level(SYNC_LEVEL, pulse) + repeat_level(BLANK_LEVEL, half - pulse)
}

/// Five consecutive sync half-lines, the vertical-interval block shape.
pub open spec fn sync_section_spec(pulse: int, half: int) -> Seq<u16> {
    let one = sync_halfline_spec(pulse, half);
    one + one + one + one + one
}

/// One blank half-line: blanking level throughout.
pub open spec fn blank_halfline_spec(p: TimingProfile) -> Seq<u16> {
    repeat_level(BLANK_LEVEL, (p.scanline_samples / 2) as int)
}

/// One half-line carrying a normal horizontal sync pulse and back porch,
/// filled to half a scanline with blanking.
pub open spec fn synced_halfline_spec(p: TimingProfile) -> Seq<u16> {
    repeat_level(SYNC_LEVEL, p.hsync_pulse as int) + repeat_level(BLANK_LEVEL, p.back_porch as int)
        + repeat_level(
        BLANK_LEVEL,
        (p.scanline_samples / 2) as int - p.hsync_pulse - p.back_porch,
    )
}

/// One active scanline: sync pulse, back porch, the row's luma values mapped
/// onto the active-video range, then the front porch.
pub open spec fn scanline_spec(row: Seq<u8>, p: TimingProfile) -> Seq<u16> {
    repeat_level(SYNC_LEVEL, p.hsync_pulse as int) + repeat_level(BLANK_LEVEL, p.back_porch as int)
        + row.map_values(|l: u8| spec_luma_level(l)) + repeat_level(
        BLANK_LEVEL,
        p.front_porch as int,
    )
}

/// The malformed-row rejection: a supplied row whose length is not the
/// configured raster width.
#[derive(Clone, Copy, Debug, PartialEq, Eq, Structural)]
pub enum WaveformError {
    MalformedRow,
}

/// Appends `count` samples at one level.
pub fn push_level(buffer: &mut Vec<u16>, level: u16, count: usize)
    ensures
        final(buffer)@ == old(buffer)@ + repeat_level(level, count as int),
{
    proof {
        assert(old(buffer)@ + repeat_level(level, 0) =~= old(buffer)@);
    }
    let mut i: usize = 0;
    while i < count
        invariant
            i <= count,
            buffer@ == old(buffer)@ + repeat_level(level, i as int),
        decreases count - i,
    {
        buffer.push(level);
        proof {
            assert(old(buffer)@ + repeat_level(level, i + 1) =~= (old(buffer)@ + repeat_level(
                level,
                i as int,
            )).push(level));
        }
        i = i + 1;
    }
}

/// Appends one sync half-line: `pulse` samples at the sync tip, then blanking
/// up to half a scanline.
fn push_sync_halfline(buffer: &mut Vec<u16>, pulse: usize, half: usize)
    requires
        pulse <= half,
    ensures
        final(buffer)@ == old(buffer)@ + sync_halfline_spec(pulse as int, half as int),
{
    push_level(buffer, SYNC_LEVEL, pulse);
    push_level(buffer, BLANK_LEVEL, half - pulse);
    proof {
        assert(buffer@ =~= old(buffer)@ + sync_halfline_spec(pulse as int, half as int));
    }
}

/// Appends the five broad-pulse half-lines of a vertical sync block.
pub fn push_broad_sync_section(buffer: &mut Vec<u16>, profile: &TimingProfile)
    requires
        valid_profile(*profile),
    ensures
        final(buffer)@ == old(buffer)@ + sync_section_spec(
            profile.half_line_broad_pulse as int,
            (profile.scanline_samples / 2) as int,
        ),
{
    proof {
        crate::timing::lemma_pulses_fit(profile.pixels_per_line as nat);
    }
    let pulse = profile.half_line_broad_pulse;
    let half = profile.scanline_samples / 2;
    push_sync_halfline(buffer, pulse, half);
    push_sync_halfline(buffer, pulse, half);
    push_sync_halfline(buffer, pulse, half);
    push_sync_halfline(buffer, pulse, half);
    push_sync_halfline(buffer, pulse, half);
    proof {
        assert(buffer@ =~= old(buffer)@ + sync_section_spec(pulse as int, half as int));
    }
}

/// Appends the five short-pulse half-lines of an equalizing block.
pub fn push_short_sync_section(buffer: &mut Vec<u16>, profile: &TimingProfile)
    requires
        valid_profile(*profile),
    ensures
        final(buffer)@ == old(buffer)@ + sync_section_spec(
            profile.half_line_short_pulse as int,
            (profile.scanline_samples / 2) as int,
        ),
{
    proof {
        crate::timing::lemma_pulses_fit(profile.pixels_per_line as nat);
    }
    let pulse = profile.half_line_short_pulse;
    let half = profile.scanline_samples / 2;
    push_sync_halfline(buffer, pulse, half);
    push_sync_halfline(buffer, pulse, half);
    push_sync_halfline(buffer, pulse, half);
    push_sync_halfline(buffer, pulse, half);
    push_sync_halfline(buffer, pulse, half);
    proof {
        assert(buffer@ =~= old(buffer)@ + sync_section_spec(pulse as int, half as int));
    }
}

/// Appends one blank half-line.
pub fn push_blank_halfline(buffer: &mut Vec<u16>, profile: &TimingProfile)
    requires
        valid_profile(*profile),
    ensures
        final(buffer)@ == old(buffer)@ + blank_halfline_spec(*profile),
{
    push_level(buffer, BLANK_LEVEL, profile.scanline_samples / 2);
}

/// Appends one synced half-line: a normal horizontal sync pulse and back
/// porch, then blanking to half a scanline.
pub fn push_synced_halfline(buffer: &mut Vec<u16>, profile: &TimingProfile)
    requires
        valid_profile(*profile),
    ensures
        final(buffer)@ == old(buffer)@ + synced_halfline_spec(*profile),
{
    proof {
        crate::timing::lemma_pulses_fit(profile.pixels_per_line as nat);
    }
    let half = profile.scanline_samples / 2;
    push_level(buffer, SYNC_LEVEL, profile.hsync_pulse);
    push_level(buffer, BLANK_LEVEL, profile.back_porch);
    push_level(buffer, BLANK_LEVEL, half - profile.hsync_pulse - profile.back_porch);
    proof {
        assert(buffer@ =~= old(buffer)@ + synced_halfline_spec(*profile));
    }
}

/// Appends one active scanline built from `row`'s luma values; rejects a row
/// whose length differs from the configured raster width without appending
/// anything.
pub fn push_image_scanline(buffer: &mut Vec<u16>, row: &[u8], profile: &TimingProfile) -> (r:
    Result<(), WaveformError>)
    requires
        valid_profile(*profile),
    ensures
        r is Ok <==> row@.len() == profile.pixels_per_line,
        r is Ok ==> final(buffer)@ == old(buffer)@ + scanline_spec(row@, *profile),
        r is Err ==> r == Result::<(), WaveformError>::Err(WaveformError::MalformedRow)
            && final(buffer)@ == old(buffer)@,
{
    if row.len() != profile.pixels_per_line {
        return Err(WaveformError::MalformedRow);
    }
    push_level(buffer, SYNC_LEVEL, profile.hsync_pulse);
    push_level(buffer, BLANK_LEVEL, profile.back_porch);
    let ghost pre = buffer@;
    let mut i: usize = 0;
    while i < row.len()
        invariant
            i <= row@.len(),
            buffer@ == pre + row@.take(i as int).map_values(|l: u8| spec_luma_level(l)),
        decreases row@.len() - i,
    {
        let level = luma_level(row[i]);
        buffer.push(level);
        proof {
            assert(pre + row@.take(i + 1).map_values(|l: u8| spec_luma_level(l)) =~= (pre
                + row@.take(i as int).map_values(|l: u8| spec_luma_level(l))).push(
                spec_luma_level(row@[i as int]),
            ));
        }
        i = i + 1;
    }
    push_level(buffer, BLANK_LEVEL, profile.front_porch);
    proof {
        assert(row@.take(row@.len() as int) =~= row@);
        assert(buffer@ =~= old(buffer)@ + scanline_spec(row@, *profile));
    }
    Ok(())
}

} // verus!
