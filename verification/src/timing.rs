//! Derivation of every pixel/line/sample timing count from the single
//! configuration parameter `pixels_per_line`.
//!
//! The fixed standard constant is the active-picture period of 51.95 us per
//! scanline.  Every count below is the floor of a time fraction times the
//! pixel frequency `pixels_per_line / 51.95us`.  Each such fraction reduces to
//! an exact rational with denominator 1039 (51.95 us in units of 0.05 us), so
//! the truncations are computed exactly in integer arithmetic:
//!
//!   front porch        1.65 us  ->  33/1039 of a line's pixels
//!   hsync pulse        4.70 us  ->  94/1039
//!   back porch         5.70 us  -> 114/1039
//!   half-line short    2.35 us  ->  47/1039
//!   half-line broad   27.30 us  -> 546/1039   (32 us - 4.7 us)
//!
//! The sample frequency `scanline_samples / 64 us` is always a whole number of
//! hertz, namely `scanline_samples * 15625`.  The pixel frequency is the exact
//! rational `pixels_per_line * 20_000_000 / 1039` hertz.

use vstd::arithmetic::div_mod::{
    lemma_basic_div, lemma_div_is_ordered, lemma_div_multiples_vanish,
    lemma_fundamental_div_mod, lemma_mod_division_less_than_divisor,
};
use vstd::prelude::*;

verus! {

/// The timing denominator: the 51.95 us active period in units of 0.05 us.
pub const ACTIVE_PERIOD_TICKS: usize = 1039;

/// 1.65 us front porch in units of 0.05 us.
pub const FRONT_PORCH_TICKS: usize = 33;

/// 4.7 us horizontal sync pulse in units of 0.05 us.
pub const HSYNC_TICKS: usize = 94;

/// 5.7 us back porch in units of 0.05 us.
pub const BACK_PORCH_TICKS: usize = 114;

/// 2.35 us equalizing (short) pulse in units of 0.05 us.
pub const SHORT_PULSE_TICKS: usize = 47;

/// 27.3 us broad (vertical sync) pulse in units of 0.05 us.
pub const BROAD_PULSE_TICKS: usize = 546;

/// Upper bound on the accepted raster width.  It keeps every derived count --
/// products with the tick constants, the per-frame sample total and the
/// exported byte total -- within a 32-bit `usize`.
pub const MAX_PIXELS_PER_LINE: usize = 65535;

/// Numerator of the pixel frequency in hertz: the frequency is
/// `pixels_per_line * 20_000_000 / 1039` Hz exactly.
pub const PIXEL_FREQUENCY_NUM_PER_PIXEL: u64 = 20_000_000;

/// All integer timing counts derived from one `pixels_per_line` value.
#[derive(Clone, Copy, Debug, PartialEq, Eq, Structural)]
pub struct TimingProfile {
    /// The configuration parameter the rest was derived from.
    pub pixels_per_line: usize,
    /// Blanking samples appended after the active picture of a scanline.
    pub front_porch: usize,
    /// Sync-tip samples opening a full or synced scanline.
    pub hsync_pulse: usize,
    /// Blanking samples between the sync pulse and the active picture.
    pub back_porch: usize,
    /// Samples of one whole scanline: porches + sync + active picture.
    pub scanline_samples: usize,
    /// Sync-tip samples of one equalizing half-line.
    pub half_line_short_pulse: usize,
    /// Sync-tip samples of one vertical-sync half-line.
    pub half_line_broad_pulse: usize,
    /// Exact sample frequency in hertz: `scanline_samples / 64 us`.
    pub sample_frequency_hz: u64,
    /// Numerator of the exact pixel frequency: the frequency is this value
    /// over [`ACTIVE_PERIOD_TICKS`] hertz.
    pub pixel_frequency_num_hz: u64,
}

/// The rejected configuration: a raster of zero width.
#[derive(Clone, Copy, Debug, PartialEq, Eq, Structural)]
pub enum TimingError {
    ZeroPixelsPerLine,
}

pub open spec fn spec_front_porch(ppl: nat) -> nat {
    (ppl * 33) / 1039
}

pub open spec fn spec_hsync_pulse(ppl: nat) -> nat {
    (ppl * 94) / 1039
}

pub open spec fn spec_back_porch(ppl: nat) -> nat {
    (ppl * 114) / 1039
}

pub open spec fn spec_short_pulse(ppl: nat) -> nat {
    (ppl * 47) / 1039
}

pub open spec fn spec_broad_pulse(ppl: nat) -> nat {
    (ppl * 546) / 1039
}

pub open spec fn spec_scanline_samples(ppl: nat) -> nat {
    spec_front_porch(ppl) + spec_hsync_pulse(ppl) + ppl + spec_back_porch(ppl)
}

/// A profile is valid when every field carries exactly the count derived from
/// its `pixels_per_line`; the derivation pins each field, so two valid
/// profiles with the same width are equal.
pub open spec fn valid_profile(p: TimingProfile) -> bool {
    let ppl = p.pixels_per_line as nat;
    &&& 0 < p.pixels_per_line <= MAX_PIXELS_PER_LINE
    &&& p.front_porch == spec_front_porch(ppl)
    &&& p.hsync_pulse == spec_hsync_pulse(ppl)
    &&& p.back_porch == spec_back_porch(ppl)
    &&& p.scanline_samples == spec_scanline_samples(ppl)
    &&& p.half_line_short_pulse == spec_short_pulse(ppl)
    &&& p.half_line_broad_pulse == spec_broad_pulse(ppl)
    &&& p.sample_frequency_hz == spec_scanline_samples(ppl) * 15625
    &&& p.pixel_frequency_num_hz == ppl * 20_000_000
}

/// Derives the whole timing profile from the raster width.  Fails exactly on
/// a zero width; every count is the floor of the corresponding time fraction
/// times the pixel frequency.
pub fn compute(pixels_per_line: usize) -> (r: Result<TimingProfile, TimingError>)
    requires
        pixels_per_line <= MAX_PIXELS_PER_LINE,
    ensures
        r is Ok <==> pixels_per_line > 0,
        r is Err ==> r == Result::<TimingProfile, TimingError>::Err(
            TimingError::ZeroPixelsPerLine,
        ),
        r is Ok ==> valid_profile(r->Ok_0) && r->Ok_0.pixels_per_line == pixels_per_line,
{
    if pixels_per_line == 0 {
        return Err(TimingError::ZeroPixelsPerLine);
    }
    let front_porch = pixels_per_line * FRONT_PORCH_TICKS / ACTIVE_PERIOD_TICKS;
    let hsync_pulse = pixels_per_line * HSYNC_TICKS / ACTIVE_PERIOD_TICKS;
    let back_porch = pixels_per_line * BACK_PORCH_TICKS / ACTIVE_PERIOD_TICKS;
    let short_pulse = pixels_per_line * SHORT_PULSE_TICKS / ACTIVE_PERIOD_TICKS;
    let broad_pulse = pixels_per_line * BROAD_PULSE_TICKS / ACTIVE_PERIOD_TICKS;
    let scanline_samples = front_porch + hsync_pulse + pixels_per_line + back_porch;
    let sample_frequency_hz = (scanline_samples as u64) * 15625;
    let pixel_frequency_num_hz = (pixels_per_line as u64) * PIXEL_FREQUENCY_NUM_PER_PIXEL;
    Ok(TimingProfile {
        pixels_per_line,
        front_porch,
        hsync_pulse,
        back_porch,
        scanline_samples,
        half_line_short_pulse: short_pulse,
        half_line_broad_pulse: broad_pulse,
        sample_frequency_hz,
        pixel_frequency_num_hz,
    })
}

/// A whole scanline is at most four times its active width: each porch and
/// pulse fraction is below one, so each count is at most the width itself.
pub proof fn lemma_scanline_bound(ppl: nat)
    ensures
        spec_scanline_samples(ppl) <= 4 * ppl,
{
    let p = ppl as int;
    lemma_div_is_ordered(33 * p, 1039 * p, 1039);
    lemma_div_is_ordered(94 * p, 1039 * p, 1039);
    lemma_div_is_ordered(114 * p, 1039 * p, 1039);
    lemma_div_multiples_vanish(p, 1039);
}

/// Checks the broad-pulse bound one width at a time where the general
/// remainder argument of [`lemma_pulses_fit`] is too coarse.
proof fn lemma_broad_pulse_fits_small(ppl: nat)
    requires
        1 <= ppl < 23,
    ensures
        spec_broad_pulse(ppl) <= spec_scanline_samples(ppl) / 2,
{
    if ppl == 1 {
        assert(spec_broad_pulse(1) <= spec_scanline_samples(1) / 2);
    } else if ppl == 2 {
        assert(spec_broad_pulse(2) <= spec_scanline_samples(2) / 2);
    } else if ppl == 3 {
        assert(spec_broad_pulse(3) <= spec_scanline_samples(3) / 2);
    } else if ppl == 4 {
        assert(spec_broad_pulse(4) <= spec_scanline_samples(4) / 2);
    } else if ppl == 5 {
        assert(spec_broad_pulse(5) <= spec_scanline_samples(5) / 2);
    } else if ppl == 6 {
        assert(spec_broad_pulse(6) <= spec_scanline_samples(6) / 2);
    } else if ppl == 7 {
        assert(spec_broad_pulse(7) <= spec_scanline_samples(7) / 2);
    } else if ppl == 8 {
        assert(spec_broad_pulse(8) <= spec_scanline_samples(8) / 2);
    } else if ppl == 9 {
        assert(spec_broad_pulse(9) <= spec_scanline_samples(9) / 2);
    } else if ppl == 10 {
        assert(spec_broad_pulse(10) <= spec_scanline_samples(10) / 2);
    } else if ppl == 11 {
        assert(spec_broad_pulse(11) <= spec_scanline_samples(11) / 2);
    } else if ppl == 12 {
        assert(spec_broad_pulse(12) <= spec_scanline_samples(12) / 2);
    } else if ppl == 13 {
        assert(spec_broad_pulse(13) <= spec_scanline_samples(13) / 2);
    } else if ppl == 14 {
        assert(spec_broad_pulse(14) <= spec_scanline_samples(14) / 2);
    } else if ppl == 15 {
        assert(spec_broad_pulse(15) <= spec_scanline_samples(15) / 2);
    } else if ppl == 16 {
        assert(spec_broad_pulse(16) <= spec_scanline_samples(16) / 2);
    } else if ppl == 17 {
        assert(spec_broad_pulse(17) <= spec_scanline_samples(17) / 2);
    } else if ppl == 18 {
        assert(spec_broad_pulse(18) <= spec_scanline_samples(18) / 2);
    } else if ppl == 19 {
        assert(spec_broad_pulse(19) <= spec_scanline_samples(19) / 2);
    } else if ppl == 20 {
        assert(spec_broad_pulse(20) <= spec_scanline_samples(20) / 2);
    } else if ppl == 21 {
        assert(spec_broad_pulse(21) <= spec_scanline_samples(21) / 2);
    } else {
        assert(ppl == 22);
        assert(spec_broad_pulse(22) <= spec_scanline_samples(22) / 2);
    }
}

/// Every sync pulse fits inside the half-line it opens: the broad and short
/// pulses are at most half a scanline, and so are sync pulse plus back porch
/// together.  This is what lets the waveform emitters fill the remainder of a
/// half-line with blanking without underflow.
pub proof fn lemma_pulses_fit(ppl: nat)
    requires
        1 <= ppl,
    ensures
        spec_broad_pulse(ppl) <= spec_scanline_samples(ppl) / 2,
        spec_short_pulse(ppl) <= spec_scanline_samples(ppl) / 2,
        spec_hsync_pulse(ppl) + spec_back_porch(ppl) <= spec_scanline_samples(ppl) / 2,
{
    let p = ppl as int;
    let q1 = spec_front_porch(ppl) as int;
    let q2 = spec_hsync_pulse(ppl) as int;
    let q3 = spec_back_porch(ppl) as int;
    let qb = spec_broad_pulse(ppl) as int;
    let s = spec_scanline_samples(ppl) as int;
    lemma_fundamental_div_mod(33 * p, 1039);
    lemma_mod_division_less_than_divisor(33 * p, 1039);
    lemma_fundamental_div_mod(94 * p, 1039);
    lemma_mod_division_less_than_divisor(94 * p, 1039);
    lemma_fundamental_div_mod(114 * p, 1039);
    lemma_mod_division_less_than_divisor(114 * p, 1039);
    lemma_fundamental_div_mod(546 * p, 1039);
    lemma_mod_division_less_than_divisor(546 * p, 1039);
    lemma_fundamental_div_mod(s, 2);
    lemma_mod_division_less_than_divisor(s, 2);
    assert(1039 * s == 1280 * p - (33 * p) % 1039 - (94 * p) % 1039 - (114 * p) % 1039);
    // Broad pulse.
    if ppl < 23 {
        lemma_broad_pulse_fits_small(ppl);
    } else {
        assert(1039 * (2 * qb + 1) <= 1092 * p + 1039);
        assert(1092 * p + 1039 <= 1039 * s);
        assert(2 * qb + 1 <= s);
        assert(qb <= s / 2);
    }
    // Short pulse: at most the broad pulse.
    lemma_div_is_ordered(47 * p, 546 * p, 1039);
    assert(spec_short_pulse(ppl) <= spec_broad_pulse(ppl));
    // Sync pulse plus back porch: at most the broad pulse.
    if p < 4 {
        lemma_basic_div(94 * p, 1039);
        lemma_basic_div(114 * p, 1039);
        assert(q2 + q3 <= qb);
    } else {
        assert(1039 * (q2 + q3) <= 208 * p);
        assert(208 * p <= 546 * p - 1038);
        assert(546 * p - 1038 <= 1039 * qb);
        assert(q2 + q3 <= qb);
    }
}

} // verus!
