//! Composition of one full interlaced frame from a 625-row luma raster.
//!
//! The frame's segment order is fixed by the 625-line interlaced standard:
//! vertical sync and equalizing blocks, the 305 even rows as field one, more
//! equalizing and vertical sync, a blank half-line to offset the second field
//! by half a line, the 304 odd rows as field two, and a synced half-line with
//! a final equalizing block.

use crate::timing::{valid_profile, TimingProfile};
use crate::waveform::{
    blank_halfline_spec, push_blank_halfline, push_broad_sync_section, push_image_scanline,
    push_short_sync_section, push_synced_halfline, scanline_spec, sync_section_spec,
    synced_halfline_spec, WaveformError,
};
use crate::samples_in_range;
use vstd::prelude::*;

verus! {

/// Rows of one interlaced frame: 625 scanlines.
pub const RASTER_HEIGHT: usize = 625;

/// Active scanlines of the first field: rows 0, 2, ..., 608.
pub const FIELD_ONE_LINES: usize = 305;

/// Active scanlines of the second field: rows 1, 3, ..., 607.
pub const FIELD_TWO_LINES: usize = 304;

/// A luma raster pre-scaled to the configured width and 625 rows, consumed
/// one row at a time.
pub struct SourceImage {
    /// The raster width; a well-formed image's rows all have this length.
    pub width: usize,
    /// The rows, top to bottom, each one luma byte per pixel.
    pub rows: Vec<Vec<u8>>,
}

impl View for SourceImage {
    type V = Seq<Seq<u8>>;

    open spec fn view(&self) -> Seq<Seq<u8>> {
        self.rows@.map_values(|r: Vec<u8>| r@)
    }
}

impl SourceImage {
    /// A well-formed raster: exactly 625 rows, each as wide as `width`.
    pub open spec fn wf(&self) -> bool {
        &&& self@.len() == RASTER_HEIGHT
        &&& forall|i: int| 0 <= i < self@.len() ==> (#[trigger] self@[i]).len() == self.width
    }

    /// Packs rows into a raster, accepting exactly a 625-row grid whose rows
    /// all have length `width`.
    pub fn new(width: usize, rows: Vec<Vec<u8>>) -> (r: Option<SourceImage>)
        ensures
            r is Some <==> (rows@.len() == RASTER_HEIGHT && forall|i: int|
                0 <= i < rows@.len() ==> (#[trigger] rows@[i])@.len() == width),
            r is Some ==> r->0.wf() && r->0.width == width && r->0@ == rows@.map_values(
                |v: Vec<u8>| v@,
            ),
    {
        if rows.len() != RASTER_HEIGHT {
            return None;
        }
        let mut i: usize = 0;
        while i < rows.len()
            invariant
                i <= rows@.len(),
                forall|j: int| 0 <= j < i ==> (#[trigger] rows@[j])@.len() == width,
            decreases rows@.len() - i,
        {
            if rows[i].len() != width {
                return None;
            }
            i = i + 1;
        }
        Some(SourceImage { width, rows })
    }
}

/// The samples of `count` active scanlines taken from rows
/// `start, start + 2, ..., start + 2 * (count - 1)` of the raster.
pub open spec fn field_lines_spec(
    img: Seq<Seq<u8>>,
    p: TimingProfile,
    start: int,
    count: int,
) -> Seq<u16>
    decreases count,
{
    if count <= 0 {
        Seq::empty()
    } else {
        field_lines_spec(img, p, start, count - 1) + scanline_spec(
            img[start + 2 * (count - 1)],
            p,
        )
    }
}

/// The whole frame: every segment of both fields in the fixed standard order.
pub open spec fn frame_spec(img: Seq<Seq<u8>>, p: TimingProfile) -> Seq<u16> {
    let half = (p.scanline_samples / 2) as int;
    let broad = sync_section_spec(p.half_line_broad_pulse as int, half);
    let short = sync_section_spec(p.half_line_short_pulse as int, half);
    broad + short + field_lines_spec(img, p, 0, FIELD_ONE_LINES as int) + short + broad + short
        + blank_halfline_spec(p) + field_lines_spec(img, p, 1, FIELD_TWO_LINES as int)
        + synced_halfline_spec(p) + short
}

/// Builds one interlaced frame from the raster.  The produced samples are a
/// pure function of the raster and the profile alone, so two calls on
/// identical inputs yield identical buffers; a width mismatch is rejected as
/// a malformed row, before any sample is produced.
pub fn compose(image: &SourceImage, profile: &TimingProfile) -> (r: Result<Vec<u16>, WaveformError>)
    requires
        valid_profile(*profile),
        image.wf(),
    ensures
        r is Ok <==> image.width == profile.pixels_per_line,
        r is Ok ==> r->Ok_0@ == frame_spec(image@, *profile) && samples_in_range(r->Ok_0@),
        r is Err ==> r == Result::<Vec<u16>, WaveformError>::Err(WaveformError::MalformedRow),
{
    proof {
        lemma_frame_in_range(image@, *profile);
    }
    if image.width != profile.pixels_per_line {
        return Err(WaveformError::MalformedRow);
    }
    let mut buffer: Vec<u16> = Vec::new();
    push_broad_sync_section(&mut buffer, profile);
    push_short_sync_section(&mut buffer, profile);
    let ghost pre_field_one = buffer@;
    let mut i: usize = 0;
    while i < FIELD_ONE_LINES
        invariant
            i <= FIELD_ONE_LINES,
            valid_profile(*profile),
            image.wf(),
            image.width == profile.pixels_per_line,
            buffer@ == pre_field_one + field_lines_spec(image@, *profile, 0, i as int),
        decreases FIELD_ONE_LINES - i,
    {
        let row = &image.rows[2 * i];
        proof {
            assert(image@[2 * i] == row@);
            assert(image@[2 * i].len() == profile.pixels_per_line);
        }
        match push_image_scanline(&mut buffer, row.as_slice(), profile) {
            Ok(()) => {},
            Err(e) => {
                return Err(e);
            },
        }
        proof {
            assert(pre_field_one + field_lines_spec(image@, *profile, 0, i + 1) =~= (pre_field_one
                + field_lines_spec(image@, *profile, 0, i as int)) + scanline_spec(
                image@[2 * i],
                *profile,
            ));
        }
        i = i + 1;
    }
    push_short_sync_section(&mut buffer, profile);
    push_broad_sync_section(&mut buffer, profile);
    push_short_sync_section(&mut buffer, profile);
    push_blank_halfline(&mut buffer, profile);
    let ghost pre_field_two = buffer@;
    let mut j: usize = 0;
    while j < FIELD_TWO_LINES
        invariant
            j <= FIELD_TWO_LINES,
            valid_profile(*profile),
            image.wf(),
            image.width == profile.pixels_per_line,
            buffer@ == pre_field_two + field_lines_spec(image@, *profile, 1, j as int),
        decreases FIELD_TWO_LINES - j,
    {
        let row = &image.rows[2 * j + 1];
        proof {
            assert(image@[2 * j + 1] == row@);
            assert(image@[2 * j + 1].len() == profile.pixels_per_line);
        }
        match push_image_scanline(&mut buffer, row.as_slice(), profile) {
            Ok(()) => {},
            Err(e) => {
                return Err(e);
            },
        }
        proof {
            assert(pre_field_two + field_lines_spec(image@, *profile, 1, j + 1) =~= (pre_field_two
                + field_lines_spec(image@, *profile, 1, j as int)) + scanline_spec(
                image@[2 * j + 1],
                *profile,
            ));
        }
        j = j + 1;
    }
    push_synced_halfline(&mut buffer, profile);
    push_short_sync_section(&mut buffer, profile);
    proof {
        assert(buffer@ =~= frame_spec(image@, *profile));
    }
    Ok(buffer)
}

/// Composition is deterministic: any two frames whose samples [`compose`]
/// produced from the same raster and profile are identical sample for
/// sample, because its result is pinned to [`frame_spec`] of the inputs
/// alone.
pub proof fn lemma_compose_deterministic(
    first: Seq<u16>,
    second: Seq<u16>,
    img: Seq<Seq<u8>>,
    p: TimingProfile,
)
    requires
        first == frame_spec(img, p),
        second == frame_spec(img, p),
    ensures
        first == second,
{
}

/// The length of a run of active scanlines: `count` whole scanlines.
proof fn lemma_field_lines_len(img: Seq<Seq<u8>>, p: TimingProfile, start: int, count: int)
    requires
        valid_profile(p),
        0 <= start,
        0 <= count,
        start + 2 * count <= img.len() + 1,
        forall|i: int| 0 <= i < img.len() ==> (#[trigger] img[i]).len() == p.pixels_per_line,
    ensures
        field_lines_spec(img, p, start, count).len() == count * p.scanline_samples,
    decreases count,
{
    if count > 0 {
        lemma_field_lines_len(img, p, start, count - 1);
        let row = img[start + 2 * (count - 1)];
        assert(row.len() == p.pixels_per_line);
        assert(scanline_spec(row, p).len() == p.scanline_samples);
        assert(count * p.scanline_samples == (count - 1) * p.scanline_samples
            + p.scanline_samples) by (nonlinear_arith);
    } else {
        assert(0 * p.scanline_samples == 0) by (nonlinear_arith);
    }
}

/// The closed-form frame length: the two fields' 609 active scanlines plus
/// 32 half-lines (six five-half-line sync blocks, one blank and one synced
/// half-line), each segment's length derived from the timing profile alone.
pub proof fn lemma_frame_length(img: Seq<Seq<u8>>, p: TimingProfile)
    requires
        valid_profile(p),
        img.len() == RASTER_HEIGHT,
        forall|i: int| 0 <= i < img.len() ==> (#[trigger] img[i]).len() == p.pixels_per_line,
    ensures
        frame_spec(img, p).len() == 32 * (p.scanline_samples / 2) + 609 * p.scanline_samples,
{
    crate::timing::lemma_pulses_fit(p.pixels_per_line as nat);
    lemma_field_lines_len(img, p, 0, FIELD_ONE_LINES as int);
    lemma_field_lines_len(img, p, 1, FIELD_TWO_LINES as int);
}

/// Elements of every frame lie in the normalized amplitude range: each one is
/// a sync tip, a blanking sample or a mapped luma value.
pub proof fn lemma_frame_in_range(img: Seq<Seq<u8>>, p: TimingProfile)
    ensures
        samples_in_range(frame_spec(img, p)),
{
    lemma_field_in_range(img, p, 0, FIELD_ONE_LINES as int);
    lemma_field_in_range(img, p, 1, FIELD_TWO_LINES as int);
}

proof fn lemma_field_in_range(img: Seq<Seq<u8>>, p: TimingProfile, start: int, count: int)
    ensures
        samples_in_range(field_lines_spec(img, p, start, count)),
    decreases count,
{
    if count > 0 {
        lemma_field_in_range(img, p, start, count - 1);
    }
}

} // verus!
