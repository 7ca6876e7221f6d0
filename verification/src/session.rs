//! The per-invocation state and decisions of the periodic modulator.
//!
//! The host scheduler owns the loop: it supplies the space available in its
//! output buffer and delivers control messages.  Everything the modulator
//! decides — whether a frame fits, when the run is finished, how a message
//! changes the current raster file — is a pure function from state and event
//! to next state and plan, so any host loop can drive it.

use crate::timing::{valid_profile, TimingProfile};
use vstd::arithmetic::div_mod::lemma_div_multiples_vanish;
use vstd::prelude::*;

verus! {

/// Frames per second of the 625-line interlaced standard.
pub const FRAMES_PER_SECOND: u64 = 25;

/// The number of frames after which the modulator reports the run finished.
pub const FRAME_LIMIT: u32 = 1000;

/// The modulator's state between invocations: the raster file to modulate
/// and how many invocations have run.
#[derive(Clone, Debug)]
pub struct ModulatorState {
    /// The raster file the next frame is read from.
    pub filename: String,
    /// Invocations so far.
    pub frame_counter: u32,
}

/// A control message delivered to the modulator.
pub enum ModulatorCommand {
    /// Switch to modulating another raster file.
    SetFilename(String),
    /// Any other message; ignored.
    Unrecognized,
}

/// What one invocation tells the host to do.
#[derive(Clone, Copy, Debug, PartialEq, Eq, Structural)]
pub struct WorkPlan {
    /// Compose and emit one frame now; otherwise emit nothing.
    pub emit_frame: bool,
    /// Stop driving the modulator after this invocation.
    pub finished: bool,
}

impl ModulatorState {
    /// The state before the first invocation.
    pub fn initial(filename: String) -> (s: ModulatorState)
        ensures
            s.filename == filename,
            s.frame_counter == 0,
    {
        ModulatorState { filename, frame_counter: 0 }
    }

    /// Applies one control message: a filename message replaces the raster
    /// file, anything else leaves the state unchanged.
    pub fn apply_command(self, command: ModulatorCommand) -> (s: ModulatorState)
        ensures
            s.frame_counter == self.frame_counter,
            command is SetFilename ==> s.filename == command->SetFilename_0,
            command is Unrecognized ==> s.filename == self.filename,
    {
        match command {
            ModulatorCommand::SetFilename(filename) => {
                ModulatorState { filename, frame_counter: self.frame_counter }
            },
            ModulatorCommand::Unrecognized => self,
        }
    }

    /// Decides one invocation: a frame is emitted exactly when the host's
    /// buffer has room for one frame period of samples; the invocation count
    /// advances either way, and the run is finished once it reaches the frame
    /// limit.
    pub fn work_step(self, available_samples: usize, frame_samples: usize) -> (r: (
        WorkPlan,
        ModulatorState,
    ))
        requires
            self.frame_counter < u32::MAX,
        ensures
            r.0.emit_frame <==> available_samples >= frame_samples,
            r.0.finished <==> self.frame_counter + 1 == FRAME_LIMIT,
            r.1.filename == self.filename,
            r.1.frame_counter == self.frame_counter + 1,
    {
        let emit_frame = available_samples >= frame_samples;
        let frame_counter = self.frame_counter + 1;
        let finished = frame_counter == FRAME_LIMIT;
        (
            WorkPlan { emit_frame, finished },
            ModulatorState { filename: self.filename, frame_counter },
        )
    }
}

/// The samples of one frame period: the sample frequency over the frame
/// rate, which is exactly 625 scanlines' worth of samples.
pub fn frame_sample_threshold(profile: &TimingProfile) -> (n: usize)
    requires
        valid_profile(*profile),
    ensures
        n as int == profile.sample_frequency_hz as int / (FRAMES_PER_SECOND as int),
        n as int == 625 * (profile.scanline_samples as int),
{
    proof {
        crate::timing::lemma_scanline_bound(profile.pixels_per_line as nat);
        let s = profile.scanline_samples as int;
        assert(15625 * s == 25 * (625 * s));
        lemma_div_multiples_vanish(625 * s, 25);
    }
    625 * profile.scanline_samples
}

} // verus!
