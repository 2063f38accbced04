//! Startup configuration, threaded explicitly through the constructors of the
//! player components instead of living in process-wide state.

use vstd::prelude::*;
use crate::playlist::LoopMode;

verus! {

/// How far a relative seek jumps.
#[derive(Clone, Copy, Debug, PartialEq, Eq, Structural)]
pub enum SeekStep {
    /// Always a short jump.
    Short,
    /// Always a long jump.
    Long,
    /// Short for short tracks, long for long ones.
    Auto,
}

/// Everything the playback core needs to know at startup.
#[derive(Clone, Copy, Debug)]
pub struct Settings {
    /// Initial volume, in percent.
    pub volume: i32,
    /// Initial playback rate, in tenths of normal speed.
    pub speed: i32,
    /// Whether the next track is pre-fetched for a gapless transition.
    pub gapless: bool,
    pub seek_step: SeekStep,
    pub loop_mode: LoopMode,
    pub shuffle: bool,
}

impl Settings {
    pub fn new() -> (s: Settings)
        ensures
            s.volume == 70,
            s.speed == 10,
            s.gapless,
            s.seek_step == SeekStep::Auto,
            s.loop_mode == LoopMode::Queue,
            !s.shuffle,
    {
        Settings {
            volume: 70,
            speed: 10,
            gapless: true,
            seek_step: SeekStep::Auto,
            loop_mode: LoopMode::Queue,
            shuffle: false,
        }
    }
}

} // verus!
