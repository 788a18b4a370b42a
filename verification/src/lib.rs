//! Core library of an audio-plugin development tool: the real-time audio
//! preview pipeline (ring buffer, signal generator, sample player), the
//! plugin-host lifecycle, crash-guard bookkeeping, debounced file watching,
//! and the project/guide text generation around them.

use vstd::prelude::*;

pub mod claude_md;
pub mod device;
pub mod editor;
pub mod guard;
pub mod host;
pub mod library;
pub mod player;
pub mod prereq;
pub mod projects;
pub mod publish;
pub mod ring;
pub mod signal;
pub mod text;
pub mod usage;
pub mod watch;

verus! {

/// A stereo audio frame in fixed-point form. One unit of amplitude is
/// `AMP_SCALE`, so the nominal range [-1.0, 1.0] is [-AMP_SCALE, AMP_SCALE].
/// The pipeline does not clamp: clamping is a consumer responsibility.
#[derive(Clone, Copy, PartialEq, Eq, Structural, Debug)]
pub struct StereoSample {
    pub left: i32,
    pub right: i32,
}

/// Fixed-point scale: this many integer steps stand for an amplitude of 1.0.
pub const AMP_SCALE: i32 = 1_000_000;

impl StereoSample {
    pub fn new(left: i32, right: i32) -> (r: StereoSample)
        ensures
            r.left == left,
            r.right == right,
    {
        StereoSample { left, right }
    }

    /// Both channels carry the same value.
    pub fn mono(value: i32) -> (r: StereoSample)
        ensures
            r.left == value,
            r.right == value,
    {
        StereoSample { left: value, right: value }
    }

    pub fn silence() -> (r: StereoSample)
        ensures
            r.left == 0,
            r.right == 0,
    {
        StereoSample { left: 0, right: 0 }
    }
}

} // verus!
