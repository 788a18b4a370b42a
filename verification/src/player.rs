//! Sample playback: a decoded, in-memory stereo buffer streamed back with
//! loop / seek / variable-speed playback through linear interpolation.
//!
//! Decoding a file into this buffer is the decoder crate's work together
//! with file reading, and happens outside the verified library; the library
//! receives the finished fixed-point samples and owns every playback
//! decision: position advance, speed clamping, looping, and the
//! interpolation arithmetic.

use vstd::prelude::*;

use crate::signal::tdiv;
use crate::StereoSample;

verus! {

/// Playback positions are advanced in millionths of a sample.
pub const FRAC_SCALE: u32 = 1_000_000;

/// Slowest playback speed: 0.1 × in millionths.
pub const SPEED_MIN: u32 = 100_000;

/// Fastest playback speed: 4.0 × in millionths.
pub const SPEED_MAX: u32 = 4_000_000;

/// Information about a loaded sample.
#[derive(Clone, Debug)]
pub struct SampleInfo {
    pub name: String,
    pub path: String,
    pub sample_rate: u32,
    pub channels: u32,
    pub duration_ms: u64,
    pub num_samples: usize,
}

/// A decoded audio sample ready for playback: interleaved stereo frames,
/// always already converted to stereo fixed point.
pub struct AudioSample {
    pub info: SampleInfo,
    pub data: Vec<StereoSample>,
}

/// The stored frame at `i`, or silence past the end.
pub open spec fn sample_at(data: Seq<StereoSample>, i: int) -> StereoSample {
    if 0 <= i < data.len() {
        data[i]
    } else {
        StereoSample { left: 0, right: 0 }
    }
}

impl AudioSample {
    /// Assemble a loaded sample from decoded frames. The duration is the
    /// frame count over the source rate, so `num_samples` recovers
    /// duration × rate exactly (to the frame).
    pub fn from_decoded(
        name: String,
        path: String,
        sample_rate: u32,
        channels: u32,
        data: Vec<StereoSample>,
    ) -> (r: AudioSample)
        requires
            sample_rate >= 1,
            data@.len() <= usize::MAX - 8,
            data@.len() * 1000 <= u64::MAX,
        ensures
            r.data@ == data@,
            r.info.sample_rate == sample_rate,
            r.info.channels == channels,
            r.info.num_samples == data@.len(),
            r.info.duration_ms == data@.len() * 1000 / (sample_rate as nat),
            r.info.name@ == name@,
            r.info.path@ == path@,
    {
        let num_samples = data.len();
        let duration_ms = (num_samples as u64) * 1000 / (sample_rate as u64);
        AudioSample {
            info: SampleInfo { name, path, sample_rate, channels, duration_ms, num_samples },
            data,
        }
    }

    /// The frame at `position`, or silence past the end.
    pub fn get_sample(&self, position: usize) -> (r: StereoSample)
        ensures
            r == sample_at(self.data@, position as int),
    {
        if position < self.data.len() {
            self.data[position]
        } else {
            StereoSample::silence()
        }
    }
}

/// Linear interpolation between two bracketing frames' channel values:
/// `a·(1 − frac) + b·frac` in millionths, truncated toward zero.
pub open spec fn interp_spec(a: int, b: int, frac: int) -> int {
    tdiv(a * (FRAC_SCALE as int - frac) + b * frac, FRAC_SCALE as int)
}

/// At a whole-frame position the interpolation gives the stored frame back
/// exactly: looping playback at speed one reproduces the original samples.
pub proof fn lemma_interp_identity(a: int, b: int)
    ensures
        interp_spec(a, b, 0) == a,
{
    if a >= 0 {
        vstd::arithmetic::div_mod::lemma_div_multiples_vanish(a, FRAC_SCALE as int);
        assert(a * (FRAC_SCALE as int) == (FRAC_SCALE as int) * a);
    } else {
        vstd::arithmetic::div_mod::lemma_div_multiples_vanish(-a, FRAC_SCALE as int);
        assert((-a) * (FRAC_SCALE as int) == (FRAC_SCALE as int) * (-a)) by (nonlinear_arith);
        assert(-(a * (FRAC_SCALE as int)) == (-a) * (FRAC_SCALE as int)) by (nonlinear_arith);
    }
}

fn interp(a: i32, b: i32, frac: u32) -> (r: i32)
    requires
        frac <= FRAC_SCALE,
    ensures
        r == interp_spec(a as int, b as int, frac as int),
{
    proof {
        let fs = FRAC_SCALE as int;
        let f = frac as int;
        assert((a as int) * (fs - f) + (b as int) * f <= (i32::MAX as int) * fs && (a as int) * (
        fs - f) + (b as int) * f >= (i32::MIN as int) * fs && (i32::MIN as int) * fs <= (a as int)
            * (fs - f) <= (i32::MAX as int) * fs && (i32::MIN as int) * fs <= (b as int) * f <= (
        i32::MAX as int) * fs) by (nonlinear_arith)
            requires
                i32::MIN as int <= a as int <= i32::MAX as int,
                i32::MIN as int <= b as int <= i32::MAX as int,
                0 <= f <= fs,
        ;
    }
    let num: i64 = (a as i64) * ((FRAC_SCALE - frac) as i64) + (b as i64) * (frac as i64);
    let neg = num < 0;
    let mag: u64 = if neg {
        (-num) as u64
    } else {
        num as u64
    };
    let q: u64 = mag / (FRAC_SCALE as u64);
    proof {
        let fs = FRAC_SCALE as int;
        if neg {
            vstd::arithmetic::div_mod::lemma_div_is_ordered(mag as int, -(i32::MIN as int) * fs, fs);
            vstd::arithmetic::div_mod::lemma_div_multiples_vanish(-(i32::MIN as int), fs);
            assert(-(i32::MIN as int) * fs == fs * (-(i32::MIN as int)));
        } else {
            vstd::arithmetic::div_mod::lemma_div_is_ordered(mag as int, (i32::MAX as int) * fs, fs);
            vstd::arithmetic::div_mod::lemma_div_multiples_vanish(i32::MAX as int, fs);
            assert((i32::MAX as int) * fs == fs * (i32::MAX as int));
        }
    }
    if neg {
        (-(q as i64)) as i32
    } else {
        q as i32
    }
}

/// Sample player that owns playback position and looping.
pub struct SamplePlayer {
    sample: Option<AudioSample>,
    position: usize,
    is_playing: bool,
    is_looping: bool,
    /// Playback speed ratio in millionths (for resampling).
    speed_micro: u32,
    /// Fractional position in millionths.
    frac_micro: u32,
}

impl SamplePlayer {
    pub closed spec fn sample_spec(&self) -> Option<AudioSample> {
        self.sample
    }

    /// The loaded frames, or the empty sequence.
    pub open spec fn frames(&self) -> Seq<StereoSample> {
        match self.sample_spec() {
            Some(s) => s.data@,
            None => Seq::empty(),
        }
    }

    pub closed spec fn position_spec(&self) -> nat {
        self.position as nat
    }

    pub closed spec fn frac_spec(&self) -> nat {
        self.frac_micro as nat
    }

    pub closed spec fn playing_spec(&self) -> bool {
        self.is_playing
    }

    pub closed spec fn looping_spec(&self) -> bool {
        self.is_looping
    }

    pub closed spec fn speed_spec(&self) -> nat {
        self.speed_micro as nat
    }

    pub closed spec fn well_formed(&self) -> bool {
        &&& SPEED_MIN <= self.speed_micro <= SPEED_MAX
        &&& self.frac_micro < FRAC_SCALE
        &&& self.frames().len() <= usize::MAX - 8
        &&& self.position <= self.frames().len() + 4
    }

    pub fn new() -> (r: SamplePlayer)
        ensures
            r.well_formed(),
            r.sample_spec() is None,
            r.position_spec() == 0,
            !r.playing_spec(),
            r.looping_spec(),
            r.speed_spec() == FRAC_SCALE,
            r.frac_spec() == 0,
    {
        SamplePlayer {
            sample: None,
            position: 0,
            is_playing: false,
            is_looping: true,
            speed_micro: FRAC_SCALE,
            frac_micro: 0,
        }
    }

    pub fn load_sample(&mut self, sample: AudioSample)
        requires
            old(self).well_formed(),
            sample.data@.len() <= usize::MAX - 8,
        ensures
            final(self).well_formed(),
            final(self).sample_spec() == Some(sample),
            final(self).position_spec() == 0,
            final(self).frac_spec() == 0,
            final(self).playing_spec() == old(self).playing_spec(),
            final(self).looping_spec() == old(self).looping_spec(),
            final(self).speed_spec() == old(self).speed_spec(),
    {
        self.sample = Some(sample);
        self.position = 0;
        self.frac_micro = 0;
    }

    pub fn unload(&mut self)
        requires
            old(self).well_formed(),
        ensures
            final(self).well_formed(),
            final(self).sample_spec() is None,
            final(self).position_spec() == 0,
            !final(self).playing_spec(),
            final(self).looping_spec() == old(self).looping_spec(),
            final(self).speed_spec() == old(self).speed_spec(),
    {
        self.sample = None;
        self.position = 0;
        self.is_playing = false;
    }

    pub fn play(&mut self)
        requires
            old(self).well_formed(),
        ensures
            final(self).well_formed(),
            final(self).playing_spec(),
            final(self).sample_spec() == old(self).sample_spec(),
            final(self).position_spec() == old(self).position_spec(),
            final(self).looping_spec() == old(self).looping_spec(),
            final(self).speed_spec() == old(self).speed_spec(),
            final(self).frac_spec() == old(self).frac_spec(),
    {
        self.is_playing = true;
    }

    pub fn stop(&mut self)
        requires
            old(self).well_formed(),
        ensures
            final(self).well_formed(),
            !final(self).playing_spec(),
            final(self).position_spec() == 0,
            final(self).frac_spec() == 0,
            final(self).sample_spec() == old(self).sample_spec(),
            final(self).looping_spec() == old(self).looping_spec(),
            final(self).speed_spec() == old(self).speed_spec(),
    {
        self.is_playing = false;
        self.position = 0;
        self.frac_micro = 0;
    }

    pub fn pause(&mut self)
        requires
            old(self).well_formed(),
        ensures
            final(self).well_formed(),
            !final(self).playing_spec(),
            final(self).position_spec() == old(self).position_spec(),
            final(self).frac_spec() == old(self).frac_spec(),
            final(self).sample_spec() == old(self).sample_spec(),
            final(self).looping_spec() == old(self).looping_spec(),
            final(self).speed_spec() == old(self).speed_spec(),
    {
        self.is_playing = false;
    }

    pub fn set_looping(&mut self, looping: bool)
        requires
            old(self).well_formed(),
        ensures
            final(self).well_formed(),
            final(self).looping_spec() == looping,
            final(self).sample_spec() == old(self).sample_spec(),
            final(self).position_spec() == old(self).position_spec(),
            final(self).playing_spec() == old(self).playing_spec(),
            final(self).speed_spec() == old(self).speed_spec(),
            final(self).frac_spec() == old(self).frac_spec(),
    {
        self.is_looping = looping;
    }

    /// The speed ratio is always clamped into [0.1, 4.0], whatever is asked.
    pub fn set_speed_ratio(&mut self, ratio_micro: u32)
        requires
            old(self).well_formed(),
        ensures
            final(self).well_formed(),
            final(self).speed_spec() == (if ratio_micro < SPEED_MIN {
                SPEED_MIN as nat
            } else if ratio_micro > SPEED_MAX {
                SPEED_MAX as nat
            } else {
                ratio_micro as nat
            }),
            SPEED_MIN <= final(self).speed_spec() <= SPEED_MAX,
            final(self).sample_spec() == old(self).sample_spec(),
            final(self).position_spec() == old(self).position_spec(),
            final(self).playing_spec() == old(self).playing_spec(),
            final(self).looping_spec() == old(self).looping_spec(),
            final(self).frac_spec() == old(self).frac_spec(),
    {
        self.speed_micro = if ratio_micro < SPEED_MIN {
            SPEED_MIN
        } else if ratio_micro > SPEED_MAX {
            SPEED_MAX
        } else {
            ratio_micro
        };
    }

    pub fn is_playing(&self) -> (r: bool)
        ensures
            r == self.playing_spec(),
    {
        self.is_playing
    }

    pub fn has_sample(&self) -> (r: bool)
        ensures
            r == (self.sample_spec() is Some),
    {
        self.sample.is_some()
    }

    /// The next output frame, with resampling. Reaching the end either
    /// rewinds (looping) or stops and emits silence from then on.
    pub fn next_sample(&mut self) -> (out: StereoSample)
        requires
            old(self).well_formed(),
        ensures
            final(self).well_formed(),
            final(self).sample_spec() == old(self).sample_spec(),
            final(self).looping_spec() == old(self).looping_spec(),
            final(self).speed_spec() == old(self).speed_spec(),
            !old(self).playing_spec() ==> out == (StereoSample { left: 0, right: 0 }) && *final(self) == *old(self),
            old(self).playing_spec() && old(self).sample_spec() is None ==> out == (StereoSample {
                left: 0,
                right: 0,
            }) && *final(self) == *old(self),
            old(self).playing_spec() && old(self).sample_spec() is Some && old(self).position_spec() >= old(self).frames().len() && !old(self).looping_spec() ==> out
                == (StereoSample { left: 0, right: 0 }) && !final(self).playing_spec() && final(self).position_spec() == old(self).position_spec(),
            (old(self).playing_spec() && old(self).sample_spec() is Some && (old(self).position_spec() < old(self).frames().len() || old(self).looping_spec())) ==> ({
                let p0: int = if old(self).position_spec() >= old(self).frames().len() {
                    0
                } else {
                    old(self).position_spec() as int
                };
                let f0: int = if old(self).position_spec() >= old(self).frames().len() {
                    0
                } else {
                    old(self).frac_spec() as int
                };
                let data = old(self).frames();
                &&& out.left == interp_spec(
                    sample_at(data, p0).left as int,
                    sample_at(data, p0 + 1).left as int,
                    f0,
                )
                &&& out.right == interp_spec(
                    sample_at(data, p0).right as int,
                    sample_at(data, p0 + 1).right as int,
                    f0,
                )
                &&& final(self).playing_spec()
                &&& final(self).frac_spec() == (f0 + old(self).speed_spec()) % (FRAC_SCALE as int)
                &&& final(self).position_spec() == p0 + (f0 + old(self).speed_spec()) / (
                FRAC_SCALE as int)
            }),
    {
        if !self.is_playing {
            return StereoSample::silence();
        }
        if self.sample.is_none() {
            return StereoSample::silence();
        }
        let len = match &self.sample {
            Some(s) => s.data.len(),
            None => 0,
        };
        if self.position >= len {
            if self.is_looping {
                self.position = 0;
                self.frac_micro = 0;
            } else {
                self.is_playing = false;
                return StereoSample::silence();
            }
        }
        let (current, next) = match &self.sample {
            Some(s) => (s.get_sample(self.position), s.get_sample(self.position + 1)),
            None => (StereoSample::silence(), StereoSample::silence()),
        };
        let frac = self.frac_micro;
        let out = StereoSample::new(
            interp(current.left, next.left, frac),
            interp(current.right, next.right, frac),
        );
        let total: u32 = frac + self.speed_micro;
        self.position = self.position + (total / FRAC_SCALE) as usize;
        self.frac_micro = total % FRAC_SCALE;
        out
    }
}

impl Default for SamplePlayer {
    fn default() -> (r: SamplePlayer)
        ensures
            r.well_formed(),
            r.sample_spec() is None,
            !r.playing_spec(),
    {
        SamplePlayer::new()
    }
}

} // verus!
