//! Test-signal generation for the audio preview.
//!
//! All bookkeeping — phase accumulators, gate cycles, impulse timing, the
//! pink-noise row state — is integer arithmetic over the fixed-point sample
//! scale and is verified exactly. The two tone kinds whose instantaneous
//! value needs transcendental evaluation (a sine of the phase, and the
//! logarithmic frequency interpolation of a sweep) hand the verified phase
//! and level out as plain numbers; the embedding evaluates them in floating
//! point outside the library.

use vstd::prelude::*;

use crate::AMP_SCALE;
use crate::StereoSample;

verus! {

/// Type of test signal to generate.
#[derive(Clone, Copy, PartialEq, Eq, Structural, Debug)]
pub enum SignalType {
    Sine,
    Square,
    WhiteNoise,
    PinkNoise,
    Impulse,
    Sweep,
}

/// Gate/pulse pattern for test signals.
#[derive(Clone, Copy, PartialEq, Eq, Structural, Debug)]
pub enum GatePattern {
    /// Continuous signal (no gating).
    Continuous,
    /// Regular pulse at a rate given in millihertz.
    Pulse,
    /// Musical note divisions (rate is a tempo in milli-BPM).
    Quarter,
    Eighth,
    Sixteenth,
}

impl Default for GatePattern {
    fn default() -> (r: GatePattern)
        ensures
            r == GatePattern::Continuous,
    {
        GatePattern::Continuous
    }
}

/// Configuration for signal generation. Frequencies and rates are kept in
/// thousandths (millihertz, milli-BPM, milliseconds); the amplitude is in
/// fixed-point units of `AMP_SCALE`; the duty cycle is in permille.
#[derive(Clone, Copy, PartialEq, Eq, Structural, Debug)]
pub struct SignalConfig {
    pub signal_type: SignalType,
    /// Millihertz, for sine and square; impulses per second in thousandths
    /// for the impulse train.
    pub frequency_mhz: u32,
    /// 0 ..= AMP_SCALE stands for 0.0 ..= 1.0.
    pub amplitude: u32,
    /// Sweep start frequency, millihertz.
    pub sweep_start_mhz: u32,
    /// Sweep end frequency, millihertz.
    pub sweep_end_mhz: u32,
    /// Sweep duration in milliseconds.
    pub sweep_duration_ms: u32,
    pub gate_pattern: GatePattern,
    /// Millihertz for `Pulse`; milli-BPM for the musical divisions.
    pub gate_rate_milli: u32,
    /// Portion of each gate cycle that is on, in permille (0 ..= 1000).
    pub gate_duty_permille: u32,
}

impl Default for SignalConfig {
    fn default() -> (r: SignalConfig)
        ensures
            r == SignalConfig::default_spec(),
    {
        SignalConfig {
            signal_type: SignalType::Sine,
            frequency_mhz: 440_000,
            amplitude: 500_000,
            sweep_start_mhz: 20_000,
            sweep_end_mhz: 20_000_000,
            sweep_duration_ms: 5_000,
            gate_pattern: GatePattern::Continuous,
            gate_rate_milli: 2_000,
            gate_duty_permille: 500,
        }
    }
}

impl SignalConfig {
    pub open spec fn default_spec() -> SignalConfig {
        SignalConfig {
            signal_type: SignalType::Sine,
            frequency_mhz: 440_000,
            amplitude: 500_000,
            sweep_start_mhz: 20_000,
            sweep_end_mhz: 20_000_000,
            sweep_duration_ms: 5_000,
            gate_pattern: GatePattern::Continuous,
            gate_rate_milli: 2_000,
            gate_duty_permille: 500,
        }
    }
}

/// The subdivision multiplier of a musical gate pattern.
pub open spec fn subdivisions_of(p: GatePattern) -> nat {
    match p {
        GatePattern::Quarter => 1,
        GatePattern::Eighth => 2,
        GatePattern::Sixteenth => 4,
        _ => 1,
    }
}

/// Whether gating leaves the signal audible at `pos` samples into the
/// current cycle. For `Pulse` a cycle is `1000·sr / rate` samples long and
/// output passes while the position's fraction of the cycle is under the
/// duty fraction; the musical divisions derive a notes-per-second rate
/// from a tempo floored at 20 BPM.
pub open spec fn gate_open_spec(
    pattern: GatePattern,
    rate_milli: nat,
    duty_permille: nat,
    sr: nat,
    pos: nat,
) -> bool {
    match pattern {
        GatePattern::Continuous => true,
        GatePattern::Pulse => pos * rate_milli < duty_permille * sr,
        _ => {
            let rate_eff = if rate_milli < 20_000 {
                20_000
            } else {
                rate_milli
            };
            pos * rate_eff * subdivisions_of(pattern) < duty_permille * 60 * sr
        },
    }
}

/// Whether advancing past `pos` wraps the gating cycle (the next
/// position would reach the cycle length).
pub open spec fn gate_wraps_spec(
    pattern: GatePattern,
    rate_milli: nat,
    sr: nat,
    pos: nat,
) -> bool {
    match pattern {
        GatePattern::Continuous => false,
        GatePattern::Pulse => (pos + 1) * rate_milli >= 1000 * sr,
        _ => {
            let rate_eff = if rate_milli < 20_000 {
                20_000
            } else {
                rate_milli
            };
            (pos + 1) * rate_eff * subdivisions_of(pattern) >= 60_000 * sr
        },
    }
}

/// The gating position after one sample: unchanged for `Continuous`,
/// zero when the cycle wraps, else one more (held at the counter's
/// ceiling on the machine limit).
pub open spec fn next_gate_pos(pattern: GatePattern, rate_milli: nat, sr: nat, pos: nat) -> nat {
    if pattern is Continuous {
        pos
    } else if gate_wraps_spec(pattern, rate_milli, sr, pos) {
        0
    } else if pos < u64::MAX {
        pos + 1
    } else {
        pos
    }
}

/// Sum of a sequence of rows.
pub open spec fn sum_of(s: Seq<i32>) -> int
    decreases s.len(),
{
    if s.len() == 0 {
        0
    } else {
        sum_of(s.drop_last()) + s.last()
    }
}

proof fn lemma_sum_update(s: Seq<i32>, i: int, v: i32)
    requires
        0 <= i < s.len(),
    ensures
        sum_of(s.update(i, v)) == sum_of(s) - s[i] + v,
    decreases s.len(),
{
    if s.len() > 0 {
        if i == s.len() - 1 {
            assert(s.update(i, v).drop_last() =~= s.drop_last());
        } else {
            lemma_sum_update(s.drop_last(), i, v);
            assert(s.update(i, v).drop_last() =~= s.drop_last().update(i, v));
        }
    }
}

proof fn lemma_sum_bound(s: Seq<i32>, b: int)
    requires
        forall|i: int| 0 <= i < s.len() ==> -b <= #[trigger] s[i] <= b,
        b >= 0,
    ensures
        -(s.len() * b) <= sum_of(s) <= s.len() * b,
    decreases s.len(),
{
    if s.len() > 0 {
        lemma_sum_bound(s.drop_last(), b);
        assert((s.len() - 1) * b == s.len() * b - b) by (nonlinear_arith);
    }
}

/// The number of trailing zero bits of `x`, capped at `cap`.
pub open spec fn tz_capped(x: nat, cap: nat) -> nat
    decreases cap,
{
    if cap == 0 || x % 2 == 1 {
        0
    } else {
        1 + tz_capped(x / 2, (cap - 1) as nat)
    }
}

fn tz_capped_exec(x: u64, cap: usize) -> (r: usize)
    ensures
        r == tz_capped(x as nat, cap as nat),
        r <= cap,
    decreases cap,
{
    if cap == 0 || x % 2 == 1 {
        0
    } else {
        1 + tz_capped_exec(x / 2, cap - 1)
    }
}

/// One generated step. Kinds whose value is a pure fixed-point number carry
/// the finished stereo sample; the tone kinds carry the verified phase (or
/// sweep progress) and the gated level, and the embedding computes
/// `sin(2π·phase)·level` (for sweeps, the log-interpolated frequency first)
/// in floating point.
#[derive(Clone, Copy, PartialEq, Eq, Structural, Debug)]
pub enum GenOutput {
    /// A finished sample.
    Value(StereoSample),
    /// A sine step: the instantaneous phase is `phase_num / phase_den`
    /// (in [0, 1)), and the sample is `sin(2π·phase)·level / AMP_SCALE`.
    Tone { phase_num: u64, phase_den: u64, level: i32 },
    /// A sweep step: progress through the sweep in parts per million,
    /// and the gated level as for `Tone`.
    Sweep { progress_ppm: u32, level: i32 },
}

/// Signal generator: a pure function of its internal phase state to the next
/// step, parameterized by `SignalConfig`.
pub struct SignalGenerator {
    config: SignalConfig,
    sample_rate: u32,
    /// Sine/square phase numerator over `1000·sample_rate`.
    phase_num: u64,
    /// Samples into the sweep cycle.
    sweep_pos: u64,
    /// Samples into the gating cycle.
    gate_pos: u64,
    /// Samples since the last impulse.
    impulse_pos: u64,
    /// Pink noise rows (Voss-McCartney).
    pink_rows: Vec<i32>,
    /// Running sum of the rows.
    pink_sum: i64,
    /// Monotonically incrementing pink-noise counter.
    pink_index: u64,
}

impl SignalGenerator {
    pub closed spec fn config_spec(&self) -> SignalConfig {
        self.config
    }

    pub closed spec fn sample_rate_spec(&self) -> nat {
        self.sample_rate as nat
    }

    pub closed spec fn phase_spec(&self) -> nat {
        self.phase_num as nat
    }

    pub closed spec fn gate_pos_spec(&self) -> nat {
        self.gate_pos as nat
    }

    pub closed spec fn sweep_pos_spec(&self) -> nat {
        self.sweep_pos as nat
    }

    pub closed spec fn impulse_pos_spec(&self) -> nat {
        self.impulse_pos as nat
    }

    pub closed spec fn well_formed(&self) -> bool {
        &&& self.sample_rate >= 1
        &&& self.phase_num < 1000 * self.sample_rate
        &&& self.pink_rows@.len() == 16
        &&& forall|i: int|
            0 <= i < 16 ==> -AMP_SCALE <= #[trigger] self.pink_rows@[i] <= AMP_SCALE
        &&& self.pink_sum == sum_of(self.pink_rows@)
    }

    pub fn new(sample_rate: u32) -> (r: SignalGenerator)
        requires
            sample_rate >= 1,
        ensures
            r.well_formed(),
            r.sample_rate_spec() == sample_rate,
            r.config_spec() == SignalConfig::default_spec(),
            r.phase_spec() == 0,
            r.gate_pos_spec() == 0,
            r.sweep_pos_spec() == 0,
            r.impulse_pos_spec() == 0,
    {
        let mut pink_rows: Vec<i32> = Vec::new();
        let mut i: usize = 0;
        while i < 16
            invariant
                i <= 16,
                pink_rows@.len() == i,
                forall|j: int| 0 <= j < i ==> #[trigger] pink_rows@[j] == 0,
                sum_of(pink_rows@) == 0,
            decreases 16 - i,
        {
            proof {
                assert(pink_rows@.push(0i32).drop_last() =~= pink_rows@);
            }
            pink_rows.push(0);
            i = i + 1;
        }
        SignalGenerator {
            config: SignalConfig::default(),
            sample_rate,
            phase_num: 0,
            sweep_pos: 0,
            gate_pos: 0,
            impulse_pos: 0,
            pink_rows,
            pink_sum: 0,
            pink_index: 0,
        }
    }

    /// Install a new configuration; all phase accumulators reset so that a
    /// phase discontinuity is not heard as a click at an unexpected
    /// frequency.
    pub fn set_config(&mut self, config: SignalConfig)
        requires
            old(self).well_formed(),
        ensures
            final(self).well_formed(),
            final(self).config_spec() == config,
            final(self).sample_rate_spec() == old(self).sample_rate_spec(),
            final(self).phase_spec() == 0,
            final(self).gate_pos_spec() == 0,
            final(self).sweep_pos_spec() == 0,
            final(self).impulse_pos_spec() == 0,
    {
        self.config = config;
        self.phase_num = 0;
        self.sweep_pos = 0;
        self.gate_pos = 0;
        self.impulse_pos = 0;
    }

    pub fn set_gate_pattern(&mut self, pattern: GatePattern)
        requires
            old(self).well_formed(),
        ensures
            final(self).well_formed(),
            final(self).config_spec() == (SignalConfig {
                gate_pattern: pattern,
                ..old(self).config_spec()
            }),
            final(self).gate_pos_spec() == 0,
            final(self).phase_spec() == old(self).phase_spec(),
    {
        self.config.gate_pattern = pattern;
        self.gate_pos = 0;
    }

    /// Gate rate floored at 0.1 Hz (100 millihertz).
    pub fn set_gate_rate(&mut self, rate_milli: u32)
        requires
            old(self).well_formed(),
        ensures
            final(self).well_formed(),
            final(self).config_spec() == (SignalConfig {
                gate_rate_milli: if rate_milli < 100 {
                    100
                } else {
                    rate_milli
                },
                ..old(self).config_spec()
            }),
    {
        self.config.gate_rate_milli = if rate_milli < 100 {
            100
        } else {
            rate_milli
        };
    }

    /// Duty cycle clamped into [0.1, 1.0] (100 ..= 1000 permille).
    pub fn set_gate_duty(&mut self, duty_permille: u32)
        requires
            old(self).well_formed(),
        ensures
            final(self).well_formed(),
            final(self).config_spec() == (SignalConfig {
                gate_duty_permille: if duty_permille < 100 {
                    100
                } else if duty_permille > 1000 {
                    1000
                } else {
                    duty_permille
                },
                ..old(self).config_spec()
            }),
    {
        self.config.gate_duty_permille = if duty_permille < 100 {
            100
        } else if duty_permille > 1000 {
            1000
        } else {
            duty_permille
        };
    }

    pub fn set_frequency(&mut self, frequency_mhz: u32)
        requires
            old(self).well_formed(),
        ensures
            final(self).well_formed(),
            final(self).config_spec() == (SignalConfig {
                frequency_mhz,
                ..old(self).config_spec()
            }),
    {
        self.config.frequency_mhz = frequency_mhz;
    }

    /// Amplitude clamped into [0, AMP_SCALE].
    pub fn set_amplitude(&mut self, amplitude: u32)
        requires
            old(self).well_formed(),
        ensures
            final(self).well_formed(),
            final(self).config_spec() == (SignalConfig {
                amplitude: if amplitude > AMP_SCALE as u32 {
                    AMP_SCALE as u32
                } else {
                    amplitude
                },
                ..old(self).config_spec()
            }),
    {
        self.config.amplitude = if amplitude > AMP_SCALE as u32 {
            AMP_SCALE as u32
        } else {
            amplitude
        };
    }

    /// Reset the phase accumulators (for looping and the like).
    pub fn reset(&mut self)
        requires
            old(self).well_formed(),
        ensures
            final(self).well_formed(),
            final(self).config_spec() == old(self).config_spec(),
            final(self).phase_spec() == 0,
            final(self).gate_pos_spec() == 0,
            final(self).sweep_pos_spec() == 0,
            final(self).impulse_pos_spec() == 0,
    {
        self.phase_num = 0;
        self.sweep_pos = 0;
        self.gate_pos = 0;
        self.impulse_pos = 0;
    }

    pub fn config(&self) -> (r: SignalConfig)
        ensures
            r == self.config_spec(),
    {
        self.config
    }

    pub fn sample_rate(&self) -> (r: u32)
        ensures
            r == self.sample_rate_spec(),
    {
        self.sample_rate
    }

    /// Advance the gating cycle one sample and say whether output passed
    /// at the position before the advance. The position wraps to zero at
    /// the end of each cycle.
    pub fn calculate_gate(&mut self) -> (open_now: bool)
        requires
            old(self).well_formed(),
        ensures
            final(self).well_formed(),
            final(self).config_spec() == old(self).config_spec(),
            final(self).sample_rate_spec() == old(self).sample_rate_spec(),
            final(self).phase_spec() == old(self).phase_spec(),
            final(self).sweep_pos_spec() == old(self).sweep_pos_spec(),
            final(self).impulse_pos_spec() == old(self).impulse_pos_spec(),
            open_now == gate_open_spec(
                old(self).config_spec().gate_pattern,
                old(self).config_spec().gate_rate_milli as nat,
                old(self).config_spec().gate_duty_permille as nat,
                old(self).sample_rate_spec(),
                old(self).gate_pos_spec(),
            ),
            final(self).gate_pos_spec() == next_gate_pos(
                old(self).config_spec().gate_pattern,
                old(self).config_spec().gate_rate_milli as nat,
                old(self).sample_rate_spec(),
                old(self).gate_pos_spec(),
            ),
    {
        match self.config.gate_pattern {
            GatePattern::Continuous => true,
            GatePattern::Pulse => {
                let pos = self.gate_pos as u128;
                let rate = self.config.gate_rate_milli as u128;
                let duty = self.config.gate_duty_permille as u128;
                let sr = self.sample_rate as u128;
                proof {
                    vstd::arithmetic::mul::lemma_mul_upper_bound(
                        pos as int,
                        u64::MAX as int,
                        rate as int,
                        u32::MAX as int,
                    );
                    vstd::arithmetic::mul::lemma_mul_upper_bound(
                        duty as int,
                        u32::MAX as int,
                        sr as int,
                        u32::MAX as int,
                    );
                    vstd::arithmetic::mul::lemma_mul_upper_bound(
                        pos + 1,
                        u64::MAX as int + 1,
                        rate as int,
                        u32::MAX as int,
                    );
                }
                let open_now = pos * rate < duty * sr;
                if (pos + 1) * rate >= 1000 * sr {
                    self.gate_pos = 0;
                } else if self.gate_pos < u64::MAX {
                    self.gate_pos = self.gate_pos + 1;
                }
                open_now
            },
            _ => {
                let pos = self.gate_pos as u128;
                let rate = self.config.gate_rate_milli as u128;
                let rate_eff: u128 = if rate < 20_000 {
                    20_000
                } else {
                    rate
                };
                let sub: u128 = match self.config.gate_pattern {
                    GatePattern::Eighth => 2,
                    GatePattern::Sixteenth => 4,
                    _ => 1,
                };
                let duty = self.config.gate_duty_permille as u128;
                let sr = self.sample_rate as u128;
                proof {
                    vstd::arithmetic::mul::lemma_mul_upper_bound(
                        pos as int,
                        u64::MAX as int,
                        rate_eff as int,
                        u32::MAX as int,
                    );
                    vstd::arithmetic::mul::lemma_mul_upper_bound(
                        (pos * rate_eff) as int,
                        u64::MAX as int * (u32::MAX as int),
                        sub as int,
                        4,
                    );
                    vstd::arithmetic::mul::lemma_mul_upper_bound(
                        (duty * 60) as int,
                        u32::MAX as int * 60,
                        sr as int,
                        u32::MAX as int,
                    );
                    vstd::arithmetic::mul::lemma_mul_upper_bound(
                        pos + 1,
                        u64::MAX as int + 1,
                        rate_eff as int,
                        u32::MAX as int,
                    );
                    vstd::arithmetic::mul::lemma_mul_upper_bound(
                        ((pos + 1) * rate_eff) as int,
                        (u64::MAX as int + 1) * (u32::MAX as int),
                        sub as int,
                        4,
                    );
                }
                let open_now = pos * rate_eff * sub < duty * 60 * sr;
                if (pos + 1) * rate_eff * sub >= 60_000 * sr {
                    self.gate_pos = 0;
                } else if self.gate_pos < u64::MAX {
                    self.gate_pos = self.gate_pos + 1;
                }
                open_now
            },
        }
    }
}

/// Truncating division of `v` by a positive `d` (rounds toward zero, as the
/// machine does).
pub open spec fn tdiv(v: int, d: int) -> int
    recommends
        d > 0,
{
    if v >= 0 {
        v / d
    } else {
        -((-v) / d)
    }
}

/// `v` scaled by `amp / AMP_SCALE`, truncating toward zero.
pub open spec fn scaled(v: int, amp: int) -> int {
    tdiv(v * amp, AMP_SCALE as int)
}

/// `v` while gating passes output, silence while it mutes.
pub open spec fn gated(v: int, open: bool) -> int {
    if open {
        v
    } else {
        0
    }
}

/// Amplitude scaling and gating keep every generated fixed-point sample
/// within the nominal range: while the waveform value and the amplitude
/// are both within scale, the scaled, gated sample is too — the value-kind
/// waveforms (square, white noise, impulse) never leave [-1.0, 1.0].
pub proof fn lemma_gated_sample_within_scale(v: int, amp: int, open: bool)
    requires
        -AMP_SCALE <= v <= AMP_SCALE,
        0 <= amp <= AMP_SCALE,
    ensures
        -AMP_SCALE <= gated(scaled(v, amp), open) <= AMP_SCALE,
{
    let m = if v >= 0 {
        v
    } else {
        -v
    };
    vstd::arithmetic::mul::lemma_mul_upper_bound(m, AMP_SCALE as int, amp, amp);
    vstd::arithmetic::div_mod::lemma_div_is_ordered(m * amp, AMP_SCALE as int * amp, AMP_SCALE as int);
    vstd::arithmetic::div_mod::lemma_div_multiples_vanish(amp, AMP_SCALE as int);
    vstd::arithmetic::mul::lemma_mul_nonnegative(m, amp);
    vstd::arithmetic::div_mod::lemma_div_pos_is_pos(m * amp, AMP_SCALE as int);
    if v >= 0 {
        assert(scaled(v, amp) == (m * amp) / (AMP_SCALE as int));
    } else {
        assert(scaled(v, amp) == -((m * amp) / (AMP_SCALE as int))) by {
            assert(v * amp == -(m * amp)) by (nonlinear_arith)
                requires
                    m == -v,
            ;
        }
    }
}

/// The amplitude as a level that fits the sample type.
pub open spec fn amp_level(amp: nat) -> int {
    if amp > i32::MAX {
        i32::MAX as int
    } else {
        amp as int
    }
}

/// The square waveform before amplitude: +0.8 in the first half of the
/// phase cycle, -0.8 in the second (softened to reduce harshness).
pub open spec fn square_base(phase_num: nat, phase_den: nat) -> int {
    if 2 * phase_num < phase_den {
        800_000
    } else {
        -800_000
    }
}

/// Whether the impulse train fires on the sample after `pos`, with the
/// impulse rate floored at 0.1 Hz.
pub open spec fn impulse_fires(freq_mhz: nat, sr: nat, pos: nat) -> bool {
    (pos + 1) * (if freq_mhz < 100 {
        100
    } else {
        freq_mhz
    }) >= 1000 * sr
}

/// Sweep progress in parts per million: elapsed time over the configured
/// duration, capped at one (a zero duration counts as already finished).
pub open spec fn sweep_progress_ppm(sr: nat, dur_ms: nat, pos: nat) -> nat {
    if sr * dur_ms == 0 {
        1_000_000
    } else if pos * 1_000_000_000 >= sr * dur_ms * 1_000_000 {
        1_000_000
    } else {
        pos * 1_000_000_000 / (sr * dur_ms)
    }
}

/// Relies on rand::random_range: a draw from the thread-local generator,
/// uniform over the given range; it panics only on an empty range, and this
/// range is not empty. Nothing more can be promised of a random draw than
/// its range.
#[verifier::external_body]
fn random_unit_sample() -> (r: i32)
    ensures
        -AMP_SCALE <= r <= AMP_SCALE,
{
    rand::random_range(-1_000_000i32..=1_000_000i32)
}

/// Apply the amplitude and gating to a raw fixed-point value, saturating
/// at the sample type's bounds (unreachable while the amplitude is within
/// scale).
fn apply_level(v: i64, amp: u32, open: bool) -> (r: i32)
    requires
        -17_000_000 <= v <= 17_000_000,
    ensures
        amp <= AMP_SCALE ==> r == gated(scaled(v as int, amp as int), open),
        amp <= AMP_SCALE ==> -(if v >= 0 { v as int } else { -v as int }) <= r as int <= (if v >= 0 { v as int } else { -v as int }),
        amp <= AMP_SCALE && -AMP_SCALE <= v <= AMP_SCALE ==> -(amp as int) <= r as int <= amp as int,
{
    if !open {
        return 0;
    }
    let neg = v < 0;
    let mag: u128 = if neg {
        (-v) as u128
    } else {
        v as u128
    };
    proof {
        vstd::arithmetic::mul::lemma_mul_upper_bound(
            mag as int,
            17_000_000,
            amp as int,
            u32::MAX as int,
        );
    }
    let scaled_mag: u128 = mag * (amp as u128) / 1_000_000;
    proof {
        if amp <= AMP_SCALE {
            vstd::arithmetic::mul::lemma_mul_upper_bound(
                mag as int,
                17_000_000,
                amp as int,
                AMP_SCALE as int,
            );
            vstd::arithmetic::mul::lemma_mul_upper_bound(
                mag as int,
                mag as int,
                amp as int,
                AMP_SCALE as int,
            );
            vstd::arithmetic::div_mod::lemma_div_is_ordered(
                mag as int * amp as int,
                mag as int * AMP_SCALE as int,
                AMP_SCALE as int,
            );
            vstd::arithmetic::div_mod::lemma_div_multiples_vanish(mag as int, AMP_SCALE as int);
            assert(mag as int * AMP_SCALE as int == AMP_SCALE as int * mag as int);
            assert(scaled_mag <= mag);
            if mag <= AMP_SCALE as u128 {
                vstd::arithmetic::mul::lemma_mul_upper_bound(
                    mag as int,
                    AMP_SCALE as int,
                    amp as int,
                    amp as int,
                );
                vstd::arithmetic::div_mod::lemma_div_is_ordered(
                    mag as int * amp as int,
                    AMP_SCALE as int * amp as int,
                    AMP_SCALE as int,
                );
                vstd::arithmetic::div_mod::lemma_div_multiples_vanish(amp as int, AMP_SCALE as int);
                assert(scaled_mag as int <= amp as int);
            }
        }
    }
    let capped: i32 = if scaled_mag > i32::MAX as u128 {
        i32::MAX
    } else {
        scaled_mag as i32
    };
    proof {
        if amp <= AMP_SCALE {
            assert(mag as int * amp as int == (if v >= 0 { v as int * amp as int } else {
                -(v as int * amp as int)
            })) by (nonlinear_arith)
                requires
                    mag as int == (if v >= 0 { v as int } else { -(v as int) }),
            ;
            if neg {
                assert(scaled(v as int, amp as int) == -(scaled_mag as int));
            } else {
                assert(scaled(v as int, amp as int) == scaled_mag as int);
            }
        }
    }
    if neg {
        -capped
    } else {
        capped
    }
}

impl SignalGenerator {
    /// Generate the next step: gating advances one sample, the phase or
    /// position state of the configured waveform advances one sample, and
    /// the gated, amplitude-scaled result comes back (for the tone kinds,
    /// as phase and level for the embedding to evaluate).
    pub fn next_sample(&mut self) -> (out: GenOutput)
        requires
            old(self).well_formed(),
        ensures
            final(self).well_formed(),
            final(self).config_spec() == old(self).config_spec(),
            final(self).sample_rate_spec() == old(self).sample_rate_spec(),
            final(self).gate_pos_spec() == next_gate_pos(
                old(self).config_spec().gate_pattern,
                old(self).config_spec().gate_rate_milli as nat,
                old(self).sample_rate_spec(),
                old(self).gate_pos_spec(),
            ),
            ({
                let cfg = old(self).config_spec();
                let sr = old(self).sample_rate_spec();
                let g = gate_open_spec(
                    cfg.gate_pattern,
                    cfg.gate_rate_milli as nat,
                    cfg.gate_duty_permille as nat,
                    sr,
                    old(self).gate_pos_spec(),
                );
                match cfg.signal_type {
                    SignalType::Sine => out == (GenOutput::Tone {
                        phase_num: old(self).phase_spec() as u64,
                        phase_den: (1000 * sr) as u64,
                        level: gated(amp_level(cfg.amplitude as nat), g) as i32,
                    }) && final(self).phase_spec() == (old(self).phase_spec()
                        + cfg.frequency_mhz as nat) % (1000 * sr),
                    SignalType::Square => (out matches GenOutput::Value(sample)
                        && sample.left == sample.right && (cfg.amplitude <= AMP_SCALE
                        ==> sample.left as int == gated(
                        scaled(square_base(old(self).phase_spec(), 1000 * sr), cfg.amplitude as int),
                        g,
                    ))) && final(self).phase_spec() == (old(self).phase_spec()
                        + cfg.frequency_mhz as nat) % (1000 * sr),
                    SignalType::WhiteNoise => out matches GenOutput::Value(sample)
                        && sample.left == sample.right && (cfg.amplitude <= AMP_SCALE
                        ==> -(cfg.amplitude as int) <= sample.left as int <= cfg.amplitude as int),
                    SignalType::PinkNoise => out matches GenOutput::Value(sample)
                        && sample.left == sample.right && (cfg.amplitude <= AMP_SCALE
                        ==> -3_400_000 <= sample.left as int <= 3_400_000),
                    SignalType::Impulse => (out matches GenOutput::Value(sample)
                        && sample.left == sample.right && (cfg.amplitude <= AMP_SCALE
                        ==> sample.left as int == gated(
                        if impulse_fires(cfg.frequency_mhz as nat, sr, old(self).impulse_pos_spec()) {
                            amp_level(cfg.amplitude as nat)
                        } else {
                            0
                        },
                        g,
                    ))) && final(self).impulse_pos_spec() == (if impulse_fires(
                        cfg.frequency_mhz as nat,
                        sr,
                        old(self).impulse_pos_spec(),
                    ) {
                        0
                    } else if old(self).impulse_pos_spec() < u64::MAX {
                        old(self).impulse_pos_spec() + 1
                    } else {
                        old(self).impulse_pos_spec()
                    }),
                    SignalType::Sweep => out == (GenOutput::Sweep {
                        progress_ppm: sweep_progress_ppm(
                            sr,
                            cfg.sweep_duration_ms as nat,
                            old(self).sweep_pos_spec(),
                        ) as u32,
                        level: gated(amp_level(cfg.amplitude as nat), g) as i32,
                    }) && final(self).sweep_pos_spec() == (if sweep_progress_ppm(
                        sr,
                        cfg.sweep_duration_ms as nat,
                        old(self).sweep_pos_spec(),
                    ) >= 1_000_000 {
                        0
                    } else {
                        old(self).sweep_pos_spec() + 1
                    }),
                }
            }),
    {
        let open = self.calculate_gate();
        let amp = self.config.amplitude;
        let sr = self.sample_rate;
        let den: u64 = 1000 * (sr as u64);
        match self.config.signal_type {
            SignalType::Sine => {
                let phase = self.phase_num;
                self.phase_num = (self.phase_num + self.config.frequency_mhz as u64) % den;
                let level_mag: i32 = if amp > i32::MAX as u32 {
                    i32::MAX
                } else {
                    amp as i32
                };
                GenOutput::Tone {
                    phase_num: phase,
                    phase_den: den,
                    level: if open {
                        level_mag
                    } else {
                        0
                    },
                }
            },
            SignalType::Square => {
                let base: i64 = if 2 * self.phase_num < den {
                    800_000
                } else {
                    -800_000
                };
                self.phase_num = (self.phase_num + self.config.frequency_mhz as u64) % den;
                let v = apply_level(base, amp, open);
                GenOutput::Value(StereoSample::mono(v))
            },
            SignalType::WhiteNoise => {
                let w = random_unit_sample();
                let v = apply_level(w as i64, amp, open);
                GenOutput::Value(StereoSample::mono(v))
            },
            SignalType::PinkNoise => {
                let num_zeros = tz_capped_exec(self.pink_index, 15);
                let fresh = random_unit_sample();
                let old_row = self.pink_rows[num_zeros];
                proof {
                    lemma_sum_bound(self.pink_rows@, AMP_SCALE as int);
                    lemma_sum_update(self.pink_rows@, num_zeros as int, fresh);
                }
                self.pink_rows.set(num_zeros, fresh);
                self.pink_sum = self.pink_sum - old_row as i64 + fresh as i64;
                self.pink_index = if self.pink_index == u64::MAX {
                    0
                } else {
                    self.pink_index + 1
                };
                let white = random_unit_sample();
                proof {
                    lemma_sum_bound(self.pink_rows@, AMP_SCALE as int);
                }
                let mixed: i64 = self.pink_sum + white as i64;
                let neg = mixed < 0;
                let mag: u64 = if neg {
                    (-mixed) as u64
                } else {
                    mixed as u64
                };
                let q = (mag / 5) as i64;
                let v64: i64 = if neg {
                    -q
                } else {
                    q
                };
                let v = apply_level(v64, amp, open);
                GenOutput::Value(StereoSample::mono(v))
            },
            SignalType::Impulse => {
                let freq_eff: u64 = if self.config.frequency_mhz < 100 {
                    100
                } else {
                    self.config.frequency_mhz as u64
                };
                let fires = {
                    let p = self.impulse_pos as u128;
                    proof {
                        vstd::arithmetic::mul::lemma_mul_upper_bound(
                            self.impulse_pos as int + 1,
                            u64::MAX as int + 1,
                            freq_eff as int,
                            u32::MAX as int,
                        );
                    }
                    (p + 1) * (freq_eff as u128) >= 1000 * (sr as u128)
                };
                if fires {
                    self.impulse_pos = 0;
                } else if self.impulse_pos < u64::MAX {
                    self.impulse_pos = self.impulse_pos + 1;
                }
                let v = if fires {
                    apply_level(1_000_000, amp, open)
                } else {
                    apply_level(0, amp, open)
                };
                proof {
                    if amp <= AMP_SCALE {
                        vstd::arithmetic::div_mod::lemma_div_multiples_vanish(
                            amp as int,
                            AMP_SCALE as int,
                        );
                        assert(1_000_000 * amp as int == AMP_SCALE as int * amp as int);
                        assert(scaled(1_000_000, amp as int) == amp as int);
                        assert(scaled(0, amp as int) == 0);
                    }
                }
                GenOutput::Value(StereoSample::mono(v))
            },
            SignalType::Sweep => {
                let dur = self.config.sweep_duration_ms;
                let pos = self.sweep_pos;
                proof {
                    vstd::arithmetic::mul::lemma_mul_upper_bound(
                        sr as int,
                        u32::MAX as int,
                        dur as int,
                        u32::MAX as int,
                    );
                }
                let denom: u128 = (sr as u128) * (dur as u128);
                let finished = denom == 0 || (pos as u128) * 1_000_000_000 >= denom * 1_000_000;
                let ppm: u32 = if finished {
                    1_000_000
                } else {
                    proof {
                        vstd::arithmetic::div_mod::lemma_multiply_divide_lt(
                            pos as int * 1_000_000_000,
                            denom as int,
                            1_000_000,
                        );
                    }
                    ((pos as u128) * 1_000_000_000 / denom) as u32
                };
                if finished {
                    self.sweep_pos = 0;
                } else {
                    proof {
                        assert(pos as int * 1_000_000_000 < denom as int * 1_000_000);
                        assert(pos < u64::MAX);
                    }
                    self.sweep_pos = self.sweep_pos + 1;
                }
                let level_mag: i32 = if amp > i32::MAX as u32 {
                    i32::MAX
                } else {
                    amp as i32
                };
                GenOutput::Sweep {
                    progress_ppm: ppm,
                    level: if open {
                        level_mag
                    } else {
                        0
                    },
                }
            },
        }
    }
}

/// The gating position reached after `n` samples of pulse gating that
/// started at zero, with the cycle wrap applied each sample.
pub open spec fn pulse_pos_after(rate_milli: nat, sr: nat, n: nat) -> nat
    decreases n,
{
    if n == 0 {
        0
    } else {
        next_gate_pos(GatePattern::Pulse, rate_milli, sr, pulse_pos_after(rate_milli, sr, (n - 1) as nat))
    }
}

/// Pulse gating at half duty is exact: when the cycle length divides evenly
/// (`1000·sr == cycle·rate`), gating observed at absolute sample `n`
/// passes output precisely during the first half of every cycle, `n mod
/// cycle` under
/// `cycle / 2` — for every cycle, not merely the first five.
pub proof fn lemma_pulse_half_duty(rate_milli: nat, sr: nat, cycle: nat, n: nat)
    requires
        rate_milli > 0,
        sr > 0,
        1000 * sr == cycle * rate_milli,
        cycle > 0,
        cycle <= u64::MAX,
    ensures
        pulse_pos_after(rate_milli, sr, n) == n % cycle,
        gate_open_spec(GatePattern::Pulse, rate_milli, 500, sr, pulse_pos_after(rate_milli, sr, n))
            == (2 * (n % cycle) < cycle),
    decreases n,
{
    vstd::arithmetic::div_mod::lemma_mod_bound(n as int, cycle as int);
    if n == 0 {
        vstd::arithmetic::div_mod::lemma_small_mod(0, cycle);
    } else {
        lemma_pulse_half_duty(rate_milli, sr, cycle, (n - 1) as nat);
        let p = pulse_pos_after(rate_milli, sr, (n - 1) as nat);
        vstd::arithmetic::div_mod::lemma_mod_bound((n - 1) as int, cycle as int);
        assert((p + 1) * rate_milli >= 1000 * sr <==> p + 1 >= cycle) by (nonlinear_arith)
            requires
                rate_milli > 0,
                1000 * sr == cycle * rate_milli,
        ;
        vstd::arithmetic::div_mod::lemma_fundamental_div_mod(n as int - 1, cycle as int);
        let q = (n as int - 1) / (cycle as int);
        assert(n as int - 1 == cycle as int * q + p);
        if p + 1 >= cycle {
            assert(p == cycle - 1);
            assert(n as int == (q + 1) * cycle as int + 0) by (nonlinear_arith)
                requires
                    n as int - 1 == cycle as int * q + p,
                    p == cycle - 1,
            ;
            vstd::arithmetic::div_mod::lemma_fundamental_div_mod_converse(
                n as int,
                cycle as int,
                q + 1,
                0,
            );
        } else {
            assert(n as int == q * cycle as int + (p + 1)) by (nonlinear_arith)
                requires
                    n as int - 1 == cycle as int * q + p,
            ;
            vstd::arithmetic::div_mod::lemma_fundamental_div_mod_converse(
                n as int,
                cycle as int,
                q,
                p as int + 1,
            );
        }
        assert(pulse_pos_after(rate_milli, sr, n) == n % cycle);
    }
    let pn = pulse_pos_after(rate_milli, sr, n);
    assert(pn * rate_milli < 500 * sr <==> 2 * pn < cycle) by (nonlinear_arith)
        requires
            rate_milli > 0,
            1000 * sr == cycle * rate_milli,
    ;
}

} // verus!