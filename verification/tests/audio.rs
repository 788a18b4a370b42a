//! Tests of the audio pipeline: ring buffer, signal generation, sample
//! playback, crash guard, watcher debounce, and the end-to-end preview
//! scenario.

use freqlab::guard::CrashGuardResult;
use freqlab::guard::GuardSlot;
use freqlab::player::AudioSample;
use freqlab::player::SamplePlayer;
use freqlab::ring::AudioRingBuffer;
use freqlab::signal::GatePattern;
use freqlab::signal::GenOutput;
use freqlab::signal::SignalConfig;
use freqlab::signal::SignalGenerator;
use freqlab::signal::SignalType;
use freqlab::watch::DebounceState;
use freqlab::StereoSample;
use freqlab::AMP_SCALE;

fn tone_value(phase_num: u64, phase_den: u64, level: i32) -> f64 {
    let phase = phase_num as f64 / phase_den as f64;
    (phase * 2.0 * std::f64::consts::PI).sin() * (level as f64 / AMP_SCALE as f64)
}

#[test]
fn test_normal_execution() {
    let mut slot = GuardSlot::new();
    let result = slot.run_guarded(|| 42);

    match result {
        CrashGuardResult::Completed(v) => assert_eq!(v, 42),
        CrashGuardResult::Crashed(_) => panic!("Should not crash"),
    }
}

#[test]
fn test_second_guarded_call_succeeds() {
    let mut slot = GuardSlot::new();
    let first = slot.run_guarded(|| 1);
    assert!(!first.is_crashed());
    let second = slot.run_guarded(|| 2);
    match second {
        CrashGuardResult::Completed(v) => assert_eq!(v, 2),
        CrashGuardResult::Crashed(_) => panic!("Should not crash"),
    }
    assert!(!slot.is_armed());
}

#[test]
fn test_sine_range() {
    let mut gen = SignalGenerator::new(44100);
    gen.set_config(SignalConfig {
        signal_type: SignalType::Sine,
        frequency_mhz: 440_000,
        amplitude: 1_000_000,
        ..Default::default()
    });

    for _ in 0..44100 {
        match gen.next_sample() {
            GenOutput::Tone { phase_num, phase_den, level } => {
                let v = tone_value(phase_num, phase_den, level);
                assert!(v >= -1.0 && v <= 1.0);
                assert!(level >= -AMP_SCALE && level <= AMP_SCALE);
            }
            _ => panic!("sine must yield tone steps"),
        }
    }
}

#[test]
fn test_white_noise_range() {
    let mut gen = SignalGenerator::new(44100);
    gen.set_config(SignalConfig {
        signal_type: SignalType::WhiteNoise,
        amplitude: 1_000_000,
        ..Default::default()
    });

    for _ in 0..1000 {
        match gen.next_sample() {
            GenOutput::Value(sample) => {
                assert!(sample.left >= -AMP_SCALE && sample.left <= AMP_SCALE);
                assert_eq!(sample.left, sample.right);
            }
            _ => panic!("white noise must yield finished samples"),
        }
    }
}

#[test]
fn test_square_range_and_shape() {
    let mut gen = SignalGenerator::new(1000);
    gen.set_config(SignalConfig {
        signal_type: SignalType::Square,
        frequency_mhz: 100_000,
        amplitude: 1_000_000,
        ..Default::default()
    });
    // 100 Hz at 1000 Hz sample rate: 10-sample period, softened to 0.8.
    for n in 0..100 {
        match gen.next_sample() {
            GenOutput::Value(s) => {
                let expected = if n % 10 < 5 { 800_000 } else { -800_000 };
                assert_eq!(s.left, expected);
            }
            _ => panic!("square must yield finished samples"),
        }
    }
}

#[test]
fn test_impulse_spacing() {
    let mut gen = SignalGenerator::new(1000);
    gen.set_config(SignalConfig {
        signal_type: SignalType::Impulse,
        frequency_mhz: 4_000, // four impulses per second: every 250 samples
        amplitude: 1_000_000,
        ..Default::default()
    });
    let mut fired = Vec::new();
    for n in 0..1000 {
        match gen.next_sample() {
            GenOutput::Value(s) => {
                if s.left != 0 {
                    assert_eq!(s.left, 1_000_000);
                    fired.push(n);
                }
            }
            _ => panic!("impulse must yield finished samples"),
        }
    }
    assert_eq!(fired, vec![249, 499, 749, 999]);
}

#[test]
fn test_pink_noise_bias_and_variance() {
    let mut gen = SignalGenerator::new(44100);
    gen.set_config(SignalConfig {
        signal_type: SignalType::PinkNoise,
        amplitude: 1_000_000,
        ..Default::default()
    });
    // The slowest row holds its draw for 32768 samples, so the mean needs
    // well over that many samples to settle.
    let n = 500_000;
    let mut values = Vec::with_capacity(n);
    for _ in 0..n {
        match gen.next_sample() {
            GenOutput::Value(s) => values.push(s.left as f64 / AMP_SCALE as f64),
            _ => panic!("pink noise must yield finished samples"),
        }
    }
    let mean: f64 = values.iter().sum::<f64>() / n as f64;
    let var: f64 = values.iter().map(|v| (v - mean) * (v - mean)).sum::<f64>() / n as f64;
    // Near-zero DC bias and bounded variance: no runaway accumulation.
    assert!(mean.abs() < 0.15, "pink noise mean drifted: {mean}");
    assert!(var > 0.05 && var < 0.6, "pink noise variance out of bounds: {var}");
}

#[test]
fn test_pulse_gate_half_duty() {
    let mut gen = SignalGenerator::new(44100);
    gen.set_config(SignalConfig {
        signal_type: SignalType::Square,
        gate_pattern: GatePattern::Pulse,
        gate_rate_milli: 2_000, // 2 Hz: a 22050-sample cycle at 44100 Hz
        gate_duty_permille: 500,
        amplitude: 1_000_000,
        ..Default::default()
    });
    let cycle = 22_050u64;
    for n in 0..(5 * cycle) {
        let open = gen.calculate_gate();
        let expected = 2 * (n % cycle) < cycle;
        assert_eq!(open, expected, "gate wrong at sample {n}");
    }
}

#[test]
fn test_ring_buffer_order_and_bounds() {
    let mut rb = AudioRingBuffer::new(4);
    assert!(rb.is_empty());
    assert_eq!(rb.pop(), None);
    assert!(rb.push(StereoSample::mono(1)));
    assert!(rb.push(StereoSample::mono(2)));
    assert!(rb.push(StereoSample::mono(3)));
    assert!(rb.push(StereoSample::mono(4)));
    assert!(rb.is_full());
    // Full: the producer fails rather than overwriting.
    assert!(!rb.push(StereoSample::mono(5)));
    assert_eq!(rb.pop(), Some(StereoSample::mono(1)));
    assert!(rb.push(StereoSample::mono(6)));
    assert_eq!(rb.pop(), Some(StereoSample::mono(2)));
    assert_eq!(rb.pop(), Some(StereoSample::mono(3)));
    assert_eq!(rb.pop(), Some(StereoSample::mono(4)));
    assert_eq!(rb.pop(), Some(StereoSample::mono(6)));
    // Underrun yields nothing, never garbage.
    assert_eq!(rb.pop(), None);
}

#[test]
fn test_ring_buffer_slices() {
    let mut rb = AudioRingBuffer::new(3);
    let input = vec![
        StereoSample::mono(10),
        StereoSample::mono(20),
        StereoSample::mono(30),
        StereoSample::mono(40),
    ];
    let pushed = rb.push_slice(&input);
    assert_eq!(pushed, 3);
    assert_eq!(rb.available(), 3);
    let mut out = Vec::new();
    let popped = rb.pop_slice(&mut out, 10);
    assert_eq!(popped, 3);
    assert_eq!(out, vec![StereoSample::mono(10), StereoSample::mono(20), StereoSample::mono(30)]);
}

fn ramp_sample(len: usize) -> AudioSample {
    let mut data = Vec::new();
    for i in 0..len {
        data.push(StereoSample::mono((i as i32 + 1) * 1000));
    }
    AudioSample::from_decoded("ramp".to_string(), "mem".to_string(), 44100, 2, data)
}

#[test]
fn test_sample_duration_matches_frames() {
    let sample = ramp_sample(44100);
    assert_eq!(sample.info.num_samples, 44100);
    assert_eq!(sample.info.duration_ms, 1000);
    let half = ramp_sample(22050);
    assert_eq!(half.info.duration_ms, 500);
}

#[test]
fn test_player_loop_boundary_exact() {
    let mut player = SamplePlayer::new();
    player.load_sample(ramp_sample(3));
    player.set_looping(true);
    player.set_speed_ratio(1_000_000);
    player.play();
    // At speed one, looping playback reproduces the stored samples exactly
    // across the loop boundary.
    let expected = [1000, 2000, 3000, 1000, 2000, 3000, 1000];
    for &e in expected.iter() {
        let s = player.next_sample();
        assert_eq!(s.left, e);
    }
}

#[test]
fn test_player_stops_without_looping() {
    let mut player = SamplePlayer::new();
    player.load_sample(ramp_sample(2));
    player.set_looping(false);
    player.play();
    assert_eq!(player.next_sample().left, 1000);
    assert_eq!(player.next_sample().left, 2000);
    // End reached: playback stops and emits silence from then on.
    assert_eq!(player.next_sample().left, 0);
    assert!(!player.is_playing());
    assert_eq!(player.next_sample().left, 0);
}

#[test]
fn test_player_speed_clamped() {
    let mut player = SamplePlayer::new();
    player.load_sample(ramp_sample(20));
    player.set_looping(false);
    player.set_speed_ratio(9_000_000); // asked for 9x, clamped to 4x
    player.play();
    assert_eq!(player.next_sample().left, 1000); // position 0
    assert_eq!(player.next_sample().left, 5000); // advanced by 4
    assert_eq!(player.next_sample().left, 9000);

    let mut slow = SamplePlayer::new();
    slow.load_sample(ramp_sample(4));
    slow.set_speed_ratio(0); // asked for 0x, clamped to 0.1x
    slow.play();
    for k in 0..10 {
        // Still within frame 0, interpolating a tenth per call.
        assert_eq!(slow.next_sample().left, 1000 + k * 100);
    }
}

#[test]
fn test_player_interpolates_between_frames() {
    let mut player = SamplePlayer::new();
    player.load_sample(ramp_sample(4));
    player.set_looping(false);
    player.set_speed_ratio(500_000); // half speed
    player.play();
    assert_eq!(player.next_sample().left, 1000);
    // Halfway between 1000 and 2000.
    assert_eq!(player.next_sample().left, 1500);
    assert_eq!(player.next_sample().left, 2000);
}

#[test]
fn test_debounce_single_burst_fires_once() {
    let mut state = DebounceState::new();
    // Five rapid modifications within the debounce window.
    for t in [0u64, 50, 100, 150, 200] {
        state.record_event(t);
    }
    // Polls inside the window never fire.
    for t in [250u64, 350, 450, 550, 650, 700] {
        assert!(!state.poll(t), "fired too early at {t}");
    }
    // The first poll after the window fires, exactly once.
    assert!(state.poll(701));
    assert!(!state.poll(800));
    assert!(!state.poll(10_000));
}

#[test]
fn test_debounce_new_burst_fires_again() {
    let mut state = DebounceState::new();
    state.record_event(0);
    assert!(state.poll(501));
    state.record_event(600);
    assert!(!state.poll(1000));
    assert!(state.poll(1200));
}

#[test]
fn test_end_to_end_sine_preview() {
    // Open a 44.1 kHz stream, select Sine @ 440 Hz amplitude 1.0, run one
    // second of synthesized blocks through the ring buffer.
    let sample_rate = 44_100u32;
    let mut gen = SignalGenerator::new(sample_rate);
    gen.set_config(SignalConfig {
        signal_type: SignalType::Sine,
        frequency_mhz: 440_000,
        amplitude: 1_000_000,
        ..Default::default()
    });
    let mut rb = AudioRingBuffer::new(512);
    let mut output: Vec<f64> = Vec::new();
    while output.len() < sample_rate as usize {
        // Produce one block into the ring buffer...
        while !rb.is_full() {
            let v = match gen.next_sample() {
                GenOutput::Tone { phase_num, phase_den, level } => {
                    tone_value(phase_num, phase_den, level)
                }
                _ => panic!("sine must yield tone steps"),
            };
            let fixed = (v * AMP_SCALE as f64) as i32;
            assert!(rb.push(StereoSample::mono(fixed)));
        }
        // ...and drain it as the callback would.
        while let Some(s) = rb.pop() {
            output.push(s.left as f64 / AMP_SCALE as f64);
            if output.len() == sample_rate as usize {
                break;
            }
        }
    }
    assert_eq!(output.len(), 44_100);
    let mut crossings = 0usize;
    for i in 1..output.len() {
        assert!(output[i] >= -1.0 && output[i] <= 1.0);
        if (output[i - 1] < 0.0 && output[i] >= 0.0) || (output[i - 1] >= 0.0 && output[i] < 0.0)
        {
            crossings += 1;
        }
    }
    // A 440 Hz tone crosses zero about 880 times per second.
    assert!(
        crossings >= 870 && crossings <= 890,
        "zero crossings inconsistent with 440 Hz: {crossings}"
    );
}
