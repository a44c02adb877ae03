//! Behaviour of the per-callback step and of source lifecycles.

use audio_bridge::command::{ControlValue, Curve, ModulationContext, Tween};
use audio_bridge::handle::create_source;
use audio_bridge::processor::{
    OscillatorSettings, SignalProcessor, MAX_SAMPLE_RATE, OUTPUT_GAIN_DENOMINATOR,
    OUTPUT_GAIN_NUMERATOR,
};

fn tone_settings() -> OscillatorSettings {
    OscillatorSettings {
        frequency_millihertz: 440_000,
        sample_rate: 48_000,
        duration_frames: None,
    }
}

fn linear(duration_frames: u64) -> Tween {
    Tween { duration_frames, curve: Curve::Linear }
}

#[test]
fn settings_validity() {
    assert!(tone_settings().is_valid());
    let mut settings = tone_settings();
    settings.sample_rate = 0;
    assert!(!settings.is_valid());
    settings.sample_rate = MAX_SAMPLE_RATE + 1;
    assert!(!settings.is_valid());
    settings.sample_rate = MAX_SAMPLE_RATE;
    assert!(settings.is_valid());
}

#[test]
fn end_to_end_scenario() {
    // Channel of capacity 4; the control side asks for 880 Hz with no
    // transition; one drain+advance+compute cycle at dt of one frame at
    // 48 kHz moves the phase by exactly 880/48000 of a cycle, and the output
    // sample is the documented attenuated sine of that phase.
    let (mut processor, mut handle) = create_source(tone_settings(), 4);
    assert_eq!(handle.capacity(), 4);
    assert!(handle.set_frequency(ControlValue::Fixed(880_000), linear(0)));
    assert_eq!(handle.pending(), 1);

    let context = ModulationContext::empty();
    let frame = processor.process(&mut handle.commands, 1, &context);
    assert_eq!(handle.pending(), 0);
    assert_eq!(frame.phase_numerator, 880_000);
    assert_eq!(frame.phase_denominator, 48_000_000);

    // 880_000 / 48_000_000 == 880 / 48_000 exactly.
    let phase = frame.phase_numerator as f64 / frame.phase_denominator as f64;
    assert_eq!(phase, 880.0 / 48_000.0);
    let gain = OUTPUT_GAIN_NUMERATOR as f64 / OUTPUT_GAIN_DENOMINATOR as f64;
    let sample = gain * (std::f64::consts::TAU * phase).sin();
    assert!((sample - 0.014367143811608325).abs() < 1e-12);
    assert!(!processor.finished());
}

#[test]
fn drain_applies_commands_in_order() {
    // Both commands are drained in one callback; the later one wins.
    let (mut processor, mut handle) = create_source(tone_settings(), 4);
    assert!(handle.set_frequency(ControlValue::Fixed(100_000), linear(0)));
    assert!(handle.set_frequency(ControlValue::Fixed(200_000), linear(0)));
    let context = ModulationContext::empty();
    processor.process(&mut handle.commands, 1, &context);
    assert_eq!(handle.pending(), 0);
    assert_eq!(processor.frequency.value(), 200_000);
}

#[test]
fn full_channel_drops_the_newest_command() {
    let (mut processor, mut handle) = create_source(tone_settings(), 2);
    assert!(handle.set_frequency(ControlValue::Fixed(100_000), linear(0)));
    assert!(handle.set_frequency(ControlValue::Fixed(200_000), linear(0)));
    // The channel is full: the third request is dropped, not applied.
    assert!(!handle.set_frequency(ControlValue::Fixed(300_000), linear(0)));
    assert_eq!(handle.pending(), 2);
    let context = ModulationContext::empty();
    processor.process(&mut handle.commands, 1, &context);
    assert_eq!(processor.frequency.value(), 200_000);
    // After the drain there is room again.
    assert!(handle.set_frequency(ControlValue::Fixed(300_000), linear(0)));
    processor.process(&mut handle.commands, 1, &context);
    assert_eq!(processor.frequency.value(), 300_000);
}

#[test]
fn smoothing_converges_through_the_processor() {
    let (mut processor, mut handle) = create_source(tone_settings(), 4);
    assert!(handle.set_frequency(ControlValue::Fixed(880_000), linear(10)));
    let context = ModulationContext::empty();
    for _ in 0..10 {
        processor.process(&mut handle.commands, 1, &context);
    }
    assert_eq!(processor.frequency.value(), 880_000);
}

#[test]
fn compute_is_deterministic() {
    // Identical states, commands and deltas give bit-identical frames.
    let run = || {
        let (mut processor, mut handle) = create_source(tone_settings(), 4);
        assert!(handle.set_frequency(ControlValue::Fixed(660_000), linear(5)));
        let context = ModulationContext::new(vec![123]);
        let mut frames = Vec::new();
        for _ in 0..32 {
            frames.push(processor.process(&mut handle.commands, 1, &context));
        }
        frames
    };
    assert_eq!(run(), run());
}

#[test]
fn compute_without_advancing_repeats_the_frame() {
    let (mut processor, mut handle) = create_source(tone_settings(), 4);
    let context = ModulationContext::empty();
    processor.process(&mut handle.commands, 1, &context);
    assert_eq!(processor.compute(), processor.compute());
}

#[test]
fn one_shot_reports_finished_exactly_at_its_duration() {
    let mut settings = tone_settings();
    settings.duration_frames = Some(3);
    let (mut processor, mut handle) = create_source(settings, 4);
    let context = ModulationContext::empty();
    assert!(!processor.finished());
    processor.process(&mut handle.commands, 1, &context);
    assert!(!processor.finished());
    processor.process(&mut handle.commands, 1, &context);
    assert!(!processor.finished());
    processor.process(&mut handle.commands, 1, &context);
    assert!(processor.finished());
    // Once finished, always finished, whatever else arrives.
    assert!(handle.set_frequency(ControlValue::Fixed(100_000), linear(0)));
    processor.process(&mut handle.commands, 7, &context);
    assert!(processor.finished());
}

#[test]
fn continuous_source_never_finishes() {
    let (mut processor, mut handle) = create_source(tone_settings(), 4);
    let context = ModulationContext::empty();
    for _ in 0..100 {
        processor.process(&mut handle.commands, 1_000_000, &context);
        assert!(!processor.finished());
    }
}

#[test]
fn phase_wraps_within_one_cycle() {
    // At one frame per second the phase denominator is 1000; a 1.5 Hz tone
    // advances the phase by 1500 units per frame, wrapping each time.
    let settings = OscillatorSettings {
        frequency_millihertz: 1_500,
        sample_rate: 1,
        duration_frames: None,
    };
    let (mut processor, mut handle) = create_source(settings, 1);
    let context = ModulationContext::empty();
    let frame = processor.process(&mut handle.commands, 1, &context);
    assert_eq!(frame.phase_denominator, 1_000);
    assert_eq!(frame.phase_numerator, 500);
    let frame = processor.process(&mut handle.commands, 1, &context);
    assert_eq!(frame.phase_numerator, 0);
    let frame = processor.process(&mut handle.commands, 1, &context);
    assert_eq!(frame.phase_numerator, 500);
}

#[test]
fn modulated_frequency_follows_the_context() {
    let (mut processor, mut handle) = create_source(tone_settings(), 4);
    assert!(handle.set_frequency(ControlValue::Modulator(0), linear(0)));
    let context = ModulationContext::new(vec![600_000]);
    processor.process(&mut handle.commands, 1, &context);
    assert_eq!(processor.frequency.value(), 600_000);
    let context = ModulationContext::new(vec![650_000]);
    processor.process(&mut handle.commands, 1, &context);
    assert_eq!(processor.frequency.value(), 650_000);
}

#[test]
fn standalone_processor_matches_the_factory() {
    let processor = SignalProcessor::new(tone_settings());
    assert_eq!(processor.frequency.value(), 440_000);
    assert!(!processor.finished());
    let frame = processor.compute();
    assert_eq!(frame.phase_numerator, 0);
    assert_eq!(frame.phase_denominator, 48_000_000);
}
