//! Behaviour of smoothed parameter values.

use audio_bridge::command::{ControlValue, Curve, ModulationContext, Tween};
use audio_bridge::parameter::Parameter;

fn linear(duration_frames: u64) -> Tween {
    Tween { duration_frames, curve: Curve::Linear }
}

#[test]
fn new_parameter_rests_at_initial_value() {
    let parameter = Parameter::new(440_000);
    assert_eq!(parameter.value(), 440_000);
}

#[test]
fn zero_duration_applies_at_once() {
    let context = ModulationContext::empty();
    let mut parameter = Parameter::new(100);
    parameter.set(ControlValue::Fixed(200), linear(0), &context);
    assert_eq!(parameter.value(), 200);
}

#[test]
fn linear_transition_passes_the_midpoint() {
    let context = ModulationContext::empty();
    let mut parameter = Parameter::new(100);
    parameter.set(ControlValue::Fixed(200), linear(10), &context);
    assert_eq!(parameter.value(), 100);
    parameter.advance(5, &context);
    assert_eq!(parameter.value(), 150);
    parameter.advance(5, &context);
    assert_eq!(parameter.value(), 200);
}

#[test]
fn linear_transition_moves_downward() {
    let context = ModulationContext::empty();
    let mut parameter = Parameter::new(200);
    parameter.set(ControlValue::Fixed(100), linear(4), &context);
    parameter.advance(1, &context);
    assert_eq!(parameter.value(), 175);
    parameter.advance(3, &context);
    assert_eq!(parameter.value(), 100);
}

#[test]
fn linear_interpolation_rounds_toward_the_start() {
    let context = ModulationContext::empty();
    let mut parameter = Parameter::new(0);
    parameter.set(ControlValue::Fixed(1), linear(3), &context);
    parameter.advance(1, &context);
    assert_eq!(parameter.value(), 0);
    parameter.advance(1, &context);
    assert_eq!(parameter.value(), 0);
    parameter.advance(1, &context);
    assert_eq!(parameter.value(), 1);
}

#[test]
fn hold_curve_jumps_at_the_end() {
    let context = ModulationContext::empty();
    let mut parameter = Parameter::new(100);
    parameter.set(ControlValue::Fixed(900), Tween { duration_frames: 10, curve: Curve::Hold }, &context);
    parameter.advance(9, &context);
    assert_eq!(parameter.value(), 100);
    parameter.advance(1, &context);
    assert_eq!(parameter.value(), 900);
}

#[test]
fn convergence_with_uneven_deltas() {
    // Once the advances total the duration, the value equals the target
    // exactly, and stays there.
    let context = ModulationContext::empty();
    let mut parameter = Parameter::new(1_000);
    parameter.set(ControlValue::Fixed(777), linear(100), &context);
    for dt in [1, 30, 2, 50, 17] {
        parameter.advance(dt, &context);
    }
    assert_eq!(parameter.value(), 777);
    parameter.advance(1_000, &context);
    assert_eq!(parameter.value(), 777);
}

#[test]
fn interruption_restarts_from_the_current_value() {
    let context = ModulationContext::empty();
    let mut parameter = Parameter::new(0);
    parameter.set(ControlValue::Fixed(100), linear(10), &context);
    parameter.advance(5, &context);
    assert_eq!(parameter.value(), 50);
    parameter.set(ControlValue::Fixed(0), linear(2), &context);
    assert_eq!(parameter.value(), 50);
    parameter.advance(1, &context);
    assert_eq!(parameter.value(), 25);
    parameter.advance(1, &context);
    assert_eq!(parameter.value(), 0);
}

#[test]
fn modulator_supplies_the_target() {
    let context = ModulationContext::new(vec![500]);
    let mut parameter = Parameter::new(100);
    parameter.set(ControlValue::Modulator(0), linear(0), &context);
    assert_eq!(parameter.value(), 500);
}

#[test]
fn modulator_target_follows_the_context() {
    let mut parameter = Parameter::new(100);
    parameter.set(ControlValue::Modulator(0), linear(0), &ModulationContext::new(vec![500]));
    parameter.advance(1, &ModulationContext::new(vec![700]));
    assert_eq!(parameter.value(), 700);
}

#[test]
fn missing_modulator_keeps_the_current_value() {
    let context = ModulationContext::empty();
    let mut parameter = Parameter::new(250);
    parameter.set(ControlValue::Modulator(3), linear(0), &context);
    assert_eq!(parameter.value(), 250);
    parameter.advance(4, &context);
    assert_eq!(parameter.value(), 250);
}

#[test]
fn modulator_value_lookup() {
    let context = ModulationContext::new(vec![5, 6]);
    assert_eq!(context.modulator_value(0), Some(5));
    assert_eq!(context.modulator_value(1), Some(6));
    assert_eq!(context.modulator_value(2), None);
}
