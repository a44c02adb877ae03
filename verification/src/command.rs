//! Command values and the per-callback context they are interpreted against.
//!
//! A command is an immutable parameter-change request built by the control
//! side, carried through the channel, and consumed exactly once by the
//! real-time side. Commands form a closed tagged union so the real-time side
//! does one bounded match per command, never dynamic dispatch.

use vstd::prelude::*;

verus! {

/// Shape of a transition from a parameter's present value to its target.
#[derive(Clone, Copy, Debug, PartialEq, Eq, Structural)]
pub enum Curve {
    /// The value moves in a straight line from the old value to the target
    /// over the transition's duration.
    Linear,
    /// The value holds the old value for the whole duration, then jumps to
    /// the target.
    Hold,
}

/// Transition descriptor attached to a parameter change: how long the change
/// takes, in frames, and along which curve. A zero duration applies the
/// change at once.
#[derive(Clone, Copy, Debug, PartialEq, Eq, Structural)]
pub struct Tween {
    /// Length of the transition in frames.
    pub duration_frames: u64,
    /// Interpolation curve followed during the transition.
    pub curve: Curve,
}

/// A requested target: either a fixed value in abstract value units, or the
/// output of one of the host's shared modulation sources, looked up anew on
/// every callback so that all sources tracking it stay in step.
#[derive(Clone, Copy, Debug, PartialEq, Eq, Structural)]
pub enum ControlValue {
    /// A fixed target value.
    Fixed(u64),
    /// The value of the host modulator with this index in the per-callback
    /// context. While the context has no such modulator the parameter keeps
    /// the target it already has.
    Modulator(usize),
}

/// One parameter-change request. Built by the control handle, pushed through
/// the channel, popped and applied by the signal processor.
#[derive(Clone, Copy, Debug, PartialEq, Eq, Structural)]
pub enum Command {
    /// Set the oscillator frequency to the given target (in millihertz),
    /// transitioning from the present value as the tween describes.
    SetFrequency(ControlValue, Tween),
}

/// Read-only per-callback context handed in by the host audio engine: the
/// current values of its shared modulation sources, one entry per modulator.
/// The host's clock is consumed as the elapsed-frames argument of each
/// callback, so every processor advances against the same clock.
pub struct ModulationContext {
    /// Value of each shared modulator during this callback, in value units.
    pub values: Vec<u64>,
}

/// What a control value resolves to against the modulator values `m`:
/// a fixed value is itself; a modulator index is looked up in `m`, and while
/// it is out of range the parameter keeps `fallback`.
pub open spec fn spec_resolve(source: ControlValue, m: Seq<u64>, fallback: u64) -> u64 {
    match source {
        ControlValue::Fixed(value) => value,
        ControlValue::Modulator(index) => if index < m.len() {
            m[index as int]
        } else {
            fallback
        },
    }
}

impl ModulationContext {
    /// A context with no modulators, for hosts that drive none.
    pub fn empty() -> (context: ModulationContext)
        ensures
            context.values@ == Seq::<u64>::empty(),
    {
        ModulationContext { values: Vec::new() }
    }

    /// A context carrying the given modulator values.
    pub fn new(values: Vec<u64>) -> (context: ModulationContext)
        ensures
            context.values@ == values@,
    {
        ModulationContext { values }
    }

    /// The value of the modulator with the given index, if the host drives
    /// one under that index during this callback.
    pub fn modulator_value(&self, index: usize) -> (value: Option<u64>)
        ensures
            value == (if index < self.values@.len() {
                Some(self.values@[index as int])
            } else {
                None::<u64>
            }),
    {
        if index < self.values.len() {
            Some(self.values[index])
        } else {
            None
        }
    }

    /// Executable form of [`spec_resolve`] against this context.
    pub fn resolve(&self, source: ControlValue, fallback: u64) -> (value: u64)
        ensures
            value == spec_resolve(source, self.values@, fallback),
    {
        match source {
            ControlValue::Fixed(value) => value,
            ControlValue::Modulator(index) => match self.modulator_value(index) {
                Some(value) => value,
                None => fallback,
            },
        }
    }
}

} // verus!
