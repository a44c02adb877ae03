//! Smoothed parameter values.
//!
//! A [`Parameter`] wraps a target value together with the transition that is
//! carrying the value toward it, so that a control change never produces a
//! discontinuity: the accessor always returns a fully defined value, the
//! interpolation of the transition's start value toward its target. The
//! parameter is owned exclusively by the real-time side; the control side only
//! ever reaches it through commands.
//!
//! Values are integers in abstract value units and time is counted in frames,
//! so the convergence contract is exact: once the elapsed frames reach the
//! transition's duration, the value equals the target, with no tolerance.

use crate::command::{spec_resolve, ControlValue, Curve, ModulationContext, Tween};
use vstd::arithmetic::div_mod::*;
use vstd::arithmetic::mul::*;
use vstd::prelude::*;

verus! {

/// A smoothable value: the target it is heading for, the transition carrying
/// it there, and how far that transition has come.
#[derive(Clone, Copy, Debug, PartialEq, Eq, Structural)]
pub struct Parameter {
    /// Value the present transition started from.
    pub start: u64,
    /// Value the present transition is heading for, re-resolved against the
    /// modulation context on every advance when `source` names a modulator.
    pub target: u64,
    /// Where the target comes from: a fixed value or a host modulator.
    pub source: ControlValue,
    /// Frames elapsed since the present transition began, never past the
    /// transition's duration.
    pub elapsed_frames: u64,
    /// The present transition's duration and curve.
    pub tween: Tween,
}

/// The interpolated value `elapsed` frames into a transition from `start`
/// toward `target` lasting `duration` frames. Only read while
/// `elapsed < duration`.
pub open spec fn spec_interpolate(
    curve: Curve,
    start: u64,
    target: u64,
    elapsed: u64,
    duration: u64,
) -> u64 {
    match curve {
        Curve::Hold => start,
        Curve::Linear => if target >= start {
            (start + (target - start) * (elapsed as int) / (duration as int)) as u64
        } else {
            (start - (start - target) * (elapsed as int) / (duration as int)) as u64
        },
    }
}

/// A fraction `elapsed / duration` of `diff` is at least zero and at most
/// `diff`.
proof fn lemma_scaled_fraction_bounds(diff: int, elapsed: int, duration: int)
    requires
        0 <= diff,
        0 <= elapsed <= duration,
        0 < duration,
    ensures
        0 <= diff * elapsed / duration <= diff,
{
    lemma_mul_nonnegative(diff, elapsed);
    lemma_div_is_ordered(0, diff * elapsed, duration);
    lemma_mul_inequality(elapsed, duration, diff);
    lemma_mul_is_commutative(elapsed, diff);
    lemma_mul_is_commutative(duration, diff);
    lemma_div_is_ordered(diff * elapsed, diff * duration, duration);
    lemma_div_by_multiple(diff, duration);
}

impl Parameter {
    /// The transition's progress never exceeds its duration.
    pub open spec fn well_formed(&self) -> bool {
        self.elapsed_frames <= self.tween.duration_frames
    }

    /// The value a read returns now: the target once the transition has run
    /// its duration, and the interpolated value on the way there.
    pub open spec fn spec_value(&self) -> u64 {
        if self.elapsed_frames >= self.tween.duration_frames {
            self.target
        } else {
            spec_interpolate(
                self.tween.curve,
                self.start,
                self.target,
                self.elapsed_frames,
                self.tween.duration_frames,
            )
        }
    }

    /// A parameter resting at `initial`: no transition is in flight.
    pub open spec fn spec_new(initial: u64) -> Parameter {
        Parameter {
            start: initial,
            target: initial,
            source: ControlValue::Fixed(initial),
            elapsed_frames: 0,
            tween: Tween { duration_frames: 0, curve: Curve::Linear },
        }
    }

    /// What applying a change request leaves: a fresh transition from the
    /// present value toward the requested target.
    pub open spec fn spec_set(self, source: ControlValue, tween: Tween, m: Seq<u64>) -> Parameter {
        let current = self.spec_value();
        Parameter {
            start: current,
            target: spec_resolve(source, m, current),
            source: source,
            elapsed_frames: 0,
            tween: tween,
        }
    }

    /// What advancing by `dt` frames leaves: the target re-resolved against
    /// the context, and the progress moved forward, capped at the duration.
    pub open spec fn spec_advance(self, dt: u64, m: Seq<u64>) -> Parameter {
        let target = spec_resolve(self.source, m, self.target);
        let elapsed = if self.elapsed_frames + dt >= self.tween.duration_frames {
            self.tween.duration_frames
        } else {
            (self.elapsed_frames + dt) as u64
        };
        Parameter { target: target, elapsed_frames: elapsed, ..self }
    }

    /// Builds a parameter resting at `initial`.
    pub fn new(initial: u64) -> (parameter: Parameter)
        ensures
            parameter == Parameter::spec_new(initial),
            parameter.well_formed(),
            parameter.spec_value() == initial,
    {
        Parameter {
            start: initial,
            target: initial,
            source: ControlValue::Fixed(initial),
            elapsed_frames: 0,
            tween: Tween { duration_frames: 0, curve: Curve::Linear },
        }
    }

    /// Reads the present value. Always fully defined: mid-transition it is
    /// the interpolated value, afterwards the target itself.
    pub fn value(&self) -> (value: u64)
        requires
            self.well_formed(),
        ensures
            value == self.spec_value(),
    {
        if self.elapsed_frames >= self.tween.duration_frames {
            self.target
        } else {
            let duration = self.tween.duration_frames;
            match self.tween.curve {
                Curve::Hold => self.start,
                Curve::Linear => if self.target >= self.start {
                    let diff = self.target - self.start;
                    proof {
                        lemma_mul_upper_bound(
                            diff as int,
                            u64::MAX as int,
                            self.elapsed_frames as int,
                            u64::MAX as int,
                        );
                        lemma_scaled_fraction_bounds(
                            diff as int,
                            self.elapsed_frames as int,
                            duration as int,
                        );
                    }
                    let elapsed = self.elapsed_frames as u128;
                    let scaled = ((diff as u128) * elapsed / (duration as u128)) as u64;
                    self.start + scaled
                } else {
                    let diff = self.start - self.target;
                    proof {
                        lemma_mul_upper_bound(
                            diff as int,
                            u64::MAX as int,
                            self.elapsed_frames as int,
                            u64::MAX as int,
                        );
                        lemma_scaled_fraction_bounds(
                            diff as int,
                            self.elapsed_frames as int,
                            duration as int,
                        );
                    }
                    let elapsed = self.elapsed_frames as u128;
                    let scaled = ((diff as u128) * elapsed / (duration as u128)) as u64;
                    self.start - scaled
                },
            }
        }
    }

    /// Applies a change request: a fresh transition starts at the present
    /// value and heads for the requested target.
    pub fn set(&mut self, source: ControlValue, tween: Tween, context: &ModulationContext)
        requires
            old(self).well_formed(),
        ensures
            *final(self) == old(self).spec_set(source, tween, context.values@),
            final(self).well_formed(),
    {
        let current = self.value();
        let target = context.resolve(source, current);
        *self = Parameter {
            start: current,
            target: target,
            source: source,
            elapsed_frames: 0,
            tween: tween,
        };
    }

    /// Advances the transition by `dt` frames against the given context.
    pub fn advance(&mut self, dt: u64, context: &ModulationContext)
        requires
            old(self).well_formed(),
        ensures
            *final(self) == old(self).spec_advance(dt, context.values@),
            final(self).well_formed(),
    {
        let target = context.resolve(self.source, self.target);
        let remaining = self.tween.duration_frames - self.elapsed_frames;
        let elapsed = if dt >= remaining {
            self.tween.duration_frames
        } else {
            self.elapsed_frames + dt
        };
        *self = Parameter {
            start: self.start,
            target: target,
            source: self.source,
            elapsed_frames: elapsed,
            tween: self.tween,
        };
    }
}

/// What a run of advances leaves, the first delta applied first, each against
/// its own per-callback context.
pub open spec fn spec_advance_seq(
    p: Parameter,
    deltas: Seq<u64>,
    contexts: Seq<Seq<u64>>,
) -> Parameter
    decreases deltas.len(),
{
    if deltas.len() == 0 {
        p
    } else {
        spec_advance_seq(
            p.spec_advance(deltas[0], contexts[0]),
            deltas.drop_first(),
            contexts.drop_first(),
        )
    }
}

/// Total elapsed frames of a run of advances.
pub open spec fn spec_total(deltas: Seq<u64>) -> int
    decreases deltas.len(),
{
    if deltas.len() == 0 {
        0
    } else {
        deltas[0] + spec_total(deltas.drop_first())
    }
}

/// A total of unsigned deltas is never negative.
proof fn lemma_total_nonneg(deltas: Seq<u64>)
    ensures
        spec_total(deltas) >= 0,
    decreases deltas.len(),
{
    if deltas.len() > 0 {
        lemma_total_nonneg(deltas.drop_first());
    }
}

/// While a parameter heads for a fixed target, advances never move the target
/// and the transition's progress is the total of the deltas, capped at the
/// duration.
proof fn lemma_fixed_advance_seq(
    p: Parameter,
    value: u64,
    deltas: Seq<u64>,
    contexts: Seq<Seq<u64>>,
)
    requires
        p.well_formed(),
        p.source == ControlValue::Fixed(value),
        p.target == value,
        deltas.len() == contexts.len(),
    ensures
        ({
            let q = spec_advance_seq(p, deltas, contexts);
            &&& q.well_formed()
            &&& q.source == p.source
            &&& q.target == value
            &&& q.start == p.start
            &&& q.tween == p.tween
            &&& q.elapsed_frames == if p.elapsed_frames + spec_total(deltas)
                >= p.tween.duration_frames {
                p.tween.duration_frames as int
            } else {
                p.elapsed_frames + spec_total(deltas)
            }
        }),
    decreases deltas.len(),
{
    if deltas.len() > 0 {
        lemma_total_nonneg(deltas.drop_first());
        lemma_fixed_advance_seq(
            p.spec_advance(deltas[0], contexts[0]),
            value,
            deltas.drop_first(),
            contexts.drop_first(),
        );
    }
}

/// Smoothing convergence: after a command sets the parameter to a fixed value
/// over some duration, any run of advances whose total elapsed frames reaches
/// that duration leaves the parameter's value exactly at the requested value,
/// whatever the contexts supplied along the way.
pub proof fn lemma_smoothing_convergence(
    p: Parameter,
    value: u64,
    tween: Tween,
    set_context: Seq<u64>,
    deltas: Seq<u64>,
    contexts: Seq<Seq<u64>>,
)
    requires
        p.well_formed(),
        deltas.len() == contexts.len(),
        spec_total(deltas) >= tween.duration_frames,
    ensures
        spec_advance_seq(
            p.spec_set(ControlValue::Fixed(value), tween, set_context),
            deltas,
            contexts,
        ).spec_value() == value,
{
    lemma_fixed_advance_seq(
        p.spec_set(ControlValue::Fixed(value), tween, set_context),
        value,
        deltas,
        contexts,
    );
}

/// Click-free changes: a change request with a nonzero duration does not move
/// the value at the instant it is applied — the fresh transition starts
/// exactly at the value the parameter had.
pub proof fn lemma_set_is_click_free(
    p: Parameter,
    source: ControlValue,
    tween: Tween,
    m: Seq<u64>,
)
    requires
        p.well_formed(),
        tween.duration_frames > 0,
    ensures
        p.spec_set(source, tween, m).spec_value() == p.spec_value(),
{
    let q = p.spec_set(source, tween, m);
    match tween.curve {
        Curve::Hold => {},
        Curve::Linear => {
            if q.target >= q.start {
                lemma_div_of0(tween.duration_frames as int);
            } else {
                lemma_div_of0(tween.duration_frames as int);
            }
        },
    }
}

/// A read never returns a value outside the span between the transition's
/// start value and its target: smoothing cannot overshoot.
pub proof fn lemma_value_bounded(p: Parameter)
    requires
        p.well_formed(),
    ensures
        p.spec_value() >= if p.start <= p.target {
            p.start
        } else {
            p.target
        },
        p.spec_value() <= if p.start <= p.target {
            p.target
        } else {
            p.start
        },
{
    if p.elapsed_frames < p.tween.duration_frames {
        match p.tween.curve {
            Curve::Hold => {},
            Curve::Linear => {
                if p.target >= p.start {
                    lemma_scaled_fraction_bounds(
                        p.target - p.start,
                        p.elapsed_frames as int,
                        p.tween.duration_frames as int,
                    );
                } else {
                    lemma_scaled_fraction_bounds(
                        p.start - p.target,
                        p.elapsed_frames as int,
                        p.tween.duration_frames as int,
                    );
                }
            },
        }
    }
}

} // verus!
