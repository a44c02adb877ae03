//! The real-time side of the bridge: per-callback drain, advance, compute.
//!
//! A [`SignalProcessor`] owns the consumer's view of the command channel plus
//! all signal state: a smoothed frequency parameter, an oscillator phase, and
//! an elapsed-frames clock. Once per audio callback the host calls
//! [`SignalProcessor::process`], which
//!
//! 1. drains every pending command (work bounded by the channel's capacity,
//!    never by wall-clock time),
//! 2. advances the parameter and the phase by the callback's elapsed frames
//!    against the host's shared modulation context, and
//! 3. computes exactly one output unit, a pure function of the state.
//!
//! No step blocks, allocates, or fails: a full channel is the producer's
//! concern, an empty one ends the drain loop, and all arithmetic is proved
//! free of overflow.

use crate::channel::CommandChannel;
use crate::command::{Command, ControlValue, ModulationContext, Tween};
use crate::parameter::{lemma_smoothing_convergence, spec_advance_seq, spec_total, Parameter};
use vstd::arithmetic::div_mod::*;
use vstd::arithmetic::mul::*;
use vstd::prelude::*;

verus! {

/// Commanded values are frequencies in millihertz; one hertz is this many
/// value units. The fine unit keeps slow transitions click-free.
pub const MILLIHERTZ_PER_HERTZ: u64 = 1000;

/// Largest supported sample rate, in frames per second. The bound keeps the
/// phase denominator `MILLIHERTZ_PER_HERTZ * sample_rate` well inside `u64`.
pub const MAX_SAMPLE_RATE: u64 = 1_000_000_000_000;

/// Numerator of the fixed output attenuation the host renderer applies, so a
/// bare generated tone never plays at full scale.
pub const OUTPUT_GAIN_NUMERATOR: u64 = 1;

/// Denominator of the fixed output attenuation: the documented gain is 1/8.
pub const OUTPUT_GAIN_DENOMINATOR: u64 = 8;

/// One output unit per callback: the oscillator's phase after this callback,
/// as an exact fraction of a cycle (`phase_numerator / phase_denominator`,
/// always in `[0, 1)`).
///
/// Both stereo channels carry the same rendered sample. Rendering is the
/// host's floating-point work at the boundary: the sample equals
/// `OUTPUT_GAIN_NUMERATOR / OUTPUT_GAIN_DENOMINATOR` times the sine of one
/// full turn times the phase fraction.
#[derive(Clone, Copy, Debug, PartialEq, Eq, Structural)]
pub struct Frame {
    /// Numerator of the phase fraction; always below the denominator.
    pub phase_numerator: u64,
    /// Denominator of the phase fraction: `MILLIHERTZ_PER_HERTZ` times the
    /// source's sample rate.
    pub phase_denominator: u64,
}

/// Initial values a generated source is created with.
#[derive(Clone, Copy, Debug)]
pub struct OscillatorSettings {
    /// Starting frequency, in millihertz.
    pub frequency_millihertz: u64,
    /// Frames per second of the host audio engine; fixed for the source's
    /// life.
    pub sample_rate: u64,
    /// A one-shot source reports itself finished once this many frames have
    /// elapsed; `None` makes a continuous source that never finishes.
    pub duration_frames: Option<u64>,
}

/// Denominator of the phase fraction for a source running at `sample_rate`:
/// advancing one frame at one millihertz moves the phase by exactly one unit
/// of this denominator.
pub open spec fn spec_phase_denominator(sample_rate: u64) -> int {
    MILLIHERTZ_PER_HERTZ * sample_rate
}

impl OscillatorSettings {
    /// The sample rate is positive and within the supported bound.
    pub open spec fn well_formed(&self) -> bool {
        1 <= self.sample_rate <= MAX_SAMPLE_RATE
    }

    /// Executable form of [`OscillatorSettings::well_formed`], for hosts that
    /// take the sample rate from the outside.
    pub fn is_valid(&self) -> (valid: bool)
        ensures
            valid == self.well_formed(),
    {
        1 <= self.sample_rate && self.sample_rate <= MAX_SAMPLE_RATE
    }
}

/// The signal-generation state machine run by the audio callback. All fields
/// are owned exclusively by the real-time side; the control side reaches them
/// only through commands.
#[derive(Clone, Copy, Debug)]
pub struct SignalProcessor {
    /// The smoothed oscillator frequency, in millihertz.
    pub frequency: Parameter,
    /// Oscillator phase as a fraction of a cycle over
    /// [`spec_phase_denominator`]. Tracking phase rather than absolute time
    /// keeps frequency changes glitch-free.
    pub phase_numerator: u64,
    /// Frames per second, fixed at creation.
    pub sample_rate: u64,
    /// Frames elapsed since creation; saturates rather than wrapping.
    pub elapsed_frames: u64,
    /// One-shot duration, or `None` for a continuous source.
    pub duration_frames: Option<u64>,
}

impl SignalProcessor {
    /// The frequency parameter is well-formed, the sample rate is in range,
    /// and the phase numerator is below its denominator.
    pub open spec fn well_formed(&self) -> bool {
        &&& self.frequency.well_formed()
        &&& 1 <= self.sample_rate <= MAX_SAMPLE_RATE
        &&& (self.phase_numerator as int) < spec_phase_denominator(self.sample_rate)
    }

    /// The processor a source starts from: frequency resting at the initial
    /// value, phase and clock at zero.
    pub open spec fn spec_new(settings: OscillatorSettings) -> SignalProcessor {
        SignalProcessor {
            frequency: Parameter::spec_new(settings.frequency_millihertz),
            phase_numerator: 0,
            sample_rate: settings.sample_rate,
            elapsed_frames: 0,
            duration_frames: settings.duration_frames,
        }
    }

    /// What applying one command leaves: the addressed parameter starts a
    /// fresh transition; nothing else moves.
    pub open spec fn spec_apply(self, command: Command, m: Seq<u64>) -> SignalProcessor {
        match command {
            Command::SetFrequency(source, tween) => SignalProcessor {
                frequency: self.frequency.spec_set(source, tween, m),
                ..self
            },
        }
    }

    /// What applying a sequence of commands leaves, oldest first.
    pub open spec fn spec_apply_seq(self, commands: Seq<Command>, m: Seq<u64>) -> SignalProcessor
        decreases commands.len(),
    {
        if commands.len() == 0 {
            self
        } else {
            self.spec_apply(commands[0], m).spec_apply_seq(commands.drop_first(), m)
        }
    }

    /// What advancing by `dt` frames leaves: the frequency transition moves
    /// forward, the phase grows by frequency times `dt` and wraps within one
    /// cycle, and the elapsed-frames clock grows, saturating at `u64::MAX`.
    pub open spec fn spec_advance(self, dt: u64, m: Seq<u64>) -> SignalProcessor {
        let frequency = self.frequency.spec_advance(dt, m);
        let denominator = spec_phase_denominator(self.sample_rate);
        SignalProcessor {
            frequency: frequency,
            phase_numerator: ((self.phase_numerator + frequency.spec_value() * dt) % denominator)
                as u64,
            elapsed_frames: if self.elapsed_frames + dt > u64::MAX {
                u64::MAX
            } else {
                (self.elapsed_frames + dt) as u64
            },
            ..self
        }
    }

    /// The whole per-callback step: drain these commands, then advance.
    pub open spec fn spec_step(
        self,
        commands: Seq<Command>,
        dt: u64,
        m: Seq<u64>,
    ) -> SignalProcessor {
        self.spec_apply_seq(commands, m).spec_advance(dt, m)
    }

    /// The output unit computed from the present state alone.
    pub open spec fn spec_output(self) -> Frame {
        Frame {
            phase_numerator: self.phase_numerator,
            phase_denominator: spec_phase_denominator(self.sample_rate) as u64,
        }
    }

    /// Whether the source considers itself finished: a one-shot source once
    /// its duration has elapsed, a continuous source never.
    pub open spec fn spec_finished(&self) -> bool {
        match self.duration_frames {
            Some(duration) => self.elapsed_frames >= duration,
            None => false,
        }
    }

    /// Builds the processor for a new source.
    pub fn new(settings: OscillatorSettings) -> (processor: SignalProcessor)
        requires
            settings.well_formed(),
        ensures
            processor == SignalProcessor::spec_new(settings),
            processor.well_formed(),
    {
        SignalProcessor {
            frequency: Parameter::new(settings.frequency_millihertz),
            phase_numerator: 0,
            sample_rate: settings.sample_rate,
            elapsed_frames: 0,
            duration_frames: settings.duration_frames,
        }
    }

    /// Applies one drained command to the parameter it addresses.
    pub fn apply(&mut self, command: Command, context: &ModulationContext)
        requires
            old(self).well_formed(),
        ensures
            *final(self) == old(self).spec_apply(command, context.values@),
            final(self).well_formed(),
    {
        match command {
            Command::SetFrequency(source, tween) => {
                self.frequency.set(source, tween, context);
            },
        }
    }

    /// Advances all state by `dt` frames against the host's context.
    pub fn advance(&mut self, dt: u64, context: &ModulationContext)
        requires
            old(self).well_formed(),
        ensures
            *final(self) == old(self).spec_advance(dt, context.values@),
            final(self).well_formed(),
    {
        let mut frequency = self.frequency;
        frequency.advance(dt, context);
        let value = frequency.value();
        let denominator = MILLIHERTZ_PER_HERTZ * self.sample_rate;
        proof {
            lemma_mul_upper_bound(value as int, u64::MAX as int, dt as int, u64::MAX as int);
            lemma_mod_division_less_than_divisor(
                self.phase_numerator + value * dt,
                denominator as int,
            );
        }
        let step = (value as u128) * (dt as u128);
        let next = ((self.phase_numerator as u128) + step) % (denominator as u128);
        let elapsed = match self.elapsed_frames.checked_add(dt) {
            Some(total) => total,
            None => u64::MAX,
        };
        *self = SignalProcessor {
            frequency: frequency,
            phase_numerator: next as u64,
            sample_rate: self.sample_rate,
            elapsed_frames: elapsed,
            duration_frames: self.duration_frames,
        };
    }

    /// Computes the one output unit for this callback: a pure, deterministic
    /// function of the present state, free of allocation and blocking.
    pub fn compute(&self) -> (frame: Frame)
        requires
            self.well_formed(),
        ensures
            frame == self.spec_output(),
            frame.phase_numerator < frame.phase_denominator,
    {
        Frame {
            phase_numerator: self.phase_numerator,
            phase_denominator: MILLIHERTZ_PER_HERTZ * self.sample_rate,
        }
    }

    /// The whole callback: drain every pending command, advance by `dt`
    /// frames, and compute the output unit. The drain loop runs at most
    /// `capacity` iterations and leaves the channel empty; it never waits for
    /// the producer.
    pub fn process(
        &mut self,
        commands: &mut CommandChannel<Command>,
        dt: u64,
        context: &ModulationContext,
    ) -> (frame: Frame)
        requires
            old(self).well_formed(),
            old(commands).well_formed(),
        ensures
            final(commands).well_formed(),
            final(commands).spec_capacity() == old(commands).spec_capacity(),
            final(commands)@ == Seq::<Command>::empty(),
            *final(self) == old(self).spec_step(old(commands)@, dt, context.values@),
            final(self).well_formed(),
            frame == final(self).spec_output(),
            old(self).spec_finished() ==> final(self).spec_finished(),
    {
        let ghost pending = commands@;
        let ghost mut processed: Seq<Command> = Seq::empty();
        while !commands.is_empty()
            invariant
                commands.well_formed(),
                commands.spec_capacity() == old(commands).spec_capacity(),
                self.well_formed(),
                pending == processed + commands@,
                *self == old(self).spec_apply_seq(processed, context.values@),
            decreases commands@.len(),
        {
            if let Some(command) = commands.pop() {
                self.apply(command, context);
                proof {
                    lemma_apply_seq_snoc(*old(self), processed, command, context.values@);
                    processed = processed.push(command);
                    assert(pending == processed + commands@);
                }
            }
        }
        proof {
            assert(processed + commands@ =~= processed);
            if old(self).spec_finished() {
                lemma_finished_monotone(*old(self), pending, dt, context.values@);
            }
        }
        self.advance(dt, context);
        self.compute()
    }

    /// Reports whether the source is finished, so the host knows when it may
    /// reclaim the processor. This is a side query: it changes nothing.
    pub fn finished(&self) -> (finished: bool)
        ensures
            finished == self.spec_finished(),
    {
        match self.duration_frames {
            Some(duration) => self.elapsed_frames >= duration,
            None => false,
        }
    }
}

/// Applying one more command after a sequence is applying the longer
/// sequence.
proof fn lemma_apply_seq_snoc(
    p: SignalProcessor,
    commands: Seq<Command>,
    command: Command,
    m: Seq<u64>,
)
    ensures
        p.spec_apply_seq(commands.push(command), m) == p.spec_apply_seq(commands, m).spec_apply(
            command,
            m,
        ),
    decreases commands.len(),
{
    reveal_with_fuel(SignalProcessor::spec_apply_seq, 3);
    if commands.len() == 0 {
        assert(commands.push(command)[0] == command);
        assert(commands.push(command).drop_first() =~= commands);
    } else {
        assert(commands.push(command)[0] == commands[0]);
        assert(commands.push(command).drop_first() =~= commands.drop_first().push(command));
        lemma_apply_seq_snoc(p.spec_apply(commands[0], m), commands.drop_first(), command, m);
    }
}

/// Commands only retarget parameters: they move neither the elapsed-frames
/// clock nor the one-shot duration.
proof fn lemma_apply_seq_keeps_clock(p: SignalProcessor, commands: Seq<Command>, m: Seq<u64>)
    ensures
        p.spec_apply_seq(commands, m).elapsed_frames == p.elapsed_frames,
        p.spec_apply_seq(commands, m).duration_frames == p.duration_frames,
    decreases commands.len(),
{
    if commands.len() > 0 {
        lemma_apply_seq_keeps_clock(p.spec_apply(commands[0], m), commands.drop_first(), m);
    }
}

/// No value after stop: once a processor reports itself finished, every later
/// per-callback step leaves it finished, whatever commands arrive and however
/// far time advances. The host is thus never required to keep computing.
pub proof fn lemma_finished_monotone(
    p: SignalProcessor,
    commands: Seq<Command>,
    dt: u64,
    m: Seq<u64>,
)
    requires
        p.spec_finished(),
    ensures
        p.spec_step(commands, dt, m).spec_finished(),
{
    lemma_apply_seq_keeps_clock(p, commands, m);
}

/// What a run of callbacks with no pending commands leaves: each callback
/// drains nothing and advances by its delta against its own context.
pub open spec fn spec_quiet_run(
    p: SignalProcessor,
    deltas: Seq<u64>,
    contexts: Seq<Seq<u64>>,
) -> SignalProcessor
    decreases deltas.len(),
{
    if deltas.len() == 0 {
        p
    } else {
        spec_quiet_run(p.spec_advance(deltas[0], contexts[0]), deltas.drop_first(), contexts.drop_first())
    }
}

/// Across a quiet run, the processor's frequency parameter sees exactly the
/// same advances it would see on its own.
proof fn lemma_quiet_run_frequency(p: SignalProcessor, deltas: Seq<u64>, contexts: Seq<Seq<u64>>)
    requires
        deltas.len() == contexts.len(),
    ensures
        spec_quiet_run(p, deltas, contexts).frequency == spec_advance_seq(
            p.frequency,
            deltas,
            contexts,
        ),
    decreases deltas.len(),
{
    if deltas.len() > 0 {
        lemma_quiet_run_frequency(
            p.spec_advance(deltas[0], contexts[0]),
            deltas.drop_first(),
            contexts.drop_first(),
        );
    }
}

/// Smoothing convergence, seen through the whole bridge: after one callback
/// drains a command setting the frequency to a fixed value over some
/// duration, any run of further callbacks with no more commands whose deltas,
/// together with the first callback's, total at least that duration leaves
/// the frequency exactly at the requested value, whatever contexts the host
/// supplies along the way.
pub proof fn lemma_processor_smoothing_convergence(
    p: SignalProcessor,
    value: u64,
    tween: Tween,
    first_dt: u64,
    first_m: Seq<u64>,
    deltas: Seq<u64>,
    contexts: Seq<Seq<u64>>,
)
    requires
        p.well_formed(),
        deltas.len() == contexts.len(),
        first_dt + spec_total(deltas) >= tween.duration_frames,
    ensures
        ({
            let command = Command::SetFrequency(ControlValue::Fixed(value), tween);
            let applied = p.spec_step(seq![command], first_dt, first_m);
            spec_quiet_run(applied, deltas, contexts).frequency.spec_value() == value
        }),
{
    reveal_with_fuel(SignalProcessor::spec_apply_seq, 2);
    let command = Command::SetFrequency(ControlValue::Fixed(value), tween);
    let applied = p.spec_step(seq![command], first_dt, first_m);
    assert(seq![command].drop_first() =~= Seq::<Command>::empty());
    assert(p.spec_apply_seq(seq![command], first_m) == p.spec_apply(command, first_m));
    lemma_quiet_run_frequency(applied, deltas, contexts);
    let all_deltas = seq![first_dt] + deltas;
    let all_contexts = seq![first_m] + contexts;
    assert(all_deltas.drop_first() =~= deltas);
    assert(all_contexts.drop_first() =~= contexts);
    assert(spec_total(all_deltas) == first_dt + spec_total(deltas));
    let set_frequency = p.frequency.spec_set(ControlValue::Fixed(value), tween, first_m);
    assert(spec_advance_seq(set_frequency, all_deltas, all_contexts) == spec_advance_seq(
        set_frequency.spec_advance(first_dt, first_m),
        deltas,
        contexts,
    ));
    lemma_smoothing_convergence(
        p.frequency,
        value,
        tween,
        first_m,
        all_deltas,
        all_contexts,
    );
}

/// Drain-then-compute determinism: two processors in identical states, given
/// identical pending commands, elapsed frames and context, step to identical
/// states and compute bit-identical output units. The step is a function of
/// its inputs alone, with no hidden state.
pub proof fn lemma_step_deterministic(
    p: SignalProcessor,
    q: SignalProcessor,
    commands: Seq<Command>,
    dt: u64,
    m: Seq<u64>,
)
    requires
        p == q,
    ensures
        p.spec_step(commands, dt, m) == q.spec_step(commands, dt, m),
        p.spec_step(commands, dt, m).spec_output() == q.spec_step(commands, dt, m).spec_output(),
{
}

} // verus!
