//! Real-time-safe control-plane / audio-thread bridge.
//!
//! A non-real-time thread (a game loop, a UI) steers a signal generator that
//! runs inside a hard-real-time audio callback. The two sides never share
//! mutable state directly and never block on each other: every change travels
//! as an immutable [`command::Command`] value through a fixed-capacity
//! [`channel::CommandChannel`]. The real-time side drains the channel once per
//! callback (work bounded by the channel's capacity), folds the commands into
//! smoothed [`parameter::Parameter`] state, advances its oscillator phase, and
//! produces exactly one output unit.
//!
//! All quantities are integers so that every contract is exact: values carried
//! by commands are in abstract value units (the oscillator reads them as
//! millihertz), time is counted in frames at a sample rate fixed when a source
//! is created, and the phase is a fraction of a cycle over a fixed
//! denominator. Turning a produced frame into an audio sample (a sine
//! evaluation) is floating-point work that belongs to the host at the boundary.

pub mod channel;
pub mod command;
pub mod handle;
pub mod loader;
pub mod parameter;
pub mod processor;
