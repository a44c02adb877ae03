//! The non-real-time side of the bridge: a typed, never-blocking façade over
//! the producer end of the command channel.
//!
//! The handle holds no signal state of its own — by design, so the control
//! thread never touches state the real-time thread owns. Each setter builds a
//! command value and attempts one push. When the channel is full the change
//! is simply dropped and reported through the return value; the setter never
//! panics, never blocks, and never retries on its own, since retrying
//! synchronously would spin against the consumer.
//!
//! In a deployment the handle and the processor live on different threads and
//! share only the channel's slots; in this sequential model the handle owns
//! the channel value and the host lends it to the processor for the duration
//! of each callback.

use crate::channel::{spec_push, CommandChannel};
use crate::command::{Command, ControlValue, Tween};
use crate::processor::{OscillatorSettings, SignalProcessor};
use vstd::prelude::*;

verus! {

/// Producer-side handle the host application steers a source through.
pub struct ControlHandle {
    /// The command channel toward the paired [`SignalProcessor`]. The
    /// processor borrows it once per callback to drain it.
    pub commands: CommandChannel<Command>,
}

impl ControlHandle {
    /// The underlying channel is well-formed.
    pub open spec fn well_formed(&self) -> bool {
        self.commands.well_formed()
    }

    /// Requests a frequency change to `target` along `tween`. Returns whether
    /// the command was enqueued: `false` reports that the channel was full
    /// and the change was dropped, which is expected under load and not
    /// fatal — the caller may log it and retry on a later tick.
    pub fn set_frequency(&mut self, target: ControlValue, tween: Tween) -> (accepted: bool)
        requires
            old(self).well_formed(),
        ensures
            final(self).well_formed(),
            final(self).commands.spec_capacity() == old(self).commands.spec_capacity(),
            accepted == (old(self).commands@.len() < old(self).commands.spec_capacity()),
            final(self).commands@ == spec_push(
                old(self).commands@,
                old(self).commands.spec_capacity(),
                Command::SetFrequency(target, tween),
            ),
    {
        if self.commands.is_full() {
            false
        } else {
            self.commands.push(Command::SetFrequency(target, tween))
        }
    }

    /// How many commands wait in the channel.
    pub fn pending(&self) -> (pending: usize)
        ensures
            pending == self.commands@.len(),
    {
        self.commands.len()
    }

    /// The channel's fixed capacity.
    pub fn capacity(&self) -> (capacity: usize)
        ensures
            capacity == self.commands.spec_capacity(),
    {
        self.commands.capacity()
    }
}

/// Builds a connected pair atomically: a processor for the real-time side and
/// the handle that steers it, joined by a fresh empty channel of the given
/// fixed capacity. There is no way to obtain one end without the other, so no
/// channel is ever orphaned.
pub fn create_source(settings: OscillatorSettings, capacity: usize) -> (pair: (
    SignalProcessor,
    ControlHandle,
))
    requires
        settings.well_formed(),
    ensures
        pair.0 == SignalProcessor::spec_new(settings),
        pair.0.well_formed(),
        pair.1.well_formed(),
        pair.1.commands@ == Seq::<Command>::empty(),
        pair.1.commands.spec_capacity() == capacity,
{
    let processor = SignalProcessor::new(settings);
    let handle = ControlHandle { commands: CommandChannel::new(capacity) };
    (processor, handle)
}

} // verus!
