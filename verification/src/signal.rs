//! The tick flag shared between the timer interrupt and the main loop.

use vstd::prelude::*;

verus! {

/// A single flag: the interrupt handler raises it, the main loop reads and
/// clears it in one step. It carries no count, so a second raise before the
/// flag is taken is absorbed into the first.
#[derive(Debug)]
pub struct TickSignal {
    raised: bool,
}

impl View for TickSignal {
    type V = bool;

    closed spec fn view(&self) -> bool {
        self.raised
    }
}

impl TickSignal {
    /// The flag as it is at boot: clear.
    pub fn new() -> (signal: Self)
        ensures
            !signal@,
    {
        TickSignal { raised: false }
    }

    /// Interrupt side: mark a tick as pending.
    pub fn raise(&mut self)
        ensures
            final(self)@,
    {
        self.raised = true;
    }

    /// Main-loop side: read the flag and clear it, as one step.
    pub fn take(&mut self) -> (was_raised: bool)
        ensures
            was_raised == old(self)@,
            !final(self)@,
    {
        let was_raised = self.raised;
        self.raised = false;
        was_raised
    }

    /// Whether a tick is pending, without consuming it.
    pub fn is_raised(&self) -> (raised: bool)
        ensures
            raised == self@,
    {
        self.raised
    }
}

} // verus!
