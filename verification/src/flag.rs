//! A single-slot notification flag shared by one producer and one consumer.

use vstd::prelude::*;

verus! {

/// A boolean cell that records that something happened since it was last
/// consumed.
///
/// The producer (an interrupt handler) only ever sets it; the consumer (the
/// owning loop) only ever tests and clears it. The flag keeps no count: any
/// number of signals before the next `take` are seen as one.
pub struct Flag {
    pending: bool,
}

impl View for Flag {
    type V = bool;

    /// Whether a signal is waiting to be consumed.
    closed spec fn view(&self) -> bool {
        self.pending
    }
}

/// The value of a flag after `count` signals have been delivered to it.
pub open spec fn after_signals(pending: bool, count: nat) -> bool
    decreases count,
{
    if count == 0 {
        pending
    } else {
        after_signals(true, (count - 1) as nat)
    }
}

/// Signals do not add up: one or more of them leave the flag set, whatever it
/// held before, exactly as a single signal does.
pub proof fn signals_coalesce(pending: bool, count: nat)
    requires
        count >= 1,
    ensures
        after_signals(pending, count) == true,
        after_signals(pending, count) == after_signals(pending, 1),
    decreases count,
{
    reveal_with_fuel(after_signals, 2);
    if count > 1 {
        signals_coalesce(true, (count - 1) as nat);
    }
}

impl Flag {
    /// A flag with nothing pending.
    pub fn new() -> (flag: Flag)
        ensures
            flag@ == false,
    {
        Flag { pending: false }
    }

    /// Producer side: marks the flag as pending.
    pub fn signal(&mut self)
        ensures
            final(self)@ == true,
            final(self)@ == after_signals(old(self)@, 1),
    {
        reveal_with_fuel(after_signals, 2);
        self.pending = true;
    }

    /// Consumer side: reads the flag and clears it in one step. Returns
    /// whether a signal was pending.
    pub fn take(&mut self) -> (was_pending: bool)
        ensures
            was_pending == old(self)@,
            final(self)@ == false,
    {
        let was_pending = self.pending;
        self.pending = false;
        was_pending
    }
}

} // verus!
