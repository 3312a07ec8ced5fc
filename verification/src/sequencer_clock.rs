//! The step clock of the sequencer. The audio code turns samples into
//! ticks (24 per beat); the clock turns ticks into steps, with swing
//! delaying every odd step.

use vstd::prelude::*;

verus! {

/// Position of the sequencer within its pattern.
#[derive(Debug, Clone, Copy, PartialEq, Eq, Structural)]
pub struct SequencerClock {
    pub current_step: usize,
    pub tick_in_step: u64,
    /// Ticks in a step without swing (6: a sixteenth note at 24 ticks per beat).
    pub ticks_per_step: u64,
}

impl SequencerClock {
    pub fn new() -> (c: Self)
        ensures
            c == (SequencerClock { current_step: 0, tick_in_step: 0, ticks_per_step: 6 }),
    {
        SequencerClock { current_step: 0, tick_in_step: 0, ticks_per_step: 6 }
    }

    /// Ticks that step `step` lasts: odd steps are delayed by the swing.
    pub open spec fn spec_step_threshold(&self, step: usize, swing_ticks: u64) -> int {
        if step % 2 == 1 {
            self.ticks_per_step + swing_ticks
        } else {
            self.ticks_per_step as int
        }
    }

    pub fn step_threshold(&self, step: usize, swing_ticks: u64) -> (t: u64)
        requires
            self.ticks_per_step + swing_ticks <= u64::MAX,
        ensures
            t == self.spec_step_threshold(step, swing_ticks),
    {
        if step % 2 == 1 {
            self.ticks_per_step + swing_ticks
        } else {
            self.ticks_per_step
        }
    }

    /// Rewind to the first step.
    pub fn stop(&mut self)
        ensures
            final(self).current_step == 0,
            final(self).tick_in_step == 0,
            final(self).ticks_per_step == old(self).ticks_per_step,
    {
        self.current_step = 0;
        self.tick_in_step = 0;
    }

    /// One tick of the clock. When the current step has lasted its
    /// threshold, the clock moves to the next step of a `step_count`-step
    /// pattern (wrapping to the first) and returns it: that step fires.
    pub fn on_tick(&mut self, swing_ticks: u64, step_count: usize) -> (fired: Option<usize>)
        requires
            step_count > 0,
            old(self).current_step < usize::MAX,
            old(self).tick_in_step < u64::MAX,
            old(self).ticks_per_step + swing_ticks <= u64::MAX,
        ensures
            final(self).ticks_per_step == old(self).ticks_per_step,
            (old(self).tick_in_step + 1 >= old(self).spec_step_threshold(
                old(self).current_step,
                swing_ticks,
            )) ==> {
                &&& final(self).tick_in_step == 0
                &&& final(self).current_step == (old(self).current_step + 1) % (step_count as int)
                &&& fired == Some(final(self).current_step)
            },
            (old(self).tick_in_step + 1 < old(self).spec_step_threshold(
                old(self).current_step,
                swing_ticks,
            )) ==> {
                &&& final(self).tick_in_step == old(self).tick_in_step + 1
                &&& final(self).current_step == old(self).current_step
                &&& fired is None
            },
    {
        self.tick_in_step = self.tick_in_step + 1;
        if self.tick_in_step >= self.step_threshold(self.current_step, swing_ticks) {
            self.tick_in_step = 0;
            self.current_step = (self.current_step + 1) % step_count;
            Some(self.current_step)
        } else {
            None
        }
    }
}

/// The clock always rests on a step of the pattern after it fires, and a
/// stopped clock starts over from the first step.
pub proof fn lemma_fired_step_in_pattern(current: int, step_count: int)
    requires
        step_count > 0,
        current >= 0,
    ensures
        0 <= (current + 1) % step_count < step_count,
        current + 1 < step_count ==> (current + 1) % step_count == current + 1,
        current + 1 == step_count ==> (current + 1) % step_count == 0,
{
    if current + 1 < step_count {
        vstd::arithmetic::div_mod::lemma_small_mod((current + 1) as nat, step_count as nat);
    }
    if current + 1 == step_count {
        vstd::arithmetic::div_mod::lemma_mod_self_0(step_count);
    }
}

} // verus!
