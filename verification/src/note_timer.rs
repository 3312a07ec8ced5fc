//! How long a voice's note is held: a note that arrives with a length is
//! released automatically once that many samples have been produced.

use vstd::prelude::*;

verus! {

#[derive(Debug, Clone, Copy, PartialEq, Eq, Structural)]
pub struct NoteTimer {
    /// Whether a note is held.
    pub active: bool,
    /// Remaining samples before auto-release; 0 holds the note until the
    /// envelope ends it.
    pub length_remaining: u64,
}

impl NoteTimer {
    pub fn new() -> (g: Self)
        ensures
            g == (NoteTimer { active: false, length_remaining: 0 }),
    {
        NoteTimer { active: false, length_remaining: 0 }
    }

    /// Hold a new note for `length_samples` samples.
    pub fn start(&mut self, length_samples: u64)
        ensures
            *final(self) == (NoteTimer { active: true, length_remaining: length_samples }),
    {
        self.active = true;
        self.length_remaining = length_samples;
    }

    /// The timer after one sample, and whether the note is released at it.
    pub open spec fn spec_tick(self) -> (NoteTimer, bool) {
        if self.active && self.length_remaining > 0 {
            let rem = (self.length_remaining - 1) as u64;
            (NoteTimer { active: rem != 0, length_remaining: rem }, rem == 0)
        } else {
            (self, false)
        }
    }

    /// Count one sample of a held note; returns true when this sample
    /// releases it.
    pub fn tick(&mut self) -> (release: bool)
        ensures
            (*final(self), release) == old(self).spec_tick(),
    {
        if self.active && self.length_remaining > 0 {
            self.length_remaining = self.length_remaining - 1;
            if self.length_remaining == 0 {
                self.active = false;
                return true;
            }
        }
        false
    }
}

/// The timer after `k` samples.
pub open spec fn spec_ticks(g: NoteTimer, k: nat) -> NoteTimer
    decreases k,
{
    if k == 0 {
        g
    } else {
        spec_ticks(g, (k - 1) as nat).spec_tick().0
    }
}

/// A note started with a length of `n` samples is held through the first
/// `n - 1` samples and released by the `n`-th, exactly once.
pub proof fn lemma_released_after_length(n: u64, k: nat)
    requires
        n > 0,
    ensures
        k < n ==> ({
            let g = spec_ticks(NoteTimer { active: true, length_remaining: n }, k);
            g.active && g.length_remaining == n - k
        }),
        k < n ==> !(spec_ticks(NoteTimer { active: true, length_remaining: n }, k).spec_tick().1
            && k + 1 < n),
        k + 1 == n ==> spec_ticks(NoteTimer { active: true, length_remaining: n }, k).spec_tick().1,
        k >= n ==> !spec_ticks(NoteTimer { active: true, length_remaining: n }, k).active,
    decreases k,
{
    if k > 0 {
        lemma_released_after_length(n, (k - 1) as nat);
    }
}

} // verus!
