//! Stages of the ADSR envelope and the moves between them.
//!
//! The level arithmetic of the envelope works on fractions of full scale and
//! lives with the audio code; the stage machine that it drives is here.

use vstd::prelude::*;

verus! {

/// ADSR envelope generator stage.
#[derive(Debug, Clone, Copy, PartialEq, Eq, Structural)]
pub enum EnvelopeStage {
    Idle,
    Attack,
    Decay,
    Sustain,
    Release,
}

impl EnvelopeStage {
    /// A key press starts the attack from whatever stage the envelope is in
    /// (the level is kept, which allows legato playing).
    pub fn note_on(self) -> (r: EnvelopeStage)
        ensures
            r == EnvelopeStage::Attack,
    {
        EnvelopeStage::Attack
    }

    /// The stage after a key release: a sounding envelope goes into its
    /// release, an idle one stays idle.
    pub open spec fn spec_note_off(self) -> EnvelopeStage {
        if self == EnvelopeStage::Idle {
            EnvelopeStage::Idle
        } else {
            EnvelopeStage::Release
        }
    }

    /// Whether the envelope is sounding.
    pub open spec fn spec_is_active(self) -> bool {
        self != EnvelopeStage::Idle
    }

    /// A key release moves a sounding envelope into its release.
    pub fn note_off(self) -> (r: EnvelopeStage)
        ensures
            r == self.spec_note_off(),
    {
        if self != EnvelopeStage::Idle {
            EnvelopeStage::Release
        } else {
            self
        }
    }

    pub fn is_active(self) -> (r: bool)
        ensures
            r == self.spec_is_active(),
    {
        self != EnvelopeStage::Idle
    }

    /// The stage after one sample. `reached` tells whether the level has
    /// reached the end of the current ramp in this sample: the peak during
    /// the attack, the sustain level during the decay, silence during the
    /// release. Idle and sustain hold.
    pub open spec fn spec_advance(self, reached: bool) -> EnvelopeStage {
        match self {
            EnvelopeStage::Attack => if reached {
                EnvelopeStage::Decay
            } else {
                EnvelopeStage::Attack
            },
            EnvelopeStage::Decay => if reached {
                EnvelopeStage::Sustain
            } else {
                EnvelopeStage::Decay
            },
            EnvelopeStage::Release => if reached {
                EnvelopeStage::Idle
            } else {
                EnvelopeStage::Release
            },
            _ => self,
        }
    }

    pub fn advance(self, reached: bool) -> (r: EnvelopeStage)
        ensures
            r == self.spec_advance(reached),
    {
        match self {
            EnvelopeStage::Attack => if reached {
                EnvelopeStage::Decay
            } else {
                EnvelopeStage::Attack
            },
            EnvelopeStage::Decay => if reached {
                EnvelopeStage::Sustain
            } else {
                EnvelopeStage::Decay
            },
            EnvelopeStage::Release => if reached {
                EnvelopeStage::Idle
            } else {
                EnvelopeStage::Release
            },
            _ => self,
        }
    }
}

/// Position of a stage along the envelope: attack, decay, sustain, then
/// release and idle.
pub open spec fn spec_stage_rank(s: EnvelopeStage) -> int {
    match s {
        EnvelopeStage::Attack => 0,
        EnvelopeStage::Decay => 1,
        EnvelopeStage::Sustain => 2,
        EnvelopeStage::Release => 3,
        EnvelopeStage::Idle => 4,
    }
}

/// Between key events the envelope only moves forward, one stage at a
/// time, and never leaves idle or sustain; a release always ends in idle.
pub proof fn lemma_advance_moves_forward(s: EnvelopeStage, reached: bool)
    ensures
        s.spec_advance(reached) == s || spec_stage_rank(s.spec_advance(reached)) == spec_stage_rank(s) + 1,
        s == EnvelopeStage::Idle ==> s.spec_advance(reached) == EnvelopeStage::Idle,
        s == EnvelopeStage::Sustain ==> s.spec_advance(reached) == EnvelopeStage::Sustain,
        s == EnvelopeStage::Release ==> (s.spec_advance(reached) == EnvelopeStage::Release
            || s.spec_advance(reached) == EnvelopeStage::Idle),
{
}

/// A key release never starts a sound: the envelope is active after it
/// exactly when it was active before, and a second release changes nothing.
pub proof fn lemma_note_off_keeps_silence(s: EnvelopeStage)
    ensures
        s.spec_note_off().spec_is_active() == s.spec_is_active(),
        s.spec_note_off().spec_note_off() == s.spec_note_off(),
{
}

/// A stage whose ramp has not reached its end stays where it is; when it has,
/// the attack gives way to the decay, the decay to the sustain and the
/// release to silence, while idle and sustain hold until a key event.
pub proof fn lemma_advance_waits_for_ramp(s: EnvelopeStage)
    ensures
        s.spec_advance(false) == s,
        EnvelopeStage::Attack.spec_advance(true) == EnvelopeStage::Decay,
        EnvelopeStage::Decay.spec_advance(true) == EnvelopeStage::Sustain,
        EnvelopeStage::Release.spec_advance(true) == EnvelopeStage::Idle,
        EnvelopeStage::Sustain.spec_advance(true) == EnvelopeStage::Sustain,
        EnvelopeStage::Idle.spec_advance(true) == EnvelopeStage::Idle,
{
}

/// A key press always starts the attack and a key release never starts a
/// sound: after a release the envelope is releasing or idle, idle exactly
/// when it was idle before.
pub proof fn lemma_key_events(s: EnvelopeStage)
    ensures
        s.spec_note_off() == EnvelopeStage::Release || s.spec_note_off() == EnvelopeStage::Idle,
        (s.spec_note_off() == EnvelopeStage::Idle) == (s == EnvelopeStage::Idle),
        s.spec_is_active() == (s != EnvelopeStage::Idle),
{
}

} // verus!
