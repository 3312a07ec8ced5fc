//! Settings of the distortion and filter effects that take one of a few
//! named values.

use vstd::prelude::*;

verus! {

/// Shape of the distortion effect's transfer curve.
#[derive(Debug, Clone, Copy, PartialEq, Eq, Structural)]
pub enum DistortionType {
    HardClip,
    SoftClip,
    Foldback,
    Waveshape,
}

impl DistortionType {
    /// Number of the type as the "type" parameter shows it.
    pub open spec fn spec_index(self) -> u8 {
        match self {
            DistortionType::HardClip => 0,
            DistortionType::SoftClip => 1,
            DistortionType::Foldback => 2,
            DistortionType::Waveshape => 3,
        }
    }

    /// The type a "type" parameter value selects; anything past 3 selects
    /// soft clipping.
    pub open spec fn spec_from_index(i: u8) -> DistortionType {
        if i == 0 {
            DistortionType::HardClip
        } else if i == 2 {
            DistortionType::Foldback
        } else if i == 3 {
            DistortionType::Waveshape
        } else {
            DistortionType::SoftClip
        }
    }

    pub fn index(self) -> (r: u8)
        ensures
            r == self.spec_index(),
    {
        match self {
            DistortionType::HardClip => 0,
            DistortionType::SoftClip => 1,
            DistortionType::Foldback => 2,
            DistortionType::Waveshape => 3,
        }
    }

    pub fn from_index(i: u8) -> (r: DistortionType)
        ensures
            r == Self::spec_from_index(i),
    {
        match i {
            0 => DistortionType::HardClip,
            1 => DistortionType::SoftClip,
            2 => DistortionType::Foldback,
            3 => DistortionType::Waveshape,
            _ => DistortionType::SoftClip,
        }
    }
}

/// Reading the "type" parameter back and setting it gives the same type.
pub proof fn lemma_distortion_index_round_trip(t: DistortionType)
    ensures
        DistortionType::spec_from_index(t.spec_index()) == t,
        t.spec_index() <= 3,
{
}

/// Response of the biquad filter.
#[derive(Debug, Clone, Copy, PartialEq, Eq, Structural)]
pub enum FilterMode {
    Lowpass,
    Highpass,
    Bandpass,
}

impl FilterMode {
    pub open spec fn spec_name(self) -> Seq<char> {
        match self {
            FilterMode::Lowpass => "Lowpass"@,
            FilterMode::Highpass => "Highpass"@,
            FilterMode::Bandpass => "Bandpass"@,
        }
    }

    /// Display name of a filter of this mode.
    pub fn name(self) -> (r: &'static str)
        ensures
            r@ == self.spec_name(),
    {
        match self {
            FilterMode::Lowpass => "Lowpass",
            FilterMode::Highpass => "Highpass",
            FilterMode::Bandpass => "Bandpass",
        }
    }
}

} // verus!
