//! The oscillator and effect kinds that voices and effect groups are built from.

use vstd::prelude::*;

verus! {

/// Waveform of a voice's oscillator: four basic shapes and, for each, three
/// additive variants with 2, 3 or 4 harmonics.
#[derive(Debug, Clone, Copy, PartialEq, Eq, Structural)]
pub enum OscillatorType {
    Sine,
    Triangle,
    Square,
    Sawtooth,
    Sine2,
    Sine3,
    Sine4,
    Triangle2,
    Triangle3,
    Triangle4,
    Square2,
    Square3,
    Square4,
    Sawtooth2,
    Sawtooth3,
    Sawtooth4,
}

impl OscillatorType {
    /// Display name of the oscillator type.
    pub open spec fn spec_name(self) -> Seq<char> {
        match self {
            OscillatorType::Sine => "Sine"@,
            OscillatorType::Triangle => "Triangle"@,
            OscillatorType::Square => "Square"@,
            OscillatorType::Sawtooth => "Sawtooth"@,
            OscillatorType::Sine2 => "Sine2"@,
            OscillatorType::Sine3 => "Sine3"@,
            OscillatorType::Sine4 => "Sine4"@,
            OscillatorType::Triangle2 => "Triangle2"@,
            OscillatorType::Triangle3 => "Triangle3"@,
            OscillatorType::Triangle4 => "Triangle4"@,
            OscillatorType::Square2 => "Square2"@,
            OscillatorType::Square3 => "Square3"@,
            OscillatorType::Square4 => "Square4"@,
            OscillatorType::Sawtooth2 => "Sawtooth2"@,
            OscillatorType::Sawtooth3 => "Sawtooth3"@,
            OscillatorType::Sawtooth4 => "Sawtooth4"@,
        }
    }

    /// Position of the type in the list that `all` returns.
    pub open spec fn spec_index(self) -> int {
        match self {
            OscillatorType::Sine => 0,
            OscillatorType::Triangle => 1,
            OscillatorType::Square => 2,
            OscillatorType::Sawtooth => 3,
            OscillatorType::Sine2 => 4,
            OscillatorType::Sine3 => 5,
            OscillatorType::Sine4 => 6,
            OscillatorType::Triangle2 => 7,
            OscillatorType::Triangle3 => 8,
            OscillatorType::Triangle4 => 9,
            OscillatorType::Square2 => 10,
            OscillatorType::Square3 => 11,
            OscillatorType::Square4 => 12,
            OscillatorType::Sawtooth2 => 13,
            OscillatorType::Sawtooth3 => 14,
            OscillatorType::Sawtooth4 => 15,
        }
    }

    pub fn name(&self) -> (r: &'static str)
        ensures
            r@ == self.spec_name(),
    {
        match self {
            OscillatorType::Sine => "Sine",
            OscillatorType::Triangle => "Triangle",
            OscillatorType::Square => "Square",
            OscillatorType::Sawtooth => "Sawtooth",
            OscillatorType::Sine2 => "Sine2",
            OscillatorType::Sine3 => "Sine3",
            OscillatorType::Sine4 => "Sine4",
            OscillatorType::Triangle2 => "Triangle2",
            OscillatorType::Triangle3 => "Triangle3",
            OscillatorType::Triangle4 => "Triangle4",
            OscillatorType::Square2 => "Square2",
            OscillatorType::Square3 => "Square3",
            OscillatorType::Square4 => "Square4",
            OscillatorType::Sawtooth2 => "Sawtooth2",
            OscillatorType::Sawtooth3 => "Sawtooth3",
            OscillatorType::Sawtooth4 => "Sawtooth4",
        }
    }

    /// Every oscillator type, each once, in the order of `spec_index`.
    pub fn all() -> (r: &'static [OscillatorType])
        ensures
            r@.len() == 16,
            forall|i: int| 0 <= i < 16 ==> (#[trigger] r@[i]).spec_index() == i,
    {
        &[
            OscillatorType::Sine,
            OscillatorType::Triangle,
            OscillatorType::Square,
            OscillatorType::Sawtooth,
            OscillatorType::Sine2,
            OscillatorType::Sine3,
            OscillatorType::Sine4,
            OscillatorType::Triangle2,
            OscillatorType::Triangle3,
            OscillatorType::Triangle4,
            OscillatorType::Square2,
            OscillatorType::Square3,
            OscillatorType::Square4,
            OscillatorType::Sawtooth2,
            OscillatorType::Sawtooth3,
            OscillatorType::Sawtooth4,
        ]
    }
}

/// Kind of effect that an effect group can hold.
#[derive(Debug, Clone, Copy, PartialEq, Eq, Structural)]
pub enum EffectType {
    Gain,
    Bitcrusher,
    Distortion,
    Limiter,
    Delay,
    Reverb,
    Tremolo,
    Chorus,
    Phaser,
    Vibrato,
    Lowpass,
    Highpass,
    Bandpass,
    Eq3,
    Compressor,
    WhiteNoise,
}

impl EffectType {
    /// Display name of the effect type.
    pub open spec fn spec_name(self) -> Seq<char> {
        match self {
            EffectType::Gain => "Gain"@,
            EffectType::Bitcrusher => "Bitcrusher"@,
            EffectType::Distortion => "Distortion"@,
            EffectType::Limiter => "Limiter"@,
            EffectType::Delay => "Delay"@,
            EffectType::Reverb => "Reverb"@,
            EffectType::Tremolo => "Tremolo"@,
            EffectType::Chorus => "Chorus"@,
            EffectType::Phaser => "Phaser"@,
            EffectType::Vibrato => "Vibrato"@,
            EffectType::Lowpass => "Lowpass"@,
            EffectType::Highpass => "Highpass"@,
            EffectType::Bandpass => "Bandpass"@,
            EffectType::Eq3 => "EQ3"@,
            EffectType::Compressor => "Compressor"@,
            EffectType::WhiteNoise => "WhiteNoise"@,
        }
    }

    /// Position of the type in the effect picker's list.
    pub open spec fn spec_index(self) -> int {
        match self {
            EffectType::Gain => 0,
            EffectType::Bitcrusher => 1,
            EffectType::Distortion => 2,
            EffectType::Limiter => 3,
            EffectType::Delay => 4,
            EffectType::Reverb => 5,
            EffectType::Tremolo => 6,
            EffectType::Chorus => 7,
            EffectType::Phaser => 8,
            EffectType::Vibrato => 9,
            EffectType::Lowpass => 10,
            EffectType::Highpass => 11,
            EffectType::Bandpass => 12,
            EffectType::Eq3 => 13,
            EffectType::Compressor => 14,
            EffectType::WhiteNoise => 15,
        }
    }

    pub fn name(&self) -> (r: &'static str)
        ensures
            r@ == self.spec_name(),
    {
        match self {
            EffectType::Gain => "Gain",
            EffectType::Bitcrusher => "Bitcrusher",
            EffectType::Distortion => "Distortion",
            EffectType::Limiter => "Limiter",
            EffectType::Delay => "Delay",
            EffectType::Reverb => "Reverb",
            EffectType::Tremolo => "Tremolo",
            EffectType::Chorus => "Chorus",
            EffectType::Phaser => "Phaser",
            EffectType::Vibrato => "Vibrato",
            EffectType::Lowpass => "Lowpass",
            EffectType::Highpass => "Highpass",
            EffectType::Bandpass => "Bandpass",
            EffectType::Eq3 => "EQ3",
            EffectType::Compressor => "Compressor",
            EffectType::WhiteNoise => "WhiteNoise",
        }
    }
}

/// Different oscillator types have different positions, so the list that
/// `all` returns holds every type exactly once.
pub proof fn lemma_oscillator_index_one_to_one(a: OscillatorType, b: OscillatorType)
    ensures
        0 <= a.spec_index() < 16,
        a.spec_index() == b.spec_index() ==> a == b,
{
}

/// Different effect types have different positions in the effect picker.
pub proof fn lemma_effect_index_one_to_one(a: EffectType, b: EffectType)
    ensures
        0 <= a.spec_index() < 16,
        a.spec_index() == b.spec_index() ==> a == b,
{
}

} // verus!
