use rustsynth::messages::{EffectType, OscillatorType};
use rustsynth::preset::{EffectPreset, GroupPreset, Preset, PresetCommand, VoicePreset};

fn voice(osc_type: OscillatorType, note: u8) -> VoicePreset<f32> {
    VoicePreset {
        osc_type,
        attack: 0.01,
        decay: 0.1,
        sustain: 0.7,
        release: 0.3,
        default_midi_note: note,
        default_velocity: 0.8,
    }
}

#[test]
fn preset_commands_in_order() {
    let preset = Preset {
        voices: vec![voice(OscillatorType::Sine, 60), voice(OscillatorType::Square3, 48)],
        groups: vec![
            GroupPreset {
                enabled: true,
                effects: vec![
                    EffectPreset {
                        effect_type: EffectType::Delay,
                        params: vec![("time".to_string(), 0.25), ("feedback".to_string(), 0.5)],
                    },
                    EffectPreset { effect_type: EffectType::Gain, params: vec![] },
                ],
            },
            GroupPreset { enabled: false, effects: vec![] },
        ],
        routing: vec![[1.0, 0.5, 0.0, 0.25]],
    };
    let cmds = preset.to_commands();
    let expected: Vec<PresetCommand<f32>> = vec![
        PresetCommand::SetOscillator { voice: 0, osc_type: OscillatorType::Sine },
        PresetCommand::SetDefaultNote { voice: 0, midi_note: 60 },
        PresetCommand::SetDefaultVelocity { voice: 0, velocity: 0.8 },
        PresetCommand::SetEnvelope { voice: 0, attack: 0.01, decay: 0.1, sustain: 0.7, release: 0.3 },
        PresetCommand::SetOscillator { voice: 1, osc_type: OscillatorType::Square3 },
        PresetCommand::SetDefaultNote { voice: 1, midi_note: 48 },
        PresetCommand::SetDefaultVelocity { voice: 1, velocity: 0.8 },
        PresetCommand::SetEnvelope { voice: 1, attack: 0.01, decay: 0.1, sustain: 0.7, release: 0.3 },
        PresetCommand::ClearGroup { group: 0 },
        PresetCommand::EnableGroup { group: 0, enabled: true },
        PresetCommand::AddEffect { group: 0, effect_type: EffectType::Delay, position: 0 },
        PresetCommand::SetEffectParam { group: 0, effect_idx: 0, param: "time".to_string(), value: 0.25 },
        PresetCommand::SetEffectParam { group: 0, effect_idx: 0, param: "feedback".to_string(), value: 0.5 },
        PresetCommand::AddEffect { group: 0, effect_type: EffectType::Gain, position: 1 },
        PresetCommand::ClearGroup { group: 1 },
        PresetCommand::EnableGroup { group: 1, enabled: false },
        PresetCommand::SetSendLevel { voice: 0, group: 0, level: 1.0 },
        PresetCommand::SetSendLevel { voice: 0, group: 1, level: 0.5 },
        PresetCommand::SetSendLevel { voice: 0, group: 2, level: 0.0 },
        PresetCommand::SetSendLevel { voice: 0, group: 3, level: 0.25 },
    ];
    assert_eq!(cmds, expected);
}

#[test]
fn empty_preset_has_no_commands() {
    let preset: Preset<f32> = Preset { voices: vec![], groups: vec![], routing: vec![] };
    assert!(preset.to_commands().is_empty());
}

#[test]
fn preset_with_sixteen_voices_sets_each_voice() {
    let voices: Vec<VoicePreset<f32>> = (0..16u8).map(|i| voice(OscillatorType::Triangle, 40 + i)).collect();
    let routing = vec![[0.0f32; 4]; 16];
    let preset = Preset { voices, groups: vec![], routing };
    let cmds = preset.to_commands();
    assert_eq!(cmds.len(), 16 * 4 + 16 * 4);
    for i in 0..16usize {
        assert_eq!(cmds[4 * i], PresetCommand::SetOscillator { voice: i, osc_type: OscillatorType::Triangle });
        assert_eq!(cmds[4 * i + 1], PresetCommand::SetDefaultNote { voice: i, midi_note: 40 + i as u8 });
        for g in 0..4usize {
            assert_eq!(cmds[64 + 4 * i + g], PresetCommand::SetSendLevel { voice: i, group: g, level: 0.0 });
        }
    }
}
