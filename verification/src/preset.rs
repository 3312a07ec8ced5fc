//! Presets: a saved configuration of the voices, the effect groups and the
//! routing matrix, and the list of configuration commands that restores it.
//!
//! The values that are fractions or times (velocities, envelope settings,
//! effect parameters, send levels) have the type `F`; the commands carry
//! them over unchanged.

use vstd::prelude::*;

use crate::messages::{EffectType, OscillatorType};

verus! {

/// The saved settings of one voice.
pub struct VoicePreset<F> {
    pub osc_type: OscillatorType,
    pub attack: F,
    pub decay: F,
    pub sustain: F,
    pub release: F,
    pub default_midi_note: u8,
    pub default_velocity: F,
}

/// One effect of a group: its kind and its parameters by name, in order.
pub struct EffectPreset<F> {
    pub effect_type: EffectType,
    pub params: Vec<(String, F)>,
}

/// One effect group: whether it is on, and its chain of effects in order.
pub struct GroupPreset<F> {
    pub enabled: bool,
    pub effects: Vec<EffectPreset<F>>,
}

/// A whole configuration: the voices, the groups, and for each voice its
/// send levels to the four groups.
pub struct Preset<F> {
    pub voices: Vec<VoicePreset<F>>,
    pub groups: Vec<GroupPreset<F>>,
    pub routing: Vec<[F; 4]>,
}

/// A configuration change that restoring a preset asks of the synth.
#[derive(Debug, Clone, PartialEq)]
pub enum PresetCommand<F> {
    SetOscillator { voice: usize, osc_type: OscillatorType },
    SetDefaultNote { voice: usize, midi_note: u8 },
    SetDefaultVelocity { voice: usize, velocity: F },
    SetEnvelope { voice: usize, attack: F, decay: F, sustain: F, release: F },
    /// Remove every effect of the group.
    ClearGroup { group: usize },
    EnableGroup { group: usize, enabled: bool },
    AddEffect { group: usize, effect_type: EffectType, position: usize },
    SetEffectParam { group: usize, effect_idx: usize, param: String, value: F },
    SetSendLevel { voice: usize, group: usize, level: F },
}

// ---------------------------------------------------------------------------
// The commands of a preset

/// Voice `i` gets its oscillator, its default note and velocity, then its
/// envelope.
pub open spec fn spec_voice_commands<F>(i: int, v: VoicePreset<F>) -> Seq<PresetCommand<F>> {
    seq![
        PresetCommand::SetOscillator { voice: i as usize, osc_type: v.osc_type },
        PresetCommand::SetDefaultNote { voice: i as usize, midi_note: v.default_midi_note },
        PresetCommand::SetDefaultVelocity { voice: i as usize, velocity: v.default_velocity },
        PresetCommand::SetEnvelope {
            voice: i as usize,
            attack: v.attack,
            decay: v.decay,
            sustain: v.sustain,
            release: v.release,
        },
    ]
}

/// The commands of the voices, voice by voice in order.
pub open spec fn spec_voices_commands<F>(vs: Seq<VoicePreset<F>>) -> Seq<PresetCommand<F>>
    decreases vs.len(),
{
    if vs.len() == 0 {
        seq![]
    } else {
        spec_voices_commands(vs.drop_last()) + spec_voice_commands(vs.len() - 1, vs.last())
    }
}

/// One command per parameter of the effect at `pos` in group `g`, in order.
pub open spec fn spec_params_commands<F>(g: int, pos: int, ps: Seq<(String, F)>) -> Seq<
    PresetCommand<F>,
>
    decreases ps.len(),
{
    if ps.len() == 0 {
        seq![]
    } else {
        spec_params_commands(g, pos, ps.drop_last()).push(
            PresetCommand::SetEffectParam {
                group: g as usize,
                effect_idx: pos as usize,
                param: ps.last().0,
                value: ps.last().1,
            },
        )
    }
}

/// The effect at `pos` of group `g` is added there, then its parameters set.
pub open spec fn spec_effect_commands<F>(g: int, pos: int, e: EffectPreset<F>) -> Seq<
    PresetCommand<F>,
> {
    seq![
        PresetCommand::AddEffect {
            group: g as usize,
            effect_type: e.effect_type,
            position: pos as usize,
        },
    ] + spec_params_commands(g, pos, e.params@)
}

/// The commands of the effects of group `g`, effect by effect in order.
pub open spec fn spec_effects_commands<F>(g: int, es: Seq<EffectPreset<F>>) -> Seq<
    PresetCommand<F>,
>
    decreases es.len(),
{
    if es.len() == 0 {
        seq![]
    } else {
        spec_effects_commands(g, es.drop_last()) + spec_effect_commands(
            g,
            es.len() - 1,
            es.last(),
        )
    }
}

/// Group `g` is emptied, switched on or off, then its effects rebuilt.
pub open spec fn spec_group_commands<F>(g: int, grp: GroupPreset<F>) -> Seq<PresetCommand<F>> {
    seq![
        PresetCommand::ClearGroup { group: g as usize },
        PresetCommand::EnableGroup { group: g as usize, enabled: grp.enabled },
    ] + spec_effects_commands(g, grp.effects@)
}

/// The commands of the groups, group by group in order.
pub open spec fn spec_groups_commands<F>(gs: Seq<GroupPreset<F>>) -> Seq<PresetCommand<F>>
    decreases gs.len(),
{
    if gs.len() == 0 {
        seq![]
    } else {
        spec_groups_commands(gs.drop_last()) + spec_group_commands(gs.len() - 1, gs.last())
    }
}

/// Voice `v`'s send levels to groups 0-3, in order.
pub open spec fn spec_row_commands<F>(v: int, row: [F; 4]) -> Seq<PresetCommand<F>> {
    seq![
        PresetCommand::SetSendLevel { voice: v as usize, group: 0, level: row@[0] },
        PresetCommand::SetSendLevel { voice: v as usize, group: 1, level: row@[1] },
        PresetCommand::SetSendLevel { voice: v as usize, group: 2, level: row@[2] },
        PresetCommand::SetSendLevel { voice: v as usize, group: 3, level: row@[3] },
    ]
}

/// The send levels of the routing matrix, voice by voice in order.
pub open spec fn spec_routing_commands<F>(rows: Seq<[F; 4]>) -> Seq<PresetCommand<F>>
    decreases rows.len(),
{
    if rows.len() == 0 {
        seq![]
    } else {
        spec_routing_commands(rows.drop_last()) + spec_row_commands(rows.len() - 1, rows.last())
    }
}

/// All commands of a preset: first the voices, then the groups, then the
/// routing matrix.
pub open spec fn spec_commands<F>(p: Preset<F>) -> Seq<PresetCommand<F>> {
    spec_voices_commands(p.voices@) + spec_groups_commands(p.groups@) + spec_routing_commands(
        p.routing@,
    )
}

// ---------------------------------------------------------------------------
// Building the commands

fn push_voices<F: Copy>(cmds: &mut Vec<PresetCommand<F>>, voices: &Vec<VoicePreset<F>>)
    ensures
        final(cmds)@ == old(cmds)@ + spec_voices_commands(voices@),
{
    let ghost start = cmds@;
    let mut i: usize = 0;
    assert(voices@.take(0) =~= Seq::<VoicePreset<F>>::empty());
    assert(start + spec_voices_commands(voices@.take(0)) =~= start);
    while i < voices.len()
        invariant
            i <= voices@.len(),
            cmds@ == start + spec_voices_commands(voices@.take(i as int)),
        decreases voices@.len() - i,
    {
        let v = &voices[i];
        let ghost before = cmds@;
        cmds.push(PresetCommand::SetOscillator { voice: i, osc_type: v.osc_type });
        cmds.push(PresetCommand::SetDefaultNote { voice: i, midi_note: v.default_midi_note });
        cmds.push(PresetCommand::SetDefaultVelocity { voice: i, velocity: v.default_velocity });
        cmds.push(
            PresetCommand::SetEnvelope {
                voice: i,
                attack: v.attack,
                decay: v.decay,
                sustain: v.sustain,
                release: v.release,
            },
        );
        assert(voices@.take(i + 1).drop_last() =~= voices@.take(i as int));
        assert(cmds@ =~= before + spec_voice_commands(i as int, voices@[i as int]));
        i = i + 1;
    }
    assert(voices@.take(i as int) =~= voices@);
}

fn push_params<F: Copy>(cmds: &mut Vec<PresetCommand<F>>, g: usize, pos: usize, params: &Vec<(String, F)>)
    ensures
        final(cmds)@ == old(cmds)@ + spec_params_commands(g as int, pos as int, params@),
{
    let ghost start = cmds@;
    let mut k: usize = 0;
    assert(params@.take(0) =~= Seq::<(String, F)>::empty());
    assert(start + spec_params_commands(g as int, pos as int, params@.take(0)) =~= start);
    while k < params.len()
        invariant
            k <= params@.len(),
            cmds@ == start + spec_params_commands(g as int, pos as int, params@.take(k as int)),
        decreases params@.len() - k,
    {
        let entry = &params[k];
        let ghost before = cmds@;
        cmds.push(
            PresetCommand::SetEffectParam {
                group: g,
                effect_idx: pos,
                param: entry.0.clone(),
                value: entry.1,
            },
        );
        assert(params@.take(k + 1).drop_last() =~= params@.take(k as int));
        assert(cmds@ =~= start + spec_params_commands(g as int, pos as int, params@.take(k + 1)));
        k = k + 1;
    }
    assert(params@.take(k as int) =~= params@);
}

fn push_effects<F: Copy>(cmds: &mut Vec<PresetCommand<F>>, g: usize, effects: &Vec<EffectPreset<F>>)
    ensures
        final(cmds)@ == old(cmds)@ + spec_effects_commands(g as int, effects@),
{
    let ghost start = cmds@;
    let mut pos: usize = 0;
    assert(effects@.take(0) =~= Seq::<EffectPreset<F>>::empty());
    assert(start + spec_effects_commands(g as int, effects@.take(0)) =~= start);
    while pos < effects.len()
        invariant
            pos <= effects@.len(),
            cmds@ == start + spec_effects_commands(g as int, effects@.take(pos as int)),
        decreases effects@.len() - pos,
    {
        let effect = &effects[pos];
        let ghost before = cmds@;
        cmds.push(PresetCommand::AddEffect { group: g, effect_type: effect.effect_type, position: pos });
        push_params(cmds, g, pos, &effect.params);
        assert(effects@.take(pos + 1).drop_last() =~= effects@.take(pos as int));
        assert(cmds@ =~= before + spec_effect_commands(g as int, pos as int, effects@[pos as int]));
        pos = pos + 1;
    }
    assert(effects@.take(pos as int) =~= effects@);
}

fn push_groups<F: Copy>(cmds: &mut Vec<PresetCommand<F>>, groups: &Vec<GroupPreset<F>>)
    ensures
        final(cmds)@ == old(cmds)@ + spec_groups_commands(groups@),
{
    let ghost start = cmds@;
    let mut g: usize = 0;
    assert(groups@.take(0) =~= Seq::<GroupPreset<F>>::empty());
    assert(start + spec_groups_commands(groups@.take(0)) =~= start);
    while g < groups.len()
        invariant
            g <= groups@.len(),
            cmds@ == start + spec_groups_commands(groups@.take(g as int)),
        decreases groups@.len() - g,
    {
        let group = &groups[g];
        let ghost before = cmds@;
        cmds.push(PresetCommand::ClearGroup { group: g });
        cmds.push(PresetCommand::EnableGroup { group: g, enabled: group.enabled });
        push_effects(cmds, g, &group.effects);
        assert(groups@.take(g + 1).drop_last() =~= groups@.take(g as int));
        assert(cmds@ =~= before + spec_group_commands(g as int, groups@[g as int]));
        g = g + 1;
    }
    assert(groups@.take(g as int) =~= groups@);
}

fn push_routing<F: Copy>(cmds: &mut Vec<PresetCommand<F>>, routing: &Vec<[F; 4]>)
    ensures
        final(cmds)@ == old(cmds)@ + spec_routing_commands(routing@),
{
    let ghost start = cmds@;
    let mut v: usize = 0;
    assert(routing@.take(0) =~= Seq::<[F; 4]>::empty());
    assert(start + spec_routing_commands(routing@.take(0)) =~= start);
    while v < routing.len()
        invariant
            v <= routing@.len(),
            cmds@ == start + spec_routing_commands(routing@.take(v as int)),
        decreases routing@.len() - v,
    {
        let row: [F; 4] = routing[v];
        let ghost before = cmds@;
        let mut grp: usize = 0;
        while grp < 4
            invariant
                grp <= 4,
                row == routing@[v as int],
                cmds@ == before + spec_row_commands(v as int, row).take(grp as int),
            decreases 4 - grp,
        {
            cmds.push(PresetCommand::SetSendLevel { voice: v, group: grp, level: row[grp] });
            assert(cmds@ =~= before + spec_row_commands(v as int, row).take(grp + 1));
            grp = grp + 1;
        }
        assert(spec_row_commands(v as int, row).take(4) =~= spec_row_commands(v as int, row));
        assert(routing@.take(v + 1).drop_last() =~= routing@.take(v as int));
        assert(cmds@ =~= start + spec_routing_commands(routing@.take(v + 1)));
        v = v + 1;
    }
    assert(routing@.take(v as int) =~= routing@);
}

impl<F: Copy> Preset<F> {
    /// The configuration commands that restore this preset, in the order
    /// `spec_commands` gives: voices, then groups, then the routing matrix.
    pub fn to_commands(&self) -> (cmds: Vec<PresetCommand<F>>)
        ensures
            cmds@ == spec_commands(*self),
    {
        let mut cmds: Vec<PresetCommand<F>> = Vec::new();
        push_voices(&mut cmds, &self.voices);
        push_groups(&mut cmds, &self.groups);
        push_routing(&mut cmds, &self.routing);
        assert(cmds@ =~= spec_commands(*self));
        cmds
    }
}

// ---------------------------------------------------------------------------
// Laws

/// The commands of one effect: first it is added at its position `pos` of
/// group `g`, then each of its parameters, in order, is set on that same
/// effect (`effect_idx == pos`) with the parameter's own name and value.
pub proof fn lemma_effect_commands<F>(g: int, pos: int, e: EffectPreset<F>)
    requires
        0 <= g,
        0 <= pos,
    ensures
        spec_effect_commands(g, pos, e).len() == e.params@.len() + 1,
        spec_effect_commands(g, pos, e)[0] == (PresetCommand::<F>::AddEffect {
            group: g as usize,
            effect_type: e.effect_type,
            position: pos as usize,
        }),
        forall|k: int|
            0 <= k < e.params@.len() ==> #[trigger] spec_effect_commands(g, pos, e)[k + 1] == (
            PresetCommand::SetEffectParam {
                group: g as usize,
                effect_idx: pos as usize,
                param: e.params@[k].0,
                value: e.params@[k].1,
            }),
{
    lemma_params_commands(g, pos, e.params@);
}

proof fn lemma_params_commands<F>(g: int, pos: int, ps: Seq<(String, F)>)
    ensures
        spec_params_commands(g, pos, ps).len() == ps.len(),
        forall|k: int|
            0 <= k < ps.len() ==> #[trigger] spec_params_commands(g, pos, ps)[k] == (
            PresetCommand::<F>::SetEffectParam {
                group: g as usize,
                effect_idx: pos as usize,
                param: ps[k].0,
                value: ps[k].1,
            }),
    decreases ps.len(),
{
    if ps.len() > 0 {
        lemma_params_commands(g, pos, ps.drop_last());
    }
}

/// Adding one more effect `e` to a group's chain adds, after the commands of
/// the effects before it, the command that adds `e` at the next position and
/// one command per parameter of `e` that targets that position.
pub proof fn lemma_effects_push<F>(g: int, es: Seq<EffectPreset<F>>, e: EffectPreset<F>)
    requires
        0 <= g,
    ensures
        ({
            let cmds = spec_effects_commands(g, es.push(e));
            let before = spec_effects_commands(g, es);
            let n: int = before.len() as int;
            &&& cmds.len() == n + 1 + e.params@.len()
            &&& cmds.subrange(0, n) == before
            &&& cmds[n] == (PresetCommand::<F>::AddEffect {
                group: g as usize,
                effect_type: e.effect_type,
                position: es.len() as usize,
            })
            &&& forall|k: int|
                0 <= k < e.params@.len() ==> #[trigger] cmds[n + 1 + k] == (
                PresetCommand::<F>::SetEffectParam {
                    group: g as usize,
                    effect_idx: es.len() as usize,
                    param: e.params@[k].0,
                    value: e.params@[k].1,
                })
        }),
{
    let es2 = es.push(e);
    assert(es2.drop_last() =~= es);
    lemma_effect_commands(g, es.len() as int, e);
    let cmds = spec_effects_commands(g, es2);
    let before = spec_effects_commands(g, es);
    let tail = spec_effect_commands(g, es.len() as int, e);
    assert(cmds == before + tail);
    assert(cmds.subrange(0, before.len() as int) =~= before);
    assert forall|k: int| 0 <= k < e.params@.len() implies #[trigger] cmds[before.len() + 1 + k] == tail[k + 1] by {}
}

/// Each voice `i` gets, in order, its oscillator, its default note, its
/// default velocity and its envelope, all addressed to voice `i`; the voices
/// come one after another, four commands each.
pub proof fn lemma_voices_commands<F>(vs: Seq<VoicePreset<F>>)
    ensures
        spec_voices_commands(vs).len() == 4 * vs.len(),
        forall|i: int|
            0 <= i < vs.len() ==> {
                &&& #[trigger] spec_voices_commands(vs)[4 * i] == (PresetCommand::<F>::SetOscillator {
                    voice: i as usize,
                    osc_type: vs[i].osc_type,
                })
                &&& spec_voices_commands(vs)[4 * i + 1] == (PresetCommand::<F>::SetDefaultNote {
                    voice: i as usize,
                    midi_note: vs[i].default_midi_note,
                })
                &&& spec_voices_commands(vs)[4 * i + 2] == (PresetCommand::<F>::SetDefaultVelocity {
                    voice: i as usize,
                    velocity: vs[i].default_velocity,
                })
                &&& spec_voices_commands(vs)[4 * i + 3] == (PresetCommand::<F>::SetEnvelope {
                    voice: i as usize,
                    attack: vs[i].attack,
                    decay: vs[i].decay,
                    sustain: vs[i].sustain,
                    release: vs[i].release,
                })
            },
    decreases vs.len(),
{
    if vs.len() > 0 {
        let prev = vs.drop_last();
        lemma_voices_commands(prev);
        assert forall|i: int| 0 <= i < prev.len() implies vs[i] == prev[i] by {}
    }
}

/// Voice `v`'s four send levels are set, group 0 to 3 in order, from the
/// routing row of voice `v`; the rows come one after another.
pub proof fn lemma_routing_commands<F>(rows: Seq<[F; 4]>)
    ensures
        spec_routing_commands(rows).len() == 4 * rows.len(),
        forall|v: int, g: int|
            0 <= v < rows.len() && 0 <= g < 4 ==> #[trigger] spec_routing_commands(rows)[4 * v + g]
                == (PresetCommand::<F>::SetSendLevel {
                voice: v as usize,
                group: g as usize,
                level: rows[v]@[g],
            }),
    decreases rows.len(),
{
    if rows.len() > 0 {
        let prev = rows.drop_last();
        lemma_routing_commands(prev);
        assert forall|v: int, g: int| 0 <= v < rows.len() && 0 <= g < 4 implies #[trigger] spec_routing_commands(rows)[4 * v + g]
                == (PresetCommand::<F>::SetSendLevel {
                voice: v as usize,
                group: g as usize,
                level: rows[v]@[g],
            }) by {
            if v < prev.len() {
                assert(rows[v] == prev[v]);
                assert(spec_routing_commands(prev)[4 * v + g] == spec_routing_commands(rows)[4 * v + g]);
            }
        }
    }
}

/// Each group `g` is first emptied and switched on or off; the groups come
/// one after another after the commands of the groups before them.
pub proof fn lemma_groups_push<F>(gs: Seq<GroupPreset<F>>, grp: GroupPreset<F>)
    ensures
        ({
            let cmds = spec_groups_commands(gs.push(grp));
            let before = spec_groups_commands(gs);
            let n: int = before.len() as int;
            &&& cmds.subrange(0, n) == before
            &&& cmds[n] == (PresetCommand::<F>::ClearGroup { group: gs.len() as usize })
            &&& cmds[n + 1] == (PresetCommand::<F>::EnableGroup {
                group: gs.len() as usize,
                enabled: grp.enabled,
            })
            &&& cmds.subrange(n + 2, cmds.len() as int) == spec_effects_commands(
                gs.len() as int,
                grp.effects@,
            )
        }),
{
    let gs2 = gs.push(grp);
    assert(gs2.drop_last() =~= gs);
    let cmds = spec_groups_commands(gs2);
    let before = spec_groups_commands(gs);
    assert(cmds == before + spec_group_commands(gs.len() as int, grp));
    assert(cmds.subrange(0, before.len() as int) =~= before);
    assert(cmds.subrange(before.len() as int + 2, cmds.len() as int) =~= spec_effects_commands(
        gs.len() as int,
        grp.effects@,
    ));
}

} // verus!
