use rustsynth::delay_line::DelayLine;
use rustsynth::effect_group::EffectGroup;
use rustsynth::envelope::EnvelopeStage;
use rustsynth::noise::xorshift32;
use rustsynth::note_timer::NoteTimer;
use rustsynth::sequencer_clock::SequencerClock;

#[test]
fn envelope_stage_moves() {
    assert_eq!(EnvelopeStage::Idle.note_on(), EnvelopeStage::Attack);
    assert_eq!(EnvelopeStage::Release.note_on(), EnvelopeStage::Attack);
    assert_eq!(EnvelopeStage::Idle.note_off(), EnvelopeStage::Idle);
    assert_eq!(EnvelopeStage::Sustain.note_off(), EnvelopeStage::Release);
    assert!(!EnvelopeStage::Idle.is_active());
    assert!(EnvelopeStage::Decay.is_active());
    assert_eq!(EnvelopeStage::Attack.advance(false), EnvelopeStage::Attack);
    assert_eq!(EnvelopeStage::Attack.advance(true), EnvelopeStage::Decay);
    assert_eq!(EnvelopeStage::Decay.advance(true), EnvelopeStage::Sustain);
    assert_eq!(EnvelopeStage::Sustain.advance(true), EnvelopeStage::Sustain);
    assert_eq!(EnvelopeStage::Release.advance(true), EnvelopeStage::Idle);
    assert_eq!(EnvelopeStage::Idle.advance(true), EnvelopeStage::Idle);
}

#[test]
fn note_released_after_its_length() {
    let mut t = NoteTimer::new();
    assert!(!t.tick());
    t.start(3);
    assert!(!t.tick());
    assert!(!t.tick());
    assert!(t.tick());
    assert!(!t.active);
    assert!(!t.tick());
    // a zero length holds the note
    t.start(0);
    assert!(!t.tick());
    assert!(t.active);
}

#[test]
fn effect_group_insert_and_remove() {
    let mut g: EffectGroup<char> = EffectGroup::new("A");
    assert_eq!(g.name, "A");
    assert!(g.enabled);
    g.add_effect('x', 0);
    g.add_effect('y', 10);
    g.add_effect('z', 1);
    assert_eq!(g.effects, vec!['x', 'z', 'y']);
    assert_eq!(g.effect_count(), 3);
    g.remove_effect(7);
    assert_eq!(g.effects, vec!['x', 'z', 'y']);
    g.remove_effect(1);
    assert_eq!(g.effects, vec!['x', 'y']);
    g.clear();
    assert_eq!(g.effect_count(), 0);
}

#[test]
fn delay_line_reads_back_what_was_written() {
    let mut d = DelayLine::new(4, 0.0f32);
    assert_eq!(d.len(), 4);
    d.write(1.0);
    d.write(2.0);
    d.write(3.0);
    assert_eq!(d.read_back(1), 3.0);
    assert_eq!(d.read_back(3), 1.0);
    assert_eq!(d.read_back(4), 0.0);
    assert_eq!(d.current(), 0.0);
    d.write(4.0);
    d.write(5.0);
    // wrapped around: the oldest is now 2.0
    assert_eq!(d.read_back(4), 2.0);
    assert_eq!(d.read_back(1), 5.0);
    assert_eq!(d.pos, 1);
}

#[test]
fn xorshift_known_values() {
    assert_eq!(xorshift32(1), 270369);
    let mut x = 0xdeadbeefu32;
    for _ in 0..1000 {
        x = xorshift32(x);
        assert_ne!(x, 0);
    }
    assert_eq!(xorshift32(0), 0);
}

#[test]
fn sequencer_clock_fires_steps_in_turn() {
    let mut c = SequencerClock::new();
    let mut fired = Vec::new();
    for _ in 0..(6 * 4) {
        if let Some(s) = c.on_tick(0, 4) {
            fired.push(s);
        }
    }
    assert_eq!(fired, vec![1, 2, 3, 0]);
    // swing delays odd steps
    let mut c = SequencerClock::new();
    let mut at = Vec::new();
    for t in 1..=20u32 {
        if let Some(s) = c.on_tick(3, 16) {
            at.push((t, s));
        }
    }
    assert_eq!(at, vec![(6, 1), (15, 2)]);
    c.stop();
    assert_eq!((c.current_step, c.tick_in_step), (0, 0));
    assert_eq!(c.step_threshold(1, 3), 9);
    assert_eq!(c.step_threshold(2, 3), 6);
}
