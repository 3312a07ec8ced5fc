//! An effect group: a named, switchable chain of effects that a voice's
//! send feeds. The effects themselves (`E`) process audio; this type keeps
//! their order as effects are added and removed.

use vstd::prelude::*;

verus! {

pub struct EffectGroup<E> {
    pub name: String,
    /// The chain, in processing order.
    pub effects: Vec<E>,
    pub enabled: bool,
}

pub open spec fn spec_insert_position(position: int, len: int) -> int {
    if position < len {
        position
    } else {
        len
    }
}

impl<E> EffectGroup<E> {
    /// An enabled group with no effects.
    pub fn new(name: &str) -> (g: Self)
        ensures
            g.name@ == name@,
            g.effects@.len() == 0,
            g.enabled,
    {
        EffectGroup { name: String::from_str(name), effects: Vec::new(), enabled: true }
    }

    /// Insert `effect` at `position`, or at the end when `position` is past it.
    pub fn add_effect(&mut self, effect: E, position: usize)
        ensures
            final(self).effects@ == old(self).effects@.insert(
                spec_insert_position(position as int, old(self).effects@.len() as int),
                effect,
            ),
            final(self).name == old(self).name,
            final(self).enabled == old(self).enabled,
    {
        let pos = if position < self.effects.len() {
            position
        } else {
            self.effects.len()
        };
        self.effects.insert(pos, effect);
    }

    /// Remove the effect at `position`; nothing happens when there is none.
    pub fn remove_effect(&mut self, position: usize)
        ensures
            final(self).effects@ == (if position < old(self).effects@.len() {
                old(self).effects@.remove(position as int)
            } else {
                old(self).effects@
            }),
            final(self).name == old(self).name,
            final(self).enabled == old(self).enabled,
    {
        if position < self.effects.len() {
            self.effects.remove(position);
        }
    }

    /// Remove every effect.
    pub fn clear(&mut self)
        ensures
            final(self).effects@.len() == 0,
            final(self).name == old(self).name,
            final(self).enabled == old(self).enabled,
    {
        self.effects.clear();
    }

    pub fn effect_count(&self) -> (n: usize)
        ensures
            n == self.effects@.len(),
    {
        self.effects.len()
    }
}

/// Adding an effect and then removing the effect at the place where it went
/// leaves the chain as it was; every other effect keeps its order.
pub proof fn lemma_add_then_remove<E>(chain: Seq<E>, effect: E, position: int)
    requires
        0 <= position,
    ensures
        ({
            let pos = spec_insert_position(position, chain.len() as int);
            let added = chain.insert(pos, effect);
            &&& added.len() == chain.len() + 1
            &&& added[pos] == effect
            &&& pos < added.len()
            &&& added.remove(pos) == chain
        }),
{
    let pos = spec_insert_position(position, chain.len() as int);
    assert(chain.insert(pos, effect).remove(pos) =~= chain);
}

} // verus!
