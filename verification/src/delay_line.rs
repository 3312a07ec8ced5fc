//! A circular buffer of past samples, the memory of the delay, chorus,
//! vibrato and reverb effects.

use vstd::prelude::*;

verus! {

/// `buffer` holds the last `buffer.len()` samples written; `pos` is where
/// the next one goes, which is also where the oldest one is.
pub struct DelayLine<T> {
    pub buffer: Vec<T>,
    pub pos: usize,
}

/// Index of the sample written `delay` writes before the next one.
pub open spec fn spec_read_index(pos: int, len: int, delay: int) -> int {
    (pos + len - delay) % len
}

impl<T: Copy> DelayLine<T> {
    /// The write position is inside a non-empty buffer.
    pub open spec fn wf(&self) -> bool {
        self.buffer@.len() > 0 && self.pos < self.buffer@.len()
    }

    /// A buffer of `len` copies of `fill`.
    pub fn new(len: usize, fill: T) -> (d: Self)
        requires
            len > 0,
        ensures
            d.wf(),
            d.pos == 0,
            d.buffer@ == Seq::new(len as nat, |_i: int| fill),
    {
        let mut buffer: Vec<T> = Vec::new();
        let mut i: usize = 0;
        while i < len
            invariant
                i <= len,
                buffer@ == Seq::new(i as nat, |_i: int| fill),
            decreases len - i,
        {
            buffer.push(fill);
            i = i + 1;
            assert(buffer@ =~= Seq::new(i as nat, |_i: int| fill));
        }
        DelayLine { buffer, pos: 0 }
    }

    pub fn len(&self) -> (n: usize)
        ensures
            n == self.buffer@.len(),
    {
        self.buffer.len()
    }

    /// The sample written `delay` writes ago (1 = the latest; the buffer's
    /// length = the oldest, which the next write replaces).
    pub fn read_back(&self, delay: usize) -> (x: T)
        requires
            self.wf(),
            1 <= delay <= self.buffer@.len(),
        ensures
            x == self.buffer@[spec_read_index(self.pos as int, self.buffer@.len() as int, delay as int)],
    {
        let len = self.buffer.len();
        let i = if self.pos >= delay {
            self.pos - delay
        } else {
            self.pos + (len - delay)
        };
        proof {
            lemma_read_index(self.pos as int, len as int, delay as int);
        }
        self.buffer[i]
    }

    /// The sample at the write position: the oldest, which the next write replaces.
    pub fn current(&self) -> (x: T)
        requires
            self.wf(),
        ensures
            x == self.buffer@[self.pos as int],
    {
        self.buffer[self.pos]
    }

    /// Store a sample at the write position and move past it.
    pub fn write(&mut self, x: T)
        requires
            old(self).wf(),
        ensures
            final(self).wf(),
            final(self).buffer@ == old(self).buffer@.update(old(self).pos as int, x),
            final(self).pos == (old(self).pos + 1) % (old(self).buffer@.len() as int),
    {
        let len = self.buffer.len();
        self.buffer.set(self.pos, x);
        self.pos = (self.pos + 1) % len;
    }
}

proof fn lemma_read_index(pos: int, len: int, delay: int)
    requires
        0 <= pos < len,
        1 <= delay <= len,
    ensures
        spec_read_index(pos, len, delay) == (if pos >= delay { pos - delay } else { pos + len - delay }),
{
    if pos >= delay {
        vstd::arithmetic::div_mod::lemma_mod_add_multiples_vanish(pos - delay, len);
        vstd::arithmetic::div_mod::lemma_small_mod((pos - delay) as nat, len as nat);
    } else {
        vstd::arithmetic::div_mod::lemma_small_mod((pos + len - delay) as nat, len as nat);
    }
}

/// What was just written is what is read back one write later, and reading
/// back the whole length of the buffer reaches the sample that the next
/// write replaces.
pub proof fn lemma_write_then_read<T>(buffer: Seq<T>, pos: int, x: T)
    requires
        0 <= pos < buffer.len(),
    ensures
        ({
            let len = buffer.len() as int;
            let after = buffer.update(pos, x);
            let next = (pos + 1) % len;
            &&& 0 <= spec_read_index(next, len, 1) < len
            &&& after[spec_read_index(next, len, 1)] == x
            &&& spec_read_index(pos, len, len) == pos
        }),
{
    let len = buffer.len() as int;
    if pos + 1 < len {
        vstd::arithmetic::div_mod::lemma_small_mod((pos + 1) as nat, len as nat);
        lemma_read_index(pos + 1, len, 1);
    } else {
        vstd::arithmetic::div_mod::lemma_mod_self_0(len);
        lemma_read_index(0, len, 1);
    }
    lemma_read_index(pos, len, len);
}

} // verus!
