//! The console's flat 64 KiB of memory.
use vstd::prelude::*;
use crate::bytes::{join_bytes, separate_word, unsigned16, unsigned8, word_of};

verus! {

/// Number of addressable bytes.
pub const MEMORY_SIZE: usize = 65536;

/// 65536 signed bytes; words are stored little-endian.
pub struct Memory {
    pub memory: [i8; 65536],
}

impl View for Memory {
    type V = Seq<i8>;

    open spec fn view(&self) -> Seq<i8> {
        self.memory@
    }
}

impl Memory {
    /// The word stored at `dir` and `dir + 1`.
    pub open spec fn word_at(self, dir: int) -> i16 {
        word_of(self@[dir], self@[dir + 1])
    }

    /// Memory with every byte zero.
    pub fn new() -> (r: Memory)
        ensures
            r@.len() == 65536,
            forall|i: int| 0 <= i < 65536 ==> r@[i] == 0,
    {
        Memory { memory: [0; 65536] }
    }

    pub fn read_byte(&self, dir: usize) -> (r: i8)
        requires
            dir < 65536,
        ensures
            r == self@[dir as int],
    {
        self.memory[dir]
    }

    pub fn write_byte(&mut self, dir: usize, value: i8)
        requires
            dir < 65536,
        ensures
            final(self)@ == old(self)@.update(dir as int, value),
    {
        self.memory[dir] = value;
    }

    /// The word at `dir`: low byte at `dir`, high byte at `dir + 1`.
    pub fn read_word(&self, dir: usize) -> (r: i16)
        requires
            dir + 1 < 65536,
        ensures
            r == self.word_at(dir as int),
    {
        let ll = self.memory[dir];
        let hh = self.memory[dir + 1];
        join_bytes(ll, hh)
    }

    pub fn write_word(&mut self, dir: usize, value: i16)
        requires
            dir + 1 < 65536,
        ensures
            final(self)@ == old(self)@.update(dir as int, final(self)@[dir as int]).update(
                dir as int + 1,
                final(self)@[dir as int + 1],
            ),
            final(self).word_at(dir as int) == value,
            unsigned8(final(self)@[dir as int]) == unsigned16(value) % 256,
            unsigned8(final(self)@[dir as int + 1]) == unsigned16(value) / 256,
    {
        let (hh, ll) = separate_word(value);
        self.memory[dir] = ll;
        self.memory[dir + 1] = hh;
    }
}

} // verus!
