//! Main RAM: a 2 MiB byte-addressable store kept as little-endian words,
//! with typed loads and stores that honour sub-word placement.

use vstd::prelude::*;
use crate::access::{
    AccessWidth,
    narrow,
    extract_subword,
    insert_subword,
    subword_shift,
    narrow_to,
    mask_for,
    shift_for,
};

verus! {

/// Size of main RAM in bytes.
pub const RAM_SIZE: usize = 2 * 1024 * 1024;

/// Size of main RAM in 32-bit words.
pub const RAM_WORDS: usize = 512 * 1024;

/// The word that RAM cells hold at power-on.
pub const RAM_RESET_WORD: u32 = 0;

pub struct Ram {
    pub mem: Vec<u32>,
}

/// The byte of `mem` at byte offset `off`, zero-widened.
pub open spec fn byte_at(mem: Seq<u32>, off: u32) -> u32 {
    extract_subword(AccessWidth::Byte, mem[off as int / 4], off)
}

/// What a typed load at `off` yields from word store `mem`.
pub open spec fn load_spec(mem: Seq<u32>, w: AccessWidth, off: u32) -> u32 {
    extract_subword(w, mem[off as int / 4], off)
}

/// The word store after a typed store of `val` at `off`.
pub open spec fn store_spec(mem: Seq<u32>, w: AccessWidth, off: u32, val: u32) -> Seq<u32> {
    mem.update(off as int / 4, insert_subword(w, mem[off as int / 4], off, val))
}

impl Ram {
    /// All of RAM holds words and the store covers exactly 2 MiB.
    pub open spec fn wf(&self) -> bool {
        self.mem@.len() == RAM_WORDS
    }

    /// Fresh RAM, every cell at the reset value.
    pub fn new() -> (r: Ram)
        ensures
            r.wf(),
            forall|i: int| 0 <= i < RAM_WORDS ==> r.mem@[i] == RAM_RESET_WORD,
    {
        let mut mem: Vec<u32> = Vec::new();
        let mut i: usize = 0;
        while i < RAM_WORDS
            invariant
                i <= RAM_WORDS,
                mem@.len() == i,
                forall|j: int| 0 <= j < i ==> mem@[j] == RAM_RESET_WORD,
            decreases RAM_WORDS - i,
        {
            mem.push(RAM_RESET_WORD);
            i = i + 1;
        }
        Ram { mem }
    }

    /// Typed load: the sub-word at `offset`, zero-widened to 32 bits.
    pub fn load(&self, width: AccessWidth, offset: u32) -> (r: u32)
        requires
            self.wf(),
            offset < RAM_SIZE,
        ensures
            r == load_spec(self.mem@, width, offset),
    {
        let word = self.mem[(offset / 4) as usize];
        let shift = shift_for(width, offset);
        narrow_to(width, word >> shift)
    }

    /// Typed store: replaces only the sub-word at `offset`, leaving the rest
    /// of its word and every other word untouched.
    pub fn store(&mut self, width: AccessWidth, offset: u32, val: u32)
        requires
            old(self).wf(),
            offset < RAM_SIZE,
        ensures
            final(self).wf(),
            final(self).mem@ == store_spec(old(self).mem@, width, offset, val),
    {
        let idx = (offset / 4) as usize;
        match width {
            AccessWidth::Word => {
                self.mem[idx] = val;
            },
            _ => {
                let word = self.mem[idx];
                let shift = shift_for(width, offset);
                let mask = mask_for(width) << shift;
                let new_word = (word & !mask) | (narrow_to(width, val) << shift);
                self.mem[idx] = new_word;
            },
        }
    }
}

/// Round trip: a typed store followed by a typed load of the same width at
/// the same offset yields the stored value cut to that width.
pub proof fn lemma_store_load_roundtrip(mem: Seq<u32>, w: AccessWidth, off: u32, val: u32)
    requires
        mem.len() == RAM_WORDS,
        off < RAM_SIZE,
    ensures
        load_spec(store_spec(mem, w, off, val), w, off) == narrow(w, val),
{
    let word = mem[off as int / 4];
    let s = subword_shift(w, off);
    assert(s == 0 || s == 8 || s == 16 || s == 24);
    match w {
        AccessWidth::Byte => {
            assert((s == 0 || s == 8 || s == 16 || s == 24) ==> ((word & !(0xffu32 << s)) | ((val
                & 0xff) << s)) >> s & 0xff == val & 0xff) by (bit_vector);
        },
        AccessWidth::Half => {
            assert((s == 0 || s == 16) ==> ((word & !(0xffffu32 << s)) | ((val & 0xffff) << s)) >> s
                & 0xffff == val & 0xffff) by (bit_vector);
        },
        AccessWidth::Word => {
            assert(val >> 0 == val) by (bit_vector);
            assert(val & 0xffff_ffff == val) by (bit_vector);
        },
    }
}

/// A byte store leaves every other byte of RAM unchanged.
pub proof fn lemma_store_byte_preserves_others(mem: Seq<u32>, off: u32, val: u32, other: u32)
    requires
        mem.len() == RAM_WORDS,
        off < RAM_SIZE,
        other < RAM_SIZE,
        other != off,
    ensures
        byte_at(store_spec(mem, AccessWidth::Byte, off, val), other) == byte_at(mem, other),
{
    let stored = store_spec(mem, AccessWidth::Byte, off, val);
    if off as int / 4 != other as int / 4 {
        assert(stored[other as int / 4] == mem[other as int / 4]);
    } else {
        let word = mem[off as int / 4];
        let s1 = subword_shift(AccessWidth::Byte, off);
        let s2 = subword_shift(AccessWidth::Byte, other);
        assert(off & 3 != other & 3 && off & 3 < 4 && other & 3 < 4) by (bit_vector)
            requires
                off != other,
                off / 4 == other / 4,
        ;
        assert(s1 != s2);
        assert((s1 != s2 && (s1 == 0 || s1 == 8 || s1 == 16 || s1 == 24) && (s2 == 0 || s2 == 8
            || s2 == 16 || s2 == 24)) ==> ((word & !(0xffu32 << s1)) | ((val & 0xff) << s1)) >> s2
            & 0xff == word >> s2 & 0xff) by (bit_vector);
    }
}

} // verus!
