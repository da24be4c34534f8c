//! The BIOS: a read-only 512 KiB firmware image, decoded once from bytes
//! into little-endian words and served through typed loads.

use vstd::prelude::*;
use crate::access::{AccessWidth, extract_subword, narrow_to, shift_for};

verus! {

/// Size of the BIOS image in bytes.
pub const BIOS_SIZE: usize = 512 * 1024;

/// Size of the BIOS image in 32-bit words.
pub const BIOS_WORDS: usize = 128 * 1024;

/// Virtual address the CPU starts fetching from: the base of the BIOS
/// window in KSEG1.
pub const BIOS_START: u32 = 0xbfc0_0000;

/// The little-endian word that bytes `4*i .. 4*i + 4` of an image form.
pub open spec fn word_from_bytes(bytes: Seq<u8>, i: int) -> u32 {
    (bytes[4 * i] as u32) | ((bytes[4 * i + 1] as u32) << 8u32) | ((bytes[4 * i + 2] as u32)
        << 16u32) | ((bytes[4 * i + 3] as u32) << 24u32)
}

/// `mem` is exactly the word-by-word little-endian decoding of `bytes`.
pub open spec fn decodes(bytes: Seq<u8>, mem: Seq<u32>) -> bool {
    mem.len() == BIOS_WORDS && forall|i: int|
        0 <= i < BIOS_WORDS ==> mem[i] == word_from_bytes(bytes, i)
}

pub struct Bios {
    pub mem: Vec<u32>,
}

impl Bios {
    /// The image is fully decoded: exactly 512 KiB of words.
    pub open spec fn wf(&self) -> bool {
        self.mem@.len() == BIOS_WORDS
    }

    /// Decode a raw 512 KiB image into words.  The words are the image's
    /// bytes read little-endian; the image itself is never modified again.
    pub fn new(buf: &[u8; BIOS_SIZE]) -> (r: Bios)
        ensures
            r.wf(),
            decodes(buf@, r.mem@),
    {
        let mut mem: Vec<u32> = Vec::new();
        let mut i: usize = 0;
        while i < BIOS_WORDS
            invariant
                i <= BIOS_WORDS,
                mem@.len() == i,
                forall|j: int| 0 <= j < i ==> mem@[j] == word_from_bytes(buf@, j),
            decreases BIOS_WORDS - i,
        {
            let b0 = buf[4 * i] as u32;
            let b1 = buf[4 * i + 1] as u32;
            let b2 = buf[4 * i + 2] as u32;
            let b3 = buf[4 * i + 3] as u32;
            mem.push(b0 | (b1 << 8u32) | (b2 << 16u32) | (b3 << 24u32));
            i = i + 1;
        }
        Bios { mem }
    }

    /// The decoded ROM words.
    pub fn get_rom(&self) -> (r: &Vec<u32>)
        ensures
            r@ == self.mem@,
    {
        &self.mem
    }

    /// Typed load: the sub-word at `offset`, zero-widened to 32 bits.
    pub fn load(&self, width: AccessWidth, offset: u32) -> (r: u32)
        requires
            self.wf(),
            offset < BIOS_SIZE,
        ensures
            r == extract_subword(width, self.mem@[offset as int / 4], offset),
    {
        let word = self.mem[(offset / 4) as usize];
        let shift = shift_for(width, offset);
        narrow_to(width, word >> shift)
    }
}

} // verus!
