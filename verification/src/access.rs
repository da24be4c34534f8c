//! Typed memory access widths (8, 16 and 32 bits) and the little-endian
//! sub-word placement rules that BIOS and RAM share.
//!
//! A width-parametric load yields a value zero-widened to 32 bits; a
//! width-parametric store writes only the addressed sub-word.  The byte at
//! offset `o` occupies bits `(o & 3) * 8 + 7 .. (o & 3) * 8` of its word and
//! the halfword at an even offset `o` occupies bits
//! `((o >> 1) & 1) * 16 + 15 .. ((o >> 1) & 1) * 16`.

use vstd::prelude::*;

verus! {

/// Width of a memory access: one byte, one halfword or one word.
#[derive(Debug, Copy, Clone, PartialEq, Eq, Structural)]
pub enum AccessWidth {
    Byte,
    Half,
    Word,
}

/// Mask covering the bits a value of the given width occupies.
pub open spec fn width_mask(w: AccessWidth) -> u32 {
    match w {
        AccessWidth::Byte => 0xff,
        AccessWidth::Half => 0xffff,
        AccessWidth::Word => 0xffff_ffff,
    }
}

/// A value cut down to the given width (zero-widened back to 32 bits).
pub open spec fn narrow(w: AccessWidth, v: u32) -> u32 {
    match w {
        AccessWidth::Byte => v & 0xff,
        AccessWidth::Half => v & 0xffff,
        AccessWidth::Word => v,
    }
}

/// How far the sub-word addressed by byte offset `off` sits inside its word.
pub open spec fn subword_shift(w: AccessWidth, off: u32) -> u32 {
    match w {
        AccessWidth::Byte => if off & 3 == 0 {
            0
        } else if off & 3 == 1 {
            8
        } else if off & 3 == 2 {
            16
        } else {
            24
        },
        AccessWidth::Half => if (off >> 1) & 1 == 0 {
            0
        } else {
            16
        },
        AccessWidth::Word => 0,
    }
}

/// The sub-word of `word` addressed at byte offset `off`, zero-widened.
pub open spec fn extract_subword(w: AccessWidth, word: u32, off: u32) -> u32 {
    narrow(w, word >> subword_shift(w, off))
}

/// `word` with the sub-word at byte offset `off` replaced by `val` (cut to
/// the width); the remaining bits are untouched.
pub open spec fn insert_subword(w: AccessWidth, word: u32, off: u32, val: u32) -> u32 {
    match w {
        AccessWidth::Word => val,
        _ => (word & !(width_mask(w) << subword_shift(w, off))) | (narrow(w, val) << subword_shift(
            w,
            off,
        )),
    }
}

/// Cut `val` down to the given width in executable code.
pub fn narrow_to(w: AccessWidth, val: u32) -> (r: u32)
    ensures
        r == narrow(w, val),
{
    match w {
        AccessWidth::Byte => val & 0xff,
        AccessWidth::Half => val & 0xffff,
        AccessWidth::Word => val,
    }
}

/// The width's bit mask in executable code.
pub fn mask_for(w: AccessWidth) -> (r: u32)
    ensures
        r == width_mask(w),
{
    match w {
        AccessWidth::Byte => 0xff,
        AccessWidth::Half => 0xffff,
        AccessWidth::Word => 0xffff_ffff,
    }
}

/// The shift for the sub-word at byte offset `off`, in executable code.
pub fn shift_for(w: AccessWidth, off: u32) -> (r: u32)
    ensures
        r == subword_shift(w, off),
        r == 0 || r == 8 || r == 16 || r == 24,
{
    match w {
        AccessWidth::Byte => {
            let sub = off & 3;
            if sub == 0 {
                0
            } else if sub == 1 {
                8
            } else if sub == 2 {
                16
            } else {
                24
            }
        },
        AccessWidth::Half => {
            if (off >> 1) & 1 == 0 {
                0
            } else {
                16
            }
        },
        AccessWidth::Word => 0,
    }
}

} // verus!
