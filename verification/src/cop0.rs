//! Coprocessor 0: the status, cause and exception-program-counter
//! registers, the three-deep interrupt/kernel mode stack in `sr[5:0]`,
//! and the MTC0/MFC0 register file interface.

use vstd::prelude::*;
use crate::bus::Bus;
use crate::errors::FatalError;
use crate::exception::{Exception, ExceptionVector, code_spec};
use crate::instruction::RegisterIndex;

verus! {

/// The status register after an exception entry: bits 5:0 shift left by
/// two, pushing a zero pair (interrupts disabled, kernel mode) onto the
/// mode stack and dropping the oldest pair.
pub open spec fn push_mode_spec(sr: u32) -> u32 {
    (sr & !0x3f) | (((sr & 0x3f) << 2u32) & 0x3f)
}

/// The status register after an exception return: bits 5:0 shift right by
/// two, popping the youngest mode pair while the oldest pair in bits 5:4
/// stays in place.
pub open spec fn pop_mode_spec(sr: u32) -> u32 {
    (sr & !0x0f) | ((sr >> 2u32) & 0x0f)
}

/// The cause register with bits 6:2 replaced by the exception's code;
/// every other bit is preserved.
pub open spec fn set_cause_spec(cause: u32, e: Exception) -> u32 {
    (cause & !0x7c) | (code_spec(e) << 2u32)
}

/// Which vector base a status register selects: bit 22 (BEV) picks the
/// boot vector over the normal one.
pub open spec fn vector_spec(sr: u32) -> ExceptionVector {
    if sr & 0x0040_0000 != 0 {
        ExceptionVector::Boot
    } else {
        ExceptionVector::Normal
    }
}

/// Whether a status register isolates the cache: bit 16.  While set, the
/// interpreter suppresses loads and stores entirely.
pub open spec fn isolate_cache_spec(sr: u32) -> bool {
    sr & 0x10000 != 0
}

/// How an MTC0 write relates COP0 before and after, and what it returns.
/// Register 12 is the status register; registers 3, 5, 6, 7, 9, 11, 13
/// and 14 accept only zero; everything else is a fatal fault.
pub open spec fn mtc0_rel(
    pre: Cop0,
    post: Cop0,
    reg: u32,
    val: u32,
    r: Result<(), FatalError>,
) -> bool {
    if reg == 12 {
        r == Result::<(), FatalError>::Ok(()) && post.sr == val && post.cause == pre.cause
            && post.epc == pre.epc
    } else if (reg == 3 || reg == 5 || reg == 6 || reg == 7 || reg == 9 || reg == 11 || reg == 13
        || reg == 14) && val == 0 {
        r == Result::<(), FatalError>::Ok(()) && post == pre
    } else {
        r == Result::<(), FatalError>::Err((FatalError::UnsupportedCop0Write { reg, val })) && post
            == pre
    }
}

/// What an MFC0 read returns: register 12 is status, 13 is cause, 14 is
/// the exception program counter; everything else is a fatal fault.
pub open spec fn mfc0_spec(c: Cop0, reg: u32) -> Result<u32, FatalError> {
    if reg == 12 {
        Result::Ok(c.sr)
    } else if reg == 13 {
        Result::Ok(c.cause)
    } else if reg == 14 {
        Result::Ok(c.epc)
    } else {
        Result::Err(FatalError::UnsupportedCop0Read { reg })
    }
}

#[derive(Debug, Copy, Clone, PartialEq, Eq, Structural)]
pub struct Cop0 {
    /// Status register.
    pub sr: u32,
    /// Cause (exception) register.
    pub cause: u32,
    /// Exception program counter.
    pub epc: u32,
}

impl Cop0 {
    /// COP0 at architectural reset: every register zero.
    pub fn new() -> (r: Cop0)
        ensures
            r.sr == 0,
            r.cause == 0,
            r.epc == 0,
    {
        Cop0 { sr: 0, cause: 0, epc: 0 }
    }

    /// A snapshot of the status register.
    pub fn status(&self) -> (r: ProcessorStatus)
        ensures
            r.0 == self.sr,
    {
        ProcessorStatus(self.sr)
    }

    /// Exception entry: disable interrupts and enter kernel mode, saving
    /// the previous mode pair on the stack in `sr[5:0]`.
    pub fn push_mode(&mut self)
        ensures
            final(self).sr == push_mode_spec(old(self).sr),
            final(self).cause == old(self).cause,
            final(self).epc == old(self).epc,
    {
        let mode = self.sr & 0x3f;
        self.sr = self.sr & !0x3f;
        self.sr = self.sr | ((mode << 2u32) & 0x3f);
    }

    /// Exception return: pop the youngest mode pair off the stack in
    /// `sr[5:0]`.  Bits 3:0 take bits 5:2; the oldest pair in bits 5:4 is
    /// preserved.
    pub fn pop_mode(&mut self)
        ensures
            final(self).sr == pop_mode_spec(old(self).sr),
            final(self).cause == old(self).cause,
            final(self).epc == old(self).epc,
    {
        let mode = (self.sr >> 2u32) & 0x0f;
        self.sr = self.sr & !0x0f;
        self.sr = self.sr | mode;
    }

    /// Record an exception's code in `cause` bits 6:2, preserving every
    /// other bit.
    pub fn set_cause(&mut self, cause: Exception)
        ensures
            final(self).cause == set_cause_spec(old(self).cause, cause),
            final(self).sr == old(self).sr,
            final(self).epc == old(self).epc,
    {
        let c = crate::exception::code(cause);
        self.cause = self.cause & !0x7c;
        self.cause = self.cause | (c << 2u32);
    }

    /// MTC0, move to coprocessor 0.  The bus is untouched; it is passed
    /// through for the planned cache-control writes.
    pub fn mtc0(&mut self, bus: &mut Bus, cop_r: RegisterIndex, val: u32) -> (r: Result<
        (),
        FatalError,
    >)
        ensures
            mtc0_rel(*old(self), *final(self), cop_r.0, val, r),
            *final(bus) == *old(bus),
    {
        let RegisterIndex(reg) = cop_r;
        if reg == 12 {
            self.sr = val;
            Result::Ok(())
        } else if (reg == 3 || reg == 5 || reg == 6 || reg == 7 || reg == 9 || reg == 11 || reg
            == 13 || reg == 14) && val == 0 {
            Result::Ok(())
        } else {
            Result::Err(FatalError::UnsupportedCop0Write { reg, val })
        }
    }

    /// MFC0, move from coprocessor 0.  The bus is untouched; it is passed
    /// through for symmetry with `mtc0`.
    pub fn mfc0(&mut self, bus: &mut Bus, cop_r: RegisterIndex) -> (r: Result<u32, FatalError>)
        ensures
            r == mfc0_spec(*old(self), cop_r.0),
            *final(self) == *old(self),
            *final(bus) == *old(bus),
    {
        let RegisterIndex(reg) = cop_r;
        if reg == 12 {
            Result::Ok(self.sr)
        } else if reg == 13 {
            Result::Ok(self.cause)
        } else if reg == 14 {
            Result::Ok(self.epc)
        } else {
            Result::Err(FatalError::UnsupportedCop0Read { reg })
        }
    }
}

/// A snapshot of the status register.
#[derive(Debug, Copy, Clone, PartialEq, Eq, Structural)]
pub struct ProcessorStatus(pub u32);

impl ProcessorStatus {
    /// Bit 16: cache isolation.
    pub fn is_isolate_cache(&self) -> (r: bool)
        ensures
            r == isolate_cache_spec(self.0),
    {
        self.0 & 0x10000 != 0
    }

    /// Bit 22: which exception vector base is active.
    pub fn exception_vector(&self) -> (r: ExceptionVector)
        ensures
            r == vector_spec(self.0),
    {
        if self.0 & 0x0040_0000 != 0 {
            ExceptionVector::Boot
        } else {
            ExceptionVector::Normal
        }
    }
}

/// Pushing and then popping the mode stack restores the status register,
/// provided the oldest mode pair in bits 5:4 equals the pair in bits 3:2 —
/// the push drops the oldest pair and duplicates the middle one into its
/// place, so a differing oldest pair does not come back.
pub proof fn lemma_mode_stack_roundtrip(sr: u32)
    requires
        sr & 0x30 == ((sr & 0x0c) << 2u32),
    ensures
        pop_mode_spec(push_mode_spec(sr)) == sr,
{
    assert(sr & 0x30 == ((sr & 0x0c) << 2u32) ==> ((((sr & !0x3f) | (((sr & 0x3f) << 2u32)
        & 0x3f)) & !0x0f) | ((((sr & !0x3f) | (((sr & 0x3f) << 2u32) & 0x3f)) >> 2u32) & 0x0f))
        == sr) by (bit_vector);
}

} // verus!
