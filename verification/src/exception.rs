//! CPU exceptions: their architectural codes and the handler addresses the
//! processor jumps to on entry.

use vstd::prelude::*;

verus! {

/// An exception the CPU can raise.  Exceptions never abort emulation; they
/// redirect the program counter into the exception handler.
#[derive(Debug, Copy, Clone, PartialEq, Eq, Structural)]
pub enum Exception {
    Interrupt,
    LoadAlignmentError,
    StoreAlignmentError,
    Syscall,
    Break,
    IllegalInstruction,
    CoprocessorError,
    Overflow,
}

/// The architectural exception code stored in `cause` bits 6:2.
pub open spec fn code_spec(e: Exception) -> u32 {
    match e {
        Exception::Interrupt => 0,
        Exception::LoadAlignmentError => 4,
        Exception::StoreAlignmentError => 5,
        Exception::Syscall => 8,
        Exception::Break => 9,
        Exception::IllegalInstruction => 10,
        Exception::CoprocessorError => 11,
        Exception::Overflow => 12,
    }
}

/// The exception code in executable code.
pub fn code(e: Exception) -> (r: u32)
    ensures
        r == code_spec(e),
{
    match e {
        Exception::Interrupt => 0,
        Exception::LoadAlignmentError => 4,
        Exception::StoreAlignmentError => 5,
        Exception::Syscall => 8,
        Exception::Break => 9,
        Exception::IllegalInstruction => 10,
        Exception::CoprocessorError => 11,
        Exception::Overflow => 12,
    }
}

/// The class of handler an exception selects.  Only the general class is
/// exercised today; the table is kept whole because it is cheap.
#[derive(Debug, Copy, Clone, PartialEq, Eq, Structural)]
pub enum ExceptionClass {
    Reset,
    TLBMiss,
    DebugBreak,
    General,
}

/// Which vector base the status register's BEV bit selects.
#[derive(Debug, Copy, Clone, PartialEq, Eq, Structural)]
pub enum ExceptionVector {
    Normal,
    Boot,
}

/// The handler address for a vector and class.
pub open spec fn handler_spec(vector: ExceptionVector, class: ExceptionClass) -> u32 {
    match vector {
        ExceptionVector::Normal => match class {
            ExceptionClass::Reset => 0xbfc0_0000,
            ExceptionClass::TLBMiss => 0x8000_0000,
            ExceptionClass::DebugBreak => 0x8000_0040,
            ExceptionClass::General => 0x8000_0080,
        },
        ExceptionVector::Boot => match class {
            ExceptionClass::Reset => 0xbfc0_0000,
            ExceptionClass::TLBMiss => 0xbfc0_0100,
            ExceptionClass::DebugBreak => 0xbfc0_0140,
            ExceptionClass::General => 0xbfc0_0180,
        },
    }
}

/// Look up the handler address.  Every handler address is word-aligned.
pub fn handler(vector: ExceptionVector, class: ExceptionClass) -> (r: u32)
    ensures
        r == handler_spec(vector, class),
        r % 4 == 0,
{
    match vector {
        ExceptionVector::Normal => match class {
            ExceptionClass::Reset => 0xbfc0_0000,
            ExceptionClass::TLBMiss => 0x8000_0000,
            ExceptionClass::DebugBreak => 0x8000_0040,
            ExceptionClass::General => 0x8000_0080,
        },
        ExceptionVector::Boot => match class {
            ExceptionClass::Reset => 0xbfc0_0000,
            ExceptionClass::TLBMiss => 0xbfc0_0100,
            ExceptionClass::DebugBreak => 0xbfc0_0140,
            ExceptionClass::General => 0xbfc0_0180,
        },
    }
}

} // verus!
