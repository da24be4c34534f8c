//! Fatal faults: contract violations that abort emulation, as opposed to
//! CPU exceptions, which redirect the program counter into the BIOS
//! exception handler and let execution continue.

use vstd::prelude::*;

verus! {

/// A fatal fault.  Each carries the inputs that provoked it so a host can
/// print a diagnostic before terminating.
#[derive(Debug, Copy, Clone, PartialEq, Eq, Structural)]
pub enum FatalError {
    /// The masked address falls in no catalogued region.
    UnknownRegion { addr: u32 },
    /// A store targeted the read-only BIOS window.
    WriteToReadOnly { addr: u32 },
    /// A primary or secondary opcode outside the implemented table.
    UnknownOpcode { inst: u32 },
    /// A COP0 sub-operation other than MFC0, MTC0 or RFE.
    UnsupportedCopOp { inst: u32 },
    /// A write that COP0 does not accept: a non-zero value to a register
    /// that only takes zero, or any write to an unimplemented register.
    UnsupportedCop0Write { reg: u32, val: u32 },
    /// A read from a COP0 register other than status, cause or EPC.
    UnsupportedCop0Read { reg: u32 },
}

} // verus!
