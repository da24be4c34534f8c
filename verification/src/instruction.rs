//! A fetched 32-bit instruction word and its bit fields, plus the small
//! records the CPU keeps for the load-delay slot.

use vstd::prelude::*;

verus! {

/// Index of the return-address register, the link target of
/// jump-and-link instructions.
pub const RA: u32 = 31;

/// A general-purpose register index, always below 32.
#[derive(Debug, Copy, Clone, PartialEq, Eq, Structural)]
pub struct RegisterIndex(pub u32);

/// A load whose value has been fetched but is not yet architecturally
/// visible: it lands in the register file one instruction later.
#[derive(Debug, Copy, Clone, PartialEq, Eq, Structural)]
pub struct LoadDelay {
    pub target_reg: RegisterIndex,
    pub val: u32,
}

impl LoadDelay {
    pub fn new(target_reg: RegisterIndex, val: u32) -> (r: LoadDelay)
        ensures
            r.target_reg == target_reg,
            r.val == val,
    {
        LoadDelay { target_reg, val }
    }
}

/// Bits 31:26, the primary opcode.
pub open spec fn opcode_spec(i: u32) -> u32 {
    i >> 26
}

/// Bits 5:0, the secondary opcode of primary opcode zero.
pub open spec fn funct_spec(i: u32) -> u32 {
    i & 0x3f
}

/// Bits 25:21, the coprocessor sub-operation.
pub open spec fn cop_op_spec(i: u32) -> u32 {
    (i >> 21) & 0x1f
}

/// Bits 25:21 as a register index.
pub open spec fn rs_spec(i: u32) -> u32 {
    (i >> 21) & 0x1f
}

/// Bits 20:16 as a register index.
pub open spec fn rt_spec(i: u32) -> u32 {
    (i >> 16) & 0x1f
}

/// Bits 15:11 as a register index.
pub open spec fn rd_spec(i: u32) -> u32 {
    (i >> 11) & 0x1f
}

/// Bits 10:6, the shift amount immediate.
pub open spec fn shamt_spec(i: u32) -> u32 {
    (i >> 6) & 0x1f
}

/// Bits 15:0, zero-extended.
pub open spec fn imm_spec(i: u32) -> u32 {
    i & 0xffff
}

/// Bits 15:0, sign-extended to 32 bits.
pub open spec fn imm_se_spec(i: u32) -> u32 {
    if i & 0x8000 == 0 {
        i & 0xffff
    } else {
        (i & 0xffff) | 0xffff_0000
    }
}

/// Bits 25:0, the word-indexed jump target.
pub open spec fn addr_spec(i: u32) -> u32 {
    i & 0x3ff_ffff
}

/// A 32-bit instruction word.
#[derive(Debug, Copy, Clone, PartialEq, Eq, Structural)]
pub struct Instruction(pub u32);

impl Instruction {
    /// Return bits 31:26 of the instruction.
    pub fn opcode(self) -> (r: u32)
        ensures
            r == opcode_spec(self.0),
            r < 64,
    {
        let i = self.0;
        proof {
            assert(i >> 26 < 64) by (bit_vector);
        }
        i >> 26
    }

    /// Return the subfunction value in bits 5:0.
    pub fn funct(self) -> (r: u32)
        ensures
            r == funct_spec(self.0),
            r < 64,
    {
        let i = self.0;
        proof {
            assert(i & 0x3f < 64) by (bit_vector);
        }
        i & 0x3f
    }

    /// Return the coprocessor opcode value in bits 25:21.
    pub fn cop_op(self) -> (r: u32)
        ensures
            r == cop_op_spec(self.0),
            r < 32,
    {
        let i = self.0;
        proof {
            assert((i >> 21) & 0x1f < 32) by (bit_vector);
        }
        (i >> 21) & 0x1f
    }

    /// Return the register index in bits 25:21.
    pub fn rs(self) -> (r: RegisterIndex)
        ensures
            r.0 == rs_spec(self.0),
            r.0 < 32,
    {
        let i = self.0;
        proof {
            assert((i >> 21) & 0x1f < 32) by (bit_vector);
        }
        RegisterIndex((i >> 21) & 0x1f)
    }

    /// Return the register index in bits 20:16.
    pub fn rt(self) -> (r: RegisterIndex)
        ensures
            r.0 == rt_spec(self.0),
            r.0 < 32,
    {
        let i = self.0;
        proof {
            assert((i >> 16) & 0x1f < 32) by (bit_vector);
        }
        RegisterIndex((i >> 16) & 0x1f)
    }

    /// Return the register index in bits 15:11.
    pub fn rd(self) -> (r: RegisterIndex)
        ensures
            r.0 == rd_spec(self.0),
            r.0 < 32,
    {
        let i = self.0;
        proof {
            assert((i >> 11) & 0x1f < 32) by (bit_vector);
        }
        RegisterIndex((i >> 11) & 0x1f)
    }

    /// Return the shift-amount immediate in bits 10:6.
    pub fn shamt(self) -> (r: u32)
        ensures
            r == shamt_spec(self.0),
            r < 32,
    {
        let i = self.0;
        proof {
            assert((i >> 6) & 0x1f < 32) by (bit_vector);
        }
        (i >> 6) & 0x1f
    }

    /// Return the immediate value in bits 15:0, zero-extended.
    pub fn imm(self) -> (r: u32)
        ensures
            r == imm_spec(self.0),
    {
        self.0 & 0xffff
    }

    /// Return the immediate value in bits 15:0, sign-extended to 32 bits.
    pub fn imm_se(self) -> (r: u32)
        ensures
            r == imm_se_spec(self.0),
    {
        let low = self.0 & 0xffff;
        if self.0 & 0x8000 == 0 {
            low
        } else {
            low | 0xffff_0000
        }
    }

    /// Return the jump target in bits 25:0.
    pub fn addr(self) -> (r: u32)
        ensures
            r == addr_spec(self.0),
    {
        self.0 & 0x3ff_ffff
    }

    /// The raw instruction word.
    pub fn inner(self) -> (r: u32)
        ensures
            r == self.0,
    {
        self.0
    }
}

} // verus!
