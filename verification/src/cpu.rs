//! The CPU interpreter: fetch, decode and execute, one architectural
//! instruction per step.
//!
//! Instructions write the shadow register file `out_regs`; at the end of a
//! step it is copied into `regs`.  Together with the single pending-load
//! slot this reproduces the architectural load-delay slot: a load becomes
//! visible only after the next instruction has read its operands.  Branches
//! set `next_pc`, so the instruction after a branch (its delay slot) always
//! executes.  Register 0 is wired to zero: every write to it is discarded.
//!
//! Each instruction's exact effect on the machine state is a relation
//! between the state before and after (`*_rel` below); the executable
//! functions carry those relations as their contracts.

use vstd::prelude::*;
use crate::access::AccessWidth;
use crate::bios::BIOS_START;
use crate::bus::{Bus, bus_load_spec, bus_store_rel};
use crate::cop0::{
    Cop0,
    isolate_cache_spec,
    mfc0_spec,
    mtc0_rel,
    pop_mode_spec,
    push_mode_spec,
    set_cause_spec,
    vector_spec,
};
use crate::errors::FatalError;
use crate::exception::{Exception, ExceptionClass, handler, handler_spec};
use crate::instruction::{
    Instruction,
    LoadDelay,
    RA,
    RegisterIndex,
    addr_spec,
    cop_op_spec,
    funct_spec,
    imm_se_spec,
    imm_spec,
    opcode_spec,
    rd_spec,
    rs_spec,
    rt_spec,
    shamt_spec,
};

verus! {

/// The register file after a write: register 0 stays zero, every other
/// index below 32 takes the value.
pub open spec fn reg_write(regs: Seq<u32>, idx: u32, val: u32) -> Seq<u32> {
    if idx == 0 || idx >= 32 {
        regs
    } else {
        regs.update(idx as int, val)
    }
}

/// Whether a word's sign bit is set: the value is negative as a signed
/// 32-bit integer.
pub open spec fn is_neg(v: u32) -> bool {
    v >= 0x8000_0000
}

/// Sign-extend the low 16 bits of `v` to 32 bits.
pub open spec fn sign_ext16(v: u32) -> u32 {
    if v & 0x8000 == 0 {
        v & 0xffff
    } else {
        (v & 0xffff) | 0xffff_0000
    }
}

/// Sign-extend the low 8 bits of `v` to 32 bits.
pub open spec fn sign_ext8(v: u32) -> u32 {
    if v & 0x80 == 0 {
        v & 0xff
    } else {
        (v & 0xff) | 0xffff_ff00
    }
}

/// Signed comparison of two words by their two's-complement reading.
pub open spec fn signed_lt(a: u32, b: u32) -> bool {
    if is_neg(a) == is_neg(b) {
        a < b
    } else {
        is_neg(a)
    }
}

/// Whether the signed addition of two words overflows 32 bits.
pub open spec fn sadd_overflows(a: u32, b: u32) -> bool {
    is_neg(a) == is_neg(b) && is_neg(a.wrapping_add(b)) != is_neg(a)
}

/// Whether the signed subtraction `a - b` overflows 32 bits.
pub open spec fn ssub_overflows(a: u32, b: u32) -> bool {
    is_neg(a) != is_neg(b) && is_neg(a.wrapping_sub(b)) != is_neg(a)
}

/// Arithmetic shift right: shifts in copies of the sign bit.
pub open spec fn sra_spec(v: u32, sh: u32) -> u32
    recommends
        sh < 32,
{
    if sh == 0 {
        v
    } else if is_neg(v) {
        (v >> sh) | (0xffff_ffffu32 << ((32 - sh) as u32))
    } else {
        v >> sh
    }
}

/// The CPU: program counter triple, the two register files, LO/HI, COP0,
/// and the delay-slot bookkeeping.
pub struct Cpu {
    /// Address of the instruction currently being executed.
    pub pc: u32,
    /// Address of the next instruction to fetch; holds any pending branch
    /// target.
    pub next_pc: u32,
    /// The program counter frozen at the start of the step, used as the
    /// exception program counter.
    pub current_pc: u32,
    /// General-purpose registers.
    pub regs: [u32; 32],
    /// Shadow register file.  Instructions write here; the step's end
    /// copies it back into `regs`.
    pub out_regs: [u32; 32],
    /// Quotient / low multiply register.
    pub lo: u32,
    /// Remainder / high multiply register.
    pub hi: u32,
    /// Coprocessor 0.
    pub cop: Cop0,
    /// A load whose value has not become architecturally visible yet.
    pub pending_load: Option<LoadDelay>,
    /// The instruction just dispatched altered `next_pc`, so the next one
    /// fetched sits in the branch delay slot.
    pub pending_branch: bool,
    /// The current instruction sits in a branch delay slot.
    pub branch_delay_slot: bool,
}

impl Cpu {
    /// Register 0 reads as zero in both register files, and a pending load
    /// targets a real register index.
    pub open spec fn wf(&self) -> bool {
        &&& self.regs@[0] == 0
        &&& self.out_regs@[0] == 0
        &&& match self.pending_load {
            Option::Some(l) => l.target_reg.0 < 32,
            Option::None => true,
        }
    }
}

/// Everything but the shadow register file is unchanged.
pub open spec fn frame_alu(pre: Cpu, post: Cpu) -> bool {
    &&& post.pc == pre.pc
    &&& post.next_pc == pre.next_pc
    &&& post.current_pc == pre.current_pc
    &&& post.regs == pre.regs
    &&& post.lo == pre.lo
    &&& post.hi == pre.hi
    &&& post.cop == pre.cop
    &&& post.pending_load == pre.pending_load
    &&& post.pending_branch == pre.pending_branch
    &&& post.branch_delay_slot == pre.branch_delay_slot
}

/// The instruction wrote `val` to register `idx` (discarded for register
/// 0) and touched nothing else.
pub open spec fn writes_reg(pre: Cpu, post: Cpu, idx: u32, val: u32) -> bool {
    &&& post.out_regs@ == reg_write(pre.out_regs@, idx, val)
    &&& frame_alu(pre, post)
}

/// Everything but LO and HI is unchanged.
pub open spec fn frame_lo_hi(pre: Cpu, post: Cpu) -> bool {
    &&& post.pc == pre.pc
    &&& post.next_pc == pre.next_pc
    &&& post.current_pc == pre.current_pc
    &&& post.regs == pre.regs
    &&& post.out_regs == pre.out_regs
    &&& post.cop == pre.cop
    &&& post.pending_load == pre.pending_load
    &&& post.pending_branch == pre.pending_branch
    &&& post.branch_delay_slot == pre.branch_delay_slot
}

/// The instruction set LO and HI and touched nothing else.
pub open spec fn sets_lo_hi(pre: Cpu, post: Cpu, lo: u32, hi: u32) -> bool {
    &&& post.lo == lo
    &&& post.hi == hi
    &&& frame_lo_hi(pre, post)
}

/// Everything but `next_pc`, `pending_branch` and the shadow register
/// file is unchanged (jumps may also link).
pub open spec fn frame_branch(pre: Cpu, post: Cpu) -> bool {
    &&& post.pc == pre.pc
    &&& post.current_pc == pre.current_pc
    &&& post.regs == pre.regs
    &&& post.lo == pre.lo
    &&& post.hi == pre.hi
    &&& post.cop == pre.cop
    &&& post.pending_load == pre.pending_load
    &&& post.branch_delay_slot == pre.branch_delay_slot
}

/// The instruction redirected `next_pc` to `target` without linking.
pub open spec fn jumps_to(pre: Cpu, post: Cpu, target: u32) -> bool {
    &&& post.next_pc == target
    &&& post.pending_branch == true
    &&& post.out_regs == pre.out_regs
    &&& frame_branch(pre, post)
}

/// Everything but the shadow register file and the pending-load slot is
/// unchanged.
pub open spec fn frame_load(pre: Cpu, post: Cpu) -> bool {
    &&& post.pc == pre.pc
    &&& post.next_pc == pre.next_pc
    &&& post.current_pc == pre.current_pc
    &&& post.regs == pre.regs
    &&& post.lo == pre.lo
    &&& post.hi == pre.hi
    &&& post.cop == pre.cop
    &&& post.pending_branch == pre.pending_branch
    &&& post.branch_delay_slot == pre.branch_delay_slot
}

/// A new load was enqueued.  An older pending load to a different
/// register becomes visible first; one to the same register is discarded,
/// never reaching the register file.
pub open spec fn chain_rel(pre: Cpu, post: Cpu, nl: LoadDelay) -> bool {
    &&& post.pending_load == Option::Some(nl)
    &&& post.out_regs@ == (match pre.pending_load {
        Option::Some(l) => if l.target_reg != nl.target_reg {
            reg_write(pre.out_regs@, l.target_reg.0, l.val)
        } else {
            pre.out_regs@
        },
        Option::None => pre.out_regs@,
    })
    &&& frame_load(pre, post)
}

/// Exception entry: the mode stack is pushed, the cause code recorded,
/// the faulting address saved in EPC, and control moves to the handler
/// that the status register's BEV bit selects.
pub open spec fn exception_rel(pre: Cpu, post: Cpu, e: Exception) -> bool {
    let h = handler_spec(vector_spec(pre.cop.sr), ExceptionClass::General);
    &&& post.pc == h
    &&& post.next_pc == h.wrapping_add(4)
    &&& post.cop.sr == push_mode_spec(pre.cop.sr)
    &&& post.cop.cause == set_cause_spec(pre.cop.cause, e)
    &&& post.cop.epc == pre.current_pc
    &&& post.current_pc == pre.current_pc
    &&& post.regs == pre.regs
    &&& post.out_regs == pre.out_regs
    &&& post.lo == pre.lo
    &&& post.hi == pre.hi
    &&& post.pending_load == pre.pending_load
    &&& post.pending_branch == pre.pending_branch
    &&& post.branch_delay_slot == pre.branch_delay_slot
}

impl Cpu {
    /// A CPU at architectural reset: the program counter at the BIOS
    /// entry point, register 0 zero, every other register at a sentinel
    /// (real hardware leaves them undefined), and both register files in
    /// agreement.
    pub fn new() -> (r: Cpu)
        ensures
            r.wf(),
            r.pc == BIOS_START,
            r.next_pc == BIOS_START + 4,
            r.current_pc == BIOS_START,
            r.regs@[0] == 0,
            forall|i: int| 1 <= i < 32 ==> r.regs@[i] == 0xdead_beef,
            r.out_regs == r.regs,
            r.lo == 0,
            r.hi == 0,
            r.cop.sr == 0,
            r.cop.cause == 0,
            r.cop.epc == 0,
            r.pending_load is None,
            r.pending_branch == false,
            r.branch_delay_slot == false,
    {
        let mut regs = [0xdead_beefu32; 32];
        regs[0] = 0;
        Cpu {
            pc: BIOS_START,
            next_pc: BIOS_START.wrapping_add(4),
            current_pc: BIOS_START,
            regs,
            out_regs: regs,
            lo: 0,
            hi: 0,
            cop: Cop0::new(),
            pending_load: Option::None,
            pending_branch: false,
            branch_delay_slot: false,
        }
    }

    /// Read a general-purpose register.
    fn reg(&self, idx: RegisterIndex) -> (r: u32)
        requires
            idx.0 < 32,
        ensures
            r == self.regs@[idx.0 as int],
    {
        let RegisterIndex(i) = idx;
        self.regs[i as usize]
    }

    /// Write a general-purpose register in the shadow file.  Writes to
    /// register 0 are discarded.
    fn set_reg(&mut self, idx: RegisterIndex, val: u32)
        requires
            idx.0 < 32,
        ensures
            final(self).out_regs@ == reg_write(old(self).out_regs@, idx.0, val),
            final(self).pc == old(self).pc,
            final(self).next_pc == old(self).next_pc,
            final(self).current_pc == old(self).current_pc,
            final(self).regs == old(self).regs,
            final(self).lo == old(self).lo,
            final(self).hi == old(self).hi,
            final(self).cop == old(self).cop,
            final(self).pending_load == old(self).pending_load,
            final(self).pending_branch == old(self).pending_branch,
            final(self).branch_delay_slot == old(self).branch_delay_slot,
    {
        let RegisterIndex(i) = idx;
        if i != 0 {
            self.out_regs[i as usize] = val;
        }
    }

    /// Make a pending load architecturally visible and clear the slot.
    fn handle_pending_load(&mut self)
        requires
            old(self).wf(),
        ensures
            final(self).pending_load is None,
            final(self).out_regs@ == (match old(self).pending_load {
                Option::Some(l) => reg_write(old(self).out_regs@, l.target_reg.0, l.val),
                Option::None => old(self).out_regs@,
            }),
            frame_load(*old(self), *final(self)),
    {
        match self.pending_load {
            Option::Some(pending_load) => {
                let reg = pending_load.target_reg;
                let val = pending_load.val;
                self.set_reg(reg, val);
                self.pending_load = Option::None;
            },
            Option::None => {},
        }
    }

    /// Enqueue a new pending load.  An older one to a different register
    /// is committed first; one to the same register is discarded, matching
    /// the hardware, where the first of two consecutive loads to one
    /// register never becomes visible.
    fn chain_pending_load(&mut self, new_load: LoadDelay)
        requires
            old(self).wf(),
            new_load.target_reg.0 < 32,
        ensures
            chain_rel(*old(self), *final(self), new_load),
    {
        match self.pending_load {
            Option::Some(already_pending) => {
                if already_pending.target_reg != new_load.target_reg {
                    let reg = already_pending.target_reg;
                    let val = already_pending.val;
                    self.set_reg(reg, val);
                }
            },
            Option::None => {},
        }
        self.pending_load = Option::Some(new_load);
    }

    /// Redirect `next_pc` by a word offset relative to the current
    /// instruction's successor.
    fn branch(&mut self, offset: u32)
        ensures
            final(self).next_pc == old(self).pc.wrapping_add((offset << 2u32)),
            final(self).pending_branch == old(self).pending_branch,
            final(self).out_regs == old(self).out_regs,
            frame_branch(*old(self), *final(self)),
    {
        let offset = offset << 2u32;
        self.next_pc = self.pc.wrapping_add(offset);
    }

    /// Enter an exception: push the mode stack, record the cause, save
    /// EPC and jump to the handler selected by the BEV bit.
    fn exception(&mut self, cause: Exception)
        ensures
            exception_rel(*old(self), *final(self), cause),
    {
        let h = handler(self.cop.status().exception_vector(), ExceptionClass::General);
        self.cop.push_mode();
        self.cop.set_cause(cause);
        self.cop.epc = self.current_pc;
        self.pc = h;
        self.next_pc = h.wrapping_add(4);
    }

    /// Advance the program counter pair by one instruction.
    fn increment_pc(&mut self)
        ensures
            final(self).pc == old(self).next_pc,
            final(self).next_pc == old(self).next_pc.wrapping_add(4),
            final(self).current_pc == old(self).current_pc,
            final(self).regs == old(self).regs,
            final(self).out_regs == old(self).out_regs,
            final(self).lo == old(self).lo,
            final(self).hi == old(self).hi,
            final(self).cop == old(self).cop,
            final(self).pending_load == old(self).pending_load,
            final(self).pending_branch == old(self).pending_branch,
            final(self).branch_delay_slot == old(self).branch_delay_slot,
    {
        self.pc = self.next_pc;
        self.next_pc = self.next_pc.wrapping_add(4);
    }
}

/// A signed negation by two's complement, staying in 32 bits.
pub open spec fn wrap_neg(v: u32) -> u32 {
    0u32.wrapping_sub(v)
}

/// The magnitude of a word read as a signed 32-bit integer.
pub open spec fn abs_u32(v: u32) -> u32 {
    if is_neg(v) {
        wrap_neg(v)
    } else {
        v
    }
}

/// The quotient of truncating signed division, as the bits of a 32-bit
/// word: magnitudes divide, and the result is negated when exactly one
/// operand is negative.
pub open spec fn div_quot(s: u32, t: u32) -> u32
    recommends
        t != 0,
{
    if is_neg(s) == is_neg(t) {
        abs_u32(s) / abs_u32(t)
    } else {
        wrap_neg(abs_u32(s) / abs_u32(t))
    }
}

/// The remainder of truncating signed division: it carries the sign of
/// the dividend.
pub open spec fn div_rem(s: u32, t: u32) -> u32
    recommends
        t != 0,
{
    if is_neg(s) {
        wrap_neg(abs_u32(s) % abs_u32(t))
    } else {
        abs_u32(s) % abs_u32(t)
    }
}

/// A word read as a signed 32-bit integer.
pub open spec fn as_signed(v: u32) -> int {
    if is_neg(v) {
        v - 0x1_0000_0000
    } else {
        v as int
    }
}

/// The two's-complement magnitude really is the signed reading's absolute
/// value.
pub proof fn lemma_abs_u32_exact(v: u32)
    ensures
        abs_u32(v) == vstd::math::abs(as_signed(v)),
{
}

/// The signed comparison on words agrees with the signed readings.
pub proof fn lemma_signed_lt_exact(a: u32, b: u32)
    ensures
        signed_lt(a, b) <==> as_signed(a) < as_signed(b),
{
}

/// The overflow test of ADD and ADDI is exact: it trips precisely when
/// the true signed sum leaves 32 bits, and otherwise the wrapped sum
/// reads as the true sum.
pub proof fn lemma_sadd_overflows_exact(a: u32, b: u32)
    ensures
        sadd_overflows(a, b) <==> !(-0x8000_0000 <= as_signed(a) + as_signed(b) <= 0x7fff_ffff),
        !sadd_overflows(a, b) ==> as_signed(a.wrapping_add(b)) == as_signed(a) + as_signed(b),
{
}

/// The overflow test of SUB is exact in the same way.
pub proof fn lemma_ssub_overflows_exact(a: u32, b: u32)
    ensures
        ssub_overflows(a, b) <==> !(-0x8000_0000 <= as_signed(a) - as_signed(b) <= 0x7fff_ffff),
        !ssub_overflows(a, b) ==> as_signed(a.wrapping_sub(b)) == as_signed(a) - as_signed(b),
{
}

/// Sign extension of a halfword reads as the same signed value.
pub proof fn lemma_sign_ext16_exact(v: u32)
    requires
        v < 0x10000,
    ensures
        as_signed(sign_ext16(v)) == (if v < 0x8000 {
            v as int
        } else {
            v - 0x1_0000
        }),
{
    assert(v < 0x10000 ==> (v & 0xffff) == v && ((v & 0x8000 == 0) <==> v < 0x8000))
        by (bit_vector);
    assert(v < 0x10000 && v >= 0x8000 ==> (v | 0xffff_0000) == v + 0xffff_0000) by (bit_vector);
}

/// Sign extension of a byte reads as the same signed value.
pub proof fn lemma_sign_ext8_exact(v: u32)
    requires
        v < 0x100,
    ensures
        as_signed(sign_ext8(v)) == (if v < 0x80 {
            v as int
        } else {
            v - 0x100
        }),
{
    assert(v < 0x100 ==> (v & 0xff) == v && ((v & 0x80 == 0) <==> v < 0x80)) by (bit_vector);
    assert(v < 0x100 && v >= 0x80 ==> (v | 0xffff_ff00) == v + 0xffff_ff00) by (bit_vector);
}

/// Away from the architectural special cases, DIV's quotient and
/// remainder words read back as truncating signed division: the
/// reconstruction identity holds, the remainder is smaller than the
/// divisor and carries the dividend's sign.  Those three facts determine
/// the quotient uniquely.
pub proof fn lemma_signed_division_exact(s: u32, t: u32)
    requires
        t != 0,
        !(s == 0x8000_0000 && t == 0xffff_ffff),
    ensures
        as_signed(t) * as_signed(div_quot(s, t)) + as_signed(div_rem(s, t)) == as_signed(s),
        vstd::math::abs(as_signed(div_rem(s, t))) < vstd::math::abs(as_signed(t)),
        as_signed(s) >= 0 ==> as_signed(div_rem(s, t)) >= 0,
        as_signed(s) < 0 ==> as_signed(div_rem(s, t)) <= 0,
{
    let sa = abs_u32(s) as int;
    let ta = abs_u32(t) as int;
    lemma_abs_u32_exact(s);
    lemma_abs_u32_exact(t);
    assert(1 <= ta <= 0x8000_0000);
    assert(0 <= sa <= 0x8000_0000);
    let uq = sa / ta;
    let ur = sa % ta;
    vstd::arithmetic::div_mod::lemma_fundamental_div_mod(sa, ta);
    vstd::arithmetic::div_mod::lemma_mod_bound(sa, ta);
    vstd::arithmetic::div_mod::lemma_div_nonincreasing(sa, ta);
    assert(uq >= 0) by (nonlinear_arith)
        requires
            sa >= 0,
            ta >= 1,
            sa == ta * uq + ur,
            ur < ta,
    ;
    assert(abs_u32(s) / abs_u32(t) == uq);
    assert(abs_u32(s) % abs_u32(t) == ur);
    assert(wrap_neg((uq) as u32) == (if uq == 0 {
        0
    } else {
        0x1_0000_0000 - uq
    }));
    assert(as_signed(wrap_neg((uq) as u32)) == -uq);
    assert(as_signed(wrap_neg((ur) as u32)) == -ur);
    if is_neg(s) && is_neg(t) {
        // the one overflowing quotient is excluded, so uq stays below 2^31
        if ta == 1 {
            assert(t == 0xffff_ffff);
            assert(s != 0x8000_0000);
            assert(ta * uq == uq) by (nonlinear_arith)
                requires
                    ta == 1,
            ;
            assert(uq == sa);
        } else {
            assert(ta * uq >= 2 * uq) by (nonlinear_arith)
                requires
                    ta >= 2,
                    uq >= 0,
            ;
        }
        assert(uq < 0x8000_0000);
        assert(as_signed(div_quot(s, t)) == uq);
        assert(as_signed(div_rem(s, t)) == -ur);
        assert((-ta) * uq == -(ta * uq)) by (nonlinear_arith);
        assert(as_signed(t) * as_signed(div_quot(s, t)) == (-ta) * uq);
    } else if is_neg(s) {
        assert(as_signed(div_quot(s, t)) == -uq);
        assert(as_signed(div_rem(s, t)) == -ur);
        assert(ta * (-uq) == -(ta * uq)) by (nonlinear_arith);
        assert(as_signed(t) * as_signed(div_quot(s, t)) == ta * (-uq));
    } else if is_neg(t) {
        assert(as_signed(div_quot(s, t)) == -uq);
        assert(as_signed(div_rem(s, t)) == ur);
        assert((-ta) * (-uq) == ta * uq) by (nonlinear_arith);
        assert(as_signed(t) * as_signed(div_quot(s, t)) == (-ta) * (-uq));
    } else {
        assert(as_signed(div_quot(s, t)) == uq);
        assert(as_signed(div_rem(s, t)) == ur);
        assert(as_signed(t) * as_signed(div_quot(s, t)) == ta * uq);
    }
}

/// The value register `idx` holds in the architectural file.
pub open spec fn reg_val(c: Cpu, idx: u32) -> u32 {
    c.regs@[idx as int]
}

/// The `rs` operand of an instruction word.
pub open spec fn rs_val(c: Cpu, i: u32) -> u32 {
    reg_val(c, rs_spec(i))
}

/// The `rt` operand of an instruction word.
pub open spec fn rt_val(c: Cpu, i: u32) -> u32 {
    reg_val(c, rt_spec(i))
}

/// LUI: the immediate moves into the register's upper half, the lower
/// half clears.
pub open spec fn lui_rel(pre: Cpu, post: Cpu, i: u32) -> bool {
    writes_reg(pre, post, rt_spec(i), (imm_spec(i) << 16u32))
}

/// ORI: bitwise or with the zero-extended immediate.
pub open spec fn ori_rel(pre: Cpu, post: Cpu, i: u32) -> bool {
    writes_reg(pre, post, rt_spec(i), rs_val(pre, i) | imm_spec(i))
}

/// ANDI: bitwise and with the zero-extended immediate.
pub open spec fn andi_rel(pre: Cpu, post: Cpu, i: u32) -> bool {
    writes_reg(pre, post, rt_spec(i), rs_val(pre, i) & imm_spec(i))
}

/// OR: bitwise or of two registers.
pub open spec fn or_rel(pre: Cpu, post: Cpu, i: u32) -> bool {
    writes_reg(pre, post, rd_spec(i), rs_val(pre, i) | rt_val(pre, i))
}

/// AND: bitwise and of two registers.
pub open spec fn and_rel(pre: Cpu, post: Cpu, i: u32) -> bool {
    writes_reg(pre, post, rd_spec(i), rs_val(pre, i) & rt_val(pre, i))
}

/// NOR: the complement of the bitwise or.
pub open spec fn nor_rel(pre: Cpu, post: Cpu, i: u32) -> bool {
    writes_reg(pre, post, rd_spec(i), 0xffff_ffffu32 ^ (rs_val(pre, i) | rt_val(pre, i)))
}

/// SLL: logical shift left by the immediate shift amount.
pub open spec fn sll_rel(pre: Cpu, post: Cpu, i: u32) -> bool {
    writes_reg(pre, post, rd_spec(i), (rt_val(pre, i) << shamt_spec(i)))
}

/// SRL: logical shift right by the immediate shift amount.
pub open spec fn srl_rel(pre: Cpu, post: Cpu, i: u32) -> bool {
    writes_reg(pre, post, rd_spec(i), (rt_val(pre, i) >> shamt_spec(i)))
}

/// SRA: arithmetic shift right by the immediate shift amount.
pub open spec fn sra_rel(pre: Cpu, post: Cpu, i: u32) -> bool {
    writes_reg(pre, post, rd_spec(i), sra_spec(rt_val(pre, i), shamt_spec(i)))
}

/// SLLV: logical shift left by the low five bits of `rs`.
pub open spec fn sllv_rel(pre: Cpu, post: Cpu, i: u32) -> bool {
    writes_reg(pre, post, rd_spec(i), (rt_val(pre, i) << (rs_val(pre, i) & 0x1f)))
}

/// SRLV: logical shift right by the low five bits of `rs`.
pub open spec fn srlv_rel(pre: Cpu, post: Cpu, i: u32) -> bool {
    writes_reg(pre, post, rd_spec(i), (rt_val(pre, i) >> (rs_val(pre, i) & 0x1f)))
}

/// SRAV: arithmetic shift right by the low five bits of `rs`.
pub open spec fn srav_rel(pre: Cpu, post: Cpu, i: u32) -> bool {
    writes_reg(pre, post, rd_spec(i), sra_spec(rt_val(pre, i), rs_val(pre, i) & 0x1f))
}

/// ADD: signed addition; overflow raises the overflow exception and
/// writes nothing.
pub open spec fn add_rel(pre: Cpu, post: Cpu, i: u32) -> bool {
    let s = rs_val(pre, i);
    let t = rt_val(pre, i);
    if sadd_overflows(s, t) {
        exception_rel(pre, post, Exception::Overflow)
    } else {
        writes_reg(pre, post, rd_spec(i), s.wrapping_add(t))
    }
}

/// ADDU: wrapping addition.
pub open spec fn addu_rel(pre: Cpu, post: Cpu, i: u32) -> bool {
    writes_reg(pre, post, rd_spec(i), rs_val(pre, i).wrapping_add(rt_val(pre, i)))
}

/// ADDI: signed addition of the sign-extended immediate; overflow raises
/// the overflow exception and writes nothing.
pub open spec fn addi_rel(pre: Cpu, post: Cpu, i: u32) -> bool {
    let s = rs_val(pre, i);
    let imm = imm_se_spec(i);
    if sadd_overflows(s, imm) {
        exception_rel(pre, post, Exception::Overflow)
    } else {
        writes_reg(pre, post, rt_spec(i), s.wrapping_add(imm))
    }
}

/// ADDIU: wrapping addition of the sign-extended immediate.
pub open spec fn addiu_rel(pre: Cpu, post: Cpu, i: u32) -> bool {
    writes_reg(pre, post, rt_spec(i), rs_val(pre, i).wrapping_add(imm_se_spec(i)))
}

/// SUB: signed subtraction; overflow raises the overflow exception and
/// writes nothing.
pub open spec fn sub_rel(pre: Cpu, post: Cpu, i: u32) -> bool {
    let s = rs_val(pre, i);
    let t = rt_val(pre, i);
    if ssub_overflows(s, t) {
        exception_rel(pre, post, Exception::Overflow)
    } else {
        writes_reg(pre, post, rd_spec(i), s.wrapping_sub(t))
    }
}

/// SUBU: wrapping subtraction.
pub open spec fn subu_rel(pre: Cpu, post: Cpu, i: u32) -> bool {
    writes_reg(pre, post, rd_spec(i), rs_val(pre, i).wrapping_sub(rt_val(pre, i)))
}

/// SLT: one when `rs` is below `rt` in the signed order, else zero.
pub open spec fn slt_rel(pre: Cpu, post: Cpu, i: u32) -> bool {
    writes_reg(
        pre,
        post,
        rd_spec(i),
        if signed_lt(rs_val(pre, i), rt_val(pre, i)) {
            1
        } else {
            0
        },
    )
}

/// SLTU: one when `rs` is below `rt` in the unsigned order, else zero.
pub open spec fn sltu_rel(pre: Cpu, post: Cpu, i: u32) -> bool {
    writes_reg(
        pre,
        post,
        rd_spec(i),
        if rs_val(pre, i) < rt_val(pre, i) {
            1
        } else {
            0
        },
    )
}

/// SLTI: the signed comparison against the sign-extended immediate.
pub open spec fn slti_rel(pre: Cpu, post: Cpu, i: u32) -> bool {
    writes_reg(
        pre,
        post,
        rt_spec(i),
        if signed_lt(rs_val(pre, i), imm_se_spec(i)) {
            1
        } else {
            0
        },
    )
}

/// SLTIU: the unsigned comparison, still against the sign-extended
/// immediate — the extension is intentional even here.
pub open spec fn sltiu_rel(pre: Cpu, post: Cpu, i: u32) -> bool {
    writes_reg(
        pre,
        post,
        rt_spec(i),
        if rs_val(pre, i) < imm_se_spec(i) {
            1
        } else {
            0
        },
    )
}

/// DIV: signed division into LO (quotient) and HI (remainder), with the
/// architectural special cases for division by zero and for the one
/// overflowing quotient.
pub open spec fn div_rel(pre: Cpu, post: Cpu, i: u32) -> bool {
    let s = rs_val(pre, i);
    let t = rt_val(pre, i);
    if t == 0 && !is_neg(s) {
        sets_lo_hi(pre, post, 0xffff_ffff, s)
    } else if t == 0 {
        sets_lo_hi(pre, post, 1, s)
    } else if s == 0x8000_0000 && t == 0xffff_ffff {
        sets_lo_hi(pre, post, 0x8000_0000, 0)
    } else {
        sets_lo_hi(pre, post, div_quot(s, t), div_rem(s, t))
    }
}

/// DIVU: unsigned division into LO and HI; division by zero yields
/// all-ones and the numerator.
pub open spec fn divu_rel(pre: Cpu, post: Cpu, i: u32) -> bool {
    let s = rs_val(pre, i);
    let t = rt_val(pre, i);
    if t == 0 {
        sets_lo_hi(pre, post, 0xffff_ffff, s)
    } else {
        sets_lo_hi(pre, post, s / t, s % t)
    }
}

/// MFLO: LO moves into `rd`.
pub open spec fn mflo_rel(pre: Cpu, post: Cpu, i: u32) -> bool {
    writes_reg(pre, post, rd_spec(i), pre.lo)
}

/// MFHI: HI moves into `rd`.
pub open spec fn mfhi_rel(pre: Cpu, post: Cpu, i: u32) -> bool {
    writes_reg(pre, post, rd_spec(i), pre.hi)
}

/// MTLO: `rs` moves into LO.
pub open spec fn mtlo_rel(pre: Cpu, post: Cpu, i: u32) -> bool {
    sets_lo_hi(pre, post, rs_val(pre, i), pre.hi)
}

/// MTHI: `rs` moves into HI.
pub open spec fn mthi_rel(pre: Cpu, post: Cpu, i: u32) -> bool {
    sets_lo_hi(pre, post, pre.lo, rs_val(pre, i))
}

/// The target of a region-relative jump: the jump field, word-indexed,
/// within the current 256 MiB region.
pub open spec fn jump_target(pc: u32, i: u32) -> u32 {
    (pc & 0xf000_0000) | (addr_spec(i) << 2u32)
}

/// The target of a conditional branch: a signed word offset from the
/// instruction's successor.
pub open spec fn branch_target(pc: u32, i: u32) -> u32 {
    pc.wrapping_add((imm_se_spec(i) << 2u32))
}

/// J: unconditional jump within the current region; the following
/// instruction occupies the delay slot.
pub open spec fn j_rel(pre: Cpu, post: Cpu, i: u32) -> bool {
    jumps_to(pre, post, jump_target(pre.pc, i))
}

/// JAL: jump and link: the return address (past the delay slot) lands in
/// the return-address register.
pub open spec fn jal_rel(pre: Cpu, post: Cpu, i: u32) -> bool {
    &&& post.next_pc == jump_target(pre.pc, i)
    &&& post.pending_branch == true
    &&& post.out_regs@ == reg_write(pre.out_regs@, RA, pre.next_pc)
    &&& frame_branch(pre, post)
}

/// JR: jump to the address in `rs`.
pub open spec fn jr_rel(pre: Cpu, post: Cpu, i: u32) -> bool {
    jumps_to(pre, post, rs_val(pre, i))
}

/// JALR: jump to the address in `rs`, linking into `rd` — or into the
/// return-address register when the `rd` field is zero.
pub open spec fn jalr_rel(pre: Cpu, post: Cpu, i: u32) -> bool {
    let link = if rd_spec(i) == 0 {
        RA
    } else {
        rd_spec(i)
    };
    &&& post.next_pc == rs_val(pre, i)
    &&& post.pending_branch == true
    &&& post.out_regs@ == reg_write(pre.out_regs@, link, pre.next_pc)
    &&& frame_branch(pre, post)
}

/// A conditional branch: taken, it redirects `next_pc` to the branch
/// target; either way the next instruction sits in the delay slot.
pub open spec fn cond_branch_rel(pre: Cpu, post: Cpu, i: u32, taken: bool) -> bool {
    &&& post.next_pc == (if taken {
        branch_target(pre.pc, i)
    } else {
        pre.next_pc
    })
    &&& post.pending_branch == true
    &&& post.out_regs == pre.out_regs
    &&& frame_branch(pre, post)
}

/// BEQ: branch when the operands are equal.
pub open spec fn beq_rel(pre: Cpu, post: Cpu, i: u32) -> bool {
    cond_branch_rel(pre, post, i, rs_val(pre, i) == rt_val(pre, i))
}

/// BNE: branch when the operands differ.
pub open spec fn bne_rel(pre: Cpu, post: Cpu, i: u32) -> bool {
    cond_branch_rel(pre, post, i, rs_val(pre, i) != rt_val(pre, i))
}

/// BLEZ: branch when `rs` is at most zero, signed.
pub open spec fn blez_rel(pre: Cpu, post: Cpu, i: u32) -> bool {
    cond_branch_rel(pre, post, i, rs_val(pre, i) == 0 || is_neg(rs_val(pre, i)))
}

/// BGTZ: branch when `rs` is above zero, signed.
pub open spec fn bgtz_rel(pre: Cpu, post: Cpu, i: u32) -> bool {
    cond_branch_rel(pre, post, i, !is_neg(rs_val(pre, i)) && rs_val(pre, i) != 0)
}

/// BcondZ: the `rt` field picks the variant.  Its low bit selects
/// branch-on-negative against branch-on-non-negative; the `0x1e` mask
/// equal to `0x10` selects the linking variants, which write the current
/// program counter into the return-address register whether or not the
/// branch is taken.
pub open spec fn bcondz_rel(pre: Cpu, post: Cpu, i: u32) -> bool {
    let d = rt_spec(i);
    let s = rs_val(pre, i);
    let taken = if d & 1 == 0 {
        is_neg(s)
    } else {
        !is_neg(s)
    };
    &&& post.next_pc == (if taken {
        branch_target(pre.pc, i)
    } else {
        pre.next_pc
    })
    &&& post.pending_branch == true
    &&& post.out_regs@ == (if d & 0x1e == 0x10 {
        reg_write(pre.out_regs@, RA, pre.pc)
    } else {
        pre.out_regs@
    })
    &&& frame_branch(pre, post)
}

/// SYSCALL: enter the syscall exception.
pub open spec fn syscall_rel(pre: Cpu, post: Cpu) -> bool {
    exception_rel(pre, post, Exception::Syscall)
}

/// The low five bits of a word, bounded for use as a shift amount.
fn shift_mask(v: u32) -> (r: u32)
    ensures
        r == (v & 0x1f),
        r < 32,
{
    proof {
        assert(v & 0x1f < 32) by (bit_vector);
    }
    v & 0x1f
}

/// Arithmetic shift right in executable code.
fn sra_exec(v: u32, sh: u32) -> (r: u32)
    requires
        sh < 32,
    ensures
        r == sra_spec(v, sh),
{
    if sh == 0 {
        v
    } else if v >= 0x8000_0000 {
        (v >> sh) | (0xffff_ffffu32 << (32 - sh))
    } else {
        v >> sh
    }
}

impl Cpu {
    /// Load upper immediate.
    fn op_lui(&mut self, inst: Instruction)
        requires
            old(self).wf(),
        ensures
            final(self).wf(),
            lui_rel(*old(self), *final(self), inst.0),
    {
        let i = inst.imm();
        let rt = inst.rt();
        let val = i << 16u32;
        self.set_reg(rt, val);
    }

    /// Bitwise or immediate.
    fn op_ori(&mut self, inst: Instruction)
        requires
            old(self).wf(),
        ensures
            final(self).wf(),
            ori_rel(*old(self), *final(self), inst.0),
    {
        let i = inst.imm();
        let rt = inst.rt();
        let rs = inst.rs();
        let s = self.reg(rs);
        self.set_reg(rt, s | i);
    }

    /// Bitwise and immediate.
    fn op_andi(&mut self, inst: Instruction)
        requires
            old(self).wf(),
        ensures
            final(self).wf(),
            andi_rel(*old(self), *final(self), inst.0),
    {
        let i = inst.imm();
        let rt = inst.rt();
        let rs = inst.rs();
        let s = self.reg(rs);
        self.set_reg(rt, s & i);
    }

    /// Bitwise or.
    fn op_or(&mut self, inst: Instruction)
        requires
            old(self).wf(),
        ensures
            final(self).wf(),
            or_rel(*old(self), *final(self), inst.0),
    {
        let rd = inst.rd();
        let s = self.reg(inst.rs());
        let t = self.reg(inst.rt());
        self.set_reg(rd, s | t);
    }

    /// Bitwise and.
    fn op_and(&mut self, inst: Instruction)
        requires
            old(self).wf(),
        ensures
            final(self).wf(),
            and_rel(*old(self), *final(self), inst.0),
    {
        let rd = inst.rd();
        let s = self.reg(inst.rs());
        let t = self.reg(inst.rt());
        self.set_reg(rd, s & t);
    }

    /// Bitwise nor.
    fn op_nor(&mut self, inst: Instruction)
        requires
            old(self).wf(),
        ensures
            final(self).wf(),
            nor_rel(*old(self), *final(self), inst.0),
    {
        let rd = inst.rd();
        let s = self.reg(inst.rs());
        let t = self.reg(inst.rt());
        self.set_reg(rd, 0xffff_ffffu32 ^ (s | t));
    }

    /// Shift left logical.
    fn op_sll(&mut self, inst: Instruction)
        requires
            old(self).wf(),
        ensures
            final(self).wf(),
            sll_rel(*old(self), *final(self), inst.0),
    {
        let i = inst.shamt();
        let rd = inst.rd();
        let t = self.reg(inst.rt());
        self.set_reg(rd, t << i);
    }

    /// Shift right logical.
    fn op_srl(&mut self, inst: Instruction)
        requires
            old(self).wf(),
        ensures
            final(self).wf(),
            srl_rel(*old(self), *final(self), inst.0),
    {
        let i = inst.shamt();
        let rd = inst.rd();
        let t = self.reg(inst.rt());
        self.set_reg(rd, t >> i);
    }

    /// Shift right arithmetic.
    fn op_sra(&mut self, inst: Instruction)
        requires
            old(self).wf(),
        ensures
            final(self).wf(),
            sra_rel(*old(self), *final(self), inst.0),
    {
        let i = inst.shamt();
        let rd = inst.rd();
        let t = self.reg(inst.rt());
        let val = sra_exec(t, i);
        self.set_reg(rd, val);
    }

    /// Shift left logical variable.
    fn op_sllv(&mut self, inst: Instruction)
        requires
            old(self).wf(),
        ensures
            final(self).wf(),
            sllv_rel(*old(self), *final(self), inst.0),
    {
        let rd = inst.rd();
        let t = self.reg(inst.rt());
        let s = self.reg(inst.rs());
        let sh = shift_mask(s);
        self.set_reg(rd, t << sh);
    }

    /// Shift right logical variable.
    fn op_srlv(&mut self, inst: Instruction)
        requires
            old(self).wf(),
        ensures
            final(self).wf(),
            srlv_rel(*old(self), *final(self), inst.0),
    {
        let rd = inst.rd();
        let t = self.reg(inst.rt());
        let s = self.reg(inst.rs());
        let sh = shift_mask(s);
        self.set_reg(rd, t >> sh);
    }

    /// Shift right arithmetic variable.
    fn op_srav(&mut self, inst: Instruction)
        requires
            old(self).wf(),
        ensures
            final(self).wf(),
            srav_rel(*old(self), *final(self), inst.0),
    {
        let rd = inst.rd();
        let t = self.reg(inst.rt());
        let s = self.reg(inst.rs());
        let sh = shift_mask(s);
        let val = sra_exec(t, sh);
        self.set_reg(rd, val);
    }

    /// Add with overflow trap.
    fn op_add(&mut self, inst: Instruction)
        requires
            old(self).wf(),
        ensures
            final(self).wf(),
            add_rel(*old(self), *final(self), inst.0),
    {
        let rd = inst.rd();
        let s = self.reg(inst.rs());
        let t = self.reg(inst.rt());
        let sum = s.wrapping_add(t);
        if (s >= 0x8000_0000) == (t >= 0x8000_0000) && (sum >= 0x8000_0000) != (s >= 0x8000_0000) {
            self.exception(Exception::Overflow);
        } else {
            self.set_reg(rd, sum);
        }
    }

    /// Add unsigned (wrapping).
    fn op_addu(&mut self, inst: Instruction)
        requires
            old(self).wf(),
        ensures
            final(self).wf(),
            addu_rel(*old(self), *final(self), inst.0),
    {
        let rd = inst.rd();
        let s = self.reg(inst.rs());
        let t = self.reg(inst.rt());
        self.set_reg(rd, s.wrapping_add(t));
    }

    /// Add immediate with overflow trap.
    fn op_addi(&mut self, inst: Instruction)
        requires
            old(self).wf(),
        ensures
            final(self).wf(),
            addi_rel(*old(self), *final(self), inst.0),
    {
        let i = inst.imm_se();
        let rt = inst.rt();
        let s = self.reg(inst.rs());
        let sum = s.wrapping_add(i);
        if (s >= 0x8000_0000) == (i >= 0x8000_0000) && (sum >= 0x8000_0000) != (s >= 0x8000_0000) {
            self.exception(Exception::Overflow);
        } else {
            self.set_reg(rt, sum);
        }
    }

    /// Add immediate unsigned (wrapping).
    fn op_addiu(&mut self, inst: Instruction)
        requires
            old(self).wf(),
        ensures
            final(self).wf(),
            addiu_rel(*old(self), *final(self), inst.0),
    {
        let i = inst.imm_se();
        let rt = inst.rt();
        let s = self.reg(inst.rs());
        self.set_reg(rt, s.wrapping_add(i));
    }

    /// Subtract with overflow trap.
    fn op_sub(&mut self, inst: Instruction)
        requires
            old(self).wf(),
        ensures
            final(self).wf(),
            sub_rel(*old(self), *final(self), inst.0),
    {
        let rd = inst.rd();
        let s = self.reg(inst.rs());
        let t = self.reg(inst.rt());
        let diff = s.wrapping_sub(t);
        if (s >= 0x8000_0000) != (t >= 0x8000_0000) && (diff >= 0x8000_0000) != (s >= 0x8000_0000) {
            self.exception(Exception::Overflow);
        } else {
            self.set_reg(rd, diff);
        }
    }

    /// Subtract unsigned (wrapping).
    fn op_subu(&mut self, inst: Instruction)
        requires
            old(self).wf(),
        ensures
            final(self).wf(),
            subu_rel(*old(self), *final(self), inst.0),
    {
        let rd = inst.rd();
        let s = self.reg(inst.rs());
        let t = self.reg(inst.rt());
        self.set_reg(rd, s.wrapping_sub(t));
    }

    /// Set on less than, signed.
    fn op_slt(&mut self, inst: Instruction)
        requires
            old(self).wf(),
        ensures
            final(self).wf(),
            slt_rel(*old(self), *final(self), inst.0),
    {
        let rd = inst.rd();
        let s = self.reg(inst.rs());
        let t = self.reg(inst.rt());
        let below = if (s >= 0x8000_0000) == (t >= 0x8000_0000) {
            s < t
        } else {
            s >= 0x8000_0000
        };
        let flag: u32 = if below {
            1
        } else {
            0
        };
        self.set_reg(rd, flag);
    }

    /// Set on less than, unsigned.
    fn op_sltu(&mut self, inst: Instruction)
        requires
            old(self).wf(),
        ensures
            final(self).wf(),
            sltu_rel(*old(self), *final(self), inst.0),
    {
        let rd = inst.rd();
        let s = self.reg(inst.rs());
        let t = self.reg(inst.rt());
        let flag: u32 = if s < t {
            1
        } else {
            0
        };
        self.set_reg(rd, flag);
    }

    /// Set on less than immediate, signed.
    fn op_slti(&mut self, inst: Instruction)
        requires
            old(self).wf(),
        ensures
            final(self).wf(),
            slti_rel(*old(self), *final(self), inst.0),
    {
        let i = inst.imm_se();
        let rt = inst.rt();
        let s = self.reg(inst.rs());
        let below = if (s >= 0x8000_0000) == (i >= 0x8000_0000) {
            s < i
        } else {
            s >= 0x8000_0000
        };
        let flag: u32 = if below {
            1
        } else {
            0
        };
        self.set_reg(rt, flag);
    }

    /// Set on less than immediate, unsigned comparison of the
    /// sign-extended immediate.
    fn op_sltiu(&mut self, inst: Instruction)
        requires
            old(self).wf(),
        ensures
            final(self).wf(),
            sltiu_rel(*old(self), *final(self), inst.0),
    {
        let i = inst.imm_se();
        let rt = inst.rt();
        let s = self.reg(inst.rs());
        let flag: u32 = if s < i {
            1
        } else {
            0
        };
        self.set_reg(rt, flag);
    }

    /// Signed division.
    fn op_div(&mut self, inst: Instruction)
        requires
            old(self).wf(),
        ensures
            final(self).wf(),
            div_rel(*old(self), *final(self), inst.0),
    {
        let s = self.reg(inst.rs());
        let t = self.reg(inst.rt());
        if t == 0 && s < 0x8000_0000 {
            self.lo = 0xffff_ffff;
            self.hi = s;
        } else if t == 0 {
            self.lo = 1;
            self.hi = s;
        } else if s == 0x8000_0000 && t == 0xffff_ffff {
            self.lo = 0x8000_0000;
            self.hi = 0;
        } else {
            let sa = if s >= 0x8000_0000 {
                0u32.wrapping_sub(s)
            } else {
                s
            };
            let ta = if t >= 0x8000_0000 {
                0u32.wrapping_sub(t)
            } else {
                t
            };
            let q = sa / ta;
            let r = sa % ta;
            self.lo = if (s >= 0x8000_0000) != (t >= 0x8000_0000) {
                0u32.wrapping_sub(q)
            } else {
                q
            };
            self.hi = if s >= 0x8000_0000 {
                0u32.wrapping_sub(r)
            } else {
                r
            };
        }
    }

    /// Unsigned division.
    fn op_divu(&mut self, inst: Instruction)
        requires
            old(self).wf(),
        ensures
            final(self).wf(),
            divu_rel(*old(self), *final(self), inst.0),
    {
        let s = self.reg(inst.rs());
        let t = self.reg(inst.rt());
        if t == 0 {
            self.lo = 0xffff_ffff;
            self.hi = s;
        } else {
            self.lo = s / t;
            self.hi = s % t;
        }
    }

    /// Move from LO.
    fn op_mflo(&mut self, inst: Instruction)
        requires
            old(self).wf(),
        ensures
            final(self).wf(),
            mflo_rel(*old(self), *final(self), inst.0),
    {
        let rd = inst.rd();
        let lo = self.lo;
        self.set_reg(rd, lo);
    }

    /// Move to LO.
    fn op_mtlo(&mut self, inst: Instruction)
        requires
            old(self).wf(),
        ensures
            final(self).wf(),
            mtlo_rel(*old(self), *final(self), inst.0),
    {
        let s = self.reg(inst.rs());
        self.lo = s;
    }

    /// Move from HI.
    fn op_mfhi(&mut self, inst: Instruction)
        requires
            old(self).wf(),
        ensures
            final(self).wf(),
            mfhi_rel(*old(self), *final(self), inst.0),
    {
        let rd = inst.rd();
        let hi = self.hi;
        self.set_reg(rd, hi);
    }

    /// Move to HI.
    fn op_mthi(&mut self, inst: Instruction)
        requires
            old(self).wf(),
        ensures
            final(self).wf(),
            mthi_rel(*old(self), *final(self), inst.0),
    {
        let s = self.reg(inst.rs());
        self.hi = s;
    }

    /// Unconditional jump.
    fn op_j(&mut self, inst: Instruction)
        requires
            old(self).wf(),
        ensures
            final(self).wf(),
            j_rel(*old(self), *final(self), inst.0),
    {
        let addr = inst.addr();
        self.next_pc = (self.pc & 0xf000_0000) | (addr << 2u32);
        self.pending_branch = true;
    }

    /// Jump and link.
    fn op_jal(&mut self, inst: Instruction)
        requires
            old(self).wf(),
        ensures
            final(self).wf(),
            jal_rel(*old(self), *final(self), inst.0),
    {
        let addr = inst.addr();
        let return_addr = self.next_pc;
        self.next_pc = (self.pc & 0xf000_0000) | (addr << 2u32);
        self.set_reg(RegisterIndex(RA), return_addr);
        self.pending_branch = true;
    }

    /// Jump to register.
    fn op_jr(&mut self, inst: Instruction)
        requires
            old(self).wf(),
        ensures
            final(self).wf(),
            jr_rel(*old(self), *final(self), inst.0),
    {
        let addr = self.reg(inst.rs());
        self.next_pc = addr;
        self.pending_branch = true;
    }

    /// Jump to register and link.
    fn op_jalr(&mut self, inst: Instruction)
        requires
            old(self).wf(),
        ensures
            final(self).wf(),
            jalr_rel(*old(self), *final(self), inst.0),
    {
        let rd = inst.rd();
        let link = if rd.0 == 0 {
            RegisterIndex(RA)
        } else {
            rd
        };
        let return_addr = self.next_pc;
        let jump_addr = self.reg(inst.rs());
        self.next_pc = jump_addr;
        self.set_reg(link, return_addr);
        self.pending_branch = true;
    }

    /// Branch if equal.
    fn op_beq(&mut self, inst: Instruction)
        requires
            old(self).wf(),
        ensures
            final(self).wf(),
            beq_rel(*old(self), *final(self), inst.0),
    {
        let i = inst.imm_se();
        let s = self.reg(inst.rs());
        let t = self.reg(inst.rt());
        if s == t {
            self.branch(i);
        }
        self.pending_branch = true;
    }

    /// Branch if not equal.
    fn op_bne(&mut self, inst: Instruction)
        requires
            old(self).wf(),
        ensures
            final(self).wf(),
            bne_rel(*old(self), *final(self), inst.0),
    {
        let i = inst.imm_se();
        let s = self.reg(inst.rs());
        let t = self.reg(inst.rt());
        if s != t {
            self.branch(i);
        }
        self.pending_branch = true;
    }

    /// Branch if less than or equal to zero, signed.
    fn op_blez(&mut self, inst: Instruction)
        requires
            old(self).wf(),
        ensures
            final(self).wf(),
            blez_rel(*old(self), *final(self), inst.0),
    {
        let i = inst.imm_se();
        let s = self.reg(inst.rs());
        if s == 0 || s >= 0x8000_0000 {
            self.branch(i);
        }
        self.pending_branch = true;
    }

    /// Branch if greater than zero, signed.
    fn op_bgtz(&mut self, inst: Instruction)
        requires
            old(self).wf(),
        ensures
            final(self).wf(),
            bgtz_rel(*old(self), *final(self), inst.0),
    {
        let i = inst.imm_se();
        let s = self.reg(inst.rs());
        if s < 0x8000_0000 && s != 0 {
            self.branch(i);
        }
        self.pending_branch = true;
    }

    /// The BLTZ / BGEZ / BLTZAL / BGEZAL family, decoded by the `rt`
    /// field.
    fn op_bcondz(&mut self, inst: Instruction)
        requires
            old(self).wf(),
        ensures
            final(self).wf(),
            bcondz_rel(*old(self), *final(self), inst.0),
    {
        let i = inst.imm_se();
        let s = self.reg(inst.rs());
        let discriminant = inst.rt().0;
        if discriminant & 0x1e == 0x10 {
            let return_addr = self.pc;
            self.set_reg(RegisterIndex(RA), return_addr);
        }
        let taken = if discriminant & 1 == 0 {
            s >= 0x8000_0000
        } else {
            s < 0x8000_0000
        };
        if taken {
            self.branch(i);
        }
        self.pending_branch = true;
    }

    /// System call.
    fn op_syscall(&mut self, _inst: Instruction)
        requires
            old(self).wf(),
        ensures
            final(self).wf(),
            syscall_rel(*old(self), *final(self)),
    {
        self.exception(Exception::Syscall);
    }
}

/// `Ok` of the unit-valued instruction results.
pub open spec fn ok_unit(r: Result<(), FatalError>) -> bool {
    r == Result::<(), FatalError>::Ok(())
}

/// The effective address of a load or store: base register plus
/// sign-extended immediate, wrapping.
pub open spec fn eff_addr(pre: Cpu, i: u32) -> u32 {
    rs_val(pre, i).wrapping_add(imm_se_spec(i))
}

/// A load instruction: suppressed entirely under cache isolation; a
/// misaligned effective address raises the load-alignment exception;
/// otherwise the loaded value (put through `ext`) enters the pending-load
/// slot, to become visible one instruction later.
pub open spec fn load_rel(
    pre: Cpu,
    post: Cpu,
    bus: Bus,
    i: u32,
    r: Result<(), FatalError>,
    w: AccessWidth,
    align: u32,
    ext: spec_fn(u32) -> u32,
) -> bool {
    if isolate_cache_spec(pre.cop.sr) {
        post == pre && ok_unit(r)
    } else {
        let addr = eff_addr(pre, i);
        if align != 1 && addr % align != 0 {
            exception_rel(pre, post, Exception::LoadAlignmentError) && ok_unit(r)
        } else {
            match bus_load_spec(bus, w, addr) {
                Result::Ok(v) => chain_rel(
                    pre,
                    post,
                    LoadDelay { target_reg: RegisterIndex(rt_spec(i)), val: ext(v) },
                ) && ok_unit(r),
                Result::Err(e) => post == pre && r == Result::<(), FatalError>::Err(e),
            }
        }
    }
}

/// LW: load word.
pub open spec fn lw_rel(pre: Cpu, post: Cpu, bus: Bus, i: u32, r: Result<(), FatalError>) -> bool {
    load_rel(pre, post, bus, i, r, AccessWidth::Word, 4, |v: u32| v)
}

/// LH: load halfword, sign-extended.
pub open spec fn lh_rel(pre: Cpu, post: Cpu, bus: Bus, i: u32, r: Result<(), FatalError>) -> bool {
    load_rel(pre, post, bus, i, r, AccessWidth::Half, 2, |v: u32| sign_ext16(v))
}

/// LHU: load halfword, zero-extended.
pub open spec fn lhu_rel(pre: Cpu, post: Cpu, bus: Bus, i: u32, r: Result<(), FatalError>) -> bool {
    load_rel(pre, post, bus, i, r, AccessWidth::Half, 2, |v: u32| v)
}

/// LB: load byte, sign-extended.  Bytes have no alignment requirement.
pub open spec fn lb_rel(pre: Cpu, post: Cpu, bus: Bus, i: u32, r: Result<(), FatalError>) -> bool {
    load_rel(pre, post, bus, i, r, AccessWidth::Byte, 1, |v: u32| sign_ext8(v))
}

/// LBU: load byte, zero-extended.
pub open spec fn lbu_rel(pre: Cpu, post: Cpu, bus: Bus, i: u32, r: Result<(), FatalError>) -> bool {
    load_rel(pre, post, bus, i, r, AccessWidth::Byte, 1, |v: u32| v)
}

/// A store instruction: suppressed entirely under cache isolation; a
/// misaligned effective address raises the store-alignment exception;
/// otherwise the `rt` value goes out over the bus, which may fault.
pub open spec fn store_rel(
    pre: Cpu,
    post: Cpu,
    bpre: Bus,
    bpost: Bus,
    i: u32,
    r: Result<(), FatalError>,
    w: AccessWidth,
    align: u32,
) -> bool {
    if isolate_cache_spec(pre.cop.sr) {
        post == pre && bpost == bpre && ok_unit(r)
    } else {
        let addr = eff_addr(pre, i);
        if align != 1 && addr % align != 0 {
            exception_rel(pre, post, Exception::StoreAlignmentError) && bpost == bpre && ok_unit(r)
        } else {
            post == pre && bus_store_rel(bpre, bpost, w, addr, rt_val(pre, i), r)
        }
    }
}

/// SW: store word.
pub open spec fn sw_rel(
    pre: Cpu,
    post: Cpu,
    bpre: Bus,
    bpost: Bus,
    i: u32,
    r: Result<(), FatalError>,
) -> bool {
    store_rel(pre, post, bpre, bpost, i, r, AccessWidth::Word, 4)
}

/// SH: store halfword.
pub open spec fn sh_rel(
    pre: Cpu,
    post: Cpu,
    bpre: Bus,
    bpost: Bus,
    i: u32,
    r: Result<(), FatalError>,
) -> bool {
    store_rel(pre, post, bpre, bpost, i, r, AccessWidth::Half, 2)
}

/// SB: store byte; no alignment requirement.
pub open spec fn sb_rel(
    pre: Cpu,
    post: Cpu,
    bpre: Bus,
    bpost: Bus,
    i: u32,
    r: Result<(), FatalError>,
) -> bool {
    store_rel(pre, post, bpre, bpost, i, r, AccessWidth::Byte, 1)
}

/// Everything but COP0 is unchanged.
pub open spec fn frame_cop(pre: Cpu, post: Cpu) -> bool {
    &&& post.pc == pre.pc
    &&& post.next_pc == pre.next_pc
    &&& post.current_pc == pre.current_pc
    &&& post.regs == pre.regs
    &&& post.out_regs == pre.out_regs
    &&& post.lo == pre.lo
    &&& post.hi == pre.hi
    &&& post.pending_load == pre.pending_load
    &&& post.pending_branch == pre.pending_branch
    &&& post.branch_delay_slot == pre.branch_delay_slot
}

/// MFC0: the COP0 register value enters the pending-load slot — the read
/// itself has no delay, only its visibility in the register file does.
pub open spec fn mfc0_op_rel(pre: Cpu, post: Cpu, i: u32, r: Result<(), FatalError>) -> bool {
    match mfc0_spec(pre.cop, rd_spec(i)) {
        Result::Ok(v) => chain_rel(
            pre,
            post,
            LoadDelay { target_reg: RegisterIndex(rt_spec(i)), val: v },
        ) && ok_unit(r),
        Result::Err(e) => post == pre && r == Result::<(), FatalError>::Err(e),
    }
}

/// MTC0: the `rt` value moves into the named COP0 register.
pub open spec fn mtc0_op_rel(pre: Cpu, post: Cpu, i: u32, r: Result<(), FatalError>) -> bool {
    &&& mtc0_rel(pre.cop, post.cop, rd_spec(i), rt_val(pre, i), r)
    &&& frame_cop(pre, post)
}

/// RFE: pop the COP0 mode stack.  Any other funct under this encoding is
/// an unsupported coprocessor operation.
pub open spec fn rfe_rel(pre: Cpu, post: Cpu, i: u32, r: Result<(), FatalError>) -> bool {
    if i & 0x3f != 0x10 {
        r == Result::<(), FatalError>::Err((FatalError::UnsupportedCopOp { inst: i })) && post
            == pre
    } else {
        &&& ok_unit(r)
        &&& post.cop.sr == pop_mode_spec(pre.cop.sr)
        &&& post.cop.cause == pre.cop.cause
        &&& post.cop.epc == pre.cop.epc
        &&& frame_cop(pre, post)
    }
}

/// COP0: dispatch on the coprocessor sub-operation.
pub open spec fn cop0_rel(pre: Cpu, post: Cpu, i: u32, r: Result<(), FatalError>) -> bool {
    let c = cop_op_spec(i);
    if c == 0x00 {
        mfc0_op_rel(pre, post, i, r)
    } else if c == 0x04 {
        mtc0_op_rel(pre, post, i, r)
    } else if c == 0x10 {
        rfe_rel(pre, post, i, r)
    } else {
        r == Result::<(), FatalError>::Err((FatalError::UnsupportedCopOp { inst: i })) && post
            == pre
    }
}

impl Cpu {
    /// Load word.
    fn op_lw(&mut self, bus: &mut Bus, inst: Instruction) -> (r: Result<(), FatalError>)
        requires
            old(self).wf(),
            old(bus).wf(),
        ensures
            final(self).wf(),
            lw_rel(*old(self), *final(self), *old(bus), inst.0, r),
            *final(bus) == *old(bus),
    {
        if self.cop.status().is_isolate_cache() {
            return Result::Ok(());
        }
        let base = inst.imm_se();
        let rt = inst.rt();
        let offset = self.reg(inst.rs());
        let addr = offset.wrapping_add(base);
        if addr % 4 != 0 {
            self.exception(Exception::LoadAlignmentError);
            Result::Ok(())
        } else {
            match bus.load(AccessWidth::Word, addr) {
                Result::Ok(val) => {
                    self.chain_pending_load(LoadDelay::new(rt, val));
                    Result::Ok(())
                },
                Result::Err(e) => Result::Err(e),
            }
        }
    }

    /// Load halfword, sign-extended.
    fn op_lh(&mut self, bus: &mut Bus, inst: Instruction) -> (r: Result<(), FatalError>)
        requires
            old(self).wf(),
            old(bus).wf(),
        ensures
            final(self).wf(),
            lh_rel(*old(self), *final(self), *old(bus), inst.0, r),
            *final(bus) == *old(bus),
    {
        if self.cop.status().is_isolate_cache() {
            return Result::Ok(());
        }
        let base = inst.imm_se();
        let rt = inst.rt();
        let offset = self.reg(inst.rs());
        let addr = offset.wrapping_add(base);
        if addr % 2 != 0 {
            self.exception(Exception::LoadAlignmentError);
            Result::Ok(())
        } else {
            match bus.load(AccessWidth::Half, addr) {
                Result::Ok(val) => {
                    let ext = if val & 0x8000 == 0 {
                        val & 0xffff
                    } else {
                        (val & 0xffff) | 0xffff_0000
                    };
                    self.chain_pending_load(LoadDelay::new(rt, ext));
                    Result::Ok(())
                },
                Result::Err(e) => Result::Err(e),
            }
        }
    }

    /// Load halfword, zero-extended.
    fn op_lhu(&mut self, bus: &mut Bus, inst: Instruction) -> (r: Result<(), FatalError>)
        requires
            old(self).wf(),
            old(bus).wf(),
        ensures
            final(self).wf(),
            lhu_rel(*old(self), *final(self), *old(bus), inst.0, r),
            *final(bus) == *old(bus),
    {
        if self.cop.status().is_isolate_cache() {
            return Result::Ok(());
        }
        let base = inst.imm_se();
        let rt = inst.rt();
        let offset = self.reg(inst.rs());
        let addr = offset.wrapping_add(base);
        if addr % 2 != 0 {
            self.exception(Exception::LoadAlignmentError);
            Result::Ok(())
        } else {
            match bus.load(AccessWidth::Half, addr) {
                Result::Ok(val) => {
                    self.chain_pending_load(LoadDelay::new(rt, val));
                    Result::Ok(())
                },
                Result::Err(e) => Result::Err(e),
            }
        }
    }

    /// Load byte, sign-extended.
    fn op_lb(&mut self, bus: &mut Bus, inst: Instruction) -> (r: Result<(), FatalError>)
        requires
            old(self).wf(),
            old(bus).wf(),
        ensures
            final(self).wf(),
            lb_rel(*old(self), *final(self), *old(bus), inst.0, r),
            *final(bus) == *old(bus),
    {
        if self.cop.status().is_isolate_cache() {
            return Result::Ok(());
        }
        let base = inst.imm_se();
        let rt = inst.rt();
        let offset = self.reg(inst.rs());
        let addr = offset.wrapping_add(base);
        match bus.load(AccessWidth::Byte, addr) {
            Result::Ok(val) => {
                let ext = if val & 0x80 == 0 {
                    val & 0xff
                } else {
                    (val & 0xff) | 0xffff_ff00
                };
                self.chain_pending_load(LoadDelay::new(rt, ext));
                Result::Ok(())
            },
            Result::Err(e) => Result::Err(e),
        }
    }

    /// Load byte, zero-extended.
    fn op_lbu(&mut self, bus: &mut Bus, inst: Instruction) -> (r: Result<(), FatalError>)
        requires
            old(self).wf(),
            old(bus).wf(),
        ensures
            final(self).wf(),
            lbu_rel(*old(self), *final(self), *old(bus), inst.0, r),
            *final(bus) == *old(bus),
    {
        if self.cop.status().is_isolate_cache() {
            return Result::Ok(());
        }
        let base = inst.imm_se();
        let rt = inst.rt();
        let offset = self.reg(inst.rs());
        let addr = offset.wrapping_add(base);
        match bus.load(AccessWidth::Byte, addr) {
            Result::Ok(val) => {
                self.chain_pending_load(LoadDelay::new(rt, val));
                Result::Ok(())
            },
            Result::Err(e) => Result::Err(e),
        }
    }

    /// Store word.
    fn op_sw(&mut self, bus: &mut Bus, inst: Instruction) -> (r: Result<(), FatalError>)
        requires
            old(self).wf(),
            old(bus).wf(),
        ensures
            final(self).wf(),
            final(bus).wf(),
            sw_rel(*old(self), *final(self), *old(bus), *final(bus), inst.0, r),
            final(bus).bios == old(bus).bios,
    {
        if self.cop.status().is_isolate_cache() {
            return Result::Ok(());
        }
        let i = inst.imm_se();
        let rt = inst.rt();
        let offset = self.reg(inst.rs());
        let addr = offset.wrapping_add(i);
        if addr % 4 != 0 {
            self.exception(Exception::StoreAlignmentError);
            Result::Ok(())
        } else {
            let val = self.reg(rt);
            bus.store(AccessWidth::Word, addr, val)
        }
    }

    /// Store halfword.
    fn op_sh(&mut self, bus: &mut Bus, inst: Instruction) -> (r: Result<(), FatalError>)
        requires
            old(self).wf(),
            old(bus).wf(),
        ensures
            final(self).wf(),
            final(bus).wf(),
            sh_rel(*old(self), *final(self), *old(bus), *final(bus), inst.0, r),
            final(bus).bios == old(bus).bios,
    {
        if self.cop.status().is_isolate_cache() {
            return Result::Ok(());
        }
        let i = inst.imm_se();
        let rt = inst.rt();
        let offset = self.reg(inst.rs());
        let addr = offset.wrapping_add(i);
        if addr % 2 != 0 {
            self.exception(Exception::StoreAlignmentError);
            Result::Ok(())
        } else {
            let val = self.reg(rt);
            bus.store(AccessWidth::Half, addr, val)
        }
    }

    /// Store byte.
    fn op_sb(&mut self, bus: &mut Bus, inst: Instruction) -> (r: Result<(), FatalError>)
        requires
            old(self).wf(),
            old(bus).wf(),
        ensures
            final(self).wf(),
            final(bus).wf(),
            sb_rel(*old(self), *final(self), *old(bus), *final(bus), inst.0, r),
            final(bus).bios == old(bus).bios,
    {
        if self.cop.status().is_isolate_cache() {
            return Result::Ok(());
        }
        let i = inst.imm_se();
        let rt = inst.rt();
        let offset = self.reg(inst.rs());
        let addr = offset.wrapping_add(i);
        let val = self.reg(rt);
        bus.store(AccessWidth::Byte, addr, val)
    }

    /// Move from coprocessor 0.
    fn op_mfc0(&mut self, bus: &mut Bus, inst: Instruction) -> (r: Result<(), FatalError>)
        requires
            old(self).wf(),
        ensures
            final(self).wf(),
            mfc0_op_rel(*old(self), *final(self), inst.0, r),
            *final(bus) == *old(bus),
    {
        let cpu_rt = inst.rt();
        let cop_r = inst.rd();
        match self.cop.mfc0(bus, cop_r) {
            Result::Ok(val) => {
                self.chain_pending_load(LoadDelay::new(cpu_rt, val));
                Result::Ok(())
            },
            Result::Err(e) => Result::Err(e),
        }
    }

    /// Move to coprocessor 0.
    fn op_mtc0(&mut self, bus: &mut Bus, inst: Instruction) -> (r: Result<(), FatalError>)
        requires
            old(self).wf(),
        ensures
            final(self).wf(),
            mtc0_op_rel(*old(self), *final(self), inst.0, r),
            *final(bus) == *old(bus),
    {
        let cpu_rt = inst.rt();
        let cop_r = inst.rd();
        let val = self.reg(cpu_rt);
        self.cop.mtc0(bus, cop_r, val)
    }

    /// Return from exception.
    fn op_rfe(&mut self, bus: &mut Bus, inst: Instruction) -> (r: Result<(), FatalError>)
        requires
            old(self).wf(),
        ensures
            final(self).wf(),
            rfe_rel(*old(self), *final(self), inst.0, r),
            *final(bus) == *old(bus),
    {
        if inst.inner() & 0x3f != 0x10 {
            return Result::Err(FatalError::UnsupportedCopOp { inst: inst.inner() });
        }
        self.cop.pop_mode();
        Result::Ok(())
    }

    /// Invoke coprocessor 0.
    fn op_cop0(&mut self, bus: &mut Bus, inst: Instruction) -> (r: Result<(), FatalError>)
        requires
            old(self).wf(),
        ensures
            final(self).wf(),
            cop0_rel(*old(self), *final(self), inst.0, r),
            *final(bus) == *old(bus),
    {
        let c = inst.cop_op();
        if c == 0x00 {
            self.op_mfc0(bus, inst)
        } else if c == 0x04 {
            self.op_mtc0(bus, inst)
        } else if c == 0x10 {
            self.op_rfe(bus, inst)
        } else {
            Result::Err(FatalError::UnsupportedCopOp { inst: inst.inner() })
        }
    }
}

/// How dispatching one decoded instruction relates the machine before and
/// after: the full opcode table.  An opcode outside it is the unknown-
/// opcode fault and changes nothing.
pub open spec fn dispatch_rel(
    pre: Cpu,
    post: Cpu,
    bpre: Bus,
    bpost: Bus,
    i: u32,
    r: Result<(), FatalError>,
) -> bool {
    let op = opcode_spec(i);
    if op == 0x01 {
        bcondz_rel(pre, post, i) && bpost == bpre && ok_unit(r)
    } else if op == 0x02 {
        j_rel(pre, post, i) && bpost == bpre && ok_unit(r)
    } else if op == 0x03 {
        jal_rel(pre, post, i) && bpost == bpre && ok_unit(r)
    } else if op == 0x04 {
        beq_rel(pre, post, i) && bpost == bpre && ok_unit(r)
    } else if op == 0x05 {
        bne_rel(pre, post, i) && bpost == bpre && ok_unit(r)
    } else if op == 0x06 {
        blez_rel(pre, post, i) && bpost == bpre && ok_unit(r)
    } else if op == 0x07 {
        bgtz_rel(pre, post, i) && bpost == bpre && ok_unit(r)
    } else if op == 0x08 {
        addi_rel(pre, post, i) && bpost == bpre && ok_unit(r)
    } else if op == 0x09 {
        addiu_rel(pre, post, i) && bpost == bpre && ok_unit(r)
    } else if op == 0x0a {
        slti_rel(pre, post, i) && bpost == bpre && ok_unit(r)
    } else if op == 0x0b {
        sltiu_rel(pre, post, i) && bpost == bpre && ok_unit(r)
    } else if op == 0x0c {
        andi_rel(pre, post, i) && bpost == bpre && ok_unit(r)
    } else if op == 0x0d {
        ori_rel(pre, post, i) && bpost == bpre && ok_unit(r)
    } else if op == 0x0f {
        lui_rel(pre, post, i) && bpost == bpre && ok_unit(r)
    } else if op == 0x10 {
        cop0_rel(pre, post, i, r) && bpost == bpre
    } else if op == 0x20 {
        lb_rel(pre, post, bpre, i, r) && bpost == bpre
    } else if op == 0x21 {
        lh_rel(pre, post, bpre, i, r) && bpost == bpre
    } else if op == 0x23 {
        lw_rel(pre, post, bpre, i, r) && bpost == bpre
    } else if op == 0x24 {
        lbu_rel(pre, post, bpre, i, r) && bpost == bpre
    } else if op == 0x25 {
        lhu_rel(pre, post, bpre, i, r) && bpost == bpre
    } else if op == 0x28 {
        sb_rel(pre, post, bpre, bpost, i, r)
    } else if op == 0x29 {
        sh_rel(pre, post, bpre, bpost, i, r)
    } else if op == 0x2b {
        sw_rel(pre, post, bpre, bpost, i, r)
    } else if op == 0x00 {
        let f = funct_spec(i);
        if f == 0x00 {
            sll_rel(pre, post, i) && bpost == bpre && ok_unit(r)
        } else if f == 0x02 {
            srl_rel(pre, post, i) && bpost == bpre && ok_unit(r)
        } else if f == 0x03 {
            sra_rel(pre, post, i) && bpost == bpre && ok_unit(r)
        } else if f == 0x04 {
            sllv_rel(pre, post, i) && bpost == bpre && ok_unit(r)
        } else if f == 0x06 {
            srlv_rel(pre, post, i) && bpost == bpre && ok_unit(r)
        } else if f == 0x07 {
            srav_rel(pre, post, i) && bpost == bpre && ok_unit(r)
        } else if f == 0x08 {
            jr_rel(pre, post, i) && bpost == bpre && ok_unit(r)
        } else if f == 0x09 {
            jalr_rel(pre, post, i) && bpost == bpre && ok_unit(r)
        } else if f == 0x0c {
            syscall_rel(pre, post) && bpost == bpre && ok_unit(r)
        } else if f == 0x10 {
            mfhi_rel(pre, post, i) && bpost == bpre && ok_unit(r)
        } else if f == 0x11 {
            mthi_rel(pre, post, i) && bpost == bpre && ok_unit(r)
        } else if f == 0x12 {
            mflo_rel(pre, post, i) && bpost == bpre && ok_unit(r)
        } else if f == 0x13 {
            mtlo_rel(pre, post, i) && bpost == bpre && ok_unit(r)
        } else if f == 0x1a {
            div_rel(pre, post, i) && bpost == bpre && ok_unit(r)
        } else if f == 0x1b {
            divu_rel(pre, post, i) && bpost == bpre && ok_unit(r)
        } else if f == 0x20 {
            add_rel(pre, post, i) && bpost == bpre && ok_unit(r)
        } else if f == 0x21 {
            addu_rel(pre, post, i) && bpost == bpre && ok_unit(r)
        } else if f == 0x22 {
            sub_rel(pre, post, i) && bpost == bpre && ok_unit(r)
        } else if f == 0x23 {
            subu_rel(pre, post, i) && bpost == bpre && ok_unit(r)
        } else if f == 0x24 {
            and_rel(pre, post, i) && bpost == bpre && ok_unit(r)
        } else if f == 0x25 {
            or_rel(pre, post, i) && bpost == bpre && ok_unit(r)
        } else if f == 0x27 {
            nor_rel(pre, post, i) && bpost == bpre && ok_unit(r)
        } else if f == 0x2a {
            slt_rel(pre, post, i) && bpost == bpre && ok_unit(r)
        } else if f == 0x2b {
            sltu_rel(pre, post, i) && bpost == bpre && ok_unit(r)
        } else {
            r == Result::<(), FatalError>::Err((FatalError::UnknownOpcode { inst: i })) && post
                == pre && bpost == bpre
        }
    } else {
        r == Result::<(), FatalError>::Err((FatalError::UnknownOpcode { inst: i })) && post == pre
            && bpost == bpre
    }
}

/// The phases of a step before dispatch: the program counter advances,
/// a pending load becomes visible, and the delay-slot flags roll over.
pub open spec fn pre_dispatch_rel(pre: Cpu, mid: Cpu) -> bool {
    &&& mid.current_pc == pre.pc
    &&& mid.pc == pre.next_pc
    &&& mid.next_pc == pre.next_pc.wrapping_add(4)
    &&& mid.out_regs@ == (match pre.pending_load {
        Option::Some(l) => reg_write(pre.out_regs@, l.target_reg.0, l.val),
        Option::None => pre.out_regs@,
    })
    &&& mid.pending_load is None
    &&& mid.branch_delay_slot == pre.pending_branch
    &&& mid.pending_branch == false
    &&& mid.regs == pre.regs
    &&& mid.lo == pre.lo
    &&& mid.hi == pre.hi
    &&& mid.cop == pre.cop
}

/// A step that began on a misaligned program counter: nothing is fetched
/// and the CPU enters the load-alignment exception with EPC at the bad
/// address.
pub open spec fn alignment_fault_rel(pre: Cpu, post: Cpu) -> bool {
    let h = handler_spec(vector_spec(pre.cop.sr), ExceptionClass::General);
    &&& post.pc == h
    &&& post.next_pc == h.wrapping_add(4)
    &&& post.cop.sr == push_mode_spec(pre.cop.sr)
    &&& post.cop.cause == set_cause_spec(pre.cop.cause, Exception::LoadAlignmentError)
    &&& post.cop.epc == pre.pc
    &&& post.current_pc == pre.pc
    &&& post.regs == pre.regs
    &&& post.out_regs == pre.out_regs
    &&& post.lo == pre.lo
    &&& post.hi == pre.hi
    &&& post.pending_load == pre.pending_load
    &&& post.pending_branch == pre.pending_branch
    &&& post.branch_delay_slot == pre.branch_delay_slot
}

/// A step whose instruction fetch faulted: only the frozen program
/// counter was recorded.
pub open spec fn fetch_fault_rel(pre: Cpu, post: Cpu) -> bool {
    &&& post.current_pc == pre.pc
    &&& post.pc == pre.pc
    &&& post.next_pc == pre.next_pc
    &&& post.regs == pre.regs
    &&& post.out_regs == pre.out_regs
    &&& post.lo == pre.lo
    &&& post.hi == pre.hi
    &&& post.cop == pre.cop
    &&& post.pending_load == pre.pending_load
    &&& post.pending_branch == pre.pending_branch
    &&& post.branch_delay_slot == pre.branch_delay_slot
}

/// The end of a successful step: the shadow register file becomes the
/// architectural one.
pub open spec fn retire_rel(dpost: Cpu, post: Cpu) -> bool {
    &&& post.regs == dpost.out_regs
    &&& post.out_regs == dpost.out_regs
    &&& post.pc == dpost.pc
    &&& post.next_pc == dpost.next_pc
    &&& post.current_pc == dpost.current_pc
    &&& post.lo == dpost.lo
    &&& post.hi == dpost.hi
    &&& post.cop == dpost.cop
    &&& post.pending_load == dpost.pending_load
    &&& post.pending_branch == dpost.pending_branch
    &&& post.branch_delay_slot == dpost.branch_delay_slot
}

/// One full architectural step: record the program counter; fault on a
/// misaligned one; otherwise fetch the instruction at it, advance the
/// counter pair, commit any pending load, roll the delay-slot flags,
/// dispatch, and on success retire the shadow register file.
pub open spec fn step_rel(
    pre: Cpu,
    post: Cpu,
    bpre: Bus,
    bpost: Bus,
    r: Result<(), FatalError>,
) -> bool {
    if pre.pc % 4 != 0 {
        alignment_fault_rel(pre, post) && bpost == bpre && ok_unit(r)
    } else {
        match bus_load_spec(bpre, AccessWidth::Word, pre.pc) {
            Result::Err(e) => fetch_fault_rel(pre, post) && bpost == bpre && r == Result::<
                (),
                FatalError,
            >::Err(e),
            Result::Ok(w) => exists|mid: Cpu, dpost: Cpu|
                {
                    &&& pre_dispatch_rel(pre, mid)
                    &&& #[trigger] dispatch_rel(mid, dpost, bpre, bpost, w, r)
                    &&& if r is Ok {
                        retire_rel(dpost, post)
                    } else {
                        post == dpost
                    }
                },
        }
    }
}

/// Exception entry always lands on a word-aligned handler: both vector
/// bases are aligned, so the program counter pair leaves any exception
/// aligned.
pub proof fn lemma_exception_entry_aligned(pre: Cpu, post: Cpu, e: Exception)
    requires
        exception_rel(pre, post, e),
    ensures
        post.pc % 4 == 0,
        post.next_pc % 4 == 0,
{
}

/// A step that begins on a misaligned program counter never fetches: it
/// raises the load-alignment exception, records the bad address in EPC,
/// and leaves the program counter word-aligned on the handler.  So the
/// program counter is aligned at every step boundary, except for the one
/// step that is itself handling the alignment exception.
pub proof fn lemma_misaligned_pc_is_handled(
    pre: Cpu,
    post: Cpu,
    bpre: Bus,
    bpost: Bus,
    r: Result<(), FatalError>,
)
    requires
        step_rel(pre, post, bpre, bpost, r),
        pre.pc % 4 != 0,
    ensures
        ok_unit(r),
        post.pc == handler_spec(vector_spec(pre.cop.sr), ExceptionClass::General),
        post.pc % 4 == 0,
        post.next_pc % 4 == 0,
        post.cop.epc == pre.pc,
        post.cop.cause == set_cause_spec(pre.cop.cause, Exception::LoadAlignmentError),
        bpost == bpre,
{
}

/// Register 0 is wired to zero: no write changes it, and a write to any
/// other register lands exactly there, leaving the rest untouched.
pub proof fn lemma_reg_write_effect(regs: Seq<u32>, idx: u32, val: u32)
    requires
        regs.len() == 32,
    ensures
        reg_write(regs, idx, val).len() == 32,
        regs[0] == 0 ==> reg_write(regs, idx, val)[0] == 0,
        idx != 0 && idx < 32 ==> reg_write(regs, idx, val)[idx as int] == val,
        forall|j: int| 0 <= j < 32 && j != idx ==> reg_write(regs, idx, val)[j] == regs[j],
{
}

/// One load is in flight at a time: enqueuing a pending load leaves
/// exactly that one in the slot.  An older load to a different register
/// becomes visible first; an older load to the same register is
/// discarded and never reaches the register file.
pub proof fn lemma_chain_keeps_one_pending(pre: Cpu, post: Cpu, nl: LoadDelay)
    requires
        chain_rel(pre, post, nl),
    ensures
        post.pending_load == Option::Some(nl),
        match pre.pending_load {
            Option::Some(p) => if p.target_reg != nl.target_reg {
                post.out_regs@ == reg_write(pre.out_regs@, p.target_reg.0, p.val)
            } else {
                post.out_regs@ == pre.out_regs@
            },
            Option::None => post.out_regs@ == pre.out_regs@,
        },
{
}

/// LB sign-extends the loaded byte and LBU zero-extends it, and neither
/// writes the register file itself: the value only enters the
/// pending-load slot, becoming visible one instruction later.
pub proof fn lemma_byte_load_extension(
    pre: Cpu,
    post: Cpu,
    bus: Bus,
    i: u32,
    r: Result<(), FatalError>,
    v: u32,
)
    requires
        !isolate_cache_spec(pre.cop.sr),
        pre.pending_load is None,
        bus_load_spec(bus, AccessWidth::Byte, eff_addr(pre, i)) == Result::<u32, FatalError>::Ok(
            v,
        ),
    ensures
        lb_rel(pre, post, bus, i, r) ==> post.pending_load == Option::Some(
            (LoadDelay { target_reg: RegisterIndex(rt_spec(i)), val: sign_ext8(v) }),
        ) && post.out_regs@ == pre.out_regs@ && ok_unit(r),
        lbu_rel(pre, post, bus, i, r) ==> post.pending_load == Option::Some(
            (LoadDelay { target_reg: RegisterIndex(rt_spec(i)), val: v }),
        ) && post.out_regs@ == pre.out_regs@ && ok_unit(r),
{
}

/// A word load at a misaligned effective address raises the
/// load-alignment exception; the pending-load slot and the register
/// files are untouched.
pub proof fn lemma_word_load_alignment_fault(
    pre: Cpu,
    post: Cpu,
    bus: Bus,
    i: u32,
    r: Result<(), FatalError>,
)
    requires
        lw_rel(pre, post, bus, i, r),
        !isolate_cache_spec(pre.cop.sr),
        eff_addr(pre, i) % 4 != 0,
    ensures
        exception_rel(pre, post, Exception::LoadAlignmentError),
        post.pending_load == pre.pending_load,
        post.out_regs == pre.out_regs,
        ok_unit(r),
{
}

/// A halfword load at an odd effective address raises the load-alignment
/// exception in the same way, signed or unsigned.
pub proof fn lemma_half_load_alignment_fault(
    pre: Cpu,
    post: Cpu,
    bus: Bus,
    i: u32,
    r: Result<(), FatalError>,
)
    requires
        !isolate_cache_spec(pre.cop.sr),
        eff_addr(pre, i) % 2 != 0,
    ensures
        lh_rel(pre, post, bus, i, r) ==> exception_rel(pre, post, Exception::LoadAlignmentError)
            && post.pending_load == pre.pending_load && ok_unit(r),
        lhu_rel(pre, post, bus, i, r) ==> exception_rel(pre, post, Exception::LoadAlignmentError)
            && post.pending_load == pre.pending_load && ok_unit(r),
{
}

/// A byte load never checks alignment: whatever the effective address,
/// no exception is raised — COP0 and the program counter pair are
/// untouched — and on a successful bus read a pending load is enqueued.
pub proof fn lemma_byte_load_never_faults(
    pre: Cpu,
    post: Cpu,
    bus: Bus,
    i: u32,
    r: Result<(), FatalError>,
)
    requires
        lb_rel(pre, post, bus, i, r),
        !isolate_cache_spec(pre.cop.sr),
    ensures
        post.cop == pre.cop,
        post.pc == pre.pc,
        post.next_pc == pre.next_pc,
        bus_load_spec(bus, AccessWidth::Byte, eff_addr(pre, i)) is Ok ==> ok_unit(r)
            && post.pending_load is Some,
{
}

/// ADD raises the overflow exception exactly when the true signed sum
/// leaves 32 bits; otherwise it writes a word that reads back as that
/// sum.
pub proof fn lemma_add_overflow_behavior(pre: Cpu, post: Cpu, i: u32)
    requires
        add_rel(pre, post, i),
    ensures
        -0x8000_0000 <= as_signed(rs_val(pre, i)) + as_signed(rt_val(pre, i)) <= 0x7fff_ffff ==> (
        writes_reg(pre, post, rd_spec(i), rs_val(pre, i).wrapping_add(rt_val(pre, i)))
            && as_signed(rs_val(pre, i).wrapping_add(rt_val(pre, i))) == as_signed(rs_val(pre, i))
            + as_signed(rt_val(pre, i))),
        !(-0x8000_0000 <= as_signed(rs_val(pre, i)) + as_signed(rt_val(pre, i)) <= 0x7fff_ffff)
            ==> exception_rel(pre, post, Exception::Overflow),
{
    lemma_sadd_overflows_exact(rs_val(pre, i), rt_val(pre, i));
}

/// DIV by zero: LO takes all-ones for a non-negative dividend and one
/// for a negative dividend; HI takes the dividend; nothing else changes
/// and no exception is raised.
pub proof fn lemma_div_by_zero(pre: Cpu, post: Cpu, i: u32)
    requires
        div_rel(pre, post, i),
        rt_val(pre, i) == 0,
    ensures
        !is_neg(rs_val(pre, i)) ==> sets_lo_hi(pre, post, 0xffff_ffff, rs_val(pre, i)),
        is_neg(rs_val(pre, i)) ==> sets_lo_hi(pre, post, 1, rs_val(pre, i)),
{
}

/// DIV of the minimum signed value by minus one: the one overflowing
/// quotient pins LO to the dividend and HI to zero.
pub proof fn lemma_div_min_by_minus_one(pre: Cpu, post: Cpu, i: u32)
    requires
        div_rel(pre, post, i),
        rs_val(pre, i) == 0x8000_0000,
        rt_val(pre, i) == 0xffff_ffff,
    ensures
        sets_lo_hi(pre, post, 0x8000_0000, 0),
{
}

/// Away from the special cases, DIV's LO and HI read back as the
/// truncating signed quotient and remainder of the operands.
pub proof fn lemma_div_general(pre: Cpu, post: Cpu, i: u32)
    requires
        div_rel(pre, post, i),
        rt_val(pre, i) != 0,
        !(rs_val(pre, i) == 0x8000_0000 && rt_val(pre, i) == 0xffff_ffff),
    ensures
        sets_lo_hi(pre, post, div_quot(rs_val(pre, i), rt_val(pre, i)), div_rem(rs_val(pre, i), rt_val(pre, i))),
        as_signed(rt_val(pre, i)) * as_signed(post.lo) + as_signed(post.hi) == as_signed(rs_val(pre, i)),
        vstd::math::abs(as_signed(post.hi)) < vstd::math::abs(as_signed(rt_val(pre, i))),
        as_signed(rs_val(pre, i)) >= 0 ==> as_signed(post.hi) >= 0,
        as_signed(rs_val(pre, i)) < 0 ==> as_signed(post.hi) <= 0,
{
    lemma_signed_division_exact(rs_val(pre, i), rt_val(pre, i));
}

/// Cache isolation suppresses memory traffic entirely: a load or store
/// dispatched while status bit 16 is set leaves the whole machine and
/// the bus exactly as they were.
pub proof fn lemma_isolation_suppresses_memory_ops(
    pre: Cpu,
    post: Cpu,
    bpre: Bus,
    bpost: Bus,
    i: u32,
    r: Result<(), FatalError>,
    w: AccessWidth,
    align: u32,
    ext: spec_fn(u32) -> u32,
)
    requires
        isolate_cache_spec(pre.cop.sr),
    ensures
        store_rel(pre, post, bpre, bpost, i, r, w, align) ==> post == pre && bpost == bpre
            && ok_unit(r),
        load_rel(pre, post, bpre, i, r, w, align, ext) ==> post == pre && ok_unit(r),
{
}

/// SYSCALL under the boot vector: EPC takes the frozen program counter,
/// the cause code is the syscall code, control enters the boot handler,
/// and the mode stack shifts left by two with a zero pair at the bottom.
pub proof fn lemma_syscall_boot_vector(pre: Cpu, post: Cpu)
    requires
        syscall_rel(pre, post),
        pre.cop.sr & 0x0040_0000 != 0,
    ensures
        post.cop.epc == pre.current_pc,
        post.cop.cause & 0x7c == 0x20,
        post.pc == 0xbfc0_0180,
        post.next_pc == 0xbfc0_0184,
        post.cop.sr & 0x3f == ((pre.cop.sr & 0x0f) << 2u32),
{
    let c = pre.cop.cause;
    let sr = pre.cop.sr;
    assert((((c & !0x7c) | (8u32 << 2u32)) & 0x7c) == 0x20) by (bit_vector);
    assert((((sr & !0x3f) | (((sr & 0x3f) << 2u32) & 0x3f)) & 0x3f) == ((sr & 0x0f) << 2u32))
        by (bit_vector);
}

impl Cpu {
    /// Dispatch one fetched instruction on its primary opcode; primary
    /// opcode zero dispatches on the function field.
    pub fn dispatch_instruction(&mut self, bus: &mut Bus, inst: Instruction) -> (r: Result<
        (),
        FatalError,
    >)
        requires
            old(self).wf(),
            old(bus).wf(),
        ensures
            final(self).wf(),
            final(bus).wf(),
            dispatch_rel(*old(self), *final(self), *old(bus), *final(bus), inst.0, r),
            final(bus).bios == old(bus).bios,
    {
        let op = inst.opcode();
        if op == 0x01 {
            self.op_bcondz(inst);
            Result::Ok(())
        } else if op == 0x02 {
            self.op_j(inst);
            Result::Ok(())
        } else if op == 0x03 {
            self.op_jal(inst);
            Result::Ok(())
        } else if op == 0x04 {
            self.op_beq(inst);
            Result::Ok(())
        } else if op == 0x05 {
            self.op_bne(inst);
            Result::Ok(())
        } else if op == 0x06 {
            self.op_blez(inst);
            Result::Ok(())
        } else if op == 0x07 {
            self.op_bgtz(inst);
            Result::Ok(())
        } else if op == 0x08 {
            self.op_addi(inst);
            Result::Ok(())
        } else if op == 0x09 {
            self.op_addiu(inst);
            Result::Ok(())
        } else if op == 0x0a {
            self.op_slti(inst);
            Result::Ok(())
        } else if op == 0x0b {
            self.op_sltiu(inst);
            Result::Ok(())
        } else if op == 0x0c {
            self.op_andi(inst);
            Result::Ok(())
        } else if op == 0x0d {
            self.op_ori(inst);
            Result::Ok(())
        } else if op == 0x0f {
            self.op_lui(inst);
            Result::Ok(())
        } else if op == 0x10 {
            self.op_cop0(bus, inst)
        } else if op == 0x20 {
            self.op_lb(bus, inst)
        } else if op == 0x21 {
            self.op_lh(bus, inst)
        } else if op == 0x23 {
            self.op_lw(bus, inst)
        } else if op == 0x24 {
            self.op_lbu(bus, inst)
        } else if op == 0x25 {
            self.op_lhu(bus, inst)
        } else if op == 0x28 {
            self.op_sb(bus, inst)
        } else if op == 0x29 {
            self.op_sh(bus, inst)
        } else if op == 0x2b {
            self.op_sw(bus, inst)
        } else if op == 0x00 {
            let f = inst.funct();
            if f == 0x00 {
                self.op_sll(inst);
                Result::Ok(())
            } else if f == 0x02 {
                self.op_srl(inst);
                Result::Ok(())
            } else if f == 0x03 {
                self.op_sra(inst);
                Result::Ok(())
            } else if f == 0x04 {
                self.op_sllv(inst);
                Result::Ok(())
            } else if f == 0x06 {
                self.op_srlv(inst);
                Result::Ok(())
            } else if f == 0x07 {
                self.op_srav(inst);
                Result::Ok(())
            } else if f == 0x08 {
                self.op_jr(inst);
                Result::Ok(())
            } else if f == 0x09 {
                self.op_jalr(inst);
                Result::Ok(())
            } else if f == 0x0c {
                self.op_syscall(inst);
                Result::Ok(())
            } else if f == 0x10 {
                self.op_mfhi(inst);
                Result::Ok(())
            } else if f == 0x11 {
                self.op_mthi(inst);
                Result::Ok(())
            } else if f == 0x12 {
                self.op_mflo(inst);
                Result::Ok(())
            } else if f == 0x13 {
                self.op_mtlo(inst);
                Result::Ok(())
            } else if f == 0x1a {
                self.op_div(inst);
                Result::Ok(())
            } else if f == 0x1b {
                self.op_divu(inst);
                Result::Ok(())
            } else if f == 0x20 {
                self.op_add(inst);
                Result::Ok(())
            } else if f == 0x21 {
                self.op_addu(inst);
                Result::Ok(())
            } else if f == 0x22 {
                self.op_sub(inst);
                Result::Ok(())
            } else if f == 0x23 {
                self.op_subu(inst);
                Result::Ok(())
            } else if f == 0x24 {
                self.op_and(inst);
                Result::Ok(())
            } else if f == 0x25 {
                self.op_or(inst);
                Result::Ok(())
            } else if f == 0x27 {
                self.op_nor(inst);
                Result::Ok(())
            } else if f == 0x2a {
                self.op_slt(inst);
                Result::Ok(())
            } else if f == 0x2b {
                self.op_sltu(inst);
                Result::Ok(())
            } else {
                Result::Err(FatalError::UnknownOpcode { inst: inst.inner() })
            }
        } else {
            Result::Err(FatalError::UnknownOpcode { inst: inst.inner() })
        }
    }

    /// Execute one architectural instruction, as `step_rel` describes.
    pub fn handle_next_instruction(&mut self, bus: &mut Bus) -> (r: Result<(), FatalError>)
        requires
            old(self).wf(),
            old(bus).wf(),
        ensures
            final(self).wf(),
            final(bus).wf(),
            step_rel(*old(self), *final(self), *old(bus), *final(bus), r),
            final(bus).bios == old(bus).bios,
    {
        self.current_pc = self.pc;
        if self.current_pc % 4 != 0 {
            self.exception(Exception::LoadAlignmentError);
            return Result::Ok(());
        }
        let inst_addr = self.pc;
        let inst = match bus.load(AccessWidth::Word, inst_addr) {
            Result::Ok(w) => Instruction(w),
            Result::Err(e) => {
                return Result::Err(e);
            },
        };
        self.increment_pc();
        self.handle_pending_load();
        self.branch_delay_slot = self.pending_branch;
        self.pending_branch = false;
        let res = self.dispatch_instruction(bus, inst);
        match res {
            Result::Ok(()) => {
                self.regs = self.out_regs;
                Result::Ok(())
            },
            Result::Err(e) => Result::Err(e),
        }
    }
}

} // verus!
