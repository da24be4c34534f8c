//! The whole console core: CPU plus bus, stepped one instruction at a
//! time by the host driver.

use vstd::prelude::*;
use crate::bios::{BIOS_SIZE, BIOS_START, Bios, decodes};
use crate::bus::Bus;
use crate::cpu::{Cpu, step_rel};
use crate::errors::FatalError;
use crate::ram::{RAM_RESET_WORD, RAM_WORDS, Ram};

verus! {

/// Complete emulator core state: an accurate architectural state of the
/// console.
pub struct Psx {
    pub cpu: Cpu,
    pub bus: Bus,
    /// How many instructions have been issued.  A host may halt after a
    /// budget by reading this between steps.
    pub instructions_retired: u64,
}

impl Psx {
    pub open spec fn wf(&self) -> bool {
        self.cpu.wf() && self.bus.wf()
    }

    /// Build a console around a BIOS image: RAM at its reset value, COP0
    /// and the CPU at architectural reset, the program counter at the
    /// BIOS entry point, and not an instruction retired yet.
    pub fn new_from_bios(bios_buf: &[u8; BIOS_SIZE]) -> (r: Psx)
        ensures
            r.wf(),
            decodes(bios_buf@, r.bus.bios.mem@),
            forall|i: int| 0 <= i < RAM_WORDS ==> r.bus.ram.mem@[i] == RAM_RESET_WORD,
            r.cpu.pc == BIOS_START,
            r.cpu.next_pc == BIOS_START + 4,
            r.cpu.current_pc == BIOS_START,
            r.cpu.out_regs == r.cpu.regs,
            r.cpu.lo == 0,
            r.cpu.hi == 0,
            r.cpu.cop.sr == 0,
            r.cpu.cop.cause == 0,
            r.cpu.cop.epc == 0,
            r.cpu.pending_load is None,
            r.cpu.pending_branch == false,
            r.cpu.branch_delay_slot == false,
            r.instructions_retired == 0,
    {
        let bios = Bios::new(bios_buf);
        let ram = Ram::new();
        let bus = Bus::new(ram, bios);
        Psx { bus, cpu: Cpu::new(), instructions_retired: 0 }
    }

    /// Advance by one architectural instruction.  The retired-instruction
    /// counter grows by exactly one per step, the BIOS never changes, and
    /// the machine moves as `step_rel` describes.
    pub fn step(&mut self) -> (r: Result<(), FatalError>)
        requires
            old(self).wf(),
            old(self).instructions_retired < u64::MAX,
        ensures
            final(self).wf(),
            final(self).instructions_retired == old(self).instructions_retired + 1,
            step_rel(old(self).cpu, final(self).cpu, old(self).bus, final(self).bus, r),
            final(self).bus.bios == old(self).bus.bios,
    {
        self.instructions_retired = self.instructions_retired + 1;
        self.cpu.handle_next_instruction(&mut self.bus)
    }
}

} // verus!
