use psx_rs::access::AccessWidth;
use psx_rs::errors::FatalError;
use psx_rs::psx::Psx;

const BIOS_SIZE: usize = 512 * 1024;

/// A console booted from a BIOS image holding `words` at the given byte
/// offsets; every other instruction slot is a NOP (all zeroes).
fn boot_at(entries: &[(usize, u32)]) -> Psx {
    let mut image = vec![0u8; BIOS_SIZE];
    for &(off, w) in entries {
        image[off..off + 4].copy_from_slice(&w.to_le_bytes());
    }
    let buf: &[u8; BIOS_SIZE] = image.as_slice().try_into().unwrap();
    Psx::new_from_bios(buf)
}

/// A console whose BIOS starts with the given program.
fn boot(words: &[u32]) -> Psx {
    let entries: Vec<(usize, u32)> = words.iter().enumerate().map(|(k, &w)| (4 * k, w)).collect();
    boot_at(&entries)
}

fn run(psx: &mut Psx, steps: usize) {
    for _ in 0..steps {
        psx.step().unwrap();
    }
}

#[test]
fn lui_then_ori_builds_constant() {
    // LUI r1, 0x1234 ; ORI r1, r1, 0x5678
    let mut psx = boot(&[0x3c01_1234, 0x3421_5678]);
    run(&mut psx, 2);
    assert_eq!(psx.cpu.regs[1], 0x1234_5678);
    assert_eq!(psx.cpu.pc, 0xbfc0_0008);
    assert_eq!(psx.instructions_retired, 2);
}

#[test]
fn load_delay_keeps_old_value_for_one_instruction() {
    // ORI r2, r0, 0xAA ; LW r2, 0(r0) ; ORI r3, r2, 0 ; NOP
    let mut psx = boot(&[0x3402_00aa, 0x8c02_0000, 0x3443_0000, 0x0000_0000]);
    psx.bus.ram.store(AccessWidth::Word, 0, 0xbeef);
    run(&mut psx, 3);
    // the ORI in the load's delay slot still read the old r2
    assert_eq!(psx.cpu.regs[3], 0xaa);
    // and the loaded value became visible right after it
    assert_eq!(psx.cpu.regs[2], 0xbeef);
    run(&mut psx, 1);
    assert_eq!(psx.cpu.regs[2], 0xbeef);
}

#[test]
fn back_to_back_loads_leave_the_later_value() {
    // LW r2, 0(r0) ; LW r2, 4(r0) ; NOP ; NOP
    let mut psx = boot(&[0x8c02_0000, 0x8c02_0004, 0x0000_0000, 0x0000_0000]);
    psx.bus.ram.store(AccessWidth::Word, 0, 0x1111);
    psx.bus.ram.store(AccessWidth::Word, 4, 0x2222);
    run(&mut psx, 4);
    assert_eq!(psx.cpu.regs[2], 0x2222);
}

#[test]
fn cache_isolation_suppresses_stores() {
    // LUI r1, 0x0001 ; MTC0 r1, r12 ; SW r0, 0(r0)
    let mut psx = boot(&[0x3c01_0001, 0x4081_6000, 0xac00_0000]);
    psx.bus.ram.store(AccessWidth::Word, 0, 0x1234_5678);
    run(&mut psx, 3);
    assert_eq!(psx.bus.ram.load(AccessWidth::Word, 0), 0x1234_5678);
}

#[test]
fn jump_executes_its_delay_slot() {
    // J 0xbfc00100 ; ORI r4, r0, 1 ; and at the target: ORI r5, r0, 2
    let mut psx = boot_at(&[(0, 0x0bf0_0040), (4, 0x3404_0001), (0x100, 0x3405_0002)]);
    run(&mut psx, 3);
    assert_eq!(psx.cpu.regs[4], 1);
    assert_eq!(psx.cpu.regs[5], 2);
    assert_eq!(psx.cpu.pc, 0xbfc0_0104);
}

#[test]
fn syscall_enters_boot_exception_vector() {
    // LUI r1, 0x0040 ; ORI r1, r1, 3 ; MTC0 r1, r12 ; J 0xbfc00200 ; NOP ;
    // at 0xbfc00200: SYSCALL
    let mut psx = boot_at(&[
        (0x0, 0x3c01_0040),
        (0x4, 0x3421_0003),
        (0x8, 0x4081_6000),
        (0xc, 0x0bf0_0080),
        (0x10, 0x0000_0000),
        (0x200, 0x0000_000c),
    ]);
    run(&mut psx, 6);
    assert_eq!(psx.cpu.cop.epc, 0xbfc0_0200);
    assert_eq!(psx.cpu.cop.cause & 0x7c, 8 << 2);
    assert_eq!(psx.cpu.pc, 0xbfc0_0180);
    assert_eq!(psx.cpu.next_pc, 0xbfc0_0184);
    // the pre-syscall mode pair 0b11 shifted left by two within sr[5:0]
    assert_eq!(psx.cpu.cop.sr & 0x3f, 0b1100);
    assert_eq!(psx.instructions_retired, 6);
}

#[test]
fn kseg_mirrors_read_the_same_ram() {
    let mut psx = boot(&[]);
    psx.bus.ram.store(AccessWidth::Word, 0, 0xcafe_f00d);
    assert_eq!(psx.bus.load(AccessWidth::Word, 0x0000_0000), Ok(0xcafe_f00d));
    assert_eq!(psx.bus.load(AccessWidth::Word, 0x8000_0000), Ok(0xcafe_f00d));
    assert_eq!(psx.bus.load(AccessWidth::Word, 0xa000_0000), Ok(0xcafe_f00d));
}

#[test]
fn misaligned_word_load_raises_exception() {
    // LW r2, 1(r0)
    let mut psx = boot(&[0x8c02_0001]);
    run(&mut psx, 1);
    assert_eq!(psx.cpu.cop.cause & 0x7c, 4 << 2);
    assert_eq!(psx.cpu.cop.epc, 0xbfc0_0000);
    assert_eq!(psx.cpu.pc, 0x8000_0080);
}

#[test]
fn misaligned_half_load_raises_exception() {
    // LH r2, 1(r0)
    let mut psx = boot(&[0x8402_0001]);
    run(&mut psx, 1);
    assert_eq!(psx.cpu.cop.cause & 0x7c, 4 << 2);
    assert_eq!(psx.cpu.pc, 0x8000_0080);
}

#[test]
fn misaligned_store_raises_store_exception() {
    // SH r0, 1(r0)
    let mut psx = boot(&[0xa400_0001]);
    run(&mut psx, 1);
    assert_eq!(psx.cpu.cop.cause & 0x7c, 5 << 2);
    assert_eq!(psx.cpu.pc, 0x8000_0080);
}

#[test]
fn byte_load_needs_no_alignment() {
    // LB r2, 1(r0) ; NOP
    let mut psx = boot(&[0x8002_0001, 0x0000_0000]);
    psx.bus.ram.store(AccessWidth::Byte, 1, 0x7f);
    run(&mut psx, 2);
    assert_eq!(psx.cpu.regs[2], 0x7f);
    assert_eq!(psx.cpu.cop.cause & 0x7c, 0);
}

#[test]
fn lb_sign_extends_and_lbu_does_not() {
    // LB r2, 0(r0) ; LBU r3, 0(r0) ; NOP
    let mut psx = boot(&[0x8002_0000, 0x9003_0000, 0x0000_0000]);
    psx.bus.ram.store(AccessWidth::Byte, 0, 0x80);
    run(&mut psx, 3);
    assert_eq!(psx.cpu.regs[2], 0xffff_ff80);
    assert_eq!(psx.cpu.regs[3], 0x80);
}

#[test]
fn lh_sign_extends_and_lhu_does_not() {
    // LH r2, 0(r0) ; LHU r3, 0(r0) ; NOP
    let mut psx = boot(&[0x8402_0000, 0x9403_0000, 0x0000_0000]);
    psx.bus.ram.store(AccessWidth::Half, 0, 0x8001);
    run(&mut psx, 3);
    assert_eq!(psx.cpu.regs[2], 0xffff_8001);
    assert_eq!(psx.cpu.regs[3], 0x8001);
}

#[test]
fn add_overflow_raises_and_addu_wraps() {
    // LUI r1, 0x7fff ; ORI r1, r1, 0xffff ; ADDI r2, r0, 1 ; ADD r3, r1, r2
    let mut psx = boot(&[0x3c01_7fff, 0x3421_ffff, 0x2002_0001, 0x0022_1820]);
    run(&mut psx, 4);
    assert_eq!(psx.cpu.cop.cause & 0x7c, 12 << 2);
    assert_eq!(psx.cpu.cop.epc, 0xbfc0_000c);
    assert_eq!(psx.cpu.pc, 0x8000_0080);

    // same operands through ADDU wrap to 0x8000_0000
    let mut psx = boot(&[0x3c01_7fff, 0x3421_ffff, 0x2002_0001, 0x0022_1821]);
    run(&mut psx, 4);
    assert_eq!(psx.cpu.regs[3], 0x8000_0000);
    assert_eq!(psx.cpu.cop.cause & 0x7c, 0);
}

#[test]
fn addi_overflow_raises_and_addiu_wraps() {
    // LUI r1, 0x7fff ; ORI r1, r1, 0xffff ; ADDI r2, r1, 1
    let mut psx = boot(&[0x3c01_7fff, 0x3421_ffff, 0x2022_0001]);
    run(&mut psx, 3);
    assert_eq!(psx.cpu.cop.cause & 0x7c, 12 << 2);

    // ADDIU r2, r1, 1
    let mut psx = boot(&[0x3c01_7fff, 0x3421_ffff, 0x2422_0001]);
    run(&mut psx, 3);
    assert_eq!(psx.cpu.regs[2], 0x8000_0000);
}

#[test]
fn div_by_zero_special_cases() {
    // ADDI r1, r0, -1 ; ORI r2, r0, 0 ; DIV r1, r2
    let mut psx = boot(&[0x2001_ffff, 0x3402_0000, 0x0022_001a]);
    run(&mut psx, 3);
    assert_eq!(psx.cpu.lo, 1);
    assert_eq!(psx.cpu.hi, 0xffff_ffff);

    // ORI r1, r0, 7 ; ORI r2, r0, 0 ; DIV r1, r2: nonnegative numerator
    let mut psx = boot(&[0x3401_0007, 0x3402_0000, 0x0022_001a]);
    run(&mut psx, 3);
    assert_eq!(psx.cpu.lo, 0xffff_ffff);
    assert_eq!(psx.cpu.hi, 7);
}

#[test]
fn div_min_by_minus_one() {
    // LUI r1, 0x8000 ; ADDI r2, r0, -1 ; DIV r1, r2
    let mut psx = boot(&[0x3c01_8000, 0x2002_ffff, 0x0022_001a]);
    run(&mut psx, 3);
    assert_eq!(psx.cpu.lo, 0x8000_0000);
    assert_eq!(psx.cpu.hi, 0);
}

#[test]
fn div_truncates_toward_zero() {
    // ORI r1, r0, 7 ; ADDI r2, r0, -2 ; DIV r1, r2  (7 / -2 = -3 rem 1)
    let mut psx = boot(&[0x3401_0007, 0x2002_fffe, 0x0022_001a]);
    run(&mut psx, 3);
    assert_eq!(psx.cpu.lo, 0xffff_fffd);
    assert_eq!(psx.cpu.hi, 1);

    // ADDI r1, r0, -7 ; ORI r2, r0, 2 ; DIV r1, r2  (-7 / 2 = -3 rem -1)
    let mut psx = boot(&[0x2001_fff9, 0x3402_0002, 0x0022_001a]);
    run(&mut psx, 3);
    assert_eq!(psx.cpu.lo, 0xffff_fffd);
    assert_eq!(psx.cpu.hi, 0xffff_ffff);
}

#[test]
fn divu_by_zero_yields_all_ones() {
    // ORI r1, r0, 5 ; ORI r2, r0, 0 ; DIVU r1, r2
    let mut psx = boot(&[0x3401_0005, 0x3402_0000, 0x0022_001b]);
    run(&mut psx, 3);
    assert_eq!(psx.cpu.lo, 0xffff_ffff);
    assert_eq!(psx.cpu.hi, 5);
}

#[test]
fn sra_fills_with_sign_and_srl_with_zero() {
    // LUI r1, 0x8000 ; SRA r2, r1, 4 ; SRL r3, r1, 4
    let mut psx = boot(&[0x3c01_8000, 0x0001_1103, 0x0001_1902]);
    run(&mut psx, 3);
    assert_eq!(psx.cpu.regs[2], 0xf800_0000);
    assert_eq!(psx.cpu.regs[3], 0x0800_0000);
}

#[test]
fn slt_family_compares_signed_and_unsigned() {
    // ADDI r1, r0, -1 ; ORI r2, r0, 1 ; SLT r3, r1, r2 ; SLTU r4, r1, r2
    let mut psx = boot(&[0x2001_ffff, 0x3402_0001, 0x0022_182a, 0x0022_202b]);
    run(&mut psx, 4);
    assert_eq!(psx.cpu.regs[3], 1);
    assert_eq!(psx.cpu.regs[4], 0);

    // SLTI r3, r1, 0 ; SLTIU r4, r1, 0xffff (sign-extends to -1, so equal)
    let mut psx = boot(&[0x2001_ffff, 0x2823_0000, 0x2c24_ffff]);
    run(&mut psx, 3);
    assert_eq!(psx.cpu.regs[3], 1);
    assert_eq!(psx.cpu.regs[4], 0);
}

#[test]
fn jal_links_past_the_delay_slot() {
    // JAL 0xbfc00100 ; NOP
    let mut psx = boot_at(&[(0, 0x0ff0_0040), (4, 0x0000_0000), (0x100, 0x0000_0000)]);
    run(&mut psx, 2);
    assert_eq!(psx.cpu.regs[31], 0xbfc0_0008);
    assert_eq!(psx.cpu.pc, 0xbfc0_0100);
}

#[test]
fn jr_returns_through_register() {
    // LUI r1, 0xbfc0 ; ORI r1, r1, 0x0100 ; JR r1 ; NOP
    let mut psx = boot_at(&[
        (0, 0x3c01_bfc0),
        (4, 0x3421_0100),
        (8, 0x0020_0008),
        (0xc, 0x0000_0000),
        (0x100, 0x0000_0000),
    ]);
    run(&mut psx, 4);
    assert_eq!(psx.cpu.pc, 0xbfc0_0100);
}

#[test]
fn bne_takes_branch_when_operands_differ() {
    // ORI r1, r0, 1 ; BNE r1, r0, +2 ; NOP ; (skipped) ; ORI r2, r0, 9
    let mut psx = boot_at(&[
        (0x0, 0x3401_0001),
        (0x4, 0x1420_0002),
        (0x8, 0x0000_0000),
        (0xc, 0x3402_ffff),
        (0x10, 0x3402_0009),
    ]);
    run(&mut psx, 4);
    // branch target = 0xbfc00008 + (2 << 2) = 0xbfc00010
    assert_eq!(psx.cpu.regs[2], 9);
}

#[test]
fn bltzal_links_even_when_not_taken() {
    // ORI r1, r0, 1 ; BLTZAL r1, +1  (r1 is positive: no branch, still links)
    let mut psx = boot(&[0x3401_0001, 0x0430_0001]);
    run(&mut psx, 2);
    // the link register holds the branch instruction's own successor
    assert_eq!(psx.cpu.regs[31], 0xbfc0_0008);
    assert_eq!(psx.cpu.pc, 0xbfc0_0008);
}

#[test]
fn bgez_branches_on_nonnegative() {
    // ORI r1, r0, 1 ; BGEZ r1, +2 ; NOP ; (skipped) ; ORI r2, r0, 3
    let mut psx = boot_at(&[
        (0x0, 0x3401_0001),
        (0x4, 0x0421_0002),
        (0x8, 0x0000_0000),
        (0xc, 0x3402_ffff),
        (0x10, 0x3402_0003),
    ]);
    run(&mut psx, 4);
    assert_eq!(psx.cpu.regs[2], 3);
}

#[test]
fn rfe_pops_the_mode_stack() {
    // LUI r1, 0x0040 ; ORI r1, r1, 0x3f ; MTC0 r1, r12 ; SYSCALL ;
    // at the boot vector 0xbfc00180: RFE
    let mut psx = boot_at(&[
        (0x0, 0x3c01_0040),
        (0x4, 0x3421_003f),
        (0x8, 0x4081_6000),
        (0xc, 0x0000_000c),
        (0x180, 0x4200_0010),
    ]);
    run(&mut psx, 4);
    // entry shifted 0b111111 left: 0b111100
    assert_eq!(psx.cpu.cop.sr & 0x3f, 0x3c);
    run(&mut psx, 1);
    // RFE shifts back right, the oldest pair staying in bits 5:4
    assert_eq!(psx.cpu.cop.sr & 0x3f, 0x3f);
}

#[test]
fn mfc0_reads_through_the_load_delay() {
    // LUI r1, 0x0001 ; MTC0 r1, r12 ; MFC0 r2, r12 ; NOP
    let mut psx = boot(&[0x3c01_0001, 0x4081_6000, 0x4002_6000, 0x0000_0000]);
    run(&mut psx, 4);
    assert_eq!(psx.cpu.regs[2], 0x1_0000);
}

#[test]
fn unknown_opcode_is_fatal() {
    let mut psx = boot(&[0xfc00_0000]);
    assert_eq!(psx.step(), Err(FatalError::UnknownOpcode { inst: 0xfc00_0000 }));
}

#[test]
fn unknown_funct_is_fatal() {
    // primary opcode 0, funct 0x3f
    let mut psx = boot(&[0x0000_003f]);
    assert_eq!(psx.step(), Err(FatalError::UnknownOpcode { inst: 0x0000_003f }));
}

#[test]
fn unsupported_cop_op_is_fatal() {
    // COP0 with sub-operation 0x08
    let mut psx = boot(&[0x4100_0000]);
    assert_eq!(psx.step(), Err(FatalError::UnsupportedCopOp { inst: 0x4100_0000 }));
}

#[test]
fn nonzero_write_to_locked_cop0_register_is_fatal() {
    // ORI r1, r0, 1 ; MTC0 r1, r3
    let mut psx = boot(&[0x3401_0001, 0x4081_1800]);
    psx.step().unwrap();
    assert_eq!(psx.step(), Err(FatalError::UnsupportedCop0Write { reg: 3, val: 1 }));
}

#[test]
fn read_of_unimplemented_cop0_register_is_fatal() {
    // MFC0 r1, r5
    let mut psx = boot(&[0x4001_2800]);
    assert_eq!(psx.step(), Err(FatalError::UnsupportedCop0Read { reg: 5 }));
}

#[test]
fn store_to_bios_window_is_fatal() {
    // LUI r1, 0xbfc0 ; SW r0, 0(r1)
    let mut psx = boot(&[0x3c01_bfc0, 0xac20_0000]);
    psx.step().unwrap();
    assert_eq!(psx.step(), Err(FatalError::WriteToReadOnly { addr: 0x1fc0_0000 }));
}

#[test]
fn access_outside_every_window_is_fatal() {
    // LUI r1, 0x1f80 ; LW r2, 0(r1)
    let mut psx = boot(&[0x3c01_1f80, 0x8c22_0000]);
    psx.step().unwrap();
    assert_eq!(psx.step(), Err(FatalError::UnknownRegion { addr: 0x1f80_0000 }));
}

#[test]
fn register_zero_stays_zero() {
    // ORI r0, r0, 0xffff ; LW r0, 0(r0) ; NOP ; NOP
    let mut psx = boot(&[0x3400_ffff, 0x8c00_0000, 0x0000_0000, 0x0000_0000]);
    psx.bus.ram.store(AccessWidth::Word, 0, 0x5555_5555);
    run(&mut psx, 4);
    assert_eq!(psx.cpu.regs[0], 0);
    assert_eq!(psx.cpu.out_regs[0], 0);
}

#[test]
fn retired_counter_grows_by_one_per_step() {
    let mut psx = boot(&[0x0000_0000, 0x0000_0000, 0x0000_0000]);
    assert_eq!(psx.instructions_retired, 0);
    psx.step().unwrap();
    assert_eq!(psx.instructions_retired, 1);
    psx.step().unwrap();
    assert_eq!(psx.instructions_retired, 2);
}

#[test]
fn sub_overflow_raises_and_subu_wraps() {
    // LUI r1, 0x8000 ; ORI r2, r0, 1 ; SUB r3, r1, r2  (MIN - 1 overflows)
    let mut psx = boot(&[0x3c01_8000, 0x3402_0001, 0x0022_1822]);
    run(&mut psx, 3);
    assert_eq!(psx.cpu.cop.cause & 0x7c, 12 << 2);

    // ORI r1, r0, 5 ; ORI r2, r0, 3 ; SUB r3, r1, r2 ; SUBU r4, r2, r1
    let mut psx = boot(&[0x3401_0005, 0x3402_0003, 0x0022_1822, 0x0041_2023]);
    run(&mut psx, 4);
    assert_eq!(psx.cpu.regs[3], 2);
    assert_eq!(psx.cpu.regs[4], 0xffff_fffe);
}

#[test]
fn variable_shifts_use_low_five_bits_of_rs() {
    // ORI r1, r0, 0xff ; ORI r2, r0, 4 ; SLLV r3, r1, r2 ; SRLV r4, r1, r2
    let mut psx = boot(&[0x3401_00ff, 0x3402_0004, 0x0041_1804, 0x0041_2006]);
    run(&mut psx, 4);
    assert_eq!(psx.cpu.regs[3], 0xff0);
    assert_eq!(psx.cpu.regs[4], 0xf);

    // LUI r1, 0x8000 ; ORI r2, r0, 0x24 (only low five bits count: 4) ;
    // SRAV r5, r1, r2
    let mut psx = boot(&[0x3c01_8000, 0x3402_0024, 0x0041_2807]);
    run(&mut psx, 3);
    assert_eq!(psx.cpu.regs[5], 0xf800_0000);
}

#[test]
fn bitwise_and_nor_and_andi() {
    // ORI r1, r0, 0xf0f0 ; ORI r2, r0, 0xff00 ; AND r3, r1, r2 ;
    // NOR r4, r1, r2 ; ANDI r5, r1, 0x0ff0
    let mut psx = boot(&[
        0x3401_f0f0,
        0x3402_ff00,
        0x0022_1824,
        0x0022_2027,
        0x3025_0ff0,
    ]);
    run(&mut psx, 5);
    assert_eq!(psx.cpu.regs[3], 0xf000);
    assert_eq!(psx.cpu.regs[4], 0xffff_000f);
    assert_eq!(psx.cpu.regs[5], 0x00f0);
}

#[test]
fn lo_hi_moves_roundtrip() {
    // ORI r1, r0, 0x1234 ; MTLO r1 ; MTHI r1 ; MFLO r2 ; MFHI r3
    let mut psx = boot(&[0x3401_1234, 0x0020_0013, 0x0020_0011, 0x0000_1012, 0x0000_1810]);
    run(&mut psx, 5);
    assert_eq!(psx.cpu.lo, 0x1234);
    assert_eq!(psx.cpu.hi, 0x1234);
    assert_eq!(psx.cpu.regs[2], 0x1234);
    assert_eq!(psx.cpu.regs[3], 0x1234);
}

#[test]
fn blez_takes_zero_and_bgtz_does_not() {
    // BLEZ r0, +2 ; NOP ; (skipped) ; ORI r2, r0, 7
    let mut psx = boot_at(&[
        (0x0, 0x1800_0002),
        (0x4, 0x0000_0000),
        (0x8, 0x3402_ffff),
        (0xc, 0x3402_0007),
    ]);
    run(&mut psx, 3);
    assert_eq!(psx.cpu.regs[2], 7);

    // BGTZ r0, +2 falls through
    let mut psx = boot_at(&[(0x0, 0x1c00_0002), (0x4, 0x0000_0000), (0x8, 0x3402_0009)]);
    run(&mut psx, 3);
    assert_eq!(psx.cpu.regs[2], 9);
}

#[test]
fn jalr_links_into_named_register() {
    // LUI r1, 0xbfc0 ; ORI r1, r1, 0x0100 ; JALR r6, r1 ; NOP
    let mut psx = boot_at(&[
        (0x0, 0x3c01_bfc0),
        (0x4, 0x3421_0100),
        (0x8, 0x0020_3009),
        (0xc, 0x0000_0000),
        (0x100, 0x0000_0000),
    ]);
    run(&mut psx, 4);
    assert_eq!(psx.cpu.regs[6], 0xbfc0_0010);
    assert_eq!(psx.cpu.pc, 0xbfc0_0100);
}

#[test]
fn cpu_sub_word_stores_place_correctly() {
    // ORI r1, r0, 0xabcd ; SH r1, 0x10(r0) ; SB r1, 0x13(r0)
    let mut psx = boot(&[0x3401_abcd, 0xa401_0010, 0xa001_0013]);
    run(&mut psx, 3);
    assert_eq!(psx.bus.ram.load(AccessWidth::Half, 0x10), 0xabcd);
    assert_eq!(psx.bus.ram.load(AccessWidth::Byte, 0x13), 0xcd);
    assert_eq!(psx.bus.ram.load(AccessWidth::Word, 0x10), 0xcd00_abcd);
}

#[test]
fn bios_last_byte_is_reachable() {
    let mut psx = boot_at(&[(0x7fffc, 0xab00_0000)]);
    assert_eq!(psx.bus.load(AccessWidth::Byte, 0xbfc7_ffff), Ok(0xab));
    assert_eq!(psx.bus.load(AccessWidth::Word, 0xbfc7_fffc), Ok(0xab00_0000));
    // and the address one past the window is outside every region
    assert_eq!(
        psx.bus.load(AccessWidth::Word, 0x1fc8_0000),
        Err(psx_rs::errors::FatalError::UnknownRegion { addr: 0x1fc8_0000 })
    );
    psx.step().unwrap();
}

#[test]
fn bios_image_is_served_verbatim() {
    let mut psx = boot(&[0x3c01_1234]);
    // the fetched word reads back identically through the bus
    assert_eq!(psx.bus.load(AccessWidth::Word, 0xbfc0_0000), Ok(0x3c01_1234));
    run(&mut psx, 1);
    assert_eq!(psx.bus.load(AccessWidth::Word, 0xbfc0_0000), Ok(0x3c01_1234));
    assert_eq!(psx.bus.bios.get_rom()[0], 0x3c01_1234);
}
