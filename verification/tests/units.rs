use psx_rs::access::AccessWidth;
use psx_rs::bios::Bios;
use psx_rs::bus::Bus;
use psx_rs::config::{Config, LogLevel};
use psx_rs::cop0::Cop0;
use psx_rs::errors::FatalError;
use psx_rs::exception::{handler, Exception, ExceptionClass, ExceptionVector};
use psx_rs::instruction::{Instruction, RegisterIndex};
use psx_rs::map::{get_region, mask_region, Region};
use psx_rs::ram::Ram;

const BIOS_SIZE: usize = 512 * 1024;

#[test]
fn ram_starts_zeroed() {
    let ram = Ram::new();
    assert_eq!(ram.load(AccessWidth::Word, 0), 0);
    assert_eq!(ram.load(AccessWidth::Word, 0x1f_fffc), 0);
    assert_eq!(ram.load(AccessWidth::Byte, 12345), 0);
}

#[test]
fn ram_word_roundtrip() {
    let mut ram = Ram::new();
    ram.store(AccessWidth::Word, 0x100, 0xdead_beef);
    assert_eq!(ram.load(AccessWidth::Word, 0x100), 0xdead_beef);
}

#[test]
fn ram_half_roundtrip_and_placement() {
    let mut ram = Ram::new();
    ram.store(AccessWidth::Half, 0x102, 0x1_cafe);
    // the value is cut to 16 bits and lands in the upper half of the word
    assert_eq!(ram.load(AccessWidth::Half, 0x102), 0xcafe);
    assert_eq!(ram.load(AccessWidth::Half, 0x100), 0);
    assert_eq!(ram.load(AccessWidth::Word, 0x100), 0xcafe_0000);
}

#[test]
fn ram_byte_store_preserves_neighbors() {
    let mut ram = Ram::new();
    ram.store(AccessWidth::Word, 0x200, 0x4433_2211);
    ram.store(AccessWidth::Byte, 0x202, 0xaa);
    assert_eq!(ram.load(AccessWidth::Byte, 0x200), 0x11);
    assert_eq!(ram.load(AccessWidth::Byte, 0x201), 0x22);
    assert_eq!(ram.load(AccessWidth::Byte, 0x202), 0xaa);
    assert_eq!(ram.load(AccessWidth::Byte, 0x203), 0x44);
    assert_eq!(ram.load(AccessWidth::Word, 0x200), 0x44aa_2211);
}

#[test]
fn bios_decodes_little_endian() {
    let mut image = vec![0u8; BIOS_SIZE];
    image[0] = 0x78;
    image[1] = 0x56;
    image[2] = 0x34;
    image[3] = 0x12;
    image[4] = 0xff;
    let buf: &[u8; BIOS_SIZE] = image.as_slice().try_into().unwrap();
    let bios = Bios::new(buf);
    assert_eq!(bios.load(AccessWidth::Word, 0), 0x1234_5678);
    assert_eq!(bios.load(AccessWidth::Half, 0), 0x5678);
    assert_eq!(bios.load(AccessWidth::Half, 2), 0x1234);
    assert_eq!(bios.load(AccessWidth::Byte, 1), 0x56);
    assert_eq!(bios.load(AccessWidth::Byte, 3), 0x12);
    assert_eq!(bios.load(AccessWidth::Word, 4), 0xff);
    assert_eq!(bios.get_rom()[0], 0x1234_5678);
}

#[test]
fn mask_region_collapses_kseg_mirrors() {
    assert_eq!(mask_region(0x0000_0100), 0x0000_0100);
    assert_eq!(mask_region(0x8000_0100), 0x0000_0100);
    assert_eq!(mask_region(0xa000_0100), 0x0000_0100);
    // KSEG2 addresses pass through untouched
    assert_eq!(mask_region(0xfffe_0130), 0xfffe_0130);
}

#[test]
fn mask_region_is_idempotent_on_samples() {
    for a in [0u32, 0x8000_0100, 0xa000_0100, 0xbfc0_0000, 0xfffe_0130, 0x1f80_1070] {
        assert_eq!(mask_region(mask_region(a)), mask_region(a));
    }
}

#[test]
fn get_region_finds_each_window() {
    assert!(matches!(get_region(0x0000_0000), Some(Region::Ram(_))));
    assert!(matches!(get_region(0x001f_ffff), Some(Region::Ram(_))));
    assert!(matches!(get_region(0x1fc0_0000), Some(Region::Bios(_))));
    assert!(matches!(get_region(0x1fc7_ffff), Some(Region::Bios(_))));
    assert!(matches!(get_region(0x1f80_1000), Some(Region::MemCtl(_))));
    assert!(matches!(get_region(0x1f80_1060), Some(Region::RamCtl(_))));
    assert!(matches!(get_region(0x1f80_1070), Some(Region::IrqCtl(_))));
    assert!(matches!(get_region(0x1f80_1080), Some(Region::Dma(_))));
    assert!(matches!(get_region(0x1f80_1100), Some(Region::Timer(_))));
    assert!(matches!(get_region(0x1f80_1810), Some(Region::Gpu(_))));
    assert!(matches!(get_region(0x1f80_1c00), Some(Region::Spu(_))));
    assert!(matches!(get_region(0x1f80_2000), Some(Region::Exp2(_))));
    assert!(matches!(get_region(0x1f00_0000), Some(Region::Exp1(_))));
    assert!(matches!(get_region(0xfffe_0130), Some(Region::CacheCtl(_))));
    assert!(get_region(0x1f80_0000).is_none());
    assert!(get_region(0x0020_0000).is_none());
}

#[test]
fn region_windows_report_membership() {
    if let Some(Region::Bios(m)) = get_region(0x1fc0_0000) {
        assert!(m.contains(0x1fc0_0000));
        assert!(m.contains(0x1fc7_ffff));
        assert!(!m.contains(0x1fc8_0000));
        assert!(!m.contains(0x1fbf_ffff));
    } else {
        panic!("BIOS window missing");
    }
}

#[test]
fn bus_mirrors_ram_across_segments() {
    let image = vec![0u8; BIOS_SIZE];
    let buf: &[u8; BIOS_SIZE] = image.as_slice().try_into().unwrap();
    let mut bus = Bus::new(Ram::new(), Bios::new(buf));
    bus.store(AccessWidth::Word, 0x0000_0040, 0xfeed_f00d).unwrap();
    assert_eq!(bus.load(AccessWidth::Word, 0x0000_0040), Ok(0xfeed_f00d));
    assert_eq!(bus.load(AccessWidth::Word, 0x8000_0040), Ok(0xfeed_f00d));
    assert_eq!(bus.load(AccessWidth::Word, 0xa000_0040), Ok(0xfeed_f00d));
}

#[test]
fn bus_reads_gpu_status_ready() {
    let image = vec![0u8; BIOS_SIZE];
    let buf: &[u8; BIOS_SIZE] = image.as_slice().try_into().unwrap();
    let bus = Bus::new(Ram::new(), Bios::new(buf));
    assert_eq!(bus.load(AccessWidth::Word, 0x1f80_1814), Ok(0x1000_0000));
    assert_eq!(bus.load(AccessWidth::Word, 0x1f80_1810), Ok(0));
    // every other MMIO window reads zero
    assert_eq!(bus.load(AccessWidth::Word, 0x1f80_1070), Ok(0));
    assert_eq!(bus.load(AccessWidth::Half, 0x1f80_1c00), Ok(0));
}

#[test]
fn bus_rejects_bios_stores_and_unknown_regions() {
    let image = vec![0u8; BIOS_SIZE];
    let buf: &[u8; BIOS_SIZE] = image.as_slice().try_into().unwrap();
    let mut bus = Bus::new(Ram::new(), Bios::new(buf));
    assert_eq!(
        bus.store(AccessWidth::Word, 0xbfc0_0000, 1),
        Err(FatalError::WriteToReadOnly { addr: 0x1fc0_0000 })
    );
    assert_eq!(
        bus.load(AccessWidth::Word, 0x1f80_0000),
        Err(FatalError::UnknownRegion { addr: 0x1f80_0000 })
    );
    // MMIO stores are accepted and discarded
    assert_eq!(bus.store(AccessWidth::Word, 0x1f80_1070, 0xffff), Ok(()));
    assert_eq!(bus.load(AccessWidth::Word, 0x1f80_1070), Ok(0));
}

#[test]
fn mode_stack_pop_preserves_the_oldest_pair() {
    let mut cop = Cop0::new();
    let mut bus = Bus::new(Ram::new(), {
        let image = vec![0u8; BIOS_SIZE];
        let buf: &[u8; BIOS_SIZE] = image.as_slice().try_into().unwrap();
        Bios::new(buf)
    });
    cop.mtc0(&mut bus, RegisterIndex(12), 0x0000_000f).unwrap();
    // push shifts the two young pairs up, filling the lowest with zeros
    cop.push_mode();
    assert_eq!(cop.status().0 & 0x3f, 0x3c);
    // pop shifts bits 5:2 down while bits 5:4 stay in place
    cop.pop_mode();
    assert_eq!(cop.status().0 & 0x3f, 0x3f);
    // a pop with distinct pairs: 0b11_01_00 becomes 0b11_11_01
    cop.mtc0(&mut bus, RegisterIndex(12), 0x0000_0034).unwrap();
    cop.pop_mode();
    assert_eq!(cop.status().0 & 0x3f, 0x3d);
}

#[test]
fn set_cause_replaces_only_the_code_field() {
    let image = vec![0u8; BIOS_SIZE];
    let buf: &[u8; BIOS_SIZE] = image.as_slice().try_into().unwrap();
    let mut bus = Bus::new(Ram::new(), Bios::new(buf));
    let mut cop = Cop0::new();
    cop.set_cause(Exception::Overflow);
    assert_eq!(cop.mfc0(&mut bus, RegisterIndex(13)), Ok(12 << 2));
    cop.set_cause(Exception::Syscall);
    assert_eq!(cop.mfc0(&mut bus, RegisterIndex(13)), Ok(8 << 2));
}

#[test]
fn cop0_register_interface() {
    let image = vec![0u8; BIOS_SIZE];
    let buf: &[u8; BIOS_SIZE] = image.as_slice().try_into().unwrap();
    let mut bus = Bus::new(Ram::new(), Bios::new(buf));
    let mut cop = Cop0::new();
    assert_eq!(cop.mtc0(&mut bus, RegisterIndex(12), 0x1_0000), Ok(()));
    assert!(cop.status().is_isolate_cache());
    assert_eq!(cop.mfc0(&mut bus, RegisterIndex(12)), Ok(0x1_0000));
    assert_eq!(cop.mtc0(&mut bus, RegisterIndex(3), 0), Ok(()));
    assert_eq!(
        cop.mtc0(&mut bus, RegisterIndex(3), 7),
        Err(FatalError::UnsupportedCop0Write { reg: 3, val: 7 })
    );
    assert_eq!(
        cop.mtc0(&mut bus, RegisterIndex(2), 0),
        Err(FatalError::UnsupportedCop0Write { reg: 2, val: 0 })
    );
    assert_eq!(
        cop.mfc0(&mut bus, RegisterIndex(5)),
        Err(FatalError::UnsupportedCop0Read { reg: 5 })
    );
}

#[test]
fn exception_vector_follows_bev() {
    let image = vec![0u8; BIOS_SIZE];
    let buf: &[u8; BIOS_SIZE] = image.as_slice().try_into().unwrap();
    let mut bus = Bus::new(Ram::new(), Bios::new(buf));
    let mut cop = Cop0::new();
    assert!(matches!(cop.status().exception_vector(), ExceptionVector::Normal));
    cop.mtc0(&mut bus, RegisterIndex(12), 0x0040_0000).unwrap();
    assert!(matches!(cop.status().exception_vector(), ExceptionVector::Boot));
    assert_eq!(handler(ExceptionVector::Normal, ExceptionClass::General), 0x8000_0080);
    assert_eq!(handler(ExceptionVector::Boot, ExceptionClass::General), 0xbfc0_0180);
}

#[test]
fn instruction_fields_decode() {
    let i = Instruction(0x3c01_1234);
    assert_eq!(i.opcode(), 0x0f);
    assert_eq!(i.rt().0, 1);
    assert_eq!(i.imm(), 0x1234);
    let j = Instruction(0x0022_001a);
    assert_eq!(j.opcode(), 0);
    assert_eq!(j.funct(), 0x1a);
    assert_eq!(j.rs().0, 1);
    assert_eq!(j.rt().0, 2);
    let k = Instruction(0x2001_ffff);
    assert_eq!(k.imm_se(), 0xffff_ffff);
    assert_eq!(k.imm(), 0xffff);
    let l = Instruction(0x0bf0_0040);
    assert_eq!(l.addr(), 0x03f0_0040);
    assert_eq!(l.inner(), 0x0bf0_0040);
    let m = Instruction(0x0001_1103);
    assert_eq!(m.rd().0, 2);
    assert_eq!(m.shamt(), 4);
    let n = Instruction(0x4081_6000);
    assert_eq!(n.cop_op(), 4);
}

#[test]
fn config_carries_log_level() {
    let c = Config::new(LogLevel::Debug);
    assert_eq!(c.log_level, LogLevel::Debug);
    assert_ne!(LogLevel::Trace, LogLevel::Error);
}
