//! Memory map of the console: address masking and the catalogue of physical
//! regions (BIOS, RAM and the memory-mapped I/O windows).

use vstd::prelude::*;

verus! {

/// A physical address window: `[base, base + size)`.
#[derive(Debug, Copy, Clone, PartialEq, Eq, Structural)]
pub struct Mapping {
    pub base: u32,
    pub size: u32,
}

impl Mapping {
    pub fn new(base: u32, size: u32) -> (m: Mapping)
        ensures
            m.base == base,
            m.size == size,
    {
        Mapping { base, size }
    }

    /// Whether `addr` falls inside this window.
    pub fn contains(self, addr: u32) -> (r: bool)
        ensures
            r == (self.base <= addr < self.base + self.size),
    {
        addr >= self.base && (addr - self.base) < self.size
    }
}

/// A physical region of the address space, carrying its window.
#[derive(Debug, Copy, Clone, PartialEq, Eq, Structural)]
pub enum Region {
    Bios(Mapping),
    Ram(Mapping),
    MemCtl(Mapping),
    RamCtl(Mapping),
    IrqCtl(Mapping),
    Timer(Mapping),
    CacheCtl(Mapping),
    Spu(Mapping),
    Exp1(Mapping),
    Exp2(Mapping),
    Dma(Mapping),
    Gpu(Mapping),
}

/// The window a region carries.
pub open spec fn mapping_of(r: Region) -> Mapping {
    match r {
        Region::Bios(m) => m,
        Region::Ram(m) => m,
        Region::MemCtl(m) => m,
        Region::RamCtl(m) => m,
        Region::IrqCtl(m) => m,
        Region::Timer(m) => m,
        Region::CacheCtl(m) => m,
        Region::Spu(m) => m,
        Region::Exp1(m) => m,
        Region::Exp2(m) => m,
        Region::Dma(m) => m,
        Region::Gpu(m) => m,
    }
}

/// A region as the fixed catalogue lists it: the right window for its tag.
pub open spec fn canonical_region(r: Region) -> bool {
    match r {
        Region::Ram(m) => m == (Mapping { base: 0x0000_0000, size: 0x0020_0000 }),
        Region::Exp1(m) => m == (Mapping { base: 0x1f00_0000, size: 0x2000 }),
        Region::MemCtl(m) => m == (Mapping { base: 0x1f80_1000, size: 36 }),
        Region::RamCtl(m) => m == (Mapping { base: 0x1f80_1060, size: 4 }),
        Region::IrqCtl(m) => m == (Mapping { base: 0x1f80_1070, size: 8 }),
        Region::Dma(m) => m == (Mapping { base: 0x1f80_1080, size: 128 }),
        Region::Timer(m) => m == (Mapping { base: 0x1f80_1100, size: 48 }),
        Region::Gpu(m) => m == (Mapping { base: 0x1f80_1810, size: 8 }),
        Region::Spu(m) => m == (Mapping { base: 0x1f80_1c00, size: 640 }),
        Region::Exp2(m) => m == (Mapping { base: 0x1f80_2000, size: 0x2000 }),
        Region::Bios(m) => m == (Mapping { base: 0x1fc0_0000, size: 0x0008_0000 }),
        Region::CacheCtl(m) => m == (Mapping { base: 0xfffe_0130, size: 4 }),
    }
}

/// Collapse a virtual address to its physical equivalent.  The 32-bit space
/// splits into eight segments by the top three bits; KSEG0 drops bit 31 and
/// KSEG1 drops bits 31:29, so both mirror the low 512 MiB of physical space.
pub open spec fn mask_spec(addr: u32) -> u32 {
    if addr >> 29 == 4 {
        addr & 0x7fff_ffff
    } else if addr >> 29 == 5 {
        addr & 0x1fff_ffff
    } else {
        addr
    }
}

/// The region a physical address falls in, if any.
pub open spec fn region_spec(paddr: u32) -> Option<Region> {
    if paddr < 0x0020_0000 {
        Some(Region::Ram(Mapping { base: 0x0000_0000, size: 0x0020_0000 }))
    } else if 0x1fc0_0000 <= paddr < 0x1fc8_0000 {
        Some(Region::Bios(Mapping { base: 0x1fc0_0000, size: 0x0008_0000 }))
    } else if 0x1f80_1000 <= paddr < 0x1f80_1024 {
        Some(Region::MemCtl(Mapping { base: 0x1f80_1000, size: 36 }))
    } else if 0x1f80_1060 <= paddr < 0x1f80_1064 {
        Some(Region::RamCtl(Mapping { base: 0x1f80_1060, size: 4 }))
    } else if 0x1f80_1070 <= paddr < 0x1f80_1078 {
        Some(Region::IrqCtl(Mapping { base: 0x1f80_1070, size: 8 }))
    } else if 0x1f80_1100 <= paddr < 0x1f80_1130 {
        Some(Region::Timer(Mapping { base: 0x1f80_1100, size: 48 }))
    } else if 0xfffe_0130 <= paddr < 0xfffe_0134 {
        Some(Region::CacheCtl(Mapping { base: 0xfffe_0130, size: 4 }))
    } else if 0x1f80_1c00 <= paddr < 0x1f80_1e80 {
        Some(Region::Spu(Mapping { base: 0x1f80_1c00, size: 640 }))
    } else if 0x1f00_0000 <= paddr < 0x1f00_2000 {
        Some(Region::Exp1(Mapping { base: 0x1f00_0000, size: 0x2000 }))
    } else if 0x1f80_2000 <= paddr < 0x1f80_4000 {
        Some(Region::Exp2(Mapping { base: 0x1f80_2000, size: 0x2000 }))
    } else if 0x1f80_1080 <= paddr < 0x1f80_1100 {
        Some(Region::Dma(Mapping { base: 0x1f80_1080, size: 128 }))
    } else if 0x1f80_1810 <= paddr < 0x1f80_1818 {
        Some(Region::Gpu(Mapping { base: 0x1f80_1810, size: 8 }))
    } else {
        None
    }
}

/// Mask a virtual address down to a physical one.
pub fn mask_region(addr: u32) -> (r: u32)
    ensures
        r == mask_spec(addr),
{
    let idx = addr >> 29;
    if idx == 4 {
        addr & 0x7fff_ffff
    } else if idx == 5 {
        addr & 0x1fff_ffff
    } else {
        addr
    }
}

/// Look the physical address up in the region catalogue.  Returns `None`
/// when no window covers it (an unknown-region fault for the bus).
pub fn get_region(addr: u32) -> (r: Option<Region>)
    ensures
        r == region_spec(addr),
{
    if addr < 0x0020_0000 {
        Some(Region::Ram(Mapping { base: 0x0000_0000, size: 0x0020_0000 }))
    } else if 0x1fc0_0000 <= addr && addr < 0x1fc8_0000 {
        Some(Region::Bios(Mapping { base: 0x1fc0_0000, size: 0x0008_0000 }))
    } else if 0x1f80_1000 <= addr && addr < 0x1f80_1024 {
        Some(Region::MemCtl(Mapping { base: 0x1f80_1000, size: 36 }))
    } else if 0x1f80_1060 <= addr && addr < 0x1f80_1064 {
        Some(Region::RamCtl(Mapping { base: 0x1f80_1060, size: 4 }))
    } else if 0x1f80_1070 <= addr && addr < 0x1f80_1078 {
        Some(Region::IrqCtl(Mapping { base: 0x1f80_1070, size: 8 }))
    } else if 0x1f80_1100 <= addr && addr < 0x1f80_1130 {
        Some(Region::Timer(Mapping { base: 0x1f80_1100, size: 48 }))
    } else if 0xfffe_0130 <= addr && addr < 0xfffe_0134 {
        Some(Region::CacheCtl(Mapping { base: 0xfffe_0130, size: 4 }))
    } else if 0x1f80_1c00 <= addr && addr < 0x1f80_1e80 {
        Some(Region::Spu(Mapping { base: 0x1f80_1c00, size: 640 }))
    } else if 0x1f00_0000 <= addr && addr < 0x1f00_2000 {
        Some(Region::Exp1(Mapping { base: 0x1f00_0000, size: 0x2000 }))
    } else if 0x1f80_2000 <= addr && addr < 0x1f80_4000 {
        Some(Region::Exp2(Mapping { base: 0x1f80_2000, size: 0x2000 }))
    } else if 0x1f80_1080 <= addr && addr < 0x1f80_1100 {
        Some(Region::Dma(Mapping { base: 0x1f80_1080, size: 128 }))
    } else if 0x1f80_1810 <= addr && addr < 0x1f80_1818 {
        Some(Region::Gpu(Mapping { base: 0x1f80_1810, size: 8 }))
    } else {
        None
    }
}

/// Region masking is idempotent: masking a physical address changes nothing.
pub proof fn lemma_mask_idempotent(addr: u32)
    ensures
        mask_spec(mask_spec(addr)) == mask_spec(addr),
{
    assert(addr >> 29 == 4 ==> (addr & 0x7fff_ffff) >> 29 < 4) by (bit_vector);
    assert(addr >> 29 == 5 ==> (addr & 0x1fff_ffff) >> 29 == 0) by (bit_vector);
}

/// The catalogue is sound and free of overlaps: every address inside a
/// region's window looks up to exactly that region.
pub proof fn lemma_get_region_complete(r: Region, addr: u32)
    requires
        canonical_region(r),
        mapping_of(r).base <= addr < mapping_of(r).base + mapping_of(r).size,
    ensures
        region_spec(addr) == Some(r),
{
}

} // verus!
