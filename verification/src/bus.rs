//! The bus routes typed loads and stores to the BIOS, to RAM, or to one of
//! the stub memory-mapped I/O windows.
//!
//! MMIO reads return zero — except GPU offset 4, which reads as
//! `0x1000_0000` so the boot code sees a GPU status that is ready to
//! receive DMA blocks.  MMIO writes are accepted and discarded.  A store to
//! the BIOS window or an access outside every window is a fatal fault.
//! Alignment is not checked here; the CPU raises alignment exceptions
//! before calling the bus.

use vstd::prelude::*;
use crate::access::{AccessWidth, extract_subword, narrow, narrow_to};
use crate::bios::Bios;
use crate::errors::FatalError;
use crate::map::{Region, get_region, mask_region, mask_spec, region_spec};
use crate::ram;
use crate::ram::Ram;

verus! {

pub struct Bus {
    pub ram: Ram,
    pub bios: Bios,
}

/// What a typed load from virtual address `addr` yields on bus `b`.
pub open spec fn bus_load_spec(b: Bus, w: AccessWidth, addr: u32) -> Result<u32, FatalError> {
    let p = mask_spec(addr);
    match region_spec(p) {
        Option::None => Result::Err(FatalError::UnknownRegion { addr: p }),
        Option::Some(region) => match region {
            Region::Bios(m) => Result::Ok(
                extract_subword(w, b.bios.mem@[(p - m.base) as int / 4], (p - m.base) as u32),
            ),
            Region::Ram(m) => Result::Ok(ram::load_spec(b.ram.mem@, w, (p - m.base) as u32)),
            Region::Gpu(m) => Result::Ok(
                narrow(
                    w,
                    if (p - m.base) as u32 == 4 {
                        0x1000_0000
                    } else {
                        0
                    },
                ),
            ),
            _ => Result::Ok(0),
        },
    }
}

/// How a typed store of `val` at virtual address `addr` relates the bus
/// before (`pre`) and after (`post`), and which result it returns.
pub open spec fn bus_store_rel(
    pre: Bus,
    post: Bus,
    w: AccessWidth,
    addr: u32,
    val: u32,
    r: Result<(), FatalError>,
) -> bool {
    let p = mask_spec(addr);
    match region_spec(p) {
        Option::None => r == Result::<(), FatalError>::Err(FatalError::UnknownRegion { addr: p })
            && post == pre,
        Option::Some(region) => match region {
            Region::Bios(m) => r == Result::<(), FatalError>::Err(
                FatalError::WriteToReadOnly { addr: p },
            ) && post == pre,
            Region::Ram(m) => r == Result::<(), FatalError>::Ok(()) && post.ram.mem@
                == ram::store_spec(pre.ram.mem@, w, (p - m.base) as u32, val) && post.bios
                == pre.bios,
            _ => r == Result::<(), FatalError>::Ok(()) && post == pre,
        },
    }
}

impl Bus {
    pub open spec fn wf(&self) -> bool {
        self.ram.wf() && self.bios.wf()
    }

    pub fn new(ram: Ram, bios: Bios) -> (r: Bus)
        ensures
            r.ram == ram,
            r.bios == bios,
    {
        Bus { ram, bios }
    }

    /// Route a typed load to the proper device.
    pub fn load(&self, width: AccessWidth, addr: u32) -> (r: Result<u32, FatalError>)
        requires
            self.wf(),
        ensures
            r == bus_load_spec(*self, width, addr),
    {
        let paddr = mask_region(addr);
        match get_region(paddr) {
            Option::None => Result::Err(FatalError::UnknownRegion { addr: paddr }),
            Option::Some(region) => match region {
                Region::Bios(m) => Result::Ok(self.bios.load(width, paddr - m.base)),
                Region::Ram(m) => Result::Ok(self.ram.load(width, paddr - m.base)),
                Region::Gpu(m) => {
                    let off = paddr - m.base;
                    Result::Ok(
                        narrow_to(
                            width,
                            if off == 4 {
                                0x1000_0000
                            } else {
                                0
                            },
                        ),
                    )
                },
                _ => Result::Ok(0),
            },
        }
    }

    /// Route a typed store to the proper device.  Stores to MMIO windows
    /// are discarded; a store to the BIOS window is a fatal fault.
    pub fn store(&mut self, width: AccessWidth, addr: u32, val: u32) -> (r: Result<
        (),
        FatalError,
    >)
        requires
            old(self).wf(),
        ensures
            final(self).wf(),
            bus_store_rel(*old(self), *final(self), width, addr, val, r),
            final(self).bios == old(self).bios,
    {
        let paddr = mask_region(addr);
        match get_region(paddr) {
            Option::None => Result::Err(FatalError::UnknownRegion { addr: paddr }),
            Option::Some(region) => match region {
                Region::Bios(_m) => Result::Err(FatalError::WriteToReadOnly { addr: paddr }),
                Region::Ram(m) => {
                    self.ram.store(width, paddr - m.base, val);
                    Result::Ok(())
                },
                _ => Result::Ok(()),
            },
        }
    }
}

/// KSEG mirroring: a RAM physical address reads the same through KUSEG,
/// KSEG0 and KSEG1, whatever RAM holds.
pub proof fn lemma_kseg_mirror(b: Bus, w: AccessWidth, a: u32)
    requires
        a < 0x0020_0000,
    ensures
        bus_load_spec(b, w, (a | 0x8000_0000) as u32) == bus_load_spec(b, w, a),
        bus_load_spec(b, w, (a | 0xa000_0000) as u32) == bus_load_spec(b, w, a),
{
    assert(a < 0x0020_0000 ==> a >> 29 == 0 && (a | 0x8000_0000) >> 29 == 4 && ((a | 0x8000_0000)
        & 0x7fff_ffff) == a) by (bit_vector);
    assert(a < 0x0020_0000 ==> (a | 0xa000_0000) >> 29 == 5 && ((a | 0xa000_0000) & 0x1fff_ffff)
        == a) by (bit_vector);
}

} // verus!
