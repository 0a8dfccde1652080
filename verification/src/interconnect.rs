//! The interconnect: routes every load and store of the CPU to the BIOS, to
//! RAM, or to one of the peripheral stubs, which keep no state.

use vstd::prelude::*;
use crate::bios::Bios;
use crate::endian::{
    byte_of, lemma_write16_then_read, lemma_write32_then_read, read16, read32, write16, write32,
};
use crate::fault::Fault;
use crate::map::{
    lemma_aligned_access_fits, locate, mask_region, spec_locate, spec_mask_region, Region, Width,
    BIOS_SIZE, RAM_SIZE,
};
use crate::ram::Ram;

verus! {

/// Everything behind the interconnect that holds state: the BIOS image and RAM.
pub struct Memory {
    pub bios: Seq<u8>,
    pub ram: Seq<u8>,
}

/// The value that the memory controller's expansion base register at
/// `offset` must be written with, if the register is one of the two.
pub open spec fn expansion_base(offset: u32) -> Option<u32> {
    if offset == 0 {
        Some(0x1f00_0000u32)
    } else if offset == 4 {
        Some(0x1f80_2000u32)
    } else {
        None
    }
}

/// Why a load of `width` at the virtual address `addr` has no defined
/// result, if it has none: the address is not aligned to the width, or no
/// device answers a load of this width there.
pub open spec fn load_fault(width: Width, addr: u32) -> Option<Fault> {
    let target = spec_locate(spec_mask_region(addr));
    if addr % width.spec_bytes() != 0 {
        Some(Fault::Misaligned { addr })
    } else if target is Some && target.unwrap().0.spec_reads(width) {
        None
    } else {
        Some(Fault::UnhandledAddress { addr: spec_mask_region(addr) })
    }
}

/// Why a store of `value` in `width` at the virtual address `addr` has no
/// defined effect, if it has none: the address is not aligned to the width,
/// it lies in the BIOS, no device takes a store of this width there, or it
/// is an expansion base register and `value` is not the canonical base.
pub open spec fn store_fault(width: Width, addr: u32, value: u32) -> Option<Fault> {
    let target = spec_locate(spec_mask_region(addr));
    if addr % width.spec_bytes() != 0 {
        Some(Fault::Misaligned { addr })
    } else if target is None {
        Some(Fault::UnhandledAddress { addr: spec_mask_region(addr) })
    } else if target.unwrap().0 == Region::Bios {
        Some(Fault::BiosWrite { addr: spec_mask_region(addr) })
    } else if !target.unwrap().0.spec_writes(width) {
        Some(Fault::UnhandledAddress { addr: spec_mask_region(addr) })
    } else if target.unwrap().0 == Region::MemControl && expansion_base(target.unwrap().1) is Some
        && expansion_base(target.unwrap().1) != Some(value) {
        Some(Fault::BadExpansionBase { offset: target.unwrap().1, value })
    } else {
        None
    }
}

impl Memory {
    /// The BIOS image and RAM have their full sizes.
    pub open spec fn wf(self) -> bool {
        &&& self.bios.len() == BIOS_SIZE
        &&& self.ram.len() == RAM_SIZE
    }

    /// The byte that a load at `addr` returns: the byte of RAM or of the
    /// BIOS, `0xff` from expansion 1, zero from the other stubs.
    pub open spec fn load8(self, addr: u32) -> u8 {
        match spec_locate(spec_mask_region(addr)) {
            Some((Region::Ram, offset)) => self.ram[offset as int],
            Some((Region::Bios, offset)) => self.bios[offset as int],
            Some((Region::Expansion1, _)) => 0xff,
            _ => 0,
        }
    }

    /// The half-word that a load at `addr` returns: from RAM, or zero from a stub.
    pub open spec fn load16(self, addr: u32) -> u16 {
        match spec_locate(spec_mask_region(addr)) {
            Some((Region::Ram, offset)) => read16(self.ram, offset as int),
            _ => 0,
        }
    }

    /// The word that a load at `addr` returns: from RAM or the BIOS, the
    /// "ready" status `0x1000_0000` at offset 4 of the GPU, zero from the
    /// rest of the GPU and from the other stubs.
    pub open spec fn load32(self, addr: u32) -> u32 {
        match spec_locate(spec_mask_region(addr)) {
            Some((Region::Ram, offset)) => read32(self.ram, offset as int),
            Some((Region::Bios, offset)) => read32(self.bios, offset as int),
            Some((Region::Gpu, offset)) => if offset == 4 {
                0x1000_0000
            } else {
                0
            },
            _ => 0,
        }
    }

    /// Memory after a byte store: RAM keeps the byte, a stub drops it.
    pub open spec fn store8(self, addr: u32, value: u8) -> Memory {
        match spec_locate(spec_mask_region(addr)) {
            Some((Region::Ram, offset)) => Memory {
                ram: self.ram.update(offset as int, value),
                ..self
            },
            _ => self,
        }
    }

    /// Memory after a half-word store: RAM keeps it, a stub drops it.
    pub open spec fn store16(self, addr: u32, value: u16) -> Memory {
        match spec_locate(spec_mask_region(addr)) {
            Some((Region::Ram, offset)) => Memory {
                ram: write16(self.ram, offset as int, value),
                ..self
            },
            _ => self,
        }
    }

    /// Memory after a word store: RAM keeps it, a stub drops it.
    pub open spec fn store32(self, addr: u32, value: u32) -> Memory {
        match spec_locate(spec_mask_region(addr)) {
            Some((Region::Ram, offset)) => Memory {
                ram: write32(self.ram, offset as int, value),
                ..self
            },
            _ => self,
        }
    }
}

/// The virtual address `addr` lies in RAM, in whichever segment.
pub open spec fn in_ram(addr: u32) -> bool {
    spec_locate(spec_mask_region(addr)) matches Some((Region::Ram, _))
}

/// A byte stored to RAM is read back at the same address.
pub proof fn lemma_store8_then_load(m: Memory, addr: u32, value: u8)
    requires
        m.wf(),
        in_ram(addr),
    ensures
        m.store8(addr, value).wf(),
        m.store8(addr, value).load8(addr) == value,
{
}

/// A half-word stored to RAM is read back at the same address, and the two
/// byte loads there return its low and its high byte.
pub proof fn lemma_store16_then_load(m: Memory, addr: u32, value: u16)
    requires
        m.wf(),
        in_ram(addr),
        addr % 2 == 0,
    ensures
        m.store16(addr, value).wf(),
        m.store16(addr, value).load16(addr) == value,
        m.store16(addr, value).load8(addr) == value % 0x100,
        m.store16(addr, value).load8((addr + 1) as u32) == value / 0x100,
{
    lemma_aligned_access_fits(Width::Half, addr);
    let offset = spec_locate(spec_mask_region(addr)).unwrap().1;
    lemma_write16_then_read(m.ram, offset as int, value);
    assert(spec_locate(spec_mask_region((addr + 1) as u32)) == Some(
        (Region::Ram, (offset + 1) as u32),
    ));
}

/// A word stored to RAM is read back at the same address, and each narrower
/// load within it returns its little-endian slice: the half-words at the
/// address and two bytes on, the four bytes from the address on.
pub proof fn lemma_store32_then_load(m: Memory, addr: u32, value: u32)
    requires
        m.wf(),
        in_ram(addr),
        addr % 4 == 0,
    ensures
        m.store32(addr, value).wf(),
        m.store32(addr, value).load32(addr) == value,
        m.store32(addr, value).load16(addr) == value % 0x1_0000,
        m.store32(addr, value).load16((addr + 2) as u32) == value / 0x1_0000,
        m.store32(addr, value).load8(addr) == byte_of(value, 0),
        m.store32(addr, value).load8((addr + 1) as u32) == byte_of(value, 1),
        m.store32(addr, value).load8((addr + 2) as u32) == byte_of(value, 2),
        m.store32(addr, value).load8((addr + 3) as u32) == byte_of(value, 3),
{
    lemma_aligned_access_fits(Width::Word, addr);
    let offset = spec_locate(spec_mask_region(addr)).unwrap().1;
    lemma_write32_then_read(m.ram, offset as int, value);
    let ram = write32(m.ram, offset as int, value);
    assert(spec_locate(spec_mask_region((addr + 1) as u32)) == Some(
        (Region::Ram, (offset + 1) as u32),
    ));
    assert(spec_locate(spec_mask_region((addr + 2) as u32)) == Some(
        (Region::Ram, (offset + 2) as u32),
    ));
    assert(spec_locate(spec_mask_region((addr + 3) as u32)) == Some(
        (Region::Ram, (offset + 3) as u32),
    ));
    assert(ram[offset + 0] == byte_of(value, 0));
    assert(ram[offset + 1] == byte_of(value, 1));
    assert(ram[offset + 2] == byte_of(value, 2));
    assert(ram[offset + 3] == byte_of(value, 3));
}

/// The interconnect, which owns the BIOS image and RAM.
pub struct Interconnect {
    bios: Bios,
    ram: Ram,
}

impl View for Interconnect {
    type V = Memory;

    closed spec fn view(&self) -> Memory {
        Memory { bios: self.bios@, ram: self.ram@ }
    }
}

impl Interconnect {
    /// The BIOS image and RAM have their full sizes.
    pub open spec fn inv(&self) -> bool {
        self@.wf()
    }

    /// An interconnect over the given BIOS and RAM.
    pub fn new(bios: Bios, ram: Ram) -> (r: Interconnect)
        requires
            bios.inv(),
            ram.inv(),
        ensures
            r.inv(),
            r@ == (Memory { bios: bios@, ram: ram@ }),
    {
        Interconnect { bios, ram }
    }

    /// Tells whether a load would be answered, and if not, why not.
    pub fn load_fault(width: Width, addr: u32) -> (r: Option<Fault>)
        ensures
            r == load_fault(width, addr),
    {
        if addr % width.bytes() != 0 {
            return Some(Fault::Misaligned { addr });
        }
        let masked = mask_region(addr);
        match locate(masked) {
            Some((region, _)) => {
                if region.reads(width) {
                    None
                } else {
                    Some(Fault::UnhandledAddress { addr: masked })
                }
            },
            None => Some(Fault::UnhandledAddress { addr: masked }),
        }
    }

    /// Tells whether a store would be taken, and if not, why not.
    pub fn store_fault(width: Width, addr: u32, value: u32) -> (r: Option<Fault>)
        ensures
            r == store_fault(width, addr, value),
    {
        if addr % width.bytes() != 0 {
            return Some(Fault::Misaligned { addr });
        }
        let masked = mask_region(addr);
        match locate(masked) {
            None => Some(Fault::UnhandledAddress { addr: masked }),
            Some((Region::Bios, _)) => Some(Fault::BiosWrite { addr: masked }),
            Some((region, offset)) => {
                if !region.writes(width) {
                    Some(Fault::UnhandledAddress { addr: masked })
                } else {
                    match region {
                        Region::MemControl => match offset {
                            0 => {
                                if value != 0x1f00_0000 {
                                    Some(Fault::BadExpansionBase { offset, value })
                                } else {
                                    None
                                }
                            },
                            4 => {
                                if value != 0x1f80_2000 {
                                    Some(Fault::BadExpansionBase { offset, value })
                                } else {
                                    None
                                }
                            },
                            _ => None,
                        },
                        _ => None,
                    }
                }
            },
        }
    }

    /// Loads the byte at the virtual address `addr`.
    pub fn load8(&self, addr: u32) -> (v: u8)
        requires
            self.inv(),
            load_fault(Width::Byte, addr) is None,
        ensures
            v == self@.load8(addr),
    {
        match locate(mask_region(addr)) {
            Some((Region::Ram, offset)) => self.ram.load8(offset),
            Some((Region::Bios, offset)) => self.bios.load8(offset),
            Some((Region::Expansion1, _)) => 0xff,
            _ => 0,
        }
    }

    /// Loads the half-word at the virtual address `addr`.
    pub fn load16(&self, addr: u32) -> (v: u16)
        requires
            self.inv(),
            load_fault(Width::Half, addr) is None,
        ensures
            v == self@.load16(addr),
    {
        proof {
            lemma_aligned_access_fits(Width::Half, addr);
        }
        match locate(mask_region(addr)) {
            Some((Region::Ram, offset)) => self.ram.load16(offset),
            _ => 0,
        }
    }

    /// Loads the word at the virtual address `addr`.
    pub fn load32(&self, addr: u32) -> (v: u32)
        requires
            self.inv(),
            load_fault(Width::Word, addr) is None,
        ensures
            v == self@.load32(addr),
    {
        proof {
            lemma_aligned_access_fits(Width::Word, addr);
        }
        match locate(mask_region(addr)) {
            Some((Region::Ram, offset)) => self.ram.load32(offset),
            Some((Region::Bios, offset)) => self.bios.load32(offset),
            Some((Region::Gpu, offset)) => match offset {
                4 => 0x1000_0000,
                _ => 0,
            },
            _ => 0,
        }
    }

    /// Stores a byte at the virtual address `addr`.
    pub fn store8(&mut self, addr: u32, val: u8)
        requires
            old(self).inv(),
            store_fault(Width::Byte, addr, val as u32) is None,
        ensures
            final(self).inv(),
            final(self)@ == old(self)@.store8(addr, val),
    {
        match locate(mask_region(addr)) {
            Some((Region::Ram, offset)) => self.ram.store8(offset, val),
            _ => {},
        }
    }

    /// Stores a half-word at the virtual address `addr`.
    pub fn store16(&mut self, addr: u32, val: u16)
        requires
            old(self).inv(),
            store_fault(Width::Half, addr, val as u32) is None,
        ensures
            final(self).inv(),
            final(self)@ == old(self)@.store16(addr, val),
    {
        proof {
            lemma_aligned_access_fits(Width::Half, addr);
        }
        match locate(mask_region(addr)) {
            Some((Region::Ram, offset)) => self.ram.store16(offset, val),
            _ => {},
        }
    }

    /// Stores a word at the virtual address `addr`.
    pub fn store32(&mut self, addr: u32, val: u32)
        requires
            old(self).inv(),
            store_fault(Width::Word, addr, val) is None,
        ensures
            final(self).inv(),
            final(self)@ == old(self)@.store32(addr, val),
    {
        proof {
            lemma_aligned_access_fits(Width::Word, addr);
        }
        match locate(mask_region(addr)) {
            Some((Region::Ram, offset)) => self.ram.store32(offset, val),
            _ => {},
        }
    }
}

} // verus!
