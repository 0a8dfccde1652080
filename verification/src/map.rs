//! The memory map: region masking, the named address ranges, and which
//! accesses each of them takes.

use vstd::prelude::*;

verus! {

/// Size of main RAM in bytes (2 MiB).
pub const RAM_SIZE: u32 = 0x20_0000;

/// Size of the BIOS image in bytes (512 KiB).
pub const BIOS_SIZE: u32 = 0x8_0000;

/// The physical address behind a virtual one: KSEG0 and KSEG1 are mirrors of
/// the low 512 MiB, KUSEG and KSEG2 are left as they are.
pub open spec fn spec_mask_region(addr: u32) -> u32 {
    if 0x8000_0000 <= addr < 0xa000_0000 {
        (addr - 0x8000_0000) as u32
    } else if 0xa000_0000 <= addr < 0xc000_0000 {
        (addr - 0xa000_0000) as u32
    } else {
        addr
    }
}

/// Masks a virtual address by the mask of the region that bits [31:29] select.
#[verifier::when_used_as_spec(spec_mask_region)]
pub fn mask_region(addr: u32) -> (r: u32)
    ensures
        r == spec_mask_region(addr),
{
    let index = addr >> 29;
    let mask: u32 = match index {
        // KSEG0
        4 => 0x7fff_ffff,
        // KSEG1
        5 => 0x1fff_ffff,
        // KUSEG and KSEG2
        _ => 0xffff_ffff,
    };
    let r = addr & mask;
    assert(r == spec_mask_region(addr)) by (bit_vector)
        requires
            r == addr & mask,
            mask == (if addr >> 29 == 4 {
                0x7fff_ffffu32
            } else if addr >> 29 == 5 {
                0x1fff_ffffu32
            } else {
                0xffff_ffffu32
            }),
    ;
    r
}

/// KUSEG, KSEG0 and KSEG1 alias: an address below 512 MiB, its KSEG0 mirror
/// and its KSEG1 mirror all mask to the address itself.
pub proof fn lemma_segments_alias(a: u32)
    requires
        a < 0x2000_0000,
    ensures
        spec_mask_region(a) == a,
        spec_mask_region(a | 0x8000_0000) == a,
        spec_mask_region(a | 0xa000_0000) == a,
{
    assert(a | 0x8000_0000 == a + 0x8000_0000 && a | 0xa000_0000 == a + 0xa000_0000)
        by (bit_vector)
        requires
            a < 0x2000_0000,
    ;
}

/// A half-open range of addresses, `[start, start + length)`.
#[derive(Clone, Copy, Debug, PartialEq, Eq)]
pub struct Range(pub u32, pub u32);

impl Range {
    /// The offset of `addr` within the range, if the range holds it.
    pub open spec fn spec_contains(self, addr: u32) -> Option<u32> {
        if self.0 <= addr < self.0 + self.1 {
            Some((addr - self.0) as u32)
        } else {
            None
        }
    }

    /// Tells whether the range holds `addr`, and at which offset.
    #[verifier::when_used_as_spec(spec_contains)]
    pub fn contains(self, addr: u32) -> (r: Option<u32>)
        ensures
            r == self.spec_contains(addr),
    {
        let Range(start, length) = self;
        if addr >= start && addr - start < length {
            Some(addr - start)
        } else {
            None
        }
    }
}

/// The width of a load or store.
#[derive(Clone, Copy, Debug, PartialEq, Eq)]
pub enum Width {
    Byte,
    Half,
    Word,
}

impl Width {
    /// Number of bytes moved.
    pub open spec fn spec_bytes(self) -> u32 {
        match self {
            Width::Byte => 1,
            Width::Half => 2,
            Width::Word => 4,
        }
    }

    /// Number of bytes moved, which is also the alignment asked of the address.
    #[verifier::when_used_as_spec(spec_bytes)]
    pub fn bytes(self) -> (r: u32)
        ensures
            r == self.spec_bytes(),
    {
        match self {
            Width::Byte => 1,
            Width::Half => 2,
            Width::Word => 4,
        }
    }
}

/// The devices on the bus, in the order in which an address is tested against them.
#[derive(Clone, Copy, Debug, PartialEq, Eq)]
pub enum Region {
    Ram,
    Expansion1,
    MemControl,
    RamSize,
    IrqControl,
    Timers,
    Gpu,
    Dma,
    Spu,
    Expansion2,
    Bios,
    CacheControl,
}

impl Region {
    /// Where the device sits in the physical address space.
    pub open spec fn spec_range(self) -> Range {
        match self {
            Region::Ram => Range(0x0000_0000, 0x20_0000),
            Region::Expansion1 => Range(0x1f00_0000, 0x2000),
            Region::MemControl => Range(0x1f80_1000, 36),
            Region::RamSize => Range(0x1f80_1060, 4),
            Region::IrqControl => Range(0x1f80_1070, 8),
            Region::Timers => Range(0x1f80_1100, 52),
            Region::Gpu => Range(0x1f80_1810, 16),
            Region::Dma => Range(0x1f80_1080, 0x80),
            Region::Spu => Range(0x1f80_1c00, 640),
            Region::Expansion2 => Range(0x1f80_2000, 0x2000),
            Region::Bios => Range(0x1fc0_0000, 0x8_0000),
            Region::CacheControl => Range(0xfffe_0130, 4),
        }
    }

    /// Where the device sits in the physical address space.
    #[verifier::when_used_as_spec(spec_range)]
    pub fn range(self) -> (r: Range)
        ensures
            r == self.spec_range(),
    {
        match self {
            Region::Ram => Range(0x0000_0000, 0x20_0000),
            Region::Expansion1 => Range(0x1f00_0000, 0x2000),
            Region::MemControl => Range(0x1f80_1000, 36),
            Region::RamSize => Range(0x1f80_1060, 4),
            Region::IrqControl => Range(0x1f80_1070, 8),
            Region::Timers => Range(0x1f80_1100, 52),
            Region::Gpu => Range(0x1f80_1810, 16),
            Region::Dma => Range(0x1f80_1080, 0x80),
            Region::Spu => Range(0x1f80_1c00, 640),
            Region::Expansion2 => Range(0x1f80_2000, 0x2000),
            Region::Bios => Range(0x1fc0_0000, 0x8_0000),
            Region::CacheControl => Range(0xfffe_0130, 4),
        }
    }

    /// Whether the device answers a load of this width. RAM answers every
    /// width, the BIOS bytes and words, the interrupt, timer and DMA stubs
    /// every width, and expansion 1, the SPU and the GPU one width each.
    pub open spec fn spec_reads(self, width: Width) -> bool {
        match self {
            Region::Ram | Region::IrqControl | Region::Timers | Region::Dma => true,
            Region::Bios => width != Width::Half,
            Region::Expansion1 => width == Width::Byte,
            Region::Spu => width == Width::Half,
            Region::Gpu => width == Width::Word,
            Region::MemControl | Region::RamSize | Region::Expansion2 | Region::CacheControl => false,
        }
    }

    /// Tells whether the device answers a load of this width.
    #[verifier::when_used_as_spec(spec_reads)]
    pub fn reads(self, width: Width) -> (r: bool)
        ensures
            r == self.spec_reads(width),
    {
        match self {
            Region::Ram | Region::IrqControl | Region::Timers | Region::Dma => true,
            Region::Bios => !matches!(width, Width::Half),
            Region::Expansion1 => matches!(width, Width::Byte),
            Region::Spu => matches!(width, Width::Half),
            Region::Gpu => matches!(width, Width::Word),
            Region::MemControl | Region::RamSize | Region::Expansion2 | Region::CacheControl => false,
        }
    }

    /// Whether the device takes a store of this width. RAM keeps what is
    /// stored; every other device that takes the store drops it. The BIOS is
    /// read-only; the expansions take bytes and the memory controller words.
    pub open spec fn spec_writes(self, width: Width) -> bool {
        match self {
            Region::Bios => false,
            Region::Expansion1 | Region::Expansion2 => width == Width::Byte,
            Region::MemControl => width == Width::Word,
            Region::Ram | Region::RamSize | Region::IrqControl | Region::Timers | Region::Gpu
            | Region::Dma | Region::Spu | Region::CacheControl => true,
        }
    }

    /// Tells whether the device takes a store of this width.
    #[verifier::when_used_as_spec(spec_writes)]
    pub fn writes(self, width: Width) -> (r: bool)
        ensures
            r == self.spec_writes(width),
    {
        match self {
            Region::Bios => false,
            Region::Expansion1 | Region::Expansion2 => matches!(width, Width::Byte),
            Region::MemControl => matches!(width, Width::Word),
            Region::Ram | Region::RamSize | Region::IrqControl | Region::Timers | Region::Gpu
            | Region::Dma | Region::Spu | Region::CacheControl => true,
        }
    }
}

/// `addr` as an offset into `region`, if the region holds it.
pub open spec fn spec_within(region: Region, addr: u32) -> Option<(Region, u32)> {
    match region.spec_range().spec_contains(addr) {
        Some(offset) => Some((region, offset)),
        None => None,
    }
}

/// The first device, in table order, whose range holds the physical address
/// `addr`, with the offset of `addr` within it.
pub open spec fn spec_locate(addr: u32) -> Option<(Region, u32)> {
    if spec_within(Region::Ram, addr) is Some {
        spec_within(Region::Ram, addr)
    } else if spec_within(Region::Expansion1, addr) is Some {
        spec_within(Region::Expansion1, addr)
    } else if spec_within(Region::MemControl, addr) is Some {
        spec_within(Region::MemControl, addr)
    } else if spec_within(Region::RamSize, addr) is Some {
        spec_within(Region::RamSize, addr)
    } else if spec_within(Region::IrqControl, addr) is Some {
        spec_within(Region::IrqControl, addr)
    } else if spec_within(Region::Timers, addr) is Some {
        spec_within(Region::Timers, addr)
    } else if spec_within(Region::Gpu, addr) is Some {
        spec_within(Region::Gpu, addr)
    } else if spec_within(Region::Dma, addr) is Some {
        spec_within(Region::Dma, addr)
    } else if spec_within(Region::Spu, addr) is Some {
        spec_within(Region::Spu, addr)
    } else if spec_within(Region::Expansion2, addr) is Some {
        spec_within(Region::Expansion2, addr)
    } else if spec_within(Region::Bios, addr) is Some {
        spec_within(Region::Bios, addr)
    } else {
        spec_within(Region::CacheControl, addr)
    }
}

fn within(region: Region, addr: u32) -> (r: Option<(Region, u32)>)
    ensures
        r == spec_within(region, addr),
{
    match region.range().contains(addr) {
        Some(offset) => Some((region, offset)),
        None => None,
    }
}

/// Finds the device that a physical address belongs to.
#[verifier::when_used_as_spec(spec_locate)]
pub fn locate(addr: u32) -> (r: Option<(Region, u32)>)
    ensures
        r == spec_locate(addr),
{
    let table = [
        Region::Ram,
        Region::Expansion1,
        Region::MemControl,
        Region::RamSize,
        Region::IrqControl,
        Region::Timers,
        Region::Gpu,
        Region::Dma,
        Region::Spu,
        Region::Expansion2,
        Region::Bios,
        Region::CacheControl,
    ];
    let mut i: usize = 0;
    while i < 12
        invariant
            i <= 12,
            table@.len() == 12,
            table@[0] == Region::Ram,
            table@[1] == Region::Expansion1,
            table@[2] == Region::MemControl,
            table@[3] == Region::RamSize,
            table@[4] == Region::IrqControl,
            table@[5] == Region::Timers,
            table@[6] == Region::Gpu,
            table@[7] == Region::Dma,
            table@[8] == Region::Spu,
            table@[9] == Region::Expansion2,
            table@[10] == Region::Bios,
            table@[11] == Region::CacheControl,
            forall|j: int| 0 <= j < i ==> spec_within(#[trigger] table@[j], addr) is None,
        decreases 12 - i,
    {
        let hit = within(table[i], addr);
        if hit.is_some() {
            return hit;
        }
        i = i + 1;
    }
    None
}

/// The ranges of two different devices share no address, so the order in
/// which `locate` tests them decides nothing: an address is located in
/// whichever device holds it.
pub proof fn lemma_locate_any_order(region: Region, addr: u32)
    ensures
        spec_locate(addr) == spec_within(region, addr) || spec_within(region, addr) is None,
        spec_locate(addr) is None <==> forall|r: Region| spec_within(r, addr) is None,
{
    if spec_locate(addr) is None {
        assert forall|r: Region| spec_within(r, addr) is None by {
            match r {
                Region::Ram => {},
                Region::Expansion1 => {},
                Region::MemControl => {},
                Region::RamSize => {},
                Region::IrqControl => {},
                Region::Timers => {},
                Region::Gpu => {},
                Region::Dma => {},
                Region::Spu => {},
                Region::Expansion2 => {},
                Region::Bios => {},
                Region::CacheControl => {},
            }
        }
    }
}

/// Masking moves an address by a multiple of four.
proof fn lemma_mask_keeps_alignment(addr: u32)
    ensures
        spec_mask_region(addr) % 4 == addr % 4,
        spec_mask_region(addr) % 2 == addr % 2,
{
}

/// Every device starts at a multiple of four and is a multiple of four long.
proof fn lemma_ranges_are_word_aligned(region: Region)
    ensures
        region.spec_range().0 % 4 == 0,
        region.spec_range().1 % 4 == 0,
{
}

/// An access that is aligned to its width and starts in a device also ends
/// in it, and its offset into the device is aligned like the address.
pub proof fn lemma_aligned_access_fits(width: Width, addr: u32)
    requires
        addr % width.spec_bytes() == 0,
        spec_locate(spec_mask_region(addr)) is Some,
    ensures
        ({
            let (region, offset) = spec_locate(spec_mask_region(addr)).unwrap();
            &&& offset % width.spec_bytes() == 0
            &&& offset + width.spec_bytes() <= region.spec_range().1
        }),
{
    let masked = spec_mask_region(addr);
    let (region, offset) = spec_locate(masked).unwrap();
    assert(spec_within(region, masked) == Some((region, offset)));
    let start = region.spec_range().0;
    let length = region.spec_range().1;
    assert(masked == start + offset && offset < length);
    lemma_mask_keeps_alignment(addr);
    lemma_ranges_are_word_aligned(region);
    match width {
        Width::Byte => {},
        Width::Half => {
            assert(start % 2 == 0 && length % 2 == 0);
            assert(offset % 2 == 0);
        },
        Width::Word => {
            assert(offset % 4 == 0);
        },
    }
}

} // verus!
