//! The CPU core of a PlayStation emulator: a MIPS R3000A with its branch and
//! load delay slots and its exceptions, and the interconnect through which
//! it reaches the BIOS, RAM and the peripheral stubs.

use vstd::prelude::*;

pub mod bios;
pub mod cpu;
pub mod dma;
pub mod endian;
pub mod fault;
pub mod instruction;
pub mod interconnect;
pub mod map;
pub mod ram;

use crate::bios::{Bios, BiosError};
use crate::cpu::state::CpuState;
use crate::cpu::Cpu;
use crate::endian::read32;
use crate::instruction::Instruction;
use crate::interconnect::{Interconnect, Memory};
use crate::map::Width;
use crate::ram::Ram;

verus! {

/// The state in which a machine with the given BIOS image starts: the CPU
/// reset, RAM fresh.
pub open spec fn boot_state(image: Seq<u8>) -> CpuState {
    CpuState::reset(Memory { bios: image, ram: Ram::fresh() })
}

/// The first fetch after reset is answered, and by the first word of the image.
pub proof fn lemma_boot_fetches_the_image(image: Seq<u8>)
    requires
        image.len() == map::BIOS_SIZE,
    ensures
        boot_state(image).wf(),
        interconnect::load_fault(Width::Word, boot_state(image).pc) is None,
        boot_state(image).fetched() == Instruction(read32(image, 0)),
{
    assert(0xbfc0_0000u32 % 4 == 0);
    assert(map::spec_mask_region(0xbfc0_0000) == 0x1fc0_0000);
    assert(map::spec_locate(0x1fc0_0000) == Some((map::Region::Bios, 0u32)));
}

/// Boots a machine from a BIOS image and runs it for up to `limit`
/// instructions. It stops early before an instruction that cannot run;
/// `Cpu::next_fault` on the returned CPU then tells why.
pub fn run(image: Vec<u8>, limit: u64) -> (r: Result<Cpu, BiosError>)
    ensures
        match r {
            Ok(cpu) => {
                &&& image@.len() == map::BIOS_SIZE
                &&& cpu.inv()
                &&& cpu@ == boot_state(image@).run(limit as nat)
            },
            Err(e) => image@.len() != map::BIOS_SIZE && e == BiosError::InvalidSize,
        },
{
    let bios = match Bios::new(image) {
        Ok(bios) => bios,
        Err(e) => {
            return Err(e);
        },
    };
    let ram = Ram::new();
    let inter = Interconnect::new(bios, ram);
    let mut cpu = Cpu::new(inter);
    let mut left = limit;

    while left > 0
        invariant
            cpu.inv(),
            boot_state(image@).run(limit as nat) == cpu@.run(left as nat),
        ensures
            left == 0 || cpu@.step_fault() is Some,
        decreases left,
    {
        if cpu.next_fault().is_some() {
            break ;
        }
        cpu.run_next_instruction();
        left = left - 1;
    }
    Ok(cpu)
}

} // verus!
