//! Conditions the emulator does not model. They are not guest exceptions: a
//! guest exception is handled by vectoring to the guest's own handler, while
//! a fault means that the next step has no defined outcome.

use vstd::prelude::*;

verus! {

/// What stops the emulator.
#[derive(Clone, Copy, Debug, PartialEq, Eq)]
pub enum Fault {
    /// An access that is not aligned to its width reached the interconnect.
    Misaligned { addr: u32 },
    /// No device takes an access of this width at this (region-masked) address.
    UnhandledAddress { addr: u32 },
    /// A store into the read-only BIOS, at this (region-masked) address.
    BiosWrite { addr: u32 },
    /// An expansion base register of the memory controller, at this offset,
    /// was written with a value other than the canonical one.
    BadExpansionBase { offset: u32, value: u32 },
    /// The instruction word is none of the implemented instructions.
    UnhandledInstruction { word: u32 },
    /// A move from or to a COP0 register that is not modelled.
    UnhandledCop0Register { index: u32 },
    /// A non-zero value moved to a COP0 register that only takes zero.
    UnhandledCop0Write { index: u32, value: u32 },
}

} // verus!
