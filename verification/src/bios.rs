//! The BIOS image: 512 KiB of read-only firmware.

use vstd::prelude::*;
use crate::endian::{join32, read32};
use crate::map::BIOS_SIZE;

verus! {

/// Why an image was not taken as a BIOS.
#[derive(Clone, Copy, Debug, PartialEq, Eq)]
pub enum BiosError {
    /// The image does not hold exactly `BIOS_SIZE` bytes.
    InvalidSize,
}

/// The BIOS image.
pub struct Bios {
    data: Vec<u8>,
}

impl View for Bios {
    type V = Seq<u8>;

    closed spec fn view(&self) -> Seq<u8> {
        self.data@
    }
}

impl Bios {
    /// The image always holds exactly `BIOS_SIZE` bytes.
    pub open spec fn inv(&self) -> bool {
        self@.len() == BIOS_SIZE
    }

    /// Takes the bytes of an image, which must be exactly `BIOS_SIZE` long.
    pub fn new(data: Vec<u8>) -> (r: Result<Bios, BiosError>)
        ensures
            match r {
                Ok(bios) => data@.len() == BIOS_SIZE && bios@ == data@ && bios.inv(),
                Err(e) => data@.len() != BIOS_SIZE && e == BiosError::InvalidSize,
            },
    {
        if data.len() == 512 * 1024 {
            Ok(Bios { data })
        } else {
            Err(BiosError::InvalidSize)
        }
    }

    /// Reads the byte at `offset`.
    pub fn load8(&self, offset: u32) -> (v: u8)
        requires
            self.inv(),
            offset < BIOS_SIZE,
        ensures
            v == self@[offset as int],
    {
        self.data[offset as usize]
    }

    /// Reads the little-endian word at `offset`.
    pub fn load32(&self, offset: u32) -> (v: u32)
        requires
            self.inv(),
            offset + 4 <= BIOS_SIZE,
        ensures
            v == read32(self@, offset as int),
    {
        let offset = offset as usize;
        join32(
            self.data[offset],
            self.data[offset + 1],
            self.data[offset + 2],
            self.data[offset + 3],
        )
    }
}

} // verus!
