//! Main RAM: a 2 MiB buffer of bytes, read and written little-endian.

use vstd::prelude::*;
use crate::endian::{join16, join32, read16, read32, split16, split32, write16, write32};
use crate::map::RAM_SIZE;

verus! {

/// Main RAM.
pub struct Ram {
    data: Vec<u8>,
}

impl View for Ram {
    type V = Seq<u8>;

    closed spec fn view(&self) -> Seq<u8> {
        self.data@
    }
}

impl Ram {
    /// The buffer always holds exactly `RAM_SIZE` bytes.
    pub open spec fn inv(&self) -> bool {
        self@.len() == RAM_SIZE
    }

    /// What RAM holds before anything is stored: `0xca` in every byte.
    pub open spec fn fresh() -> Seq<u8> {
        Seq::new(RAM_SIZE as nat, |i: int| 0xcau8)
    }

    /// Fresh RAM.
    pub fn new() -> (r: Ram)
        ensures
            r.inv(),
            r@ == Ram::fresh(),
    {
        let data = vec![0xcau8; 2 * 1024 * 1024];
        assert(data@ =~= Ram::fresh());
        Ram { data }
    }

    /// Reads the byte at `offset`.
    pub fn load8(&self, offset: u32) -> (v: u8)
        requires
            self.inv(),
            offset < RAM_SIZE,
        ensures
            v == self@[offset as int],
    {
        self.data[offset as usize]
    }

    /// Reads the little-endian half-word at `offset`.
    pub fn load16(&self, offset: u32) -> (v: u16)
        requires
            self.inv(),
            offset + 2 <= RAM_SIZE,
        ensures
            v == read16(self@, offset as int),
    {
        let offset = offset as usize;
        join16(self.data[offset], self.data[offset + 1])
    }

    /// Reads the little-endian word at `offset`.
    pub fn load32(&self, offset: u32) -> (v: u32)
        requires
            self.inv(),
            offset + 4 <= RAM_SIZE,
        ensures
            v == read32(self@, offset as int),
    {
        let offset = offset as usize;
        join32(
            self.data[offset],
            self.data[offset + 1],
            self.data[offset + 2],
            self.data[offset + 3],
        )
    }

    /// Writes a byte at `offset`.
    pub fn store8(&mut self, offset: u32, val: u8)
        requires
            old(self).inv(),
            offset < RAM_SIZE,
        ensures
            final(self).inv(),
            final(self)@ == old(self)@.update(offset as int, val),
    {
        self.data[offset as usize] = val;
    }

    /// Writes a half-word at `offset`, little-endian.
    pub fn store16(&mut self, offset: u32, val: u16)
        requires
            old(self).inv(),
            offset + 2 <= RAM_SIZE,
        ensures
            final(self).inv(),
            final(self)@ == write16(old(self)@, offset as int, val),
    {
        let offset = offset as usize;
        let (b0, b1) = split16(val);
        self.data[offset] = b0;
        self.data[offset + 1] = b1;
    }

    /// Writes a word at `offset`, little-endian.
    pub fn store32(&mut self, offset: u32, val: u32)
        requires
            old(self).inv(),
            offset + 4 <= RAM_SIZE,
        ensures
            final(self).inv(),
            final(self)@ == write32(old(self)@, offset as int, val),
    {
        let offset = offset as usize;
        let (b0, b1, b2, b3) = split32(val);
        self.data[offset] = b0;
        self.data[offset + 1] = b1;
        self.data[offset + 2] = b2;
        self.data[offset + 3] = b3;
    }
}

} // verus!
