//! Little-endian layout of half-words and words in a byte sequence.

use vstd::prelude::*;

verus! {

/// Byte `index` (0 is the least significant) of a 32-bit value.
pub open spec fn byte_of(value: u32, index: int) -> u8
    recommends
        0 <= index < 4,
{
    if index == 0 {
        (value % 0x100) as u8
    } else if index == 1 {
        (value / 0x100 % 0x100) as u8
    } else if index == 2 {
        (value / 0x1_0000 % 0x100) as u8
    } else {
        (value / 0x100_0000) as u8
    }
}

/// The half-word whose two bytes lie at `at` and `at + 1`.
pub open spec fn read16(mem: Seq<u8>, at: int) -> u16
    recommends
        0 <= at,
        at + 2 <= mem.len(),
{
    (mem[at] + 0x100 * mem[at + 1]) as u16
}

/// The word whose four bytes lie at `at .. at + 4`.
pub open spec fn read32(mem: Seq<u8>, at: int) -> u32
    recommends
        0 <= at,
        at + 4 <= mem.len(),
{
    (mem[at] + 0x100 * mem[at + 1] + 0x1_0000 * mem[at + 2] + 0x100_0000 * mem[at + 3]) as u32
}

/// `mem` with the two bytes of `value` laid down at `at` and `at + 1`.
pub open spec fn write16(mem: Seq<u8>, at: int, value: u16) -> Seq<u8>
    recommends
        0 <= at,
        at + 2 <= mem.len(),
{
    mem.update(at, byte_of(value as u32, 0)).update(at + 1, byte_of(value as u32, 1))
}

/// `mem` with the four bytes of `value` laid down at `at .. at + 4`.
pub open spec fn write32(mem: Seq<u8>, at: int, value: u32) -> Seq<u8>
    recommends
        0 <= at,
        at + 4 <= mem.len(),
{
    mem.update(at, byte_of(value, 0)).update(at + 1, byte_of(value, 1)).update(
        at + 2,
        byte_of(value, 2),
    ).update(at + 3, byte_of(value, 3))
}

/// The low byte of a word.
pub(crate) fn low_byte(value: u32) -> (r: u8)
    ensures
        r == value % 0x100,
{
    let r = value as u8;
    assert(r == value % 0x100) by (bit_vector)
        requires
            r == value as u8,
    ;
    r
}

/// The low half of a word.
pub(crate) fn low_half(value: u32) -> (r: u16)
    ensures
        r == value % 0x1_0000,
{
    let r = value as u16;
    assert(r == value % 0x1_0000) by (bit_vector)
        requires
            r == value as u16,
    ;
    r
}

pub(crate) fn join16(b0: u8, b1: u8) -> (r: u16)
    ensures
        r == b0 + 0x100 * b1,
{
    let r = (b0 as u16) | ((b1 as u16) << 8);
    assert(r == b0 + 0x100 * b1) by (bit_vector)
        requires
            r == (b0 as u16) | ((b1 as u16) << 8),
    ;
    r
}

pub(crate) fn join32(b0: u8, b1: u8, b2: u8, b3: u8) -> (r: u32)
    ensures
        r == b0 + 0x100 * b1 + 0x1_0000 * b2 + 0x100_0000 * b3,
{
    let r = (b0 as u32) | ((b1 as u32) << 8) | ((b2 as u32) << 16) | ((b3 as u32) << 24);
    assert(r == b0 + 0x100 * b1 + 0x1_0000 * b2 + 0x100_0000 * b3) by (bit_vector)
        requires
            r == (b0 as u32) | ((b1 as u32) << 8) | ((b2 as u32) << 16) | ((b3 as u32) << 24),
    ;
    r
}

pub(crate) fn split16(value: u16) -> (r: (u8, u8))
    ensures
        r.0 == byte_of(value as u32, 0),
        r.1 == byte_of(value as u32, 1),
{
    let b0 = value as u8;
    let b1 = (value >> 8) as u8;
    assert(b0 == (value as u32 % 0x100) as u8 && b1 == (value as u32 / 0x100 % 0x100) as u8)
        by (bit_vector)
        requires
            b0 == value as u8,
            b1 == (value >> 8) as u8,
    ;
    (b0, b1)
}

pub(crate) fn split32(value: u32) -> (r: (u8, u8, u8, u8))
    ensures
        r.0 == byte_of(value, 0),
        r.1 == byte_of(value, 1),
        r.2 == byte_of(value, 2),
        r.3 == byte_of(value, 3),
{
    let b0 = value as u8;
    let b1 = (value >> 8) as u8;
    let b2 = (value >> 16) as u8;
    let b3 = (value >> 24) as u8;
    assert(b0 == (value % 0x100) as u8 && b1 == (value / 0x100 % 0x100) as u8 && b2 == (value
        / 0x1_0000 % 0x100) as u8 && b3 == (value / 0x100_0000) as u8) by (bit_vector)
        requires
            b0 == value as u8,
            b1 == (value >> 8) as u8,
            b2 == (value >> 16) as u8,
            b3 == (value >> 24) as u8,
    ;
    (b0, b1, b2, b3)
}

/// A stored word is read back as it was, and each narrower read at the same
/// place returns its little-endian slice of the word; nothing else moves.
pub proof fn lemma_write32_then_read(mem: Seq<u8>, at: int, value: u32)
    requires
        0 <= at,
        at + 4 <= mem.len(),
    ensures
        write32(mem, at, value).len() == mem.len(),
        read32(write32(mem, at, value), at) == value,
        read16(write32(mem, at, value), at) == value % 0x1_0000,
        read16(write32(mem, at, value), at + 2) == value / 0x1_0000,
        forall|k: int| 0 <= k < 4 ==> write32(mem, at, value)[at + k] == byte_of(value, k),
        forall|j: int|
            0 <= j < mem.len() && !(at <= j < at + 4) ==> write32(mem, at, value)[j] == mem[j],
{
}

/// A stored half-word is read back as it was, and each byte read returns
/// its little-endian slice; nothing else moves.
pub proof fn lemma_write16_then_read(mem: Seq<u8>, at: int, value: u16)
    requires
        0 <= at,
        at + 2 <= mem.len(),
    ensures
        write16(mem, at, value).len() == mem.len(),
        read16(write16(mem, at, value), at) == value,
        write16(mem, at, value)[at] == value % 0x100,
        write16(mem, at, value)[at + 1] == value / 0x100,
        forall|j: int|
            0 <= j < mem.len() && !(at <= j < at + 2) ==> write16(mem, at, value)[j] == mem[j],
{
}

} // verus!
