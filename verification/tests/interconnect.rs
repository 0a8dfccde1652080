use psx_core::bios::{Bios, BiosError};
use psx_core::fault::Fault;
use psx_core::interconnect::Interconnect;
use psx_core::map::Width;
use psx_core::ram::Ram;

fn image() -> Vec<u8> {
    let mut image = vec![0u8; 512 * 1024];
    image[0] = 0x13;
    image[1] = 0x00;
    image[2] = 0x08;
    image[3] = 0x3c;
    image[4] = 0x78;
    image[5] = 0x56;
    image[6] = 0x34;
    image[7] = 0x12;
    image[512 * 1024 - 4] = 0xef;
    image[512 * 1024 - 3] = 0xbe;
    image[512 * 1024 - 2] = 0xad;
    image[512 * 1024 - 1] = 0xde;
    image
}

fn interconnect() -> Interconnect {
    Interconnect::new(Bios::new(image()).unwrap(), Ram::new())
}

fn load8(inter: &Interconnect, addr: u32) -> u8 {
    assert_eq!(Interconnect::load_fault(Width::Byte, addr), None);
    inter.load8(addr)
}

fn load16(inter: &Interconnect, addr: u32) -> u16 {
    assert_eq!(Interconnect::load_fault(Width::Half, addr), None);
    inter.load16(addr)
}

fn load32(inter: &Interconnect, addr: u32) -> u32 {
    assert_eq!(Interconnect::load_fault(Width::Word, addr), None);
    inter.load32(addr)
}

fn store8(inter: &mut Interconnect, addr: u32, val: u8) {
    assert_eq!(Interconnect::store_fault(Width::Byte, addr, val as u32), None);
    inter.store8(addr, val)
}

fn store16(inter: &mut Interconnect, addr: u32, val: u16) {
    assert_eq!(Interconnect::store_fault(Width::Half, addr, val as u32), None);
    inter.store16(addr, val)
}

fn store32(inter: &mut Interconnect, addr: u32, val: u32) {
    assert_eq!(Interconnect::store_fault(Width::Word, addr, val), None);
    inter.store32(addr, val)
}

#[test]
fn bios_must_be_512_kib() {
    assert!(Bios::new(vec![0u8; 512 * 1024]).is_ok());
    assert_eq!(Bios::new(Vec::new()).err(), Some(BiosError::InvalidSize));
    assert_eq!(Bios::new(vec![0u8; 512 * 1024 - 1]).err(), Some(BiosError::InvalidSize));
    assert_eq!(Bios::new(vec![0u8; 512 * 1024 + 1]).err(), Some(BiosError::InvalidSize));
}

#[test]
fn bios_reads_little_endian() {
    let bios = Bios::new(image()).unwrap();
    assert_eq!(bios.load32(0), 0x3c08_0013);
    assert_eq!(bios.load32(4), 0x1234_5678);
    assert_eq!(bios.load32(512 * 1024 - 4), 0xdead_beef);
    assert_eq!(bios.load8(0), 0x13);
    assert_eq!(bios.load8(3), 0x3c);
    assert_eq!(bios.load8(512 * 1024 - 1), 0xde);
}

#[test]
fn ram_starts_filled_with_0xca() {
    let ram = Ram::new();
    assert_eq!(ram.load8(0), 0xca);
    assert_eq!(ram.load8(2 * 1024 * 1024 - 1), 0xca);
    assert_eq!(ram.load16(0x1000), 0xcaca);
    assert_eq!(ram.load32(0), 0xcaca_caca);
    assert_eq!(ram.load32(2 * 1024 * 1024 - 4), 0xcaca_caca);
}

#[test]
fn ram_word_round_trip_and_slices() {
    let mut ram = Ram::new();
    ram.store32(0x100, 0x1234_5678);
    assert_eq!(ram.load32(0x100), 0x1234_5678);
    assert_eq!(ram.load16(0x100), 0x5678);
    assert_eq!(ram.load16(0x102), 0x1234);
    assert_eq!(ram.load8(0x100), 0x78);
    assert_eq!(ram.load8(0x101), 0x56);
    assert_eq!(ram.load8(0x102), 0x34);
    assert_eq!(ram.load8(0x103), 0x12);
    assert_eq!(ram.load8(0x0ff), 0xca);
    assert_eq!(ram.load8(0x104), 0xca);
}

#[test]
fn ram_half_round_trip_and_slices() {
    let mut ram = Ram::new();
    ram.store16(0x200, 0xbeef);
    assert_eq!(ram.load16(0x200), 0xbeef);
    assert_eq!(ram.load8(0x200), 0xef);
    assert_eq!(ram.load8(0x201), 0xbe);
    assert_eq!(ram.load32(0x200), 0xcaca_beef);
}

#[test]
fn ram_byte_round_trip() {
    let mut ram = Ram::new();
    ram.store8(0x301, 0x5a);
    assert_eq!(ram.load8(0x301), 0x5a);
    assert_eq!(ram.load32(0x300), 0xcaca_5aca);
}

#[test]
fn ram_last_word() {
    let mut ram = Ram::new();
    ram.store32(2 * 1024 * 1024 - 4, 0x0102_0304);
    assert_eq!(ram.load32(2 * 1024 * 1024 - 4), 0x0102_0304);
    assert_eq!(ram.load8(2 * 1024 * 1024 - 1), 0x01);
}

#[test]
fn interconnect_reads_the_bios_in_every_segment() {
    let inter = interconnect();
    assert_eq!(load32(&inter, 0x1fc0_0000), 0x3c08_0013);
    assert_eq!(load32(&inter, 0x9fc0_0000), 0x3c08_0013);
    assert_eq!(load32(&inter, 0xbfc0_0000), 0x3c08_0013);
    assert_eq!(load32(&inter, 0xbfc0_0004), 0x1234_5678);
    assert_eq!(load32(&inter, 0xbfc7_fffc), 0xdead_beef);
    assert_eq!(load8(&inter, 0xbfc0_0003), 0x3c);
    assert_eq!(load8(&inter, 0xbfc7_ffff), 0xde);
}

#[test]
fn interconnect_ram_round_trip_of_each_width() {
    let mut inter = interconnect();
    store32(&mut inter, 0x0000_1000, 0x89ab_cdef);
    assert_eq!(load32(&inter, 0x0000_1000), 0x89ab_cdef);
    assert_eq!(load16(&inter, 0x0000_1000), 0xcdef);
    assert_eq!(load16(&inter, 0x0000_1002), 0x89ab);
    assert_eq!(load8(&inter, 0x0000_1000), 0xef);
    assert_eq!(load8(&inter, 0x0000_1001), 0xcd);
    assert_eq!(load8(&inter, 0x0000_1002), 0xab);
    assert_eq!(load8(&inter, 0x0000_1003), 0x89);

    store16(&mut inter, 0x0000_2000, 0x1357);
    assert_eq!(load16(&inter, 0x0000_2000), 0x1357);
    assert_eq!(load8(&inter, 0x0000_2000), 0x57);
    assert_eq!(load8(&inter, 0x0000_2001), 0x13);

    store8(&mut inter, 0x0000_3003, 0x42);
    assert_eq!(load8(&inter, 0x0000_3003), 0x42);
    assert_eq!(load32(&inter, 0x0000_3000), 0x42ca_caca);
}

#[test]
fn interconnect_ram_aliases_in_three_segments() {
    let mut inter = interconnect();
    store32(&mut inter, 0x8000_1000, 0x0bad_cafe);
    assert_eq!(load32(&inter, 0x0000_1000), 0x0bad_cafe);
    assert_eq!(load32(&inter, 0x8000_1000), 0x0bad_cafe);
    assert_eq!(load32(&inter, 0xa000_1000), 0x0bad_cafe);
    store8(&mut inter, 0xa000_1000, 0x11);
    assert_eq!(load32(&inter, 0x0000_1000), 0x0bad_ca11);
}

#[test]
fn expansion_1_reads_0xff() {
    let inter = interconnect();
    assert_eq!(load8(&inter, 0x1f00_0000), 0xff);
    assert_eq!(load8(&inter, 0x1f00_0084), 0xff);
    assert_eq!(load8(&inter, 0xbf00_1fff), 0xff);
}

#[test]
fn stubs_read_zero() {
    let inter = interconnect();
    // interrupt control
    assert_eq!(load32(&inter, 0x1f80_1070), 0);
    assert_eq!(load32(&inter, 0x1f80_1074), 0);
    assert_eq!(load16(&inter, 0x1f80_1070), 0);
    assert_eq!(load8(&inter, 0x1f80_1071), 0);
    // timers
    assert_eq!(load32(&inter, 0x1f80_1100), 0);
    assert_eq!(load16(&inter, 0x1f80_1110), 0);
    assert_eq!(load8(&inter, 0x1f80_1133), 0);
    // DMA
    assert_eq!(load32(&inter, 0x1f80_10f0), 0);
    assert_eq!(load16(&inter, 0x1f80_1080), 0);
    assert_eq!(load8(&inter, 0x1f80_10ff), 0);
    // SPU
    assert_eq!(load16(&inter, 0x1f80_1c00), 0);
    assert_eq!(load16(&inter, 0x1f80_1e7e), 0);
}

#[test]
fn gpu_reports_ready_at_offset_4() {
    let inter = interconnect();
    assert_eq!(load32(&inter, 0x1f80_1810), 0);
    assert_eq!(load32(&inter, 0x1f80_1814), 0x1000_0000);
    assert_eq!(load32(&inter, 0x1f80_1818), 0);
    assert_eq!(load32(&inter, 0x1f80_181c), 0);
    assert_eq!(load32(&inter, 0xbf80_1814), 0x1000_0000);
}

#[test]
fn stores_to_stubs_are_dropped() {
    let mut inter = interconnect();
    store32(&mut inter, 0x1f80_1060, 0x0000_0b88);
    store32(&mut inter, 0x1f80_1070, 0xffff_ffff);
    store16(&mut inter, 0x1f80_1074, 0xffff);
    store32(&mut inter, 0x1f80_1104, 1);
    store16(&mut inter, 0x1f80_1100, 1);
    store32(&mut inter, 0x1f80_1810, 0xe100_0000);
    store32(&mut inter, 0x1f80_10f0, 0x0765_4321);
    store16(&mut inter, 0x1f80_1d80, 0x3fff);
    store8(&mut inter, 0x1f80_2041, 0x0c);
    store8(&mut inter, 0x1f00_0000, 0x01);
    store32(&mut inter, 0xfffe_0130, 0x0001_e988);
    assert_eq!(load32(&inter, 0x1f80_1070), 0);
    assert_eq!(load32(&inter, 0x1f80_1104), 0);
    assert_eq!(load32(&inter, 0x1f80_1810), 0);
    assert_eq!(load32(&inter, 0x1f80_10f0), 0);
    assert_eq!(load16(&inter, 0x1f80_1d80), 0);
    assert_eq!(load8(&inter, 0x1f00_0000), 0xff);
    assert_eq!(load32(&inter, 0), 0xcaca_caca);
}

#[test]
fn memory_control_takes_the_canonical_bases() {
    let mut inter = interconnect();
    store32(&mut inter, 0x1f80_1000, 0x1f00_0000);
    store32(&mut inter, 0x1f80_1004, 0x1f80_2000);
    store32(&mut inter, 0x1f80_1008, 0x0013_243f);
    store32(&mut inter, 0x1f80_1020, 0x0003_1125);
}

#[test]
fn memory_control_refuses_other_bases() {
    assert_eq!(
        Interconnect::store_fault(Width::Word, 0x1f80_1000, 0x1f00_0001),
        Some(Fault::BadExpansionBase { offset: 0, value: 0x1f00_0001 })
    );
    assert_eq!(
        Interconnect::store_fault(Width::Word, 0x1f80_1004, 0x1f00_0000),
        Some(Fault::BadExpansionBase { offset: 4, value: 0x1f00_0000 })
    );
    assert_eq!(
        Interconnect::store_fault(Width::Word, 0xbf80_1004, 0),
        Some(Fault::BadExpansionBase { offset: 4, value: 0 })
    );
}

#[test]
fn misaligned_accesses_are_faults() {
    assert_eq!(
        Interconnect::load_fault(Width::Word, 0x0000_0002),
        Some(Fault::Misaligned { addr: 2 })
    );
    assert_eq!(
        Interconnect::load_fault(Width::Word, 0xbfc0_0001),
        Some(Fault::Misaligned { addr: 0xbfc0_0001 })
    );
    assert_eq!(
        Interconnect::load_fault(Width::Half, 0x0000_0001),
        Some(Fault::Misaligned { addr: 1 })
    );
    assert_eq!(
        Interconnect::store_fault(Width::Word, 0x0000_0006, 0),
        Some(Fault::Misaligned { addr: 6 })
    );
    assert_eq!(
        Interconnect::store_fault(Width::Half, 0x0000_0007, 0),
        Some(Fault::Misaligned { addr: 7 })
    );
    assert_eq!(Interconnect::load_fault(Width::Byte, 0x0000_0003), None);
    assert_eq!(Interconnect::load_fault(Width::Half, 0x0000_0002), None);
    assert_eq!(Interconnect::store_fault(Width::Byte, 0x0000_0003, 0), None);
}

#[test]
fn stores_to_the_bios_are_faults() {
    assert_eq!(
        Interconnect::store_fault(Width::Word, 0xbfc0_0000, 0),
        Some(Fault::BiosWrite { addr: 0x1fc0_0000 })
    );
    assert_eq!(
        Interconnect::store_fault(Width::Byte, 0x1fc7_ffff, 0),
        Some(Fault::BiosWrite { addr: 0x1fc7_ffff })
    );
    assert_eq!(
        Interconnect::store_fault(Width::Half, 0x9fc0_0002, 0),
        Some(Fault::BiosWrite { addr: 0x1fc0_0002 })
    );
}

#[test]
fn unhandled_addresses_are_faults() {
    // nothing is mapped there
    assert_eq!(
        Interconnect::load_fault(Width::Word, 0x0020_0000),
        Some(Fault::UnhandledAddress { addr: 0x0020_0000 })
    );
    assert_eq!(
        Interconnect::load_fault(Width::Byte, 0xa020_0000),
        Some(Fault::UnhandledAddress { addr: 0x0020_0000 })
    );
    assert_eq!(
        Interconnect::store_fault(Width::Word, 0x1f80_1024, 0),
        Some(Fault::UnhandledAddress { addr: 0x1f80_1024 })
    );
    // the device does not take this access
    assert_eq!(
        Interconnect::load_fault(Width::Half, 0xbfc0_0000),
        Some(Fault::UnhandledAddress { addr: 0x1fc0_0000 })
    );
    assert_eq!(
        Interconnect::load_fault(Width::Word, 0x1f80_1060),
        Some(Fault::UnhandledAddress { addr: 0x1f80_1060 })
    );
    assert_eq!(
        Interconnect::load_fault(Width::Word, 0xfffe_0130),
        Some(Fault::UnhandledAddress { addr: 0xfffe_0130 })
    );
    assert_eq!(
        Interconnect::load_fault(Width::Word, 0x1f80_1000),
        Some(Fault::UnhandledAddress { addr: 0x1f80_1000 })
    );
    assert_eq!(
        Interconnect::load_fault(Width::Word, 0x1f00_0000),
        Some(Fault::UnhandledAddress { addr: 0x1f00_0000 })
    );
    assert_eq!(
        Interconnect::load_fault(Width::Byte, 0x1f80_2000),
        Some(Fault::UnhandledAddress { addr: 0x1f80_2000 })
    );
    assert_eq!(
        Interconnect::load_fault(Width::Word, 0x1f80_1c00),
        Some(Fault::UnhandledAddress { addr: 0x1f80_1c00 })
    );
    assert_eq!(
        Interconnect::load_fault(Width::Half, 0x1f80_1814),
        Some(Fault::UnhandledAddress { addr: 0x1f80_1814 })
    );
    assert_eq!(
        Interconnect::store_fault(Width::Half, 0x1f80_2000, 0),
        Some(Fault::UnhandledAddress { addr: 0x1f80_2000 })
    );
    assert_eq!(
        Interconnect::store_fault(Width::Word, 0x1f00_0000, 0),
        Some(Fault::UnhandledAddress { addr: 0x1f00_0000 })
    );
    assert_eq!(
        Interconnect::store_fault(Width::Byte, 0x1f80_1000, 0),
        Some(Fault::UnhandledAddress { addr: 0x1f80_1000 })
    );
}
