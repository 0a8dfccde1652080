use psx_core::map::{locate, mask_region, Range, Region, Width, BIOS_SIZE, RAM_SIZE};

#[test]
fn kuseg_is_left_alone() {
    assert_eq!(mask_region(0x0000_0000), 0x0000_0000);
    assert_eq!(mask_region(0x0000_1000), 0x0000_1000);
    assert_eq!(mask_region(0x1fc0_0000), 0x1fc0_0000);
    assert_eq!(mask_region(0x7fff_ffff), 0x7fff_ffff);
}

#[test]
fn kseg0_loses_the_top_bit() {
    assert_eq!(mask_region(0x8000_0000), 0x0000_0000);
    assert_eq!(mask_region(0x8000_1000), 0x0000_1000);
    assert_eq!(mask_region(0x9fc0_0000), 0x1fc0_0000);
    assert_eq!(mask_region(0x9fff_ffff), 0x1fff_ffff);
}

#[test]
fn kseg1_loses_the_top_three_bits() {
    assert_eq!(mask_region(0xa000_0000), 0x0000_0000);
    assert_eq!(mask_region(0xa000_1000), 0x0000_1000);
    assert_eq!(mask_region(0xbfc0_0000), 0x1fc0_0000);
    assert_eq!(mask_region(0xbfff_ffff), 0x1fff_ffff);
}

#[test]
fn kseg2_is_left_alone() {
    assert_eq!(mask_region(0xc000_0000), 0xc000_0000);
    assert_eq!(mask_region(0xfffe_0130), 0xfffe_0130);
    assert_eq!(mask_region(0xffff_ffff), 0xffff_ffff);
}

#[test]
fn the_three_segments_alias() {
    for a in [0u32, 4, 0x1000, 0x1f_fffc, 0x1f80_1070, 0x1fc0_0000, 0x1fff_ffff] {
        assert_eq!(mask_region(a), a);
        assert_eq!(mask_region(a | 0x8000_0000), a);
        assert_eq!(mask_region(a | 0xa000_0000), a);
    }
}

#[test]
fn range_is_half_open() {
    let range = Range(0x100, 0x10);
    assert_eq!(range.contains(0x0ff), None);
    assert_eq!(range.contains(0x100), Some(0));
    assert_eq!(range.contains(0x104), Some(4));
    assert_eq!(range.contains(0x10f), Some(0xf));
    assert_eq!(range.contains(0x110), None);
}

#[test]
fn range_at_the_top_of_the_address_space() {
    let range = Range(0xffff_fff0, 0x10);
    assert_eq!(range.contains(0xffff_ffef), None);
    assert_eq!(range.contains(0xffff_fff0), Some(0));
    assert_eq!(range.contains(0xffff_ffff), Some(0xf));
    assert_eq!(range.contains(0), None);
}

#[test]
fn empty_range_holds_nothing() {
    let range = Range(0x100, 0);
    assert_eq!(range.contains(0x100), None);
}

#[test]
fn device_ranges() {
    assert_eq!(Region::Ram.range(), Range(0x0000_0000, 2 * 1024 * 1024));
    assert_eq!(Region::Expansion1.range(), Range(0x1f00_0000, 8 * 1024));
    assert_eq!(Region::MemControl.range(), Range(0x1f80_1000, 36));
    assert_eq!(Region::RamSize.range(), Range(0x1f80_1060, 4));
    assert_eq!(Region::IrqControl.range(), Range(0x1f80_1070, 8));
    assert_eq!(Region::Timers.range(), Range(0x1f80_1100, 52));
    assert_eq!(Region::Gpu.range(), Range(0x1f80_1810, 16));
    assert_eq!(Region::Dma.range(), Range(0x1f80_1080, 0x80));
    assert_eq!(Region::Spu.range(), Range(0x1f80_1c00, 640));
    assert_eq!(Region::Expansion2.range(), Range(0x1f80_2000, 8 * 1024));
    assert_eq!(Region::Bios.range(), Range(0x1fc0_0000, 512 * 1024));
    assert_eq!(Region::CacheControl.range(), Range(0xfffe_0130, 4));
    assert_eq!(RAM_SIZE, 2 * 1024 * 1024);
    assert_eq!(BIOS_SIZE, 512 * 1024);
}

#[test]
fn locate_finds_each_device_at_both_ends() {
    let regions = [
        Region::Ram,
        Region::Expansion1,
        Region::MemControl,
        Region::RamSize,
        Region::IrqControl,
        Region::Timers,
        Region::Gpu,
        Region::Dma,
        Region::Spu,
        Region::Expansion2,
        Region::Bios,
        Region::CacheControl,
    ];
    for region in regions {
        let Range(start, length) = region.range();
        assert_eq!(locate(start), Some((region, 0)));
        assert_eq!(locate(start + (length - 1)), Some((region, length - 1)));
    }
}

#[test]
fn locate_finds_nothing_between_devices() {
    assert_eq!(locate(0x0020_0000), None);
    assert_eq!(locate(0x1f00_2000), None);
    assert_eq!(locate(0x1f80_1024), None);
    assert_eq!(locate(0x1f80_1064), None);
    assert_eq!(locate(0x1f80_1078), None);
    assert_eq!(locate(0x1f80_1134), None);
    assert_eq!(locate(0x1f80_1820), None);
    assert_eq!(locate(0x1f80_1e80), None);
    assert_eq!(locate(0x1f80_4000), None);
    assert_eq!(locate(0x1fc8_0000), None);
    assert_eq!(locate(0xfffe_0134), None);
    assert_eq!(locate(0xffff_ffff), None);
}

#[test]
fn dma_ends_where_the_timers_start() {
    assert_eq!(locate(0x1f80_10ff), Some((Region::Dma, 0x7f)));
    assert_eq!(locate(0x1f80_1100), Some((Region::Timers, 0)));
}

#[test]
fn width_in_bytes() {
    assert_eq!(Width::Byte.bytes(), 1);
    assert_eq!(Width::Half.bytes(), 2);
    assert_eq!(Width::Word.bytes(), 4);
}

#[test]
fn which_loads_each_device_answers() {
    let all = [Width::Byte, Width::Half, Width::Word];
    for width in all {
        assert!(Region::Ram.reads(width));
        assert!(Region::IrqControl.reads(width));
        assert!(Region::Timers.reads(width));
        assert!(Region::Dma.reads(width));
        assert!(!Region::MemControl.reads(width));
        assert!(!Region::RamSize.reads(width));
        assert!(!Region::Expansion2.reads(width));
        assert!(!Region::CacheControl.reads(width));
    }
    assert!(Region::Bios.reads(Width::Byte));
    assert!(!Region::Bios.reads(Width::Half));
    assert!(Region::Bios.reads(Width::Word));
    assert!(Region::Expansion1.reads(Width::Byte));
    assert!(!Region::Expansion1.reads(Width::Half));
    assert!(!Region::Expansion1.reads(Width::Word));
    assert!(!Region::Spu.reads(Width::Byte));
    assert!(Region::Spu.reads(Width::Half));
    assert!(!Region::Spu.reads(Width::Word));
    assert!(!Region::Gpu.reads(Width::Byte));
    assert!(!Region::Gpu.reads(Width::Half));
    assert!(Region::Gpu.reads(Width::Word));
}

#[test]
fn which_stores_each_device_takes() {
    let all = [Width::Byte, Width::Half, Width::Word];
    for width in all {
        assert!(Region::Ram.writes(width));
        assert!(Region::RamSize.writes(width));
        assert!(Region::IrqControl.writes(width));
        assert!(Region::Timers.writes(width));
        assert!(Region::Gpu.writes(width));
        assert!(Region::Dma.writes(width));
        assert!(Region::Spu.writes(width));
        assert!(Region::CacheControl.writes(width));
        assert!(!Region::Bios.writes(width));
    }
    assert!(Region::Expansion1.writes(Width::Byte));
    assert!(!Region::Expansion1.writes(Width::Half));
    assert!(!Region::Expansion1.writes(Width::Word));
    assert!(Region::Expansion2.writes(Width::Byte));
    assert!(!Region::Expansion2.writes(Width::Half));
    assert!(!Region::Expansion2.writes(Width::Word));
    assert!(!Region::MemControl.writes(Width::Byte));
    assert!(!Region::MemControl.writes(Width::Half));
    assert!(Region::MemControl.writes(Width::Word));
}
