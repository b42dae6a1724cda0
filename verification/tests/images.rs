use plunger::image::{
    FirmwareImage, FlashPlan, ImageError, ImageFormat, MemoryMap, MemoryRegion, RegionKind,
};

fn nvm(start: u64, end: u64, boot: bool) -> MemoryRegion {
    MemoryRegion { kind: RegionKind::Nvm, start, end, boot }
}

fn ram(start: u64, end: u64) -> MemoryRegion {
    MemoryRegion { kind: RegionKind::Ram, start, end, boot: false }
}

fn generic(start: u64, end: u64) -> MemoryRegion {
    MemoryRegion { kind: RegionKind::Generic, start, end, boot: false }
}

/// The memory of an STM32L053: 64 KiB of flash, 2 KiB of EEPROM, 8 KiB of RAM.
fn stm32l053() -> MemoryMap {
    MemoryMap::new(vec![
        ram(0x2000_0000, 0x2000_2000),
        nvm(0x0800_0000, 0x0801_0000, true),
        nvm(0x0808_0000, 0x0808_0800, false),
        generic(0x4000_0000, 0x5000_0000),
    ])
}

#[test]
fn the_three_tags_are_recognised() {
    assert_eq!(ImageFormat::from_tag("bin"), Ok(ImageFormat::Bin));
    assert_eq!(ImageFormat::from_tag("hex"), Ok(ImageFormat::Hex));
    assert_eq!(ImageFormat::from_tag("elf"), Ok(ImageFormat::Elf));
}

#[test]
fn every_other_tag_is_an_unsupported_format() {
    for tag in ["", "BIN", "Hex", "binary", "ihex", "elf ", " elf", "uf2", "bi", "h", "elfe"] {
        assert_eq!(ImageFormat::from_tag(tag), Err(ImageError::UnsupportedFormat));
    }
}

#[test]
fn image_is_made_with_defaults() {
    let image = FirmwareImage::new("hex", vec![1, 2, 3], Some(7)).unwrap();
    assert_eq!(image.format, ImageFormat::Hex);
    assert_eq!(image.bytes, vec![1, 2, 3]);
    assert_eq!(image.base_address, None);
    assert_eq!(image.skip, 0);
    assert_eq!(image.version, Some(7));
}

#[test]
fn image_with_unknown_tag_is_not_made() {
    assert_eq!(
        FirmwareImage::new("srec", vec![1, 2, 3], None).err(),
        Some(ImageError::UnsupportedFormat)
    );
}

#[test]
fn default_base_is_the_start_of_the_boot_flash() {
    assert_eq!(stm32l053().default_base(), Some(0x0800_0000));
}

#[test]
fn default_base_prefers_the_boot_region_over_an_earlier_one() {
    let map = MemoryMap::new(vec![
        nvm(0x1000, 0x2000, false),
        nvm(0x8000, 0x9000, true),
        nvm(0xA000, 0xB000, true),
    ]);
    assert_eq!(map.default_base(), Some(0x8000));
}

#[test]
fn default_base_falls_back_to_the_first_flash_region() {
    let map = MemoryMap::new(vec![
        ram(0x2000_0000, 0x2000_1000),
        nvm(0x1000, 0x2000, false),
        nvm(0x8000, 0x9000, false),
    ]);
    assert_eq!(map.default_base(), Some(0x1000));
}

#[test]
fn default_base_ignores_boot_marks_on_regions_that_are_not_flash() {
    let map = MemoryMap::new(vec![
        MemoryRegion { kind: RegionKind::Ram, start: 0x100, end: 0x200, boot: true },
        nvm(0x8000, 0x9000, false),
    ]);
    assert_eq!(map.default_base(), Some(0x8000));
}

#[test]
fn map_without_flash_has_no_default_base() {
    assert_eq!(MemoryMap::new(vec![ram(0, 0x1000), generic(0x1000, 0x2000)]).default_base(), None);
    assert_eq!(MemoryMap::new(vec![]).default_base(), None);
}

#[test]
fn range_inside_one_region_is_covered() {
    assert!(stm32l053().is_covered(0x0800_0000, 0x0801_0000));
    assert!(stm32l053().is_covered(0x0800_0100, 0x0800_0104));
    assert!(stm32l053().is_covered(0x2000_0000, 0x2000_2000));
}

#[test]
fn empty_range_is_always_covered() {
    assert!(stm32l053().is_covered(0, 0));
    assert!(stm32l053().is_covered(0x0801_0000, 0x0801_0000));
    assert!(stm32l053().is_covered(9, 3));
    assert!(MemoryMap::new(vec![]).is_covered(5, 5));
}

#[test]
fn range_that_leaves_the_region_is_not_covered() {
    assert!(!stm32l053().is_covered(0x0800_FFFF, 0x0801_0001));
    assert!(!stm32l053().is_covered(0x07FF_FFFF, 0x0800_0001));
    assert!(!stm32l053().is_covered(0, 4));
}

#[test]
fn range_in_generic_memory_is_not_covered() {
    assert!(!stm32l053().is_covered(0x4000_0000, 0x4000_0004));
}

#[test]
fn range_across_adjoining_regions_is_covered() {
    let map = MemoryMap::new(vec![nvm(0x2000, 0x3000, false), nvm(0x1000, 0x2000, true)]);
    assert!(map.is_covered(0x1800, 0x2800));
    assert!(map.is_covered(0x1000, 0x3000));
    assert!(!map.is_covered(0x1000, 0x3001));
}

#[test]
fn range_across_a_gap_is_not_covered() {
    let map = MemoryMap::new(vec![nvm(0x1000, 0x2000, true), nvm(0x2001, 0x3000, false)]);
    assert!(!map.is_covered(0x1800, 0x2800));
}

#[test]
fn range_across_overlapping_regions_is_covered() {
    let map = MemoryMap::new(vec![
        generic(0x0000, 0x4000),
        nvm(0x1000, 0x2800, true),
        ram(0x2000, 0x3000),
    ]);
    assert!(map.is_covered(0x1000, 0x3000));
    assert!(!map.is_covered(0x0FFF, 0x3000));
}

#[test]
fn region_that_is_empty_covers_nothing() {
    let map = MemoryMap::new(vec![nvm(0x1000, 0x1000, true)]);
    assert!(!map.is_covered(0x1000, 0x1001));
}

#[test]
fn coverage_reaches_the_last_address() {
    let map = MemoryMap::new(vec![nvm(u64::MAX - 16, u64::MAX, true)]);
    assert!(map.is_covered(u64::MAX - 16, u64::MAX));
    assert!(map.is_covered(u64::MAX - 1, u64::MAX));
}

#[test]
fn four_byte_binary_at_the_default_base_is_planned_byte_for_byte() {
    let plan = FlashPlan::from_binary(&vec![0xDE, 0xAD, 0xBE, 0xEF], None, 0, &stm32l053())
        .expect("the image fits");
    assert_eq!(plan.segments().len(), 1);
    assert_eq!(plan.segments()[0].address, 0x0800_0000);
    assert_eq!(plan.segments()[0].data, vec![0xDE, 0xAD, 0xBE, 0xEF]);
    assert_eq!(plan.byte_at(0x0800_0000), Some(0xDE));
    assert_eq!(plan.byte_at(0x0800_0001), Some(0xAD));
    assert_eq!(plan.byte_at(0x0800_0002), Some(0xBE));
    assert_eq!(plan.byte_at(0x0800_0003), Some(0xEF));
    assert_eq!(plan.byte_at(0x0800_0004), None);
    assert_eq!(plan.byte_at(0x07FF_FFFF), None);
    assert_eq!(plan.byte_at(0), None);
    assert_eq!(plan.byte_at(u64::MAX), None);
}

#[test]
fn binary_at_a_given_base_is_planned_there() {
    let plan =
        FlashPlan::from_binary(&vec![1, 2, 3], Some(0x0808_0010), 0, &stm32l053()).unwrap();
    assert_eq!(plan.segments().len(), 1);
    assert_eq!(plan.segments()[0].address, 0x0808_0010);
    assert_eq!(plan.byte_at(0x0808_0010), Some(1));
    assert_eq!(plan.byte_at(0x0808_0012), Some(3));
    assert_eq!(plan.byte_at(0x0808_000F), None);
    assert_eq!(plan.byte_at(0x0808_0013), None);
    assert_eq!(plan.byte_at(0x0800_0000), None);
}

#[test]
fn skipped_bytes_are_left_out_of_the_plan() {
    let plan = FlashPlan::from_binary(&vec![9, 9, 9, 4, 5, 6], None, 3, &stm32l053()).unwrap();
    assert_eq!(plan.segments().len(), 1);
    assert_eq!(plan.segments()[0].address, 0x0800_0000);
    assert_eq!(plan.segments()[0].data, vec![4, 5, 6]);
    assert_eq!(plan.byte_at(0x0800_0000), Some(4));
    assert_eq!(plan.byte_at(0x0800_0002), Some(6));
    assert_eq!(plan.byte_at(0x0800_0003), None);
}

#[test]
fn binary_with_nothing_left_comes_to_no_write() {
    let all_skipped = FlashPlan::from_binary(&vec![1, 2, 3], None, 3, &stm32l053()).unwrap();
    assert_eq!(all_skipped.segments().len(), 0);
    assert_eq!(all_skipped.byte_at(0x0800_0000), None);
    let more_skipped = FlashPlan::from_binary(&vec![1, 2, 3], None, 100, &stm32l053()).unwrap();
    assert_eq!(more_skipped.segments().len(), 0);
    let empty = FlashPlan::from_binary(&vec![], Some(0xFFFF_FFFF_FFFF_FFFF), 0, &stm32l053());
    assert_eq!(empty.unwrap().segments().len(), 0);
    let nowhere = FlashPlan::from_binary(&vec![], None, 0, &MemoryMap::new(vec![])).unwrap();
    assert_eq!(nowhere.segments().len(), 0);
}

#[test]
fn binary_that_runs_out_of_flash_is_a_parse_error() {
    let bytes = vec![0u8; 5];
    let made = FlashPlan::from_binary(&bytes, Some(0x0800_FFFC), 0, &stm32l053());
    assert_eq!(made.err(), Some(ImageError::ImageParseError));
    let fits = FlashPlan::from_binary(&bytes, Some(0x0800_FFFB), 0, &stm32l053());
    assert!(fits.is_ok());
}

#[test]
fn binary_outside_every_region_is_a_parse_error() {
    let made = FlashPlan::from_binary(&vec![1], Some(0x1000_0000), 0, &stm32l053());
    assert_eq!(made.err(), Some(ImageError::ImageParseError));
    let generic_memory = FlashPlan::from_binary(&vec![1], Some(0x4000_0000), 0, &stm32l053());
    assert_eq!(generic_memory.err(), Some(ImageError::ImageParseError));
}

#[test]
fn binary_for_a_target_without_flash_is_a_parse_error() {
    let map = MemoryMap::new(vec![ram(0x2000_0000, 0x2000_1000)]);
    assert_eq!(
        FlashPlan::from_binary(&vec![1, 2], None, 0, &map).err(),
        Some(ImageError::ImageParseError)
    );
    let into_ram = FlashPlan::from_binary(&vec![1, 2], Some(0x2000_0000), 0, &map).unwrap();
    assert_eq!(into_ram.byte_at(0x2000_0001), Some(2));
}

#[test]
fn binary_that_would_pass_the_last_address_is_a_parse_error() {
    let map = MemoryMap::new(vec![nvm(0, u64::MAX, true)]);
    let made = FlashPlan::from_binary(&vec![1, 2, 3], Some(u64::MAX - 1), 0, &map);
    assert_eq!(made.err(), Some(ImageError::ImageParseError));
    let at_the_end = FlashPlan::from_binary(&vec![1, 2, 3], Some(u64::MAX - 3), 0, &map).unwrap();
    assert_eq!(at_the_end.byte_at(u64::MAX - 1), Some(3));
    assert_eq!(at_the_end.byte_at(u64::MAX), None);
}
