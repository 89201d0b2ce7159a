use sc64::layout::{
    rom_layout, save_type_address, save_type_length, EEPROM_ADDRESS, MAX_ROM_LENGTH,
    ROM_EXTENDED_LENGTH, ROM_SHADOW_LENGTH, SAVE_ADDRESS, SDRAM_LENGTH,
};
use sc64::types::SaveType;
use sc64::Error;

const MIB: usize = 1024 * 1024;

#[test]
fn image_filling_primary_with_shadow_splits_at_the_window() {
    // 64 MiB with shadow allowed: primary takes 63.875 MiB, the shadow
    // region takes the last 128 KiB, nothing reaches the extended region.
    let l = rom_layout(64 * MIB, false).unwrap();
    assert_eq!(l.sdram_length, 64 * MIB - 128 * 1024);
    assert_eq!(l.shadow_length, 128 * 1024);
    assert_eq!(l.extended_length, 0);
    assert!(l.shadow_enabled);
    assert!(!l.extended_enabled);
}

#[test]
fn oversize_image_spills_into_extended() {
    let l = rom_layout(70 * MIB, false).unwrap();
    assert_eq!(l.sdram_length, 64 * MIB - 128 * 1024);
    assert_eq!(l.shadow_length, 128 * 1024);
    assert_eq!(l.extended_length, 6 * MIB);
    assert!(l.shadow_enabled);
    assert!(l.extended_enabled);
    assert_eq!(
        l.sdram_length + l.shadow_length + l.extended_length,
        70 * MIB
    );
}

#[test]
fn shadow_refused_keeps_primary_whole() {
    let l = rom_layout(78 * MIB, true).unwrap();
    assert_eq!(l.sdram_length, 64 * MIB);
    assert_eq!(l.shadow_length, 0);
    assert_eq!(l.extended_length, 14 * MIB);
    assert!(!l.shadow_enabled);
    assert!(l.extended_enabled);
}

#[test]
fn small_image_uses_primary_only() {
    let l = rom_layout(12 * MIB, false).unwrap();
    assert_eq!(l.sdram_length, 12 * MIB);
    assert_eq!(l.shadow_length, 0);
    assert_eq!(l.extended_length, 0);
    assert!(!l.shadow_enabled);
    assert!(!l.extended_enabled);
}

#[test]
fn partition_sums_exactly_across_lengths() {
    for length in [
        0,
        1,
        SDRAM_LENGTH - ROM_SHADOW_LENGTH,
        SDRAM_LENGTH - ROM_SHADOW_LENGTH + 1,
        SDRAM_LENGTH,
        SDRAM_LENGTH + 1,
        MAX_ROM_LENGTH,
    ] {
        for no_shadow in [false, true] {
            let l = rom_layout(length, no_shadow).unwrap();
            assert_eq!(l.sdram_length + l.shadow_length + l.extended_length, length);
            assert!(l.sdram_length <= SDRAM_LENGTH);
            assert!(l.shadow_length <= ROM_SHADOW_LENGTH);
            assert!(l.extended_length <= ROM_EXTENDED_LENGTH);
        }
    }
}

#[test]
fn image_over_the_maximum_is_refused() {
    assert_eq!(rom_layout(MAX_ROM_LENGTH + 1, false), Err(Error::Domain));
    assert_eq!(rom_layout(MAX_ROM_LENGTH + 1, true), Err(Error::Domain));
}

#[test]
fn save_regions_are_fixed() {
    assert_eq!(save_type_address(SaveType::Eeprom4k), EEPROM_ADDRESS);
    assert_eq!(save_type_length(SaveType::Eeprom4k), 512);
    assert_eq!(save_type_address(SaveType::Eeprom16k), EEPROM_ADDRESS);
    assert_eq!(save_type_length(SaveType::Eeprom16k), 2 * 1024);
    assert_eq!(save_type_address(SaveType::Sram), SAVE_ADDRESS);
    assert_eq!(save_type_length(SaveType::Sram), 32 * 1024);
    assert_eq!(save_type_address(SaveType::SramBanked), SAVE_ADDRESS);
    assert_eq!(save_type_length(SaveType::SramBanked), 96 * 1024);
    assert_eq!(save_type_address(SaveType::Flashram), SAVE_ADDRESS);
    assert_eq!(save_type_length(SaveType::Flashram), 128 * 1024);
    assert_eq!(save_type_length(SaveType::NoSave), 0);
}

#[test]
fn eeprom_and_save_areas_do_not_meet() {
    for a in [SaveType::Eeprom4k, SaveType::Eeprom16k] {
        for b in [SaveType::Sram, SaveType::SramBanked, SaveType::Flashram] {
            let (a0, l0) = (save_type_address(a) as u64, save_type_length(a) as u64);
            let (a1, l1) = (save_type_address(b) as u64, save_type_length(b) as u64);
            assert!(a0 + l0 <= a1 || a1 + l1 <= a0);
        }
    }
}
