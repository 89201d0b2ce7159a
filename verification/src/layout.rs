//! The fixed address map of the device, the storage region of each save
//! type, and the partition of a program image across primary memory, the
//! shadow flash region and the extended flash region.

use vstd::prelude::*;
use crate::error::Error;
use crate::types::SaveType;

verus! {

pub const SDRAM_ADDRESS: u32 = 0x0000_0000;

pub const SDRAM_LENGTH: usize = 64 * 1024 * 1024;

pub const ROM_SHADOW_ADDRESS: u32 = 0x04FE_0000;

pub const ROM_SHADOW_LENGTH: usize = 128 * 1024;

pub const ROM_EXTENDED_ADDRESS: u32 = 0x0400_0000;

pub const ROM_EXTENDED_LENGTH: usize = 14 * 1024 * 1024;

pub const MAX_ROM_LENGTH: usize = 78 * 1024 * 1024;

pub const DDIPL_ADDRESS: u32 = 0x03BC_0000;

pub const DDIPL_LENGTH: usize = 4 * 1024 * 1024;

pub const SAVE_ADDRESS: u32 = 0x03FE_0000;

pub const EEPROM_ADDRESS: u32 = 0x0500_2980;

pub const EEPROM_4K_LENGTH: usize = 512;

pub const EEPROM_16K_LENGTH: usize = 2 * 1024;

pub const SRAM_LENGTH: usize = 32 * 1024;

pub const SRAM_BANKED_LENGTH: usize = 3 * 32 * 1024;

pub const FLASHRAM_LENGTH: usize = 128 * 1024;

pub const BOOTLOADER_ADDRESS: u32 = 0x04E0_0000;

pub const BOOTLOADER_LENGTH: usize = 1920 * 1024;

pub const FIRMWARE_ADDRESS: u32 = 0x0010_0000;

pub const ISV_BUFFER_LENGTH: usize = 64 * 1024;

/// Total addressable length of device memory.
pub const MEMORY_LENGTH: usize = 0x0500_2980;

// --- save regions ---------------------------------------------------------

/// Base address of the storage of a save type; save types without storage
/// map to address zero.
pub open spec fn spec_save_type_address(s: SaveType) -> u32 {
    match s {
        SaveType::NoSave => 0,
        SaveType::Eeprom4k => EEPROM_ADDRESS,
        SaveType::Eeprom16k => EEPROM_ADDRESS,
        SaveType::Sram => SAVE_ADDRESS,
        SaveType::SramBanked => SAVE_ADDRESS,
        SaveType::Flashram => SAVE_ADDRESS,
    }
}

/// Byte length of the storage of a save type; zero for a save type without
/// storage.
pub open spec fn spec_save_type_length(s: SaveType) -> usize {
    match s {
        SaveType::NoSave => 0,
        SaveType::Eeprom4k => EEPROM_4K_LENGTH,
        SaveType::Eeprom16k => EEPROM_16K_LENGTH,
        SaveType::Sram => SRAM_LENGTH,
        SaveType::SramBanked => SRAM_BANKED_LENGTH,
        SaveType::Flashram => FLASHRAM_LENGTH,
    }
}

pub fn save_type_address(s: SaveType) -> (r: u32)
    ensures
        r == spec_save_type_address(s),
{
    match s {
        SaveType::NoSave => 0,
        SaveType::Eeprom4k => EEPROM_ADDRESS,
        SaveType::Eeprom16k => EEPROM_ADDRESS,
        SaveType::Sram => SAVE_ADDRESS,
        SaveType::SramBanked => SAVE_ADDRESS,
        SaveType::Flashram => SAVE_ADDRESS,
    }
}

pub fn save_type_length(s: SaveType) -> (r: usize)
    ensures
        r == spec_save_type_length(s),
{
    match s {
        SaveType::NoSave => 0,
        SaveType::Eeprom4k => EEPROM_4K_LENGTH,
        SaveType::Eeprom16k => EEPROM_16K_LENGTH,
        SaveType::Sram => SRAM_LENGTH,
        SaveType::SramBanked => SRAM_BANKED_LENGTH,
        SaveType::Flashram => FLASHRAM_LENGTH,
    }
}

/// Two half-open intervals of device addresses do not meet.
pub open spec fn spec_disjoint(a1: int, l1: int, a2: int, l2: int) -> bool {
    a1 + l1 <= a2 || a2 + l2 <= a1
}

/// The save storage lookup is total, and storage never crosses between the
/// two save areas: a save type backed by the EEPROM area and one backed by
/// the general save area occupy disjoint address ranges. Save storage also
/// never meets the ROM shadow or bootloader flash regions.
pub proof fn lemma_save_regions_no_overlap(s1: SaveType, s2: SaveType)
    requires
        s1 != SaveType::NoSave,
        s2 != SaveType::NoSave,
    ensures
        spec_save_type_address(s1) != spec_save_type_address(s2) ==> spec_disjoint(
            spec_save_type_address(s1) as int,
            spec_save_type_length(s1) as int,
            spec_save_type_address(s2) as int,
            spec_save_type_length(s2) as int,
        ),
        spec_disjoint(
            spec_save_type_address(s1) as int,
            spec_save_type_length(s1) as int,
            ROM_SHADOW_ADDRESS as int,
            ROM_SHADOW_LENGTH as int,
        ),
        spec_disjoint(
            spec_save_type_address(s1) as int,
            spec_save_type_length(s1) as int,
            BOOTLOADER_ADDRESS as int,
            BOOTLOADER_LENGTH as int,
        ),
{
}

// --- program image partition ----------------------------------------------

/// How a program image of a given length is split across primary memory,
/// the shadow flash region and the extended flash region.
#[derive(Debug, Clone, Copy, PartialEq, Eq, Structural)]
pub struct RomLayout {
    /// Bytes written to primary memory.
    pub sdram_length: usize,
    /// Bytes written to the shadow flash region.
    pub shadow_length: usize,
    /// Bytes written to the extended flash region.
    pub extended_length: usize,
    /// Whether the shadow-enable configuration flag is set.
    pub shadow_enabled: bool,
    /// Whether the extended-enable configuration flag is set.
    pub extended_enabled: bool,
}

/// Shadow is used exactly when it is allowed and the image does not fit in
/// primary memory with the shadow window reserved.
pub open spec fn spec_rom_shadow_enabled(length: usize, no_shadow: bool) -> bool {
    !no_shadow && length > SDRAM_LENGTH - ROM_SHADOW_LENGTH
}

/// The extended region is used exactly when the image exceeds primary
/// memory.
pub open spec fn spec_rom_extended_enabled(length: usize) -> bool {
    length > SDRAM_LENGTH
}

pub open spec fn spec_rom_layout(length: usize, no_shadow: bool) -> RomLayout {
    let shadow = spec_rom_shadow_enabled(length, no_shadow);
    let extended = spec_rom_extended_enabled(length);
    let cap = if shadow {
        SDRAM_LENGTH - ROM_SHADOW_LENGTH
    } else {
        SDRAM_LENGTH as int
    };
    let sdram = if length <= cap {
        length as int
    } else {
        cap
    };
    let after_sdram = length - sdram;
    let shadow_len = if !shadow {
        0
    } else if after_sdram <= ROM_SHADOW_LENGTH {
        after_sdram
    } else {
        ROM_SHADOW_LENGTH as int
    };
    let after_shadow = after_sdram - shadow_len;
    let extended_len = if !extended {
        0
    } else if after_shadow <= ROM_EXTENDED_LENGTH {
        after_shadow
    } else {
        ROM_EXTENDED_LENGTH as int
    };
    RomLayout {
        sdram_length: sdram as usize,
        shadow_length: shadow_len as usize,
        extended_length: extended_len as usize,
        shadow_enabled: shadow,
        extended_enabled: extended,
    }
}

/// Splits an image of `length` bytes across the three regions. Fails with a
/// domain error exactly when the image exceeds the maximum total length,
/// before anything is written.
pub fn rom_layout(length: usize, no_shadow: bool) -> (r: Result<RomLayout, Error>)
    ensures
        length > MAX_ROM_LENGTH ==> r == Err::<RomLayout, Error>(Error::Domain),
        length <= MAX_ROM_LENGTH ==> r == Ok::<RomLayout, Error>(
            spec_rom_layout(length, no_shadow),
        ),
{
    if length > MAX_ROM_LENGTH {
        return Err(Error::Domain);
    }
    let shadow = !no_shadow && length > SDRAM_LENGTH - ROM_SHADOW_LENGTH;
    let extended = length > SDRAM_LENGTH;
    let cap = if shadow {
        SDRAM_LENGTH - ROM_SHADOW_LENGTH
    } else {
        SDRAM_LENGTH
    };
    let sdram = if length <= cap {
        length
    } else {
        cap
    };
    let after_sdram = length - sdram;
    let shadow_len = if !shadow {
        0
    } else if after_sdram <= ROM_SHADOW_LENGTH {
        after_sdram
    } else {
        ROM_SHADOW_LENGTH
    };
    let after_shadow = after_sdram - shadow_len;
    let extended_len = if !extended {
        0
    } else if after_shadow <= ROM_EXTENDED_LENGTH {
        after_shadow
    } else {
        ROM_EXTENDED_LENGTH
    };
    Ok(
        RomLayout {
            sdram_length: sdram,
            shadow_length: shadow_len,
            extended_length: extended_len,
            shadow_enabled: shadow,
            extended_enabled: extended,
        },
    )
}

/// For any image length within the maximum and either shadow flag, the
/// three region lengths partition the image exactly — they sum to the image
/// length with no gap or overlap — and each stays within its region's fixed
/// capacity.
pub proof fn lemma_rom_layout_partition(length: usize, no_shadow: bool)
    requires
        length <= MAX_ROM_LENGTH,
    ensures
        ({
            let l = spec_rom_layout(length, no_shadow);
            &&& l.sdram_length + l.shadow_length + l.extended_length == length
            &&& l.sdram_length <= SDRAM_LENGTH
            &&& l.shadow_length <= ROM_SHADOW_LENGTH
            &&& l.extended_length <= ROM_EXTENDED_LENGTH
            &&& l.shadow_length > 0 ==> l.shadow_enabled
            &&& l.extended_length > 0 ==> l.extended_enabled
        }),
{
}

} // verus!
