//! The closed unions of the device protocol and their 32-bit wire codes.
//! Each decoder is exact: it succeeds on precisely the values of the
//! variant's legal domain and fails with a domain error on every other.

use vstd::prelude::*;
use crate::error::Error;

verus! {

/// How save data is stored on the cartridge.
#[derive(Debug, Clone, Copy, PartialEq, Eq, Structural)]
pub enum SaveType {
    NoSave,
    Eeprom4k,
    Eeprom16k,
    Sram,
    SramBanked,
    Flashram,
}

/// What the device boots into.
#[derive(Debug, Clone, Copy, PartialEq, Eq, Structural)]
pub enum BootMode {
    Menu,
    Rom,
    DdIpl,
    DirectRom,
    DirectDdIpl,
}

/// Video standard reported to the booted program.
#[derive(Debug, Clone, Copy, PartialEq, Eq, Structural)]
pub enum TvType {
    Ntsc,
    Pal,
    Mpal,
    Passthrough,
}

/// How much of the 64DD hardware the device emulates.
#[derive(Debug, Clone, Copy, PartialEq, Eq, Structural)]
pub enum DdMode {
    Disabled,
    Regs,
    DdIpl,
    Full,
}

/// Which 64DD drive model is presented.
#[derive(Debug, Clone, Copy, PartialEq, Eq, Structural)]
pub enum DdDriveType {
    Retail,
    Development,
}

/// State of the emulated 64DD disk.
#[derive(Debug, Clone, Copy, PartialEq, Eq, Structural)]
pub enum DdDiskState {
    Ejected,
    Inserted,
    Changed,
}

/// What pressing the device button does.
#[derive(Debug, Clone, Copy, PartialEq, Eq, Structural)]
pub enum ButtonMode {
    Inactive,
    NmiReset,
    UsbPacket,
    DdDiskSwap,
}

/// The boot-code seed: either a fixed byte or chosen by the device.
#[derive(Debug, Clone, Copy, PartialEq, Eq, Structural)]
pub enum CicSeed {
    Seed(u8),
    Auto,
}

/// Status the device reports after a firmware backup or update attempt.
#[derive(Debug, Clone, Copy, PartialEq, Eq, Structural)]
pub enum FirmwareStatus {
    Success,
    ErrToken,
    ErrChecksum,
    ErrSize,
    ErrUnknownChunk,
    ErrRead,
    ErrAddress,
}

/// In-progress steps of a device-side firmware update, ending in Done or Err.
#[derive(Debug, Clone, Copy, PartialEq, Eq, Structural)]
pub enum UpdateStatus {
    Mcu,
    Fpga,
    Bootloader,
    Done,
    Fault,
}

// --- wire codes -----------------------------------------------------------

pub open spec fn spec_save_type_code(s: SaveType) -> u32 {
    match s {
        SaveType::NoSave => 0,
        SaveType::Eeprom4k => 1,
        SaveType::Eeprom16k => 2,
        SaveType::Sram => 3,
        SaveType::Flashram => 4,
        SaveType::SramBanked => 5,
    }
}

pub open spec fn spec_save_type_decode(value: u32) -> Result<SaveType, Error> {
    match value {
        0u32 => Ok(SaveType::NoSave),
        1u32 => Ok(SaveType::Eeprom4k),
        2u32 => Ok(SaveType::Eeprom16k),
        3u32 => Ok(SaveType::Sram),
        4u32 => Ok(SaveType::Flashram),
        5u32 => Ok(SaveType::SramBanked),
        _ => Err(Error::Domain),
    }
}

pub fn save_type_code(s: SaveType) -> (r: u32)
    ensures
        r == spec_save_type_code(s),
{
    match s {
        SaveType::NoSave => 0,
        SaveType::Eeprom4k => 1,
        SaveType::Eeprom16k => 2,
        SaveType::Sram => 3,
        SaveType::Flashram => 4,
        SaveType::SramBanked => 5,
    }
}

pub fn save_type_decode(value: u32) -> (r: Result<SaveType, Error>)
    ensures
        r == spec_save_type_decode(value),
{
    match value {
        0u32 => Ok(SaveType::NoSave),
        1u32 => Ok(SaveType::Eeprom4k),
        2u32 => Ok(SaveType::Eeprom16k),
        3u32 => Ok(SaveType::Sram),
        4u32 => Ok(SaveType::Flashram),
        5u32 => Ok(SaveType::SramBanked),
        _ => Err(Error::Domain),
    }
}

pub open spec fn spec_boot_mode_code(m: BootMode) -> u32 {
    match m {
        BootMode::Menu => 0,
        BootMode::Rom => 1,
        BootMode::DdIpl => 2,
        BootMode::DirectRom => 3,
        BootMode::DirectDdIpl => 4,
    }
}

pub open spec fn spec_boot_mode_decode(value: u32) -> Result<BootMode, Error> {
    match value {
        0u32 => Ok(BootMode::Menu),
        1u32 => Ok(BootMode::Rom),
        2u32 => Ok(BootMode::DdIpl),
        3u32 => Ok(BootMode::DirectRom),
        4u32 => Ok(BootMode::DirectDdIpl),
        _ => Err(Error::Domain),
    }
}

pub fn boot_mode_code(m: BootMode) -> (r: u32)
    ensures
        r == spec_boot_mode_code(m),
{
    match m {
        BootMode::Menu => 0,
        BootMode::Rom => 1,
        BootMode::DdIpl => 2,
        BootMode::DirectRom => 3,
        BootMode::DirectDdIpl => 4,
    }
}

pub fn boot_mode_decode(value: u32) -> (r: Result<BootMode, Error>)
    ensures
        r == spec_boot_mode_decode(value),
{
    match value {
        0u32 => Ok(BootMode::Menu),
        1u32 => Ok(BootMode::Rom),
        2u32 => Ok(BootMode::DdIpl),
        3u32 => Ok(BootMode::DirectRom),
        4u32 => Ok(BootMode::DirectDdIpl),
        _ => Err(Error::Domain),
    }
}

pub open spec fn spec_tv_type_code(t: TvType) -> u32 {
    match t {
        TvType::Ntsc => 0,
        TvType::Pal => 1,
        TvType::Mpal => 2,
        TvType::Passthrough => 3,
    }
}

pub open spec fn spec_tv_type_decode(value: u32) -> Result<TvType, Error> {
    match value {
        0u32 => Ok(TvType::Ntsc),
        1u32 => Ok(TvType::Pal),
        2u32 => Ok(TvType::Mpal),
        3u32 => Ok(TvType::Passthrough),
        _ => Err(Error::Domain),
    }
}

pub fn tv_type_code(t: TvType) -> (r: u32)
    ensures
        r == spec_tv_type_code(t),
{
    match t {
        TvType::Ntsc => 0,
        TvType::Pal => 1,
        TvType::Mpal => 2,
        TvType::Passthrough => 3,
    }
}

pub fn tv_type_decode(value: u32) -> (r: Result<TvType, Error>)
    ensures
        r == spec_tv_type_decode(value),
{
    match value {
        0u32 => Ok(TvType::Ntsc),
        1u32 => Ok(TvType::Pal),
        2u32 => Ok(TvType::Mpal),
        3u32 => Ok(TvType::Passthrough),
        _ => Err(Error::Domain),
    }
}

pub open spec fn spec_dd_mode_code(m: DdMode) -> u32 {
    match m {
        DdMode::Disabled => 0,
        DdMode::Regs => 1,
        DdMode::DdIpl => 2,
        DdMode::Full => 3,
    }
}

pub open spec fn spec_dd_mode_decode(value: u32) -> Result<DdMode, Error> {
    match value {
        0u32 => Ok(DdMode::Disabled),
        1u32 => Ok(DdMode::Regs),
        2u32 => Ok(DdMode::DdIpl),
        3u32 => Ok(DdMode::Full),
        _ => Err(Error::Domain),
    }
}

pub fn dd_mode_code(m: DdMode) -> (r: u32)
    ensures
        r == spec_dd_mode_code(m),
{
    match m {
        DdMode::Disabled => 0,
        DdMode::Regs => 1,
        DdMode::DdIpl => 2,
        DdMode::Full => 3,
    }
}

pub fn dd_mode_decode(value: u32) -> (r: Result<DdMode, Error>)
    ensures
        r == spec_dd_mode_decode(value),
{
    match value {
        0u32 => Ok(DdMode::Disabled),
        1u32 => Ok(DdMode::Regs),
        2u32 => Ok(DdMode::DdIpl),
        3u32 => Ok(DdMode::Full),
        _ => Err(Error::Domain),
    }
}

pub open spec fn spec_dd_drive_type_code(t: DdDriveType) -> u32 {
    match t {
        DdDriveType::Retail => 0,
        DdDriveType::Development => 1,
    }
}

pub open spec fn spec_dd_drive_type_decode(value: u32) -> Result<DdDriveType, Error> {
    match value {
        0u32 => Ok(DdDriveType::Retail),
        1u32 => Ok(DdDriveType::Development),
        _ => Err(Error::Domain),
    }
}

pub fn dd_drive_type_code(t: DdDriveType) -> (r: u32)
    ensures
        r == spec_dd_drive_type_code(t),
{
    match t {
        DdDriveType::Retail => 0,
        DdDriveType::Development => 1,
    }
}

pub fn dd_drive_type_decode(value: u32) -> (r: Result<DdDriveType, Error>)
    ensures
        r == spec_dd_drive_type_decode(value),
{
    match value {
        0u32 => Ok(DdDriveType::Retail),
        1u32 => Ok(DdDriveType::Development),
        _ => Err(Error::Domain),
    }
}

pub open spec fn spec_dd_disk_state_code(s: DdDiskState) -> u32 {
    match s {
        DdDiskState::Ejected => 0,
        DdDiskState::Inserted => 1,
        DdDiskState::Changed => 2,
    }
}

pub open spec fn spec_dd_disk_state_decode(value: u32) -> Result<DdDiskState, Error> {
    match value {
        0u32 => Ok(DdDiskState::Ejected),
        1u32 => Ok(DdDiskState::Inserted),
        2u32 => Ok(DdDiskState::Changed),
        _ => Err(Error::Domain),
    }
}

pub fn dd_disk_state_code(s: DdDiskState) -> (r: u32)
    ensures
        r == spec_dd_disk_state_code(s),
{
    match s {
        DdDiskState::Ejected => 0,
        DdDiskState::Inserted => 1,
        DdDiskState::Changed => 2,
    }
}

pub fn dd_disk_state_decode(value: u32) -> (r: Result<DdDiskState, Error>)
    ensures
        r == spec_dd_disk_state_decode(value),
{
    match value {
        0u32 => Ok(DdDiskState::Ejected),
        1u32 => Ok(DdDiskState::Inserted),
        2u32 => Ok(DdDiskState::Changed),
        _ => Err(Error::Domain),
    }
}

pub open spec fn spec_button_mode_code(m: ButtonMode) -> u32 {
    match m {
        ButtonMode::Inactive => 0,
        ButtonMode::NmiReset => 1,
        ButtonMode::UsbPacket => 2,
        ButtonMode::DdDiskSwap => 3,
    }
}

pub open spec fn spec_button_mode_decode(value: u32) -> Result<ButtonMode, Error> {
    match value {
        0u32 => Ok(ButtonMode::Inactive),
        1u32 => Ok(ButtonMode::NmiReset),
        2u32 => Ok(ButtonMode::UsbPacket),
        3u32 => Ok(ButtonMode::DdDiskSwap),
        _ => Err(Error::Domain),
    }
}

pub fn button_mode_code(m: ButtonMode) -> (r: u32)
    ensures
        r == spec_button_mode_code(m),
{
    match m {
        ButtonMode::Inactive => 0,
        ButtonMode::NmiReset => 1,
        ButtonMode::UsbPacket => 2,
        ButtonMode::DdDiskSwap => 3,
    }
}

pub fn button_mode_decode(value: u32) -> (r: Result<ButtonMode, Error>)
    ensures
        r == spec_button_mode_decode(value),
{
    match value {
        0u32 => Ok(ButtonMode::Inactive),
        1u32 => Ok(ButtonMode::NmiReset),
        2u32 => Ok(ButtonMode::UsbPacket),
        3u32 => Ok(ButtonMode::DdDiskSwap),
        _ => Err(Error::Domain),
    }
}

pub open spec fn spec_cic_seed_code(s: CicSeed) -> u32 {
    match s {
        CicSeed::Seed(b) => b as u32,
        CicSeed::Auto => 0xFFFF,
    }
}

pub open spec fn spec_cic_seed_decode(value: u32) -> Result<CicSeed, Error> {
    if value <= 0xFF {
        Ok(CicSeed::Seed(value as u8))
    } else if value == 0xFFFF {
        Ok(CicSeed::Auto)
    } else {
        Err(Error::Domain)
    }
}

pub fn cic_seed_code(s: CicSeed) -> (r: u32)
    ensures
        r == spec_cic_seed_code(s),
{
    match s {
        CicSeed::Seed(b) => b as u32,
        CicSeed::Auto => 0xFFFF,
    }
}

pub fn cic_seed_decode(value: u32) -> (r: Result<CicSeed, Error>)
    ensures
        r == spec_cic_seed_decode(value),
{
    if value <= 0xFF {
        Ok(CicSeed::Seed(value as u8))
    } else if value == 0xFFFF {
        Ok(CicSeed::Auto)
    } else {
        Err(Error::Domain)
    }
}

pub open spec fn spec_firmware_status_decode(value: u32) -> Result<FirmwareStatus, Error> {
    match value {
        0u32 => Ok(FirmwareStatus::Success),
        1u32 => Ok(FirmwareStatus::ErrToken),
        2u32 => Ok(FirmwareStatus::ErrChecksum),
        3u32 => Ok(FirmwareStatus::ErrSize),
        4u32 => Ok(FirmwareStatus::ErrUnknownChunk),
        5u32 => Ok(FirmwareStatus::ErrRead),
        6u32 => Ok(FirmwareStatus::ErrAddress),
        _ => Err(Error::Domain),
    }
}

pub fn firmware_status_decode(value: u32) -> (r: Result<FirmwareStatus, Error>)
    ensures
        r == spec_firmware_status_decode(value),
{
    match value {
        0u32 => Ok(FirmwareStatus::Success),
        1u32 => Ok(FirmwareStatus::ErrToken),
        2u32 => Ok(FirmwareStatus::ErrChecksum),
        3u32 => Ok(FirmwareStatus::ErrSize),
        4u32 => Ok(FirmwareStatus::ErrUnknownChunk),
        5u32 => Ok(FirmwareStatus::ErrRead),
        6u32 => Ok(FirmwareStatus::ErrAddress),
        _ => Err(Error::Domain),
    }
}

pub open spec fn spec_update_status_decode(value: u32) -> Result<UpdateStatus, Error> {
    match value {
        1u32 => Ok(UpdateStatus::Mcu),
        2u32 => Ok(UpdateStatus::Fpga),
        3u32 => Ok(UpdateStatus::Bootloader),
        0x80u32 => Ok(UpdateStatus::Done),
        0xFFu32 => Ok(UpdateStatus::Fault),
        _ => Err(Error::Domain),
    }
}

pub fn update_status_decode(value: u32) -> (r: Result<UpdateStatus, Error>)
    ensures
        r == spec_update_status_decode(value),
{
    match value {
        1u32 => Ok(UpdateStatus::Mcu),
        2u32 => Ok(UpdateStatus::Fpga),
        3u32 => Ok(UpdateStatus::Bootloader),
        0x80u32 => Ok(UpdateStatus::Done),
        0xFFu32 => Ok(UpdateStatus::Fault),
        _ => Err(Error::Domain),
    }
}

} // verus!
