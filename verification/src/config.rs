//! The typed configuration and setting registry. Every variant is bound to a
//! numeric identifier and a 32-bit encoded value; decoding inverts encoding
//! on the legal domain and fails outside it.

use vstd::prelude::*;
use crate::error::Error;
use crate::types::{
    boot_mode_code, boot_mode_decode, button_mode_code, button_mode_decode, cic_seed_code,
    cic_seed_decode, dd_disk_state_code, dd_disk_state_decode, dd_drive_type_code,
    dd_drive_type_decode, dd_mode_code, dd_mode_decode, save_type_code, save_type_decode,
    spec_boot_mode_code, spec_boot_mode_decode, spec_button_mode_code, spec_button_mode_decode,
    spec_cic_seed_code, spec_cic_seed_decode, spec_dd_disk_state_code, spec_dd_disk_state_decode,
    spec_dd_drive_type_code, spec_dd_drive_type_decode, spec_dd_mode_code, spec_dd_mode_decode,
    spec_save_type_code, spec_save_type_decode, spec_tv_type_code, spec_tv_type_decode,
    tv_type_code, tv_type_decode, BootMode, ButtonMode, CicSeed, DdDiskState, DdDriveType, DdMode,
    SaveType, TvType,
};

verus! {

/// Numeric identifier of one device configuration parameter.
#[derive(Debug, Clone, Copy, PartialEq, Eq, Structural)]
pub enum ConfigId {
    BootloaderSwitch,
    RomWriteEnable,
    RomShadowEnable,
    DdMode,
    IsvAddress,
    BootMode,
    SaveType,
    CicSeed,
    TvType,
    DdSdEnable,
    DdDriveType,
    DdDiskState,
    ButtonState,
    ButtonMode,
    RomExtendedEnable,
}

/// One typed device configuration value.
#[derive(Debug, Clone, Copy, PartialEq, Eq, Structural)]
pub enum Config {
    BootloaderSwitch(bool),
    RomWriteEnable(bool),
    RomShadowEnable(bool),
    DdMode(DdMode),
    IsvAddress(u32),
    BootMode(BootMode),
    SaveType(SaveType),
    CicSeed(CicSeed),
    TvType(TvType),
    DdSdEnable(bool),
    DdDriveType(DdDriveType),
    DdDiskState(DdDiskState),
    ButtonState(bool),
    ButtonMode(ButtonMode),
    RomExtendedEnable(bool),
}

/// Numeric identifier of one device setting.
#[derive(Debug, Clone, Copy, PartialEq, Eq, Structural)]
pub enum SettingId {
    LedEnable,
}

/// One typed device setting value.
#[derive(Debug, Clone, Copy, PartialEq, Eq, Structural)]
pub enum Setting {
    LedEnable(bool),
}

pub open spec fn spec_bool_value(b: bool) -> u32 {
    if b {
        1
    } else {
        0
    }
}

fn bool_value(b: bool) -> (r: u32)
    ensures
        r == spec_bool_value(b),
{
    if b {
        1
    } else {
        0
    }
}

pub open spec fn spec_config_id_value(id: ConfigId) -> u32 {
    match id {
        ConfigId::BootloaderSwitch => 0,
        ConfigId::RomWriteEnable => 1,
        ConfigId::RomShadowEnable => 2,
        ConfigId::DdMode => 3,
        ConfigId::IsvAddress => 4,
        ConfigId::BootMode => 5,
        ConfigId::SaveType => 6,
        ConfigId::CicSeed => 7,
        ConfigId::TvType => 8,
        ConfigId::DdSdEnable => 9,
        ConfigId::DdDriveType => 10,
        ConfigId::DdDiskState => 11,
        ConfigId::ButtonState => 12,
        ConfigId::ButtonMode => 13,
        ConfigId::RomExtendedEnable => 14,
    }
}

/// The numeric identifier sent on the wire for `id`.
pub fn config_id_value(id: ConfigId) -> (r: u32)
    ensures
        r == spec_config_id_value(id),
{
    match id {
        ConfigId::BootloaderSwitch => 0,
        ConfigId::RomWriteEnable => 1,
        ConfigId::RomShadowEnable => 2,
        ConfigId::DdMode => 3,
        ConfigId::IsvAddress => 4,
        ConfigId::BootMode => 5,
        ConfigId::SaveType => 6,
        ConfigId::CicSeed => 7,
        ConfigId::TvType => 8,
        ConfigId::DdSdEnable => 9,
        ConfigId::DdDriveType => 10,
        ConfigId::DdDiskState => 11,
        ConfigId::ButtonState => 12,
        ConfigId::ButtonMode => 13,
        ConfigId::RomExtendedEnable => 14,
    }
}

/// The identifier that owns a configuration value.
pub open spec fn spec_config_id(c: Config) -> ConfigId {
    match c {
        Config::BootloaderSwitch(_) => ConfigId::BootloaderSwitch,
        Config::RomWriteEnable(_) => ConfigId::RomWriteEnable,
        Config::RomShadowEnable(_) => ConfigId::RomShadowEnable,
        Config::DdMode(_) => ConfigId::DdMode,
        Config::IsvAddress(_) => ConfigId::IsvAddress,
        Config::BootMode(_) => ConfigId::BootMode,
        Config::SaveType(_) => ConfigId::SaveType,
        Config::CicSeed(_) => ConfigId::CicSeed,
        Config::TvType(_) => ConfigId::TvType,
        Config::DdSdEnable(_) => ConfigId::DdSdEnable,
        Config::DdDriveType(_) => ConfigId::DdDriveType,
        Config::DdDiskState(_) => ConfigId::DdDiskState,
        Config::ButtonState(_) => ConfigId::ButtonState,
        Config::ButtonMode(_) => ConfigId::ButtonMode,
        Config::RomExtendedEnable(_) => ConfigId::RomExtendedEnable,
    }
}

pub fn config_id(c: &Config) -> (r: ConfigId)
    ensures
        r == spec_config_id(*c),
{
    match c {
        Config::BootloaderSwitch(_) => ConfigId::BootloaderSwitch,
        Config::RomWriteEnable(_) => ConfigId::RomWriteEnable,
        Config::RomShadowEnable(_) => ConfigId::RomShadowEnable,
        Config::DdMode(_) => ConfigId::DdMode,
        Config::IsvAddress(_) => ConfigId::IsvAddress,
        Config::BootMode(_) => ConfigId::BootMode,
        Config::SaveType(_) => ConfigId::SaveType,
        Config::CicSeed(_) => ConfigId::CicSeed,
        Config::TvType(_) => ConfigId::TvType,
        Config::DdSdEnable(_) => ConfigId::DdSdEnable,
        Config::DdDriveType(_) => ConfigId::DdDriveType,
        Config::DdDiskState(_) => ConfigId::DdDiskState,
        Config::ButtonState(_) => ConfigId::ButtonState,
        Config::ButtonMode(_) => ConfigId::ButtonMode,
        Config::RomExtendedEnable(_) => ConfigId::RomExtendedEnable,
    }
}

/// The 32-bit encoded value of a configuration variant.
pub open spec fn spec_config_value(c: Config) -> u32 {
    match c {
        Config::BootloaderSwitch(b) => spec_bool_value(b),
        Config::RomWriteEnable(b) => spec_bool_value(b),
        Config::RomShadowEnable(b) => spec_bool_value(b),
        Config::DdMode(m) => spec_dd_mode_code(m),
        Config::IsvAddress(a) => a,
        Config::BootMode(m) => spec_boot_mode_code(m),
        Config::SaveType(s) => spec_save_type_code(s),
        Config::CicSeed(s) => spec_cic_seed_code(s),
        Config::TvType(t) => spec_tv_type_code(t),
        Config::DdSdEnable(b) => spec_bool_value(b),
        Config::DdDriveType(t) => spec_dd_drive_type_code(t),
        Config::DdDiskState(s) => spec_dd_disk_state_code(s),
        Config::ButtonState(b) => spec_bool_value(b),
        Config::ButtonMode(m) => spec_button_mode_code(m),
        Config::RomExtendedEnable(b) => spec_bool_value(b),
    }
}

pub fn config_value(c: &Config) -> (r: u32)
    ensures
        r == spec_config_value(*c),
{
    match c {
        Config::BootloaderSwitch(b) => bool_value(*b),
        Config::RomWriteEnable(b) => bool_value(*b),
        Config::RomShadowEnable(b) => bool_value(*b),
        Config::DdMode(m) => dd_mode_code(*m),
        Config::IsvAddress(a) => *a,
        Config::BootMode(m) => boot_mode_code(*m),
        Config::SaveType(s) => save_type_code(*s),
        Config::CicSeed(s) => cic_seed_code(*s),
        Config::TvType(t) => tv_type_code(*t),
        Config::DdSdEnable(b) => bool_value(*b),
        Config::DdDriveType(t) => dd_drive_type_code(*t),
        Config::DdDiskState(s) => dd_disk_state_code(*s),
        Config::ButtonState(b) => bool_value(*b),
        Config::ButtonMode(m) => button_mode_code(*m),
        Config::RomExtendedEnable(b) => bool_value(*b),
    }
}

/// Decodes a raw 32-bit value read for identifier `id` into the typed
/// variant; exact on the legal domain of each variant.
pub open spec fn spec_config_decode(id: ConfigId, value: u32) -> Result<Config, Error> {
    match id {
        ConfigId::BootloaderSwitch => Ok(Config::BootloaderSwitch(value != 0)),
        ConfigId::RomWriteEnable => Ok(Config::RomWriteEnable(value != 0)),
        ConfigId::RomShadowEnable => Ok(Config::RomShadowEnable(value != 0)),
        ConfigId::DdMode => match spec_dd_mode_decode(value) {
            Ok(m) => Ok(Config::DdMode(m)),
            Err(e) => Err(e),
        },
        ConfigId::IsvAddress => Ok(Config::IsvAddress(value)),
        ConfigId::BootMode => match spec_boot_mode_decode(value) {
            Ok(m) => Ok(Config::BootMode(m)),
            Err(e) => Err(e),
        },
        ConfigId::SaveType => match spec_save_type_decode(value) {
            Ok(s) => Ok(Config::SaveType(s)),
            Err(e) => Err(e),
        },
        ConfigId::CicSeed => match spec_cic_seed_decode(value) {
            Ok(s) => Ok(Config::CicSeed(s)),
            Err(e) => Err(e),
        },
        ConfigId::TvType => match spec_tv_type_decode(value) {
            Ok(t) => Ok(Config::TvType(t)),
            Err(e) => Err(e),
        },
        ConfigId::DdSdEnable => Ok(Config::DdSdEnable(value != 0)),
        ConfigId::DdDriveType => match spec_dd_drive_type_decode(value) {
            Ok(t) => Ok(Config::DdDriveType(t)),
            Err(e) => Err(e),
        },
        ConfigId::DdDiskState => match spec_dd_disk_state_decode(value) {
            Ok(s) => Ok(Config::DdDiskState(s)),
            Err(e) => Err(e),
        },
        ConfigId::ButtonState => Ok(Config::ButtonState(value != 0)),
        ConfigId::ButtonMode => match spec_button_mode_decode(value) {
            Ok(m) => Ok(Config::ButtonMode(m)),
            Err(e) => Err(e),
        },
        ConfigId::RomExtendedEnable => Ok(Config::RomExtendedEnable(value != 0)),
    }
}

pub fn config_decode(id: ConfigId, value: u32) -> (r: Result<Config, Error>)
    ensures
        r == spec_config_decode(id, value),
        r matches Ok(c) ==> spec_config_id(c) == id,
{
    match id {
        ConfigId::BootloaderSwitch => Ok(Config::BootloaderSwitch(value != 0)),
        ConfigId::RomWriteEnable => Ok(Config::RomWriteEnable(value != 0)),
        ConfigId::RomShadowEnable => Ok(Config::RomShadowEnable(value != 0)),
        ConfigId::DdMode => match dd_mode_decode(value) {
            Ok(m) => Ok(Config::DdMode(m)),
            Err(e) => Err(e),
        },
        ConfigId::IsvAddress => Ok(Config::IsvAddress(value)),
        ConfigId::BootMode => match boot_mode_decode(value) {
            Ok(m) => Ok(Config::BootMode(m)),
            Err(e) => Err(e),
        },
        ConfigId::SaveType => match save_type_decode(value) {
            Ok(s) => Ok(Config::SaveType(s)),
            Err(e) => Err(e),
        },
        ConfigId::CicSeed => match cic_seed_decode(value) {
            Ok(s) => Ok(Config::CicSeed(s)),
            Err(e) => Err(e),
        },
        ConfigId::TvType => match tv_type_decode(value) {
            Ok(t) => Ok(Config::TvType(t)),
            Err(e) => Err(e),
        },
        ConfigId::DdSdEnable => Ok(Config::DdSdEnable(value != 0)),
        ConfigId::DdDriveType => match dd_drive_type_decode(value) {
            Ok(t) => Ok(Config::DdDriveType(t)),
            Err(e) => Err(e),
        },
        ConfigId::DdDiskState => match dd_disk_state_decode(value) {
            Ok(s) => Ok(Config::DdDiskState(s)),
            Err(e) => Err(e),
        },
        ConfigId::ButtonState => Ok(Config::ButtonState(value != 0)),
        ConfigId::ButtonMode => match button_mode_decode(value) {
            Ok(m) => Ok(Config::ButtonMode(m)),
            Err(e) => Err(e),
        },
        ConfigId::RomExtendedEnable => Ok(Config::RomExtendedEnable(value != 0)),
    }
}

pub open spec fn spec_setting_id_value(id: SettingId) -> u32 {
    match id {
        SettingId::LedEnable => 0,
    }
}

pub fn setting_id_value(id: SettingId) -> (r: u32)
    ensures
        r == spec_setting_id_value(id),
{
    match id {
        SettingId::LedEnable => 0,
    }
}

pub open spec fn spec_setting_id(s: Setting) -> SettingId {
    match s {
        Setting::LedEnable(_) => SettingId::LedEnable,
    }
}

pub open spec fn spec_setting_value(s: Setting) -> u32 {
    match s {
        Setting::LedEnable(b) => spec_bool_value(b),
    }
}

pub fn setting_id(s: &Setting) -> (r: SettingId)
    ensures
        r == spec_setting_id(*s),
{
    match s {
        Setting::LedEnable(_) => SettingId::LedEnable,
    }
}

pub fn setting_value(s: &Setting) -> (r: u32)
    ensures
        r == spec_setting_value(*s),
{
    match s {
        Setting::LedEnable(b) => bool_value(*b),
    }
}

pub open spec fn spec_setting_decode(id: SettingId, value: u32) -> Result<Setting, Error> {
    match id {
        SettingId::LedEnable => Ok(Setting::LedEnable(value != 0)),
    }
}

pub fn setting_decode(id: SettingId, value: u32) -> (r: Result<Setting, Error>)
    ensures
        r == spec_setting_decode(id, value),
        r matches Ok(s) ==> spec_setting_id(s) == id,
{
    match id {
        SettingId::LedEnable => Ok(Setting::LedEnable(value != 0)),
    }
}

/// Decoding inverts encoding: reading back the identifier and encoded value
/// of any configuration variant yields that same variant.
pub proof fn lemma_config_roundtrip(c: Config)
    ensures
        spec_config_decode(spec_config_id(c), spec_config_value(c)) == Ok::<Config, Error>(c),
{
}

/// Decoding inverts encoding for settings as well.
pub proof fn lemma_setting_roundtrip(s: Setting)
    ensures
        spec_setting_decode(spec_setting_id(s), spec_setting_value(s)) == Ok::<Setting, Error>(s),
{
}

} // verus!
