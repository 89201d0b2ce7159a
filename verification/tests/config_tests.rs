use sc64::config::{
    config_decode, config_id, config_id_value, config_value, setting_decode, Config, ConfigId,
    Setting,
};
use sc64::types::{
    boot_mode_decode, cic_seed_decode, dd_disk_state_decode, dd_drive_type_decode, dd_mode_decode,
    firmware_status_decode, save_type_decode, tv_type_decode, update_status_decode, BootMode,
    ButtonMode, CicSeed, DdDiskState, DdDriveType, DdMode, FirmwareStatus, SaveType, TvType,
    UpdateStatus,
};
use sc64::Error;

fn roundtrip(c: Config) {
    let id = config_id(&c);
    let value = config_value(&c);
    assert_eq!(config_decode(id, value), Ok(c));
}

#[test]
fn every_config_variant_roundtrips() {
    roundtrip(Config::BootloaderSwitch(true));
    roundtrip(Config::BootloaderSwitch(false));
    roundtrip(Config::RomWriteEnable(true));
    roundtrip(Config::RomShadowEnable(false));
    roundtrip(Config::DdMode(DdMode::Disabled));
    roundtrip(Config::DdMode(DdMode::Full));
    roundtrip(Config::IsvAddress(0));
    roundtrip(Config::IsvAddress(0xDEAD_BEEF));
    roundtrip(Config::BootMode(BootMode::Menu));
    roundtrip(Config::BootMode(BootMode::DirectDdIpl));
    roundtrip(Config::SaveType(SaveType::NoSave));
    roundtrip(Config::SaveType(SaveType::Eeprom4k));
    roundtrip(Config::SaveType(SaveType::Eeprom16k));
    roundtrip(Config::SaveType(SaveType::Sram));
    roundtrip(Config::SaveType(SaveType::SramBanked));
    roundtrip(Config::SaveType(SaveType::Flashram));
    roundtrip(Config::CicSeed(CicSeed::Seed(0x3F)));
    roundtrip(Config::CicSeed(CicSeed::Auto));
    roundtrip(Config::TvType(TvType::Ntsc));
    roundtrip(Config::TvType(TvType::Passthrough));
    roundtrip(Config::DdSdEnable(true));
    roundtrip(Config::DdDriveType(DdDriveType::Retail));
    roundtrip(Config::DdDriveType(DdDriveType::Development));
    roundtrip(Config::DdDiskState(DdDiskState::Ejected));
    roundtrip(Config::DdDiskState(DdDiskState::Changed));
    roundtrip(Config::ButtonState(true));
    roundtrip(Config::ButtonMode(ButtonMode::Inactive));
    roundtrip(Config::ButtonMode(ButtonMode::DdDiskSwap));
    roundtrip(Config::RomExtendedEnable(true));
}

#[test]
fn setting_roundtrips() {
    let s = Setting::LedEnable(true);
    assert_eq!(setting_decode(sc64::config::SettingId::LedEnable, 1), Ok(s));
    assert_eq!(
        setting_decode(sc64::config::SettingId::LedEnable, 0),
        Ok(Setting::LedEnable(false))
    );
}

#[test]
fn out_of_domain_values_fail_to_decode() {
    assert_eq!(save_type_decode(6), Err(Error::Domain));
    assert_eq!(save_type_decode(0xFFFF_FFFF), Err(Error::Domain));
    assert_eq!(boot_mode_decode(5), Err(Error::Domain));
    assert_eq!(tv_type_decode(4), Err(Error::Domain));
    assert_eq!(dd_mode_decode(4), Err(Error::Domain));
    assert_eq!(dd_drive_type_decode(2), Err(Error::Domain));
    assert_eq!(dd_disk_state_decode(3), Err(Error::Domain));
    assert_eq!(cic_seed_decode(0x100), Err(Error::Domain));
    assert_eq!(cic_seed_decode(0x1_0000), Err(Error::Domain));
    assert_eq!(firmware_status_decode(7), Err(Error::Domain));
    assert_eq!(update_status_decode(4), Err(Error::Domain));
    assert_eq!(update_status_decode(0), Err(Error::Domain));
    assert_eq!(
        config_decode(ConfigId::SaveType, 6),
        Err(Error::Domain)
    );
    assert_eq!(
        config_decode(ConfigId::BootMode, 0xFF),
        Err(Error::Domain)
    );
}

#[test]
fn cic_seed_boundaries() {
    assert_eq!(cic_seed_decode(0), Ok(CicSeed::Seed(0)));
    assert_eq!(cic_seed_decode(0xFF), Ok(CicSeed::Seed(0xFF)));
    assert_eq!(cic_seed_decode(0xFFFF), Ok(CicSeed::Auto));
}

#[test]
fn identifiers_are_stable() {
    assert_eq!(config_id_value(ConfigId::BootloaderSwitch), 0);
    assert_eq!(config_id_value(ConfigId::SaveType), 6);
    assert_eq!(config_id_value(ConfigId::RomExtendedEnable), 14);
}

#[test]
fn terminal_update_statuses_decode() {
    assert_eq!(update_status_decode(0x80), Ok(UpdateStatus::Done));
    assert_eq!(update_status_decode(0xFF), Ok(UpdateStatus::Fault));
    assert_eq!(update_status_decode(1), Ok(UpdateStatus::Mcu));
    assert_eq!(firmware_status_decode(0), Ok(FirmwareStatus::Success));
    assert_eq!(firmware_status_decode(6), Ok(FirmwareStatus::ErrAddress));
}
