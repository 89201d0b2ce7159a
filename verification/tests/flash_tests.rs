use sc64::device::boot_code_address;
use sc64::flash::erase_offsets;
use sc64::types::{BootMode, FirmwareStatus, UpdateStatus};

#[test]
fn erase_plan_covers_exact_multiples() {
    let offsets = erase_offsets(131072, 8192);
    assert_eq!(offsets.len(), 16);
    assert_eq!(offsets[0], 0);
    assert_eq!(offsets[15], 15 * 8192);
}

#[test]
fn erase_plan_rounds_a_partial_block_up() {
    assert_eq!(erase_offsets(1, 8192), vec![0]);
    assert_eq!(erase_offsets(8193, 8192), vec![0, 8192]);
    assert_eq!(erase_offsets(3 * 8192 - 1, 8192).len(), 3);
}

#[test]
fn empty_write_needs_no_erase() {
    assert_eq!(erase_offsets(0, 8192), Vec::<u32>::new());
}

#[test]
fn boot_code_region_follows_the_boot_mode() {
    assert_eq!(boot_code_address(BootMode::DirectRom), 0);
    assert_eq!(boot_code_address(BootMode::DirectDdIpl), 0x03BC_0000);
    assert_eq!(boot_code_address(BootMode::Menu), 0x04E0_0000);
    assert_eq!(boot_code_address(BootMode::Rom), 0x04E0_0000);
    assert_eq!(boot_code_address(BootMode::DdIpl), 0x04E0_0000);
}

#[test]
fn every_error_has_a_description() {
    let errors = [
        sc64::Error::Transport,
        sc64::Error::Protocol(0x70),
        sc64::Error::Domain,
        sc64::Error::Device(FirmwareStatus::ErrChecksum),
        sc64::Error::UpdateFault(UpdateStatus::Fpga),
        sc64::Error::Timeout,
    ];
    for e in errors {
        assert!(!e.describe().is_empty());
    }
}
