use std::cell::RefCell;
use std::collections::HashMap;
use std::rc::Rc;

use sc64::link::{Cic, Command, Link};
use sc64::packet::{DataPacket, DebugPacket, DiskBlock, DiskPacket, Packet};
use sc64::types::{
    BootMode, ButtonMode, CicSeed, DdDiskState, DdDriveType, DdMode, FirmwareStatus, SaveType,
    TvType, UpdateStatus,
};
use sc64::Error;

const MIB: usize = 1024 * 1024;

fn be32(v: u32) -> Vec<u8> {
    v.to_be_bytes().to_vec()
}

/// A scripted in-memory device: answers each command from simulated state
/// and records everything the driver does.
#[derive(Default)]
struct DeviceSim {
    sent: Vec<Command>,
    memory: HashMap<(u32, u32), Vec<u8>>,
    config: HashMap<u32, u32>,
    settings: HashMap<u32, u32>,
    erases: Vec<u32>,
    erase_block_size: u32,
    identifier: Vec<u8>,
    version: (u16, u16),
    time_bytes: Vec<u8>,
    firmware_update_status: u32,
    firmware_backup_reply: Vec<u8>,
    packets: Vec<Option<Packet>>,
    clock: u64,
    clock_step: u64,
    pauses: Vec<u64>,
}

impl DeviceSim {
    fn new() -> Self {
        DeviceSim {
            identifier: b"SCv2".to_vec(),
            version: (2, 12),
            erase_block_size: 8192,
            time_bytes: vec![3, 12, 30, 45, 0x07, 0xE8, 6, 15],
            ..Default::default()
        }
    }

    fn handle(&mut self, c: &Command) -> Result<Vec<u8>, Error> {
        self.sent.push(c.clone());
        match c.id {
            0x76 => Ok(self.identifier.clone()),
            0x56 => {
                let mut reply = self.version.0.to_be_bytes().to_vec();
                reply.extend_from_slice(&self.version.1.to_be_bytes());
                Ok(reply)
            }
            0x52 => Ok(vec![]),
            0x42 => Ok(vec![]),
            0x63 => Ok(be32(*self.config.get(&c.arg0).unwrap_or(&0))),
            0x43 => {
                self.config.insert(c.arg0, c.arg1);
                Ok(vec![])
            }
            0x61 => Ok(be32(*self.settings.get(&c.arg0).unwrap_or(&0))),
            0x41 => {
                self.settings.insert(c.arg0, c.arg1);
                Ok(vec![])
            }
            0x74 => Ok(self.time_bytes.clone()),
            0x54 => Ok(vec![]),
            0x6D => Ok(self
                .memory
                .get(&(c.arg0, c.arg1))
                .cloned()
                .unwrap_or_else(|| vec![0u8; c.arg1 as usize])),
            0x4D => {
                self.memory.insert((c.arg0, c.arg1), c.data.clone());
                Ok(vec![])
            }
            0x55 => Ok(vec![]),
            0x44 => Ok(vec![]),
            0x70 => Ok(be32(self.erase_block_size)),
            0x50 => {
                self.erases.push(c.arg0);
                Ok(vec![])
            }
            0x66 => Ok(self.firmware_backup_reply.clone()),
            0x46 => Ok(be32(self.firmware_update_status)),
            _ => Err(Error::Transport),
        }
    }

    fn writes_at(&self, address_from: u32, address_to: u32) -> Vec<(u32, u32)> {
        self.sent
            .iter()
            .filter(|c| c.id == 0x4D && c.arg0 >= address_from && c.arg0 < address_to)
            .map(|c| (c.arg0, c.arg1))
            .collect()
    }
}

#[derive(Clone)]
struct SimLink(Rc<RefCell<DeviceSim>>);

fn sim_pair() -> (SimLink, Rc<RefCell<DeviceSim>>) {
    let state = Rc::new(RefCell::new(DeviceSim::new()));
    (SimLink(state.clone()), state)
}

impl Link for SimLink {
    fn execute_command(&mut self, command: &Command) -> Result<Vec<u8>, Error> {
        self.0.borrow_mut().handle(command)
    }

    fn execute_command_raw(
        &mut self,
        command: &Command,
        _timeout_ms: u64,
        _no_response: bool,
        _ignore_error: bool,
    ) -> Result<Vec<u8>, Error> {
        self.0.borrow_mut().handle(command)
    }

    fn receive_packet(&mut self) -> Result<Option<Packet>, Error> {
        let mut sim = self.0.borrow_mut();
        if sim.packets.is_empty() {
            Ok(None)
        } else {
            Ok(sim.packets.remove(0))
        }
    }

    fn clock_ms(&mut self) -> u64 {
        let mut sim = self.0.borrow_mut();
        sim.clock += sim.clock_step;
        sim.clock
    }

    fn pause_ms(&mut self, ms: u64) {
        self.0.borrow_mut().pauses.push(ms);
    }
}

struct FixedCic;

impl Cic for FixedCic {
    fn guess_seed(&self, _boot_code: &[u8]) -> Result<u8, Error> {
        Ok(0x3F)
    }

    fn checksum(&self, _boot_code: &[u8], seed: u8) -> Result<[u8; 6], Error> {
        Ok([seed, 1, 2, 3, 4, 5])
    }
}

fn update_packet(code: u32) -> Option<Packet> {
    Some(Packet { id: 0x46, data: be32(code) })
}

#[test]
fn handshake_accepts_the_device_identifier() {
    let (link, _state) = sim_pair();
    assert!(sc64::new(link).is_ok());
}

#[test]
fn handshake_rejects_a_stranger() {
    let (link, state) = sim_pair();
    state.borrow_mut().identifier = b"XXXX".to_vec();
    assert_eq!(sc64::new(link).err(), Some(Error::Domain));
}

#[test]
fn firmware_version_gate() {
    let (link, state) = sim_pair();
    let mut dev = sc64::new(link).unwrap();
    assert_eq!(dev.check_firmware_version(), Ok((2, 12)));
    state.borrow_mut().version = (2, 20);
    assert_eq!(dev.check_firmware_version(), Ok((2, 20)));
    state.borrow_mut().version = (2, 11);
    assert_eq!(dev.check_firmware_version(), Err(Error::Domain));
    state.borrow_mut().version = (3, 12);
    assert_eq!(dev.check_firmware_version(), Err(Error::Domain));
}

#[test]
fn dump_memory_checks_the_addressable_range() {
    let (link, state) = sim_pair();
    let mut dev = sc64::new(link).unwrap();
    let before = state.borrow().sent.len();
    assert_eq!(dev.dump_memory(0x0500_2980, 1).err(), Some(Error::Domain));
    assert_eq!(dev.dump_memory(0xFFFF_FFFF, 0x1000).err(), Some(Error::Domain));
    // The refused dumps never reached the wire.
    assert_eq!(state.borrow().sent.len(), before);
    let data = dev.dump_memory(0x1000, 16).unwrap();
    assert_eq!(data, vec![0u8; 16]);
}

#[test]
fn full_image_upload_splits_primary_and_shadow() {
    // An image that exactly fills primary memory, shadow allowed: a
    // 63.875 MiB primary write stream, a 128 KiB shadow write, nothing
    // extended, shadow flag on, extended flag off.
    let (link, state) = sim_pair();
    let mut dev = sc64::new(link).unwrap();
    let image = vec![0xABu8; 64 * MIB];
    dev.upload_rom(&image, false).unwrap();

    let sim = state.borrow();
    let primary: Vec<(u32, u32)> = sim.writes_at(0, 0x03FE_0000);
    let primary_total: u64 = primary.iter().map(|w| w.1 as u64).sum();
    assert_eq!(primary_total, (64 * MIB - 128 * 1024) as u64);
    assert_eq!(primary[0], (0, MIB as u32));
    let shadow = sim.writes_at(0x04FE_0000, 0x0500_0000);
    assert_eq!(shadow, vec![(0x04FE_0000, 128 * 1024)]);
    assert!(sim.writes_at(0x0400_0000, 0x04E0_0000).is_empty());
    assert_eq!(sim.config.get(&2), Some(&1));
    assert_eq!(sim.config.get(&14), Some(&0));
}

#[test]
fn oversize_image_reaches_the_extended_region() {
    let (link, state) = sim_pair();
    let mut dev = sc64::new(link).unwrap();
    let image = vec![0x5Au8; 70 * MIB];
    dev.upload_rom(&image, false).unwrap();
    let sim = state.borrow();
    let extended = sim.writes_at(0x0400_0000, 0x04E0_0000);
    assert_eq!(extended, vec![(0x0400_0000, 6 * MIB as u32)]);
    assert_eq!(sim.config.get(&2), Some(&1));
    assert_eq!(sim.config.get(&14), Some(&1));
}

#[test]
fn image_too_large_is_refused_before_any_write() {
    let (link, state) = sim_pair();
    let mut dev = sc64::new(link).unwrap();
    let before = state.borrow().sent.len();
    let image = vec![0u8; 78 * MIB + 1];
    assert_eq!(dev.upload_rom(&image, false).err(), Some(Error::Domain));
    assert_eq!(state.borrow().sent.len(), before);
}

#[test]
fn swapped_image_is_normalized_before_writing() {
    let (link, state) = sim_pair();
    let mut dev = sc64::new(link).unwrap();
    let mut image = vec![0u8; 16];
    image[0..4].copy_from_slice(&[0x37, 0x80, 0x40, 0x12]);
    image[4..8].copy_from_slice(&[0x11, 0x22, 0x33, 0x44]);
    dev.upload_rom(&image, false).unwrap();
    let sim = state.borrow();
    let written = sim.memory.get(&(0, 16)).unwrap();
    assert_eq!(&written[0..8], &[0x80, 0x37, 0x12, 0x40, 0x22, 0x11, 0x44, 0x33]);
}

#[test]
fn flash_writes_erase_each_covering_block_once() {
    // First upload: the 128 KiB shadow chunk differs from flash content,
    // so every covering block is erased: ceil(131072 / 8192) = 16.
    let (link, state) = sim_pair();
    let mut dev = sc64::new(link).unwrap();
    let image = vec![0xABu8; 64 * MIB];
    dev.upload_rom(&image, false).unwrap();
    assert_eq!(state.borrow().erases.len(), 16);
    let expected: Vec<u32> = (0..16u32).map(|i| 0x04FE_0000 + i * 8192).collect();
    assert_eq!(state.borrow().erases, expected);
}

#[test]
fn programming_identical_flash_content_is_free() {
    // Second upload of the same image: the shadow content already
    // matches, so no further erase and no further shadow write happen.
    let (link, state) = sim_pair();
    let mut dev = sc64::new(link).unwrap();
    let image = vec![0xABu8; 64 * MIB];
    dev.upload_rom(&image, false).unwrap();
    let erases_after_first = state.borrow().erases.len();
    let shadow_writes_after_first = state.borrow().writes_at(0x04FE_0000, 0x0500_0000).len();
    dev.upload_rom(&image, false).unwrap();
    assert_eq!(state.borrow().erases.len(), erases_after_first);
    assert_eq!(
        state.borrow().writes_at(0x04FE_0000, 0x0500_0000).len(),
        shadow_writes_after_first
    );
}

#[test]
fn ddipl_upload_respects_its_capacity() {
    let (link, state) = sim_pair();
    let mut dev = sc64::new(link).unwrap();
    assert_eq!(dev.upload_ddipl(&vec![0u8; 4 * MIB + 1]).err(), Some(Error::Domain));
    dev.upload_ddipl(&[1, 2, 3]).unwrap();
    assert_eq!(state.borrow().memory.get(&(0x03BC_0000, 3)), Some(&vec![1, 2, 3]));
}

#[test]
fn save_upload_matches_the_enabled_type() {
    let (link, state) = sim_pair();
    let mut dev = sc64::new(link).unwrap();
    // No save type enabled.
    assert_eq!(dev.upload_save(&[0u8; 512]).err(), Some(Error::Domain));
    // SRAM enabled: only exactly 32 KiB is accepted.
    state.borrow_mut().config.insert(6, 3);
    assert_eq!(dev.upload_save(&[0u8; 512]).err(), Some(Error::Domain));
    dev.upload_save(&vec![9u8; 32 * 1024]).unwrap();
    assert_eq!(
        state.borrow().memory.get(&(0x03FE_0000, 32 * 1024)),
        Some(&vec![9u8; 32 * 1024])
    );
    // EEPROM 4K writes to the EEPROM area.
    state.borrow_mut().config.insert(6, 1);
    dev.upload_save(&vec![5u8; 512]).unwrap();
    assert_eq!(state.borrow().memory.get(&(0x0500_2980, 512)), Some(&vec![5u8; 512]));
}

#[test]
fn device_state_snapshot_reads_every_field() {
    let (_link, state) = sim_pair();
    {
        let mut sim = state.borrow_mut();
        sim.config.insert(0, 1); // bootloader switch
        sim.config.insert(3, 3); // 64DD mode: full
        sim.config.insert(4, 0x0300_0000); // ISV address
        sim.config.insert(5, 1); // boot mode: rom
        sim.config.insert(6, 5); // save type: banked SRAM
        sim.config.insert(7, 0xFFFF); // seed: auto
        sim.config.insert(8, 1); // TV: PAL
        sim.config.insert(10, 1); // drive type: development
        sim.config.insert(11, 1); // disk state: inserted
        sim.config.insert(13, 2); // button mode: usb packet
        sim.config.insert(14, 1); // extended enable
        sim.settings.insert(0, 1); // led enable
    }
    let mut dev = sc64::new(SimLink(state.clone())).unwrap();
    let snapshot = dev.get_device_state().unwrap();
    assert!(snapshot.bootloader_switch);
    assert!(!snapshot.rom_write_enable);
    assert!(!snapshot.rom_shadow_enable);
    assert_eq!(snapshot.dd_mode, DdMode::Full);
    assert_eq!(snapshot.isv_address, 0x0300_0000);
    assert_eq!(snapshot.boot_mode, BootMode::Rom);
    assert_eq!(snapshot.save_type, SaveType::SramBanked);
    assert_eq!(snapshot.cic_seed, CicSeed::Auto);
    assert_eq!(snapshot.tv_type, TvType::Pal);
    assert!(!snapshot.dd_sd_enable);
    assert_eq!(snapshot.dd_drive_type, DdDriveType::Development);
    assert_eq!(snapshot.dd_disk_state, DdDiskState::Inserted);
    assert!(!snapshot.button_state);
    assert_eq!(snapshot.button_mode, ButtonMode::UsbPacket);
    assert!(snapshot.rom_extended_enable);
    assert!(snapshot.led_enable);
    assert_eq!(snapshot.datetime.year, 2024);
    assert_eq!(snapshot.datetime.month, 6);
    assert_eq!(snapshot.datetime.day, 15);
    assert_eq!(snapshot.datetime.hour, 12);
    assert_eq!(snapshot.datetime.minute, 30);
    assert_eq!(snapshot.datetime.second, 45);
    assert_eq!(snapshot.datetime.weekday, 3);
}

#[test]
fn device_state_snapshot_costs_one_command_per_field() {
    let (_link, state) = sim_pair();
    let mut dev = sc64::new(SimLink(state.clone())).unwrap();
    let before = state.borrow().sent.len();
    dev.get_device_state().unwrap();
    // Fifteen config gets, one setting get, one time get.
    assert_eq!(state.borrow().sent.len() - before, 17);
}

#[test]
fn out_of_domain_config_reply_fails_to_decode() {
    let (_link, state) = sim_pair();
    state.borrow_mut().config.insert(6, 99); // unknown save type code
    let mut dev = sc64::new(SimLink(state.clone())).unwrap();
    assert_eq!(dev.get_device_state().err(), Some(Error::Domain));
}

#[test]
fn configure_64dd_sets_the_four_parameters() {
    let (link, state) = sim_pair();
    let mut dev = sc64::new(link).unwrap();
    dev.configure_64dd(DdMode::Regs, DdDriveType::Retail).unwrap();
    let sim = state.borrow();
    assert_eq!(sim.config.get(&3), Some(&1));
    assert_eq!(sim.config.get(&9), Some(&0));
    assert_eq!(sim.config.get(&10), Some(&0));
    assert_eq!(sim.config.get(&11), Some(&0));
}

#[test]
fn isviewer_window_respects_the_shadow_region() {
    let (_link, state) = sim_pair();
    let mut dev = sc64::new(SimLink(state.clone())).unwrap();
    state.borrow_mut().config.insert(2, 1); // shadow enabled
    assert_eq!(dev.configure_isviewer64(Some(0x03FD_0001)).err(), Some(Error::Domain));
    dev.configure_isviewer64(Some(0x03FD_0000)).unwrap();
    assert_eq!(state.borrow().config.get(&1), Some(&1));
    assert_eq!(state.borrow().config.get(&4), Some(&0x03FD_0000));
    dev.configure_isviewer64(None).unwrap();
    assert_eq!(state.borrow().config.get(&1), Some(&0));
    assert_eq!(state.borrow().config.get(&4), Some(&0));
}

#[test]
fn cic_parameters_follow_the_boot_mode() {
    let (_link, state) = sim_pair();
    state.borrow_mut().config.insert(5, 3); // direct ROM boot
    let mut dev = sc64::new(SimLink(state.clone())).unwrap();
    dev.calculate_cic_parameters(&FixedCic).unwrap();
    let sim = state.borrow();
    // The boot code was read from primary memory at its offset.
    assert!(sim.sent.iter().any(|c| c.id == 0x6D && c.arg0 == 0x40 && c.arg1 == 0xFC0));
    let params = sim.sent.iter().find(|c| c.id == 0x42).unwrap();
    // disable=0, seed, then the first two checksum bytes.
    assert_eq!(params.arg0, 0x003F_3F01);
    assert_eq!(params.arg1, 0x0203_0405);
}

#[test]
fn datetime_roundtrips_through_the_wire_encoding() {
    let d = sc64::DateTime { year: 2024, month: 6, day: 15, weekday: 3, hour: 12, minute: 30, second: 45 };
    let encoded = sc64::datetime::vec_from_datetime(&d);
    assert_eq!(encoded, vec![3, 12, 30, 45, 0x07, 0xE8, 6, 15]);
    assert_eq!(sc64::datetime::datetime_from_vec(&encoded), Ok(d));
    let invalid = vec![0, 12, 30, 45, 0x07, 0xE8, 6, 15]; // weekday zero
    assert_eq!(sc64::datetime::datetime_from_vec(&invalid), Err(Error::Domain));
}

#[test]
fn inbound_packets_decode_by_identifier() {
    let (_link, state) = sim_pair();
    state.borrow_mut().packets = vec![
        update_packet(1),
        Some(Packet { id: 0x44, data: { let mut d = be32(0); d.extend_from_slice(&be32(0x100)); d.extend_from_slice(&[7, 8]); d } }),
        Some(Packet { id: 0x55, data: vec![2, 9, 9] }),
        Some(Packet { id: 0x21, data: vec![] }),
        None,
    ];
    let mut dev = sc64::new(SimLink(state.clone())).unwrap();
    assert_eq!(
        dev.receive_data_packet().unwrap(),
        Some(DataPacket::UpdateStatus(UpdateStatus::Mcu))
    );
    assert_eq!(
        dev.receive_data_packet().unwrap(),
        Some(DataPacket::Disk(DiskPacket::ReadBlock(DiskBlock { address: 0x100, data: vec![7, 8] })))
    );
    assert_eq!(
        dev.receive_data_packet().unwrap(),
        Some(DataPacket::Debug(DebugPacket { datatype: 2, data: vec![9, 9] }))
    );
    assert_eq!(dev.receive_data_packet().err(), Some(Error::Protocol(0x21)));
    assert_eq!(dev.receive_data_packet().unwrap(), None);
}

#[test]
fn disk_replies_write_back_and_signal_readiness() {
    let (_link, state) = sim_pair();
    let mut dev = sc64::new(SimLink(state.clone())).unwrap();
    let block = DiskBlock { address: 0x2000, data: vec![1, 2, 3, 4] };
    dev.reply_disk_packet(Some(DiskPacket::ReadBlock(block))).unwrap();
    {
        let sim = state.borrow();
        assert_eq!(sim.memory.get(&(0x2000, 4)), Some(&vec![1, 2, 3, 4]));
        let ready = sim.sent.iter().rfind(|c| c.id == 0x44).unwrap();
        assert_eq!(ready.arg0, 0);
    }
    dev.reply_disk_packet(None).unwrap();
    let sim = state.borrow();
    let ready = sim.sent.iter().rfind(|c| c.id == 0x44).unwrap();
    assert_eq!(ready.arg0, 1);
}

#[test]
fn debug_packets_go_out_over_usb() {
    let (_link, state) = sim_pair();
    let mut dev = sc64::new(SimLink(state.clone())).unwrap();
    dev.send_debug_packet(&DebugPacket { datatype: 1, data: vec![0xAA, 0xBB] }).unwrap();
    let sim = state.borrow();
    let sent = sim.sent.iter().rfind(|c| c.id == 0x55).unwrap();
    assert_eq!(sent.arg0, 1);
    assert_eq!(sent.arg1, 2);
    assert_eq!(sent.data, vec![0xAA, 0xBB]);
}

#[test]
fn firmware_backup_returns_the_staged_bytes() {
    let (_link, state) = sim_pair();
    {
        let mut sim = state.borrow_mut();
        let mut reply = be32(0); // status: success
        reply.extend_from_slice(&be32(5)); // length
        sim.firmware_backup_reply = reply;
        sim.memory.insert((0x0010_0000, 5), vec![10, 20, 30, 40, 50]);
    }
    let mut dev = sc64::new(SimLink(state.clone())).unwrap();
    assert_eq!(dev.backup_firmware().unwrap(), vec![10, 20, 30, 40, 50]);
}

#[test]
fn firmware_backup_failure_status_is_fatal() {
    let (_link, state) = sim_pair();
    {
        let mut sim = state.borrow_mut();
        let mut reply = be32(5); // status: read failure
        reply.extend_from_slice(&be32(0));
        sim.firmware_backup_reply = reply;
    }
    let mut dev = sc64::new(SimLink(state.clone())).unwrap();
    assert_eq!(dev.backup_firmware().err(), Some(Error::Device(FirmwareStatus::ErrRead)));
}

#[test]
fn firmware_update_succeeds_on_done_and_waits_the_settle_delay() {
    let (_link, state) = sim_pair();
    state.borrow_mut().packets = vec![
        update_packet(1),    // MCU
        update_packet(2),    // FPGA
        update_packet(3),    // bootloader
        update_packet(0x80), // done
    ];
    let mut dev = sc64::new(SimLink(state.clone())).unwrap();
    dev.update_firmware(&[1, 2, 3, 4]).unwrap();
    let sim = state.borrow();
    // The image was staged at the firmware address before the command.
    assert_eq!(sim.memory.get(&(0x0010_0000, 4)), Some(&vec![1, 2, 3, 4]));
    assert_eq!(*sim.pauses.last().unwrap(), 2000);
}

#[test]
fn firmware_update_fault_names_the_last_step() {
    let (_link, state) = sim_pair();
    state.borrow_mut().packets = vec![
        update_packet(1),    // MCU
        update_packet(2),    // FPGA
        update_packet(0xFF), // error
    ];
    let mut dev = sc64::new(SimLink(state.clone())).unwrap();
    assert_eq!(
        dev.update_firmware(&[1, 2, 3, 4]).err(),
        Some(Error::UpdateFault(UpdateStatus::Fpga))
    );
}

#[test]
fn firmware_update_rejected_by_the_device_aborts() {
    let (_link, state) = sim_pair();
    state.borrow_mut().firmware_update_status = 3; // size failure
    let mut dev = sc64::new(SimLink(state.clone())).unwrap();
    assert_eq!(
        dev.update_firmware(&[1, 2, 3, 4]).err(),
        Some(Error::Device(FirmwareStatus::ErrSize))
    );
    // No polling happened after the refusal.
    assert!(state.borrow().pauses.is_empty());
}

#[test]
fn firmware_update_times_out_only_past_the_deadline() {
    let (_link, state) = sim_pair();
    state.borrow_mut().clock_step = 50_000;
    let mut dev = sc64::new(SimLink(state.clone())).unwrap();
    assert_eq!(dev.update_firmware(&[1, 2, 3, 4]).err(), Some(Error::Timeout));
    // One poll at 50 s elapsed stayed within the 90 s deadline; the next,
    // at 100 s, timed out.
    assert_eq!(state.borrow().pauses.len(), 1);
}

#[test]
fn led_blink_setting_goes_out() {
    let (_link, state) = sim_pair();
    let mut dev = sc64::new(SimLink(state.clone())).unwrap();
    dev.set_led_blink(true).unwrap();
    assert_eq!(state.borrow().settings.get(&0), Some(&1));
    dev.set_led_blink(false).unwrap();
    assert_eq!(state.borrow().settings.get(&0), Some(&0));
}

#[test]
fn typed_setters_encode_their_configs() {
    let (_link, state) = sim_pair();
    let mut dev = sc64::new(SimLink(state.clone())).unwrap();
    dev.set_boot_mode(BootMode::DirectDdIpl).unwrap();
    dev.set_save_type(SaveType::Flashram).unwrap();
    dev.set_tv_type(TvType::Mpal).unwrap();
    dev.set_64dd_disk_state(DdDiskState::Changed).unwrap();
    let sim = state.borrow();
    assert_eq!(sim.config.get(&5), Some(&4));
    assert_eq!(sim.config.get(&6), Some(&4));
    assert_eq!(sim.config.get(&8), Some(&2));
    assert_eq!(sim.config.get(&11), Some(&2));
}
