//! The device façade: one handle per session, the command executor under
//! it, the flash-programming engine, and the public operation set.

use vstd::prelude::*;
use crate::bytes::{apply_swap, args_from_vec, detect_swap, u16_from_vec, u32_from_vec};
use crate::config::{
    config_decode, config_id, config_id_value, config_value, setting_decode, setting_id,
    setting_id_value, setting_value, spec_config_id, spec_setting_id, Config, ConfigId, Setting,
    SettingId,
};
use crate::datetime::{datetime_from_vec, vec_from_datetime, DateTime};
use crate::error::Error;
use crate::flash::{
    erase_offsets, spec_chunked_writes, spec_erase_commands, spec_flash_stage,
    spec_flash_traffic, spec_programmed_history, spec_read_history, spec_skipped_history,
};
use crate::bytes::{spec_detect_swap, spec_swap};
use crate::layout::{
    rom_layout, save_type_address, save_type_length, spec_rom_layout, spec_save_type_address,
    spec_save_type_length, BOOTLOADER_ADDRESS,
    BOOTLOADER_LENGTH, DDIPL_ADDRESS, DDIPL_LENGTH, FIRMWARE_ADDRESS, MAX_ROM_LENGTH,
    MEMORY_LENGTH, ROM_EXTENDED_ADDRESS, ROM_EXTENDED_LENGTH, ROM_SHADOW_ADDRESS,
    ROM_SHADOW_LENGTH, SAVE_ADDRESS, SDRAM_ADDRESS, SDRAM_LENGTH, ISV_BUFFER_LENGTH,
};
use crate::link::{
    spec_logged, Cic, Command, CommandModel, Link, COMMAND_USB_WRITE_TIMEOUT_MS,
    FIRMWARE_COMMAND_TIMEOUT_MS,
};
use crate::packet::{packet_decode, DataPacket, DebugPacket, DiskPacket};
use crate::types::{
    firmware_status_decode, BootMode, ButtonMode, CicSeed, DdDiskState, DdDriveType, DdMode,
    FirmwareStatus, SaveType, TvType, UpdateStatus,
};
use crate::update::{
    update_step, UpdateOutcome, FIRMWARE_UPDATE_TIMEOUT_MS, UPDATE_POLL_PAUSE_MS,
    UPDATE_SETTLE_MS,
};

verus! {

/// Supported firmware: this major version exactly.
pub const SUPPORTED_MAJOR_VERSION: u16 = 2;

/// Supported firmware: this minor version or above.
pub const SUPPORTED_MINOR_VERSION: u16 = 12;

/// Offset of the boot-code region inside the area chosen by the boot mode.
pub const BOOT_CODE_OFFSET: u32 = 0x40;

/// Length of the boot-code region.
pub const BOOT_CODE_LENGTH: usize = 0xFC0;

/// One ROM upload chunk.
pub const UPLOAD_CHUNK_LENGTH: usize = 1024 * 1024;

/// A handle on one device over an injected transport.
pub struct SC64<L: Link> {
    link: L,
    history: Ghost<Seq<CommandModel>>,
}

/// An immutable snapshot of every configuration parameter, the one
/// setting, and the device clock.
#[derive(Debug, Clone, Copy, PartialEq, Eq, Structural)]
pub struct DeviceState {
    pub bootloader_switch: bool,
    pub rom_write_enable: bool,
    pub rom_shadow_enable: bool,
    pub dd_mode: DdMode,
    pub isv_address: u32,
    pub boot_mode: BootMode,
    pub save_type: SaveType,
    pub cic_seed: CicSeed,
    pub tv_type: TvType,
    pub dd_sd_enable: bool,
    pub dd_drive_type: DdDriveType,
    pub dd_disk_state: DdDiskState,
    pub button_state: bool,
    pub button_mode: ButtonMode,
    pub rom_extended_enable: bool,
    pub led_enable: bool,
    pub datetime: DateTime,
}

/// Where the boot-code region sits, chosen by the current boot mode.
pub open spec fn spec_boot_code_address(m: BootMode) -> u32 {
    match m {
        BootMode::DirectRom => SDRAM_ADDRESS,
        BootMode::DirectDdIpl => DDIPL_ADDRESS,
        _ => BOOTLOADER_ADDRESS,
    }
}

/// The command traffic of one whole image upload, split at `h_mid`, the
/// history after the shadow stage. The normalized image streams into
/// primary memory in fixed chunks up to the layout's primary length; each
/// region-enable flag is then set to the layout's decision, and each
/// enabled flash region receives its slice of the image through the
/// programming engine.
pub open spec fn spec_upload_rom_traffic(
    h0: Seq<CommandModel>,
    h_mid: Seq<CommandModel>,
    h1: Seq<CommandModel>,
    data: Seq<u8>,
    no_shadow: bool,
) -> bool {
    let l = spec_rom_layout(data.len() as usize, no_shadow);
    let img = spec_swap(spec_detect_swap(data), data);
    let after_primary = h0 + spec_chunked_writes(
        SDRAM_ADDRESS,
        img.take(l.sdram_length as int),
        UPLOAD_CHUNK_LENGTH as nat,
    );
    let after_shadow_flag = after_primary.push(
        CommandModel::ConfigSet(Config::RomShadowEnable(l.shadow_enabled)),
    );
    let after_extended_flag = h_mid.push(
        CommandModel::ConfigSet(Config::RomExtendedEnable(l.extended_enabled)),
    );
    &&& spec_flash_stage(
        after_shadow_flag,
        h_mid,
        l.shadow_enabled,
        ROM_SHADOW_ADDRESS,
        img.subrange(l.sdram_length as int, l.sdram_length + l.shadow_length),
    )
    &&& spec_flash_stage(
        after_extended_flag,
        h1,
        l.extended_enabled,
        ROM_EXTENDED_ADDRESS,
        img.subrange(
            l.sdram_length + l.shadow_length,
            l.sdram_length + l.shadow_length + l.extended_length,
        ),
    )
}

/// The command traffic of one boot-parameter computation: the boot-mode
/// read, the boot-code region read at the address that mode selects, and
/// the parameter push with the seed and checksum the collaborator derived.
pub open spec fn spec_cic_traffic(
    h0: Seq<CommandModel>,
    h1: Seq<CommandModel>,
    m: BootMode,
    boot_code: Seq<u8>,
    seed: u8,
    checksum: Seq<u8>,
) -> bool {
    h1 == h0.push(CommandModel::ConfigGet(Config::BootMode(m))).push(
        CommandModel::MemoryRead(
            (spec_boot_code_address(m) + BOOT_CODE_OFFSET) as u32,
            BOOT_CODE_LENGTH as u32,
            boot_code,
        ),
    ).push(CommandModel::CicParamsSet(false, seed, checksum))
}

pub fn boot_code_address(m: BootMode) -> (r: u32)
    ensures
        r == spec_boot_code_address(m),
{
    match m {
        BootMode::DirectRom => SDRAM_ADDRESS,
        BootMode::DirectDdIpl => DDIPL_ADDRESS,
        _ => BOOTLOADER_ADDRESS,
    }
}

impl<L: Link> SC64<L> {
    /// The ghost record of the command exchanges this handle has
    /// completed: for each command whose reply it accepted, what went out
    /// and what came back in decoded form. A command the transport failed
    /// to carry leaves no record.
    pub closed spec fn command_history(&self) -> Seq<CommandModel> {
        self.history@
    }

    fn command_identifier_get(&mut self) -> (r: Result<Vec<u8>, Error>)
        ensures
            r matches Ok(v) ==> final(self).command_history() == old(
                self,
            ).command_history().push(CommandModel::IdentifierGet(v@)),
            r is Err ==> final(self).command_history() == old(self).command_history(),
    {
        let reply = self.link.execute_command(
            &Command { id: 0x76, arg0: 0, arg1: 0, data: Vec::new() },
        )?;
        self.history = Ghost(self.history@.push(CommandModel::IdentifierGet(reply@)));
        Ok(reply)
    }

    fn command_version_get(&mut self) -> (r: Result<(u16, u16), Error>)
        ensures
            r matches Ok(v) ==> final(self).command_history() == old(
                self,
            ).command_history().push(CommandModel::VersionGet(v.0, v.1)),
            r is Err ==> final(self).command_history() == old(self).command_history(),
    {
        let reply = self.link.execute_command(
            &Command { id: 0x56, arg0: 0, arg1: 0, data: Vec::new() },
        )?;
        let major = match u16_from_vec(reply.as_slice()) {
            Some(v) => v,
            None => {
                return Err(Error::Protocol(0x56));
            },
        };
        let tail = vstd::slice::slice_subrange(reply.as_slice(), 2, reply.len());
        let minor = match u16_from_vec(tail) {
            Some(v) => v,
            None => {
                return Err(Error::Protocol(0x56));
            },
        };
        self.history = Ghost(self.history@.push(CommandModel::VersionGet(major, minor)));
        Ok((major, minor))
    }

    fn command_state_reset(&mut self) -> (r: Result<(), Error>)
        ensures
            r is Ok ==> final(self).command_history() == old(self).command_history().push(
                CommandModel::StateReset,
            ),
            r is Err ==> final(self).command_history() == old(self).command_history(),
    {
        self.link.execute_command(
            &Command { id: 0x52, arg0: 0, arg1: 0, data: Vec::new() },
        )?;
        self.history = Ghost(self.history@.push(CommandModel::StateReset));
        Ok(())
    }

    fn command_cic_params_set(&mut self, disable: bool, seed: u8, checksum: &[u8; 6]) -> (r:
        Result<(), Error>)
        ensures
            r is Ok ==> final(self).command_history() == old(self).command_history().push(
                CommandModel::CicParamsSet(disable, seed, checksum@),
            ),
            r is Err ==> final(self).command_history() == old(self).command_history(),
    {
        let mut params: Vec<u8> = Vec::new();
        params.push(if disable {
            1
        } else {
            0
        });
        params.push(seed);
        params.push(checksum[0]);
        params.push(checksum[1]);
        params.push(checksum[2]);
        params.push(checksum[3]);
        params.push(checksum[4]);
        params.push(checksum[5]);
        let args = match args_from_vec(params.as_slice()) {
            Some(a) => a,
            None => {
                return Err(Error::Protocol(0x42));
            },
        };
        self.link.execute_command(
            &Command { id: 0x42, arg0: args[0], arg1: args[1], data: Vec::new() },
        )?;
        self.history = Ghost(
            self.history@.push(CommandModel::CicParamsSet(disable, seed, checksum@)),
        );
        Ok(())
    }

    /// A reply decoded for identifier `id` always carries that identifier's
    /// own variant.
    fn command_config_get(&mut self, config_id: ConfigId) -> (r: Result<Config, Error>)
        ensures
            r matches Ok(c) ==> spec_config_id(c) == config_id && final(self).command_history()
                == old(self).command_history().push(CommandModel::ConfigGet(c)),
            r is Err ==> final(self).command_history() == old(self).command_history(),
    {
        let reply = self.link.execute_command(
            &Command { id: 0x63, arg0: config_id_value(config_id), arg1: 0, data: Vec::new() },
        )?;
        let value = match u32_from_vec(reply.as_slice()) {
            Some(v) => v,
            None => {
                return Err(Error::Protocol(0x63));
            },
        };
        match config_decode(config_id, value) {
            Ok(c) => {
                self.history = Ghost(self.history@.push(CommandModel::ConfigGet(c)));
                Ok(c)
            },
            Err(e) => Err(e),
        }
    }

    fn command_config_set(&mut self, config: Config) -> (r: Result<(), Error>)
        ensures
            r is Ok ==> final(self).command_history() == old(self).command_history().push(
                CommandModel::ConfigSet(config),
            ),
            r is Err ==> final(self).command_history() == old(self).command_history(),
    {
        self.link.execute_command(
            &Command {
                id: 0x43,
                arg0: config_id_value(config_id(&config)),
                arg1: config_value(&config),
                data: Vec::new(),
            },
        )?;
        self.history = Ghost(self.history@.push(CommandModel::ConfigSet(config)));
        Ok(())
    }

    fn command_setting_get(&mut self, setting_id: SettingId) -> (r: Result<Setting, Error>)
        ensures
            r matches Ok(s) ==> spec_setting_id(s) == setting_id && final(self).command_history()
                == old(self).command_history().push(CommandModel::SettingGet(s)),
            r is Err ==> final(self).command_history() == old(self).command_history(),
    {
        let reply = self.link.execute_command(
            &Command { id: 0x61, arg0: setting_id_value(setting_id), arg1: 0, data: Vec::new() },
        )?;
        let value = match u32_from_vec(reply.as_slice()) {
            Some(v) => v,
            None => {
                return Err(Error::Protocol(0x61));
            },
        };
        match setting_decode(setting_id, value) {
            Ok(v) => {
                self.history = Ghost(self.history@.push(CommandModel::SettingGet(v)));
                Ok(v)
            },
            Err(e) => Err(e),
        }
    }

    fn command_setting_set(&mut self, setting: Setting) -> (r: Result<(), Error>)
        ensures
            r is Ok ==> final(self).command_history() == old(self).command_history().push(
                CommandModel::SettingSet(setting),
            ),
            r is Err ==> final(self).command_history() == old(self).command_history(),
    {
        self.link.execute_command(
            &Command {
                id: 0x41,
                arg0: setting_id_value(setting_id(&setting)),
                arg1: setting_value(&setting),
                data: Vec::new(),
            },
        )?;
        self.history = Ghost(self.history@.push(CommandModel::SettingSet(setting)));
        Ok(())
    }

    fn command_time_get(&mut self) -> (r: Result<DateTime, Error>)
        ensures
            r matches Ok(d) ==> crate::datetime::spec_datetime_valid(d) && final(self).command_history() == old(self).command_history().push(CommandModel::TimeGet(d)),
            r is Err ==> final(self).command_history() == old(self).command_history(),
    {
        let reply = self.link.execute_command(
            &Command { id: 0x74, arg0: 0, arg1: 0, data: Vec::new() },
        )?;
        match datetime_from_vec(reply.as_slice()) {
            Ok(d) => {
                self.history = Ghost(self.history@.push(CommandModel::TimeGet(d)));
                Ok(d)
            },
            Err(e) => Err(e),
        }
    }

    fn command_time_set(&mut self, datetime: &DateTime) -> (r: Result<(), Error>)
        ensures
            r is Ok ==> final(self).command_history() == old(self).command_history().push(
                CommandModel::TimeSet(*datetime),
            ),
            r is Err ==> final(self).command_history() == old(self).command_history(),
    {
        let encoded = vec_from_datetime(datetime);
        let args = match args_from_vec(encoded.as_slice()) {
            Some(a) => a,
            None => {
                return Err(Error::Protocol(0x54));
            },
        };
        self.link.execute_command(
            &Command { id: 0x54, arg0: args[0], arg1: args[1], data: Vec::new() },
        )?;
        self.history = Ghost(self.history@.push(CommandModel::TimeSet(*datetime)));
        Ok(())
    }

    fn command_memory_read(&mut self, address: u32, length: usize) -> (r: Result<Vec<u8>, Error>)
        requires
            length <= 0xFFFF_FFFF,
        ensures
            r matches Ok(reply) ==> final(self).command_history() == old(
                self,
            ).command_history().push(CommandModel::MemoryRead(address, length as u32, reply@)),
            r is Err ==> final(self).command_history() == old(self).command_history(),
    {
        let reply = self.link.execute_command(
            &Command { id: 0x6D, arg0: address, arg1: length as u32, data: Vec::new() },
        )?;
        self.history = Ghost(
            self.history@.push(CommandModel::MemoryRead(address, length as u32, reply@)),
        );
        Ok(reply)
    }

    fn command_memory_write(&mut self, address: u32, data: &[u8]) -> (r: Result<(), Error>)
        requires
            data@.len() <= 0xFFFF_FFFF,
        ensures
            r is Ok ==> final(self).command_history() == old(self).command_history().push(
                CommandModel::MemoryWrite(address, data@),
            ),
            r is Err ==> final(self).command_history() == old(self).command_history(),
    {
        self.link.execute_command(
            &Command {
                id: 0x4D,
                arg0: address,
                arg1: data.len() as u32,
                data: vstd::slice::slice_to_vec(data),
            },
        )?;
        self.history = Ghost(self.history@.push(CommandModel::MemoryWrite(address, data@)));
        Ok(())
    }

    fn command_usb_write(&mut self, datatype: u8, data: &[u8]) -> (r: Result<(), Error>)
        requires
            data@.len() <= 0xFFFF_FFFF,
        ensures
            r is Ok ==> final(self).command_history() == old(self).command_history().push(
                CommandModel::UsbWrite(datatype, data@),
            ),
            r is Err ==> final(self).command_history() == old(self).command_history(),
    {
        self.link.execute_command_raw(
            &Command {
                id: 0x55,
                arg0: datatype as u32,
                arg1: data.len() as u32,
                data: vstd::slice::slice_to_vec(data),
            },
            COMMAND_USB_WRITE_TIMEOUT_MS,
            true,
            false,
        )?;
        self.history = Ghost(self.history@.push(CommandModel::UsbWrite(datatype, data@)));
        Ok(())
    }

    fn command_dd_set_block_ready(&mut self, error: bool) -> (r: Result<(), Error>)
        ensures
            r is Ok ==> final(self).command_history() == old(self).command_history().push(
                CommandModel::DdBlockReady(error),
            ),
            r is Err ==> final(self).command_history() == old(self).command_history(),
    {
        self.link.execute_command(
            &Command {
                id: 0x44,
                arg0: if error {
                    1
                } else {
                    0
                },
                arg1: 0,
                data: Vec::new(),
            },
        )?;
        self.history = Ghost(self.history@.push(CommandModel::DdBlockReady(error)));
        Ok(())
    }

    /// Returns the device-reported erase-block size.
    fn command_flash_wait_busy(&mut self, wait: bool) -> (r: Result<u32, Error>)
        ensures
            r matches Ok(size) ==> final(self).command_history() == old(
                self,
            ).command_history().push(CommandModel::FlashWaitBusy(wait, size)),
            r is Err ==> final(self).command_history() == old(self).command_history(),
    {
        let reply = self.link.execute_command(
            &Command {
                id: 0x70,
                arg0: if wait {
                    1
                } else {
                    0
                },
                arg1: 0,
                data: Vec::new(),
            },
        )?;
        match u32_from_vec(reply.as_slice()) {
            Some(v) => {
                self.history = Ghost(self.history@.push(CommandModel::FlashWaitBusy(wait, v)));
                Ok(v)
            },
            None => Err(Error::Protocol(0x70)),
        }
    }

    fn command_flash_erase_block(&mut self, address: u32) -> (r: Result<(), Error>)
        ensures
            r is Ok ==> final(self).command_history() == old(self).command_history().push(
                CommandModel::FlashEraseBlock(address),
            ),
            r is Err ==> final(self).command_history() == old(self).command_history(),
    {
        self.link.execute_command(
            &Command { id: 0x50, arg0: address, arg1: 0, data: Vec::new() },
        )?;
        self.history = Ghost(self.history@.push(CommandModel::FlashEraseBlock(address)));
        Ok(())
    }

    fn command_firmware_backup(&mut self, address: u32) -> (r: Result<(FirmwareStatus, u32), Error>)
        ensures
            r matches Ok(v) ==> final(self).command_history() == old(
                self,
            ).command_history().push(CommandModel::FirmwareBackup(address, v.0, v.1)),
            r is Err ==> final(self).command_history() == old(self).command_history(),
    {
        let reply = self.link.execute_command_raw(
            &Command { id: 0x66, arg0: address, arg1: 0, data: Vec::new() },
            FIRMWARE_COMMAND_TIMEOUT_MS,
            false,
            true,
        )?;
        let status_code = match u32_from_vec(reply.as_slice()) {
            Some(v) => v,
            None => {
                return Err(Error::Protocol(0x66));
            },
        };
        let status = firmware_status_decode(status_code)?;
        let tail = vstd::slice::slice_subrange(reply.as_slice(), 4, reply.len());
        match u32_from_vec(tail) {
            Some(length) => {
                self.history = Ghost(
                    self.history@.push(CommandModel::FirmwareBackup(address, status, length)),
                );
                Ok((status, length))
            },
            None => Err(Error::Protocol(0x66)),
        }
    }

    fn command_firmware_update(&mut self, address: u32, length: usize) -> (r: Result<
        FirmwareStatus,
        Error,
    >)
        requires
            length <= 0xFFFF_FFFF,
        ensures
            r matches Ok(status) ==> final(self).command_history() == old(
                self,
            ).command_history().push(
                CommandModel::FirmwareUpdate(address, length as u32, status),
            ),
            r is Err ==> final(self).command_history() == old(self).command_history(),
    {
        let reply = self.link.execute_command_raw(
            &Command { id: 0x46, arg0: address, arg1: length as u32, data: Vec::new() },
            FIRMWARE_COMMAND_TIMEOUT_MS,
            false,
            true,
        )?;
        let status_code = match u32_from_vec(reply.as_slice()) {
            Some(v) => v,
            None => {
                return Err(Error::Protocol(0x46));
            },
        };
        match firmware_status_decode(status_code) {
            Ok(status) => {
                self.history = Ghost(
                    self.history@.push(
                        CommandModel::FirmwareUpdate(address, length as u32, status),
                    ),
                );
                Ok(status)
            },
            Err(e) => Err(e),
        }
    }

    /// Erases every block covering `length` bytes from `address`: one erase
    /// command per block-aligned offset of the plan. A device that reports a
    /// zero erase-block size is a protocol failure.
    fn flash_erase(&mut self, address: u32, length: usize) -> (r: Result<(), Error>)
        requires
            length <= 0xFFFF_FFFF,
            address + length <= 0x1_0000_0000,
        ensures
            r is Ok ==> exists|size: u32|
                #![auto]
                size > 0 && final(self).command_history() == old(self).command_history().push(
                    CommandModel::FlashWaitBusy(false, size),
                ) + spec_erase_commands(address, length as u32, size),
    {
        let ghost h0 = self.command_history();
        let erase_block_size = self.command_flash_wait_busy(false)?;
        if erase_block_size == 0 {
            return Err(Error::Protocol(0x70));
        }
        let ghost h1 = self.command_history();
        let ghost cmds = spec_erase_commands(address, length as u32, erase_block_size);
        proof {
            crate::flash::lemma_erase_commands_count(address, length as u32, erase_block_size);
        }
        let offsets = erase_offsets(length as u32, erase_block_size);
        let mut i: usize = 0;
        while i < offsets.len()
            invariant
                erase_block_size > 0,
                i <= offsets@.len(),
                forall|j: int| 0 <= j < offsets@.len() ==> #[trigger] offsets@[j] < length,
                forall|j: int|
                    0 <= j < offsets@.len() ==> #[trigger] offsets@[j] == j * (
                    erase_block_size as int),
                length <= 0xFFFF_FFFF,
                address + length <= 0x1_0000_0000,
                cmds == spec_erase_commands(address, length as u32, erase_block_size),
                offsets@.len() == cmds.len(),
                self.command_history() == h1 + cmds.take(i as int),
                h1 == h0.push(CommandModel::FlashWaitBusy(false, erase_block_size)),
            decreases offsets@.len() - i,
        {
            self.command_flash_erase_block(address + offsets[i])?;
            proof {
                assert(cmds[i as int] == CommandModel::FlashEraseBlock(
                    (address + i * erase_block_size) as u32,
                ));
                assert(cmds.take(i as int).push(cmds[i as int]) =~= cmds.take(i + 1));
                assert(self.command_history() =~= h1 + cmds.take(i + 1));
            }
            i = i + 1;
        }
        proof {
            assert(cmds.take(i as int) =~= cmds);
            assert(self.command_history() == h0.push(
                CommandModel::FlashWaitBusy(false, erase_block_size),
            ) + cmds);
        }
        Ok(())
    }

    /// Programs flash at `address`: skips everything when the target content
    /// already matches, else erases the covering blocks, writes once, and
    /// waits until the device reports idle. The contract pins the command
    /// cost of both paths: matching content costs one read and no erase or
    /// write at all, and differing content costs one erase per covering
    /// block — the length divided by the reported erase-block size,
    /// rounded up — and exactly one bulk write.
    fn flash_program(&mut self, address: u32, data: &[u8]) -> (r: Result<(), Error>)
        requires
            data@.len() <= 0xFFFF_FFFF,
            address + data@.len() <= 0x1_0000_0000,
        ensures
            r is Ok ==> spec_flash_traffic(
                old(self).command_history(),
                final(self).command_history(),
                address,
                data@,
            ),
    {
        let ghost h0 = self.command_history();
        let current = self.command_memory_read(address, data.len())?;
        let ghost h1 = self.command_history();
        let target = vstd::slice::slice_to_vec(data);
        if target == current {
            proof {
                assert(current@ =~= data@);
                assert(self.command_history() == spec_skipped_history(h0, address, data@, current@));
            }
            return Ok(());
        }
        proof {
            assert(current@ != data@) by {
                if current@ == data@ {
                    assert(target@ =~= current@);
                }
            }
        }
        self.flash_erase(address, data.len())?;
        let ghost h2 = self.command_history();
        let ghost size = choose|s: u32|
            #![auto]
            s > 0 && h2 == h1.push(CommandModel::FlashWaitBusy(false, s)) + spec_erase_commands(
                address,
                data@.len() as u32,
                s,
            );
        self.command_memory_write(address, data)?;
        let size2 = self.command_flash_wait_busy(true)?;
        proof {
            assert(self.command_history() =~= spec_programmed_history(
                h0,
                address,
                data@,
                current@,
                size,
                size2,
            ));
            assert(exists|s: u32, s2: u32|
                s > 0 && self.command_history() == #[trigger] spec_programmed_history(
                    h0,
                    address,
                    data@,
                    current@,
                    s,
                    s2,
                )) by {
                assert(size > 0 && self.command_history() == spec_programmed_history(
                    h0,
                    address,
                    data@,
                    current@,
                    size,
                    size2,
                ));
            }
            assert(spec_skipped_history(h0, address, data@, current@) == h0.push(
                CommandModel::MemoryRead(address, data@.len() as u32, current@),
            ));
        }
        Ok(())
    }

    /// Writing past the shadow region's capacity is a configuration error,
    /// not a flash error.
    fn flash_program_shadow(&mut self, data: &[u8]) -> (r: Result<(), Error>)
        ensures
            data@.len() > ROM_SHADOW_LENGTH ==> r == Err::<(), Error>(Error::Domain) && final(self).command_history() == old(self).command_history(),
            r is Ok ==> spec_flash_traffic(
                old(self).command_history(),
                final(self).command_history(),
                ROM_SHADOW_ADDRESS,
                data@,
            ),
    {
        if data.len() > ROM_SHADOW_LENGTH {
            return Err(Error::Domain);
        }
        self.flash_program(ROM_SHADOW_ADDRESS, data)
    }

    /// Writing past the extended region's capacity is a configuration
    /// error, not a flash error.
    fn flash_program_extended(&mut self, data: &[u8]) -> (r: Result<(), Error>)
        ensures
            data@.len() > ROM_EXTENDED_LENGTH ==> r == Err::<(), Error>(Error::Domain) && final(self).command_history() == old(self).command_history(),
            r is Ok ==> spec_flash_traffic(
                old(self).command_history(),
                final(self).command_history(),
                ROM_EXTENDED_ADDRESS,
                data@,
            ),
    {
        if data.len() > ROM_EXTENDED_LENGTH {
            return Err(Error::Domain);
        }
        self.flash_program(ROM_EXTENDED_ADDRESS, data)
    }

    /// Writing past the bootloader region's capacity is a configuration
    /// error, not a flash error.
    #[allow(dead_code)]
    fn flash_program_bootloader(&mut self, data: &[u8]) -> (r: Result<(), Error>)
        ensures
            data@.len() > BOOTLOADER_LENGTH ==> r == Err::<(), Error>(Error::Domain) && final(self).command_history() == old(self).command_history(),
            r is Ok ==> spec_flash_traffic(
                old(self).command_history(),
                final(self).command_history(),
                BOOTLOADER_ADDRESS,
                data@,
            ),
    {
        if data.len() > BOOTLOADER_LENGTH {
            return Err(Error::Domain);
        }
        self.flash_program(BOOTLOADER_ADDRESS, data)
    }
}

impl<L: Link> SC64<L> {
    /// Accepts exactly the supported firmware: the supported major version
    /// and at least the supported minor version.
    pub fn check_firmware_version(&mut self) -> (r: Result<(u16, u16), Error>)
        ensures
            r matches Ok(v) ==> v.0 == SUPPORTED_MAJOR_VERSION && v.1 >= SUPPORTED_MINOR_VERSION
                && final(self).command_history() == old(self).command_history().push(
                CommandModel::VersionGet(v.0, v.1),
            ),
            r is Err ==> final(self).command_history() == old(self).command_history() || exists|
                ma: u16,
                mi: u16,
            |
                !(ma == SUPPORTED_MAJOR_VERSION && mi >= SUPPORTED_MINOR_VERSION) && final(self).command_history() == #[trigger] spec_logged(
                    old(self).command_history(),
                    CommandModel::VersionGet(ma, mi),
                ),
    {
        let ghost h0 = self.command_history();
        let (major, minor) = self.command_version_get()?;
        if major != SUPPORTED_MAJOR_VERSION || minor < SUPPORTED_MINOR_VERSION {
            proof {
                assert(self.command_history() == spec_logged(
                    h0,
                    CommandModel::VersionGet(major, minor),
                ));
            }
            return Err(Error::Domain);
        }
        Ok((major, minor))
    }

    pub fn reset_state(&mut self) -> (r: Result<(), Error>)
        ensures
            r is Ok ==> final(self).command_history() == old(self).command_history().push(
                CommandModel::StateReset,
            ),
            r is Err ==> final(self).command_history() == old(self).command_history(),
    {
        self.command_state_reset()
    }

    /// Uploads a program image: normalizes its byte order, streams it into
    /// primary memory in fixed chunks, and spills what remains into the
    /// shadow and extended flash regions as the layout decides, setting
    /// both enable flags. An image over the maximum total length is a
    /// domain error raised before any write.
    pub fn upload_rom(&mut self, data: &[u8], no_shadow: bool) -> (r: Result<(), Error>)
        ensures
            data@.len() > MAX_ROM_LENGTH ==> r == Err::<(), Error>(Error::Domain) && final(self).command_history() == old(self).command_history(),
            r is Ok ==> exists|h_mid: Seq<CommandModel>|
                #[trigger] spec_upload_rom_traffic(
                    old(self).command_history(),
                    h_mid,
                    final(self).command_history(),
                    data@,
                    no_shadow,
                ),
    {
        let ghost h0 = self.command_history();
        let layout = match rom_layout(data.len(), no_shadow) {
            Ok(l) => l,
            Err(e) => {
                return Err(e);
            },
        };
        proof {
            crate::layout::lemma_rom_layout_partition(data@.len() as usize, no_shadow);
        }
        let kind = detect_swap(data);
        let mut image = vstd::slice::slice_to_vec(data);
        apply_swap(kind, &mut image);
        let ghost part = image@.take(layout.sdram_length as int);
        let ghost chunk_len = UPLOAD_CHUNK_LENGTH as nat;

        let mut offset: usize = 0;
        proof {
            assert(part.skip(0) =~= part);
        }
        while offset < layout.sdram_length
            invariant
                data@.len() <= MAX_ROM_LENGTH,
                offset <= layout.sdram_length,
                layout.sdram_length <= image@.len(),
                layout.sdram_length <= SDRAM_LENGTH,
                part == image@.take(layout.sdram_length as int),
                chunk_len == UPLOAD_CHUNK_LENGTH as nat,
                h0 == old(self).command_history(),
                self.command_history() + spec_chunked_writes(
                    (SDRAM_ADDRESS + offset) as u32,
                    part.skip(offset as int),
                    chunk_len,
                ) == h0 + spec_chunked_writes(SDRAM_ADDRESS, part, chunk_len),
            decreases layout.sdram_length - offset,
        {
            let end = if offset + UPLOAD_CHUNK_LENGTH < layout.sdram_length {
                offset + UPLOAD_CHUNK_LENGTH
            } else {
                layout.sdram_length
            };
            let chunk = vstd::slice::slice_subrange(image.as_slice(), offset, end);
            let ghost rest = part.skip(offset as int);
            let ghost base = (SDRAM_ADDRESS + offset) as u32;
            self.command_memory_write(SDRAM_ADDRESS + offset as u32, chunk)?;
            proof {
                assert(chunk@ =~= rest.take(end - offset));
                if end == layout.sdram_length {
                    assert(rest.len() <= chunk_len);
                    assert(chunk@ =~= rest);
                    assert(part.skip(end as int) =~= Seq::<u8>::empty());
                } else {
                    assert(rest.len() > chunk_len);
                    assert(chunk@ =~= rest.take(chunk_len as int));
                    assert(rest.skip(chunk_len as int) =~= part.skip(end as int));
                }
                assert(spec_chunked_writes(base, rest, chunk_len) == seq![
                    CommandModel::MemoryWrite(base, chunk@),
                ] + spec_chunked_writes((SDRAM_ADDRESS + end) as u32, part.skip(end as int), chunk_len));
                assert(self.command_history() + spec_chunked_writes(
                    (SDRAM_ADDRESS + end) as u32,
                    part.skip(end as int),
                    chunk_len,
                ) =~= h0 + spec_chunked_writes(SDRAM_ADDRESS, part, chunk_len));
            }
            offset = end;
        }
        proof {
            assert(part.skip(offset as int) =~= Seq::<u8>::empty());
            assert(self.command_history() =~= h0 + spec_chunked_writes(
                SDRAM_ADDRESS,
                part,
                chunk_len,
            ));
        }

        self.command_config_set(Config::RomShadowEnable(layout.shadow_enabled))?;
        let ghost h_after_shadow_flag = self.command_history();
        if layout.shadow_enabled {
            let shadow_end = layout.sdram_length + layout.shadow_length;
            let chunk = vstd::slice::slice_subrange(
                image.as_slice(),
                layout.sdram_length,
                shadow_end,
            );
            self.flash_program_shadow(chunk)?;
        }
        let ghost h_mid = self.command_history();

        self.command_config_set(Config::RomExtendedEnable(layout.extended_enabled))?;
        let ghost h_after_extended_flag = self.command_history();
        if layout.extended_enabled {
            let extended_start = layout.sdram_length + layout.shadow_length;
            let extended_end = extended_start + layout.extended_length;
            let chunk = vstd::slice::slice_subrange(
                image.as_slice(),
                extended_start,
                extended_end,
            );
            self.flash_program_extended(chunk)?;
        }
        proof {
            assert(spec_upload_rom_traffic(h0, h_mid, self.command_history(), data@, no_shadow));
        }
        Ok(())
    }

    /// Uploads a disk boot image against its fixed-capacity region, with
    /// no byte-order detection and no splitting.
    pub fn upload_ddipl(&mut self, data: &[u8]) -> (r: Result<(), Error>)
        ensures
            data@.len() > DDIPL_LENGTH ==> r == Err::<(), Error>(Error::Domain),
            r is Ok ==> data@.len() <= DDIPL_LENGTH && final(self).command_history() == old(
                self,
            ).command_history().push(CommandModel::MemoryWrite(DDIPL_ADDRESS, data@)),
    {
        if data.len() > DDIPL_LENGTH {
            return Err(Error::Domain);
        }
        self.command_memory_write(DDIPL_ADDRESS, data)
    }

    /// Uploads save data to the region of the currently enabled save type.
    /// No enabled save type, or data that does not match that type's exact
    /// length, is a domain error.
    pub fn upload_save(&mut self, data: &[u8]) -> (r: Result<(), Error>)
        ensures
            r is Ok ==> exists|t: SaveType|
                t != SaveType::NoSave && data@.len() == spec_save_type_length(t)
                    && final(self).command_history() == old(self).command_history().push(
                    CommandModel::ConfigGet(Config::SaveType(t)),
                ).push(CommandModel::MemoryWrite(#[trigger] spec_save_type_address(t), data@)),
            r is Err ==> final(self).command_history() == old(self).command_history() || exists|
                t: SaveType,
            |
                final(self).command_history() == #[trigger] spec_logged(
                    old(self).command_history(),
                    CommandModel::ConfigGet(Config::SaveType(t)),
                ),
    {
        let ghost h0 = self.command_history();
        let save_type = match self.command_config_get(ConfigId::SaveType)? {
            Config::SaveType(s) => s,
            _ => vstd::pervasive::unreached(),
        };
        proof {
            assert(self.command_history() == spec_logged(
                h0,
                CommandModel::ConfigGet(Config::SaveType(save_type)),
            ));
        }
        if matches!(save_type, SaveType::NoSave) {
            return Err(Error::Domain);
        }
        let address = save_type_address(save_type);
        let length = save_type_length(save_type);
        if data.len() != length {
            return Err(Error::Domain);
        }
        let result = self.command_memory_write(address, data);
        proof {
            assert(spec_save_type_address(save_type) == address);
        }
        result
    }

    /// Reads an arbitrary memory range; a range past the total addressable
    /// length is a domain error, raised before the read.
    pub fn dump_memory(&mut self, address: u32, length: usize) -> (r: Result<Vec<u8>, Error>)
        ensures
            address + length > MEMORY_LENGTH ==> r == Err::<Vec<u8>, Error>(Error::Domain)
                && final(self).command_history() == old(self).command_history(),
            r is Ok ==> address + length <= MEMORY_LENGTH,
            r matches Ok(v) ==> final(self).command_history() == old(
                self,
            ).command_history().push(CommandModel::MemoryRead(address, length as u32, v@)),
    {
        if length > MEMORY_LENGTH || address as u64 + length as u64 > MEMORY_LENGTH as u64 {
            return Err(Error::Domain);
        }
        self.command_memory_read(address, length)
    }

    /// Reads the boot-code region at the address the current boot mode
    /// selects, delegates seed and checksum to the boot-code collaborator,
    /// and pushes the parameters to the device.
    pub fn calculate_cic_parameters<C: Cic>(&mut self, cic: &C) -> (r: Result<(), Error>)
        ensures
            r is Ok ==> exists|m: BootMode, boot_code: Seq<u8>, seed: u8, checksum: Seq<u8>|
                #[trigger] spec_cic_traffic(
                    old(self).command_history(),
                    final(self).command_history(),
                    m,
                    boot_code,
                    seed,
                    checksum,
                ),
    {
        let ghost h0 = self.command_history();
        let boot_mode = match self.command_config_get(ConfigId::BootMode)? {
            Config::BootMode(m) => m,
            _ => vstd::pervasive::unreached(),
        };
        let address = boot_code_address(boot_mode);
        let boot_code = self.command_memory_read(address + BOOT_CODE_OFFSET, BOOT_CODE_LENGTH)?;
        let seed = cic.guess_seed(boot_code.as_slice())?;
        let checksum = cic.checksum(boot_code.as_slice(), seed)?;
        let result = self.command_cic_params_set(false, seed, &checksum);
        proof {
            if result is Ok {
                assert(spec_cic_traffic(
                    h0,
                    self.command_history(),
                    boot_mode,
                    boot_code@,
                    seed,
                    checksum@,
                ));
            }
        }
        result
    }

    pub fn set_boot_mode(&mut self, boot_mode: BootMode) -> (r: Result<(), Error>)
        ensures
            r is Ok ==> final(self).command_history() == old(self).command_history().push(
                CommandModel::ConfigSet(Config::BootMode(boot_mode)),
            ),
            r is Err ==> final(self).command_history() == old(self).command_history(),
    {
        self.command_config_set(Config::BootMode(boot_mode))
    }

    pub fn set_save_type(&mut self, save_type: SaveType) -> (r: Result<(), Error>)
        ensures
            r is Ok ==> final(self).command_history() == old(self).command_history().push(
                CommandModel::ConfigSet(Config::SaveType(save_type)),
            ),
            r is Err ==> final(self).command_history() == old(self).command_history(),
    {
        self.command_config_set(Config::SaveType(save_type))
    }

    pub fn set_tv_type(&mut self, tv_type: TvType) -> (r: Result<(), Error>)
        ensures
            r is Ok ==> final(self).command_history() == old(self).command_history().push(
                CommandModel::ConfigSet(Config::TvType(tv_type)),
            ),
            r is Err ==> final(self).command_history() == old(self).command_history(),
    {
        self.command_config_set(Config::TvType(tv_type))
    }

    pub fn get_datetime(&mut self) -> (r: Result<DateTime, Error>)
        ensures
            r matches Ok(d) ==> crate::datetime::spec_datetime_valid(d) && final(self).command_history() == old(self).command_history().push(CommandModel::TimeGet(d)),
            r is Err ==> final(self).command_history() == old(self).command_history(),
    {
        self.command_time_get()
    }

    pub fn set_datetime(&mut self, datetime: &DateTime) -> (r: Result<(), Error>)
        ensures
            r is Ok ==> final(self).command_history() == old(self).command_history().push(
                CommandModel::TimeSet(*datetime),
            ),
            r is Err ==> final(self).command_history() == old(self).command_history(),
    {
        self.command_time_set(datetime)
    }

    pub fn set_led_blink(&mut self, enabled: bool) -> (r: Result<(), Error>)
        ensures
            r is Ok ==> final(self).command_history() == old(self).command_history().push(
                CommandModel::SettingSet(Setting::LedEnable(enabled)),
            ),
            r is Err ==> final(self).command_history() == old(self).command_history(),
    {
        self.command_setting_set(Setting::LedEnable(enabled))
    }

    /// Snapshots the whole device state, one get per field.
    pub fn get_device_state(&mut self) -> (r: Result<DeviceState, Error>)
        ensures
            r matches Ok(state) ==> final(self).command_history() == old(
                self,
            ).command_history().push(
                CommandModel::ConfigGet(Config::BootloaderSwitch(state.bootloader_switch)),
            ).push(CommandModel::ConfigGet(Config::RomWriteEnable(state.rom_write_enable))).push(
                CommandModel::ConfigGet(Config::RomShadowEnable(state.rom_shadow_enable)),
            ).push(CommandModel::ConfigGet(Config::DdMode(state.dd_mode))).push(
                CommandModel::ConfigGet(Config::IsvAddress(state.isv_address)),
            ).push(CommandModel::ConfigGet(Config::BootMode(state.boot_mode))).push(
                CommandModel::ConfigGet(Config::SaveType(state.save_type)),
            ).push(CommandModel::ConfigGet(Config::CicSeed(state.cic_seed))).push(
                CommandModel::ConfigGet(Config::TvType(state.tv_type)),
            ).push(CommandModel::ConfigGet(Config::DdSdEnable(state.dd_sd_enable))).push(
                CommandModel::ConfigGet(Config::DdDriveType(state.dd_drive_type)),
            ).push(CommandModel::ConfigGet(Config::DdDiskState(state.dd_disk_state))).push(
                CommandModel::ConfigGet(Config::ButtonState(state.button_state)),
            ).push(CommandModel::ConfigGet(Config::ButtonMode(state.button_mode))).push(
                CommandModel::ConfigGet(Config::RomExtendedEnable(state.rom_extended_enable)),
            ).push(CommandModel::SettingGet(Setting::LedEnable(state.led_enable))).push(
                CommandModel::TimeGet(state.datetime),
            ),
    {
        let bootloader_switch = match self.command_config_get(ConfigId::BootloaderSwitch)? {
            Config::BootloaderSwitch(v) => v,
            _ => vstd::pervasive::unreached(),
        };
        let rom_write_enable = match self.command_config_get(ConfigId::RomWriteEnable)? {
            Config::RomWriteEnable(v) => v,
            _ => vstd::pervasive::unreached(),
        };
        let rom_shadow_enable = match self.command_config_get(ConfigId::RomShadowEnable)? {
            Config::RomShadowEnable(v) => v,
            _ => vstd::pervasive::unreached(),
        };
        let dd_mode = match self.command_config_get(ConfigId::DdMode)? {
            Config::DdMode(v) => v,
            _ => vstd::pervasive::unreached(),
        };
        let isv_address = match self.command_config_get(ConfigId::IsvAddress)? {
            Config::IsvAddress(v) => v,
            _ => vstd::pervasive::unreached(),
        };
        let boot_mode = match self.command_config_get(ConfigId::BootMode)? {
            Config::BootMode(v) => v,
            _ => vstd::pervasive::unreached(),
        };
        let save_type = match self.command_config_get(ConfigId::SaveType)? {
            Config::SaveType(v) => v,
            _ => vstd::pervasive::unreached(),
        };
        let cic_seed = match self.command_config_get(ConfigId::CicSeed)? {
            Config::CicSeed(v) => v,
            _ => vstd::pervasive::unreached(),
        };
        let tv_type = match self.command_config_get(ConfigId::TvType)? {
            Config::TvType(v) => v,
            _ => vstd::pervasive::unreached(),
        };
        let dd_sd_enable = match self.command_config_get(ConfigId::DdSdEnable)? {
            Config::DdSdEnable(v) => v,
            _ => vstd::pervasive::unreached(),
        };
        let dd_drive_type = match self.command_config_get(ConfigId::DdDriveType)? {
            Config::DdDriveType(v) => v,
            _ => vstd::pervasive::unreached(),
        };
        let dd_disk_state = match self.command_config_get(ConfigId::DdDiskState)? {
            Config::DdDiskState(v) => v,
            _ => vstd::pervasive::unreached(),
        };
        let button_state = match self.command_config_get(ConfigId::ButtonState)? {
            Config::ButtonState(v) => v,
            _ => vstd::pervasive::unreached(),
        };
        let button_mode = match self.command_config_get(ConfigId::ButtonMode)? {
            Config::ButtonMode(v) => v,
            _ => vstd::pervasive::unreached(),
        };
        let rom_extended_enable = match self.command_config_get(ConfigId::RomExtendedEnable)? {
            Config::RomExtendedEnable(v) => v,
            _ => vstd::pervasive::unreached(),
        };
        let led_enable = match self.command_setting_get(SettingId::LedEnable)? {
            Setting::LedEnable(v) => v,
        };
        let datetime = self.get_datetime()?;
        Ok(
            DeviceState {
                bootloader_switch,
                rom_write_enable,
                rom_shadow_enable,
                dd_mode,
                isv_address,
                boot_mode,
                save_type,
                cic_seed,
                tv_type,
                dd_sd_enable,
                dd_drive_type,
                dd_disk_state,
                button_state,
                button_mode,
                rom_extended_enable,
                led_enable,
                datetime,
            },
        )
    }

    /// Configures the 64DD emulation mode and drive type, disabling the SD
    /// passthrough and ejecting the disk.
    pub fn configure_64dd(&mut self, dd_mode: DdMode, drive_type: DdDriveType) -> (r: Result<
        (),
        Error,
    >)
        ensures
            r is Ok ==> final(self).command_history() == old(self).command_history().push(
                CommandModel::ConfigSet(Config::DdMode(dd_mode)),
            ).push(CommandModel::ConfigSet(Config::DdSdEnable(false))).push(
                CommandModel::ConfigSet(Config::DdDriveType(drive_type)),
            ).push(CommandModel::ConfigSet(Config::DdDiskState(DdDiskState::Ejected))),
    {
        self.command_config_set(Config::DdMode(dd_mode))?;
        self.command_config_set(Config::DdSdEnable(false))?;
        self.command_config_set(Config::DdDriveType(drive_type))?;
        self.command_config_set(Config::DdDiskState(DdDiskState::Ejected))?;
        Ok(())
    }

    pub fn set_64dd_disk_state(&mut self, disk_state: DdDiskState) -> (r: Result<(), Error>)
        ensures
            r is Ok ==> final(self).command_history() == old(self).command_history().push(
                CommandModel::ConfigSet(Config::DdDiskState(disk_state)),
            ),
            r is Err ==> final(self).command_history() == old(self).command_history(),
    {
        self.command_config_set(Config::DdDiskState(disk_state))
    }

    /// Opens or closes the debug/log buffer window. An offset that would
    /// collide with the enabled ROM shadow window is a domain error.
    pub fn configure_isviewer64(&mut self, offset: Option<u32>) -> (r: Result<(), Error>)
        ensures
            offset is None ==> (r is Ok ==> final(self).command_history() == old(
                self,
            ).command_history().push(CommandModel::ConfigSet(Config::RomWriteEnable(false))).push(
                CommandModel::ConfigSet(Config::IsvAddress(0)),
            )),
            offset matches Some(off) ==> (r is Ok ==> exists|shadow: bool|
                !(shadow && off > SAVE_ADDRESS - ISV_BUFFER_LENGTH as u32) && final(self).command_history() == #[trigger] spec_logged(
                    old(self).command_history(),
                    CommandModel::ConfigGet(Config::RomShadowEnable(shadow)),
                ).push(CommandModel::ConfigSet(Config::RomWriteEnable(true))).push(
                    CommandModel::ConfigSet(Config::IsvAddress(off)),
                )),
            offset is Some ==> (r is Err ==> final(self).command_history() == old(
                self,
            ).command_history() || exists|shadow: bool|
                {
                    ||| final(self).command_history() == #[trigger] spec_logged(
                        old(self).command_history(),
                        CommandModel::ConfigGet(Config::RomShadowEnable(shadow)),
                    )
                    ||| final(self).command_history() == spec_logged(
                        old(self).command_history(),
                        CommandModel::ConfigGet(Config::RomShadowEnable(shadow)),
                    ).push(CommandModel::ConfigSet(Config::RomWriteEnable(true)))
                }),
    {
        let ghost h0 = self.command_history();
        match offset {
            Some(off) => {
                let shadow_enabled = match self.command_config_get(ConfigId::RomShadowEnable)? {
                    Config::RomShadowEnable(v) => v,
                    _ => vstd::pervasive::unreached(),
                };
                proof {
                    assert(self.command_history() == spec_logged(
                        h0,
                        CommandModel::ConfigGet(Config::RomShadowEnable(shadow_enabled)),
                    ));
                }
                if shadow_enabled && off > SAVE_ADDRESS - ISV_BUFFER_LENGTH as u32 {
                    return Err(Error::Domain);
                }
                self.command_config_set(Config::RomWriteEnable(true))?;
                self.command_config_set(Config::IsvAddress(off))?;
            },
            None => {
                self.command_config_set(Config::RomWriteEnable(false))?;
                self.command_config_set(Config::IsvAddress(0))?;
            },
        }
        Ok(())
    }

    /// Polls for one inbound packet and decodes it.
    pub fn receive_data_packet(&mut self) -> (r: Result<Option<DataPacket>, Error>)
        ensures
            final(self).command_history() == old(self).command_history(),
    {
        match self.link.receive_packet()? {
            Some(packet) => Ok(Some(packet_decode(&packet)?)),
            None => Ok(None),
        }
    }

    /// Answers a 64DD disk-block request: writes the provided block back
    /// and reports readiness, or reports an error when there is no block.
    pub fn reply_disk_packet(&mut self, disk_packet: Option<DiskPacket>) -> (r: Result<(), Error>)
        ensures
            disk_packet matches Some(DiskPacket::ReadBlock(b)) ==> (r is Ok
                ==> final(self).command_history() == old(self).command_history().push(
                CommandModel::MemoryWrite(b.address, b.data@),
            ).push(CommandModel::DdBlockReady(false))),
            disk_packet matches Some(DiskPacket::WriteBlock(b)) ==> (r is Ok
                ==> final(self).command_history() == old(self).command_history().push(
                CommandModel::DdBlockReady(false),
            )),
            disk_packet is None ==> (r is Ok ==> final(self).command_history() == old(
                self,
            ).command_history().push(CommandModel::DdBlockReady(true))),
    {
        match disk_packet {
            Some(DiskPacket::ReadBlock(block)) => {
                if block.data.len() > 0xFFFF_FFFF {
                    return Err(Error::Domain);
                }
                self.command_memory_write(block.address, block.data.as_slice())?;
                self.command_dd_set_block_ready(false)
            },
            Some(DiskPacket::WriteBlock(_)) => self.command_dd_set_block_ready(false),
            None => self.command_dd_set_block_ready(true),
        }
    }

    pub fn send_debug_packet(&mut self, debug_packet: &DebugPacket) -> (r: Result<(), Error>)
        ensures
            r is Ok ==> final(self).command_history() == old(self).command_history().push(
                CommandModel::UsbWrite(debug_packet.datatype, debug_packet.data@),
            ),
            r is Err ==> final(self).command_history() == old(self).command_history(),
    {
        if debug_packet.data.len() > 0xFFFF_FFFF {
            return Err(Error::Domain);
        }
        self.command_usb_write(debug_packet.datatype, debug_packet.data.as_slice())
    }

    /// Backs the running firmware up: resets state, asks the device to
    /// stage its firmware, and reads the staged bytes back. A non-Ok
    /// status is fatal and reported as the device's failure.
    pub fn backup_firmware(&mut self) -> (r: Result<Vec<u8>, Error>)
        ensures
            r matches Ok(v) ==> exists|length: u32|
                final(self).command_history() == #[trigger] spec_read_history(
                    old(self).command_history().push(CommandModel::StateReset).push(
                        CommandModel::FirmwareBackup(
                            FIRMWARE_ADDRESS,
                            FirmwareStatus::Success,
                            length,
                        ),
                    ),
                    FIRMWARE_ADDRESS,
                    length,
                    v@,
                ),
            r is Err ==> {
                ||| final(self).command_history() == old(self).command_history()
                ||| final(self).command_history() == old(self).command_history().push(
                    CommandModel::StateReset,
                )
                ||| exists|st: FirmwareStatus, length: u32|
                    final(self).command_history() == #[trigger] spec_logged(
                        old(self).command_history().push(CommandModel::StateReset),
                        CommandModel::FirmwareBackup(FIRMWARE_ADDRESS, st, length),
                    )
            },
    {
        let ghost h0 = self.command_history();
        self.command_state_reset()?;
        let (status, length) = self.command_firmware_backup(FIRMWARE_ADDRESS)?;
        proof {
            assert(self.command_history() == spec_logged(
                h0.push(CommandModel::StateReset),
                CommandModel::FirmwareBackup(FIRMWARE_ADDRESS, status, length),
            ));
        }
        if !matches!(status, FirmwareStatus::Success) {
            return Err(Error::Device(status));
        }
        match self.command_memory_read(FIRMWARE_ADDRESS, length as usize) {
            Ok(v) => {
                proof {
                    assert(self.command_history() == spec_read_history(
                        h0.push(CommandModel::StateReset).push(
                            CommandModel::FirmwareBackup(
                                FIRMWARE_ADDRESS,
                                FirmwareStatus::Success,
                                length,
                            ),
                        ),
                        FIRMWARE_ADDRESS,
                        length,
                        v@,
                    ));
                }
                Ok(v)
            },
            Err(e) => Err(e),
        }
    }

    /// Updates the firmware: stages the image, issues the update command,
    /// and polls asynchronous status reports to completion. A non-Ok
    /// immediate status aborts as a verify failure; an Err report fails
    /// naming the last observed step; silence past the deadline times out.
    /// On Done the driver waits the settle delay before reporting success.
    pub fn update_firmware(&mut self, data: &[u8]) -> (r: Result<(), Error>)
        requires
            FIRMWARE_ADDRESS + data@.len() <= SDRAM_LENGTH,
        ensures
            r is Ok ==> final(self).command_history() == old(self).command_history().push(
                CommandModel::StateReset,
            ).push(CommandModel::MemoryWrite(FIRMWARE_ADDRESS, data@)).push(
                CommandModel::FirmwareUpdate(
                    FIRMWARE_ADDRESS,
                    data@.len() as u32,
                    FirmwareStatus::Success,
                ),
            ),
            r is Err ==> {
                ||| final(self).command_history() == old(self).command_history()
                ||| final(self).command_history() == old(self).command_history().push(
                    CommandModel::StateReset,
                )
                ||| final(self).command_history() == old(self).command_history().push(
                    CommandModel::StateReset,
                ).push(CommandModel::MemoryWrite(FIRMWARE_ADDRESS, data@))
                ||| exists|st: FirmwareStatus|
                    final(self).command_history() == #[trigger] spec_logged(
                        old(self).command_history().push(CommandModel::StateReset).push(
                            CommandModel::MemoryWrite(FIRMWARE_ADDRESS, data@),
                        ),
                        CommandModel::FirmwareUpdate(FIRMWARE_ADDRESS, data@.len() as u32, st),
                    )
            },
    {
        let ghost h0 = self.command_history();
        self.command_state_reset()?;
        self.command_memory_write(FIRMWARE_ADDRESS, data)?;
        let status = self.command_firmware_update(FIRMWARE_ADDRESS, data.len())?;
        proof {
            assert(self.command_history() == spec_logged(
                h0.push(CommandModel::StateReset).push(
                    CommandModel::MemoryWrite(FIRMWARE_ADDRESS, data@),
                ),
                CommandModel::FirmwareUpdate(FIRMWARE_ADDRESS, data@.len() as u32, status),
            ));
        }
        if !matches!(status, FirmwareStatus::Success) {
            return Err(Error::Device(status));
        }
        let start = self.link.clock_ms();
        let mut last = UpdateStatus::Fault;
        // Termination backstop: the transport pauses a millisecond between
        // polls, so this budget outlasts the wall-clock deadline; the
        // deadline itself is judged from the clock each iteration.
        let mut polls_left: u64 = FIRMWARE_UPDATE_TIMEOUT_MS + 1;
        while polls_left > 0
            invariant
                self.command_history() == spec_logged(
                    old(self).command_history().push(CommandModel::StateReset).push(
                        CommandModel::MemoryWrite(FIRMWARE_ADDRESS, data@),
                    ),
                    CommandModel::FirmwareUpdate(
                        FIRMWARE_ADDRESS,
                        data@.len() as u32,
                        FirmwareStatus::Success,
                    ),
                ),
            decreases polls_left,
        {
            polls_left = polls_left - 1;
            let packet = self.receive_data_packet()?;
            let now = self.link.clock_ms();
            let elapsed = if now >= start {
                now - start
            } else {
                0
            };
            match update_step(last, &packet, elapsed, FIRMWARE_UPDATE_TIMEOUT_MS) {
                UpdateOutcome::Running(step) => {
                    last = step;
                    self.link.pause_ms(UPDATE_POLL_PAUSE_MS);
                },
                UpdateOutcome::Finished => {
                    self.link.pause_ms(UPDATE_SETTLE_MS);
                    return Ok(());
                },
                UpdateOutcome::Faulted(step) => {
                    return Err(Error::UpdateFault(step));
                },
                UpdateOutcome::TimedOut => {
                    return Err(Error::Timeout);
                },
            }
        }
        Err(Error::Timeout)
    }
}

/// Builds a handle over an already-open transport and performs the
/// identifier handshake: anything but the fixed 4-byte identifier is a
/// domain error. A returned handle has seen exactly one exchange, the
/// identifier query, and its reply was the fixed identifier.
pub fn new<L: Link>(link: L) -> (r: Result<SC64<L>, Error>)
    ensures
        r matches Ok(d) ==> d.command_history() == seq![
            CommandModel::IdentifierGet(seq![0x53u8, 0x43u8, 0x76u8, 0x32u8]),
        ],
{
    let mut sc64 = SC64 { link, history: Ghost(Seq::empty()) };
    let identifier = sc64.command_identifier_get()?;
    if identifier.len() != 4 || identifier[0] != 0x53 || identifier[1] != 0x43 || identifier[2]
        != 0x76 || identifier[3] != 0x32 {
        return Err(Error::Domain);
    }
    proof {
        assert(identifier@ =~= seq![0x53u8, 0x43u8, 0x76u8, 0x32u8]);
        assert(sc64.command_history() =~= seq![
            CommandModel::IdentifierGet(seq![0x53u8, 0x43u8, 0x76u8, 0x32u8]),
        ]);
    }
    Ok(sc64)
}

} // verus!
