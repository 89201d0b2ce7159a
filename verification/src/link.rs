//! The capabilities the driver is handed: a transport that carries one
//! command at a time and polls for unsolicited packets, and the boot-code
//! arithmetic collaborator. Both are injected, so a scripted in-memory
//! transport can drive the whole command layer.

use vstd::prelude::*;
use crate::config::{Config, Setting};
use crate::datetime::DateTime;
use crate::error::Error;
use crate::packet::Packet;
use crate::types::FirmwareStatus;

verus! {

/// The ghost model of one completed command exchange: what the driver sent
/// and, for commands whose reply it accepted, what came back in decoded
/// form. The device handle records every exchange it completes, so a
/// contract can pin an operation's exact wire traffic.
pub enum CommandModel {
    /// The identifier handshake; carries the reply bytes.
    IdentifierGet(Seq<u8>),
    /// The version query; carries the decoded major and minor version.
    VersionGet(u16, u16),
    StateReset,
    /// Boot-code parameters: disable flag, seed, 6-byte checksum.
    CicParamsSet(bool, u8, Seq<u8>),
    /// A configuration read whose reply decoded to this variant.
    ConfigGet(Config),
    ConfigSet(Config),
    /// A setting read whose reply decoded to this variant.
    SettingGet(Setting),
    SettingSet(Setting),
    /// A clock read whose reply decoded to this timestamp.
    TimeGet(DateTime),
    TimeSet(DateTime),
    /// A read-back of device memory: address, length, and the bytes the
    /// device returned.
    MemoryRead(u32, u32, Seq<u8>),
    /// A bulk write: address and payload.
    MemoryWrite(u32, Seq<u8>),
    /// A debug payload sent out: datatype and payload.
    UsbWrite(u8, Seq<u8>),
    /// A disk-block-ready report; carries the error flag.
    DdBlockReady(bool),
    /// A busy poll; carries the wait flag and the erase-block size the
    /// device reported.
    FlashWaitBusy(bool, u32),
    /// One block erase at an address.
    FlashEraseBlock(u32),
    /// A firmware backup request: staging address, decoded status, length.
    FirmwareBackup(u32, FirmwareStatus, u32),
    /// A firmware update request: staging address, length, decoded status.
    FirmwareUpdate(u32, u32, FirmwareStatus),
}

/// The history `h0` extended by one completed exchange.
pub open spec fn spec_logged(h0: Seq<CommandModel>, entry: CommandModel) -> Seq<CommandModel> {
    h0.push(entry)
}

/// One encoded command: a 1-byte opcode, two 32-bit arguments and an
/// optional outbound payload.
#[derive(Debug, Clone, PartialEq, Eq)]
pub struct Command {
    pub id: u8,
    pub arg0: u32,
    pub arg1: u32,
    pub data: Vec<u8>,
}

/// Default timeout of a USB debug write.
pub const COMMAND_USB_WRITE_TIMEOUT_MS: u64 = 5 * 1000;

/// Timeout of firmware-class commands, which make the device do real
/// flashing work before replying.
pub const FIRMWARE_COMMAND_TIMEOUT_MS: u64 = 30 * 1000;

/// The transport the driver talks through. Nothing is assumed of it: every
/// reply is validated by the caller, and the driver's contracts hold
/// whatever comes back. The transport also supplies the wall clock and the
/// pauses of the firmware-update poll loop, so a scripted transport drives
/// that loop deterministically.
pub trait Link {
    /// Sends one command with the default short timeout and blocks for its
    /// reply payload.
    fn execute_command(&mut self, command: &Command) -> Result<Vec<u8>, Error>;

    /// Sends one command with an explicit timeout. `no_response` returns
    /// without awaiting a reply payload; `ignore_error` hands back an
    /// error-flagged reply instead of failing.
    fn execute_command_raw(
        &mut self,
        command: &Command,
        timeout_ms: u64,
        no_response: bool,
        ignore_error: bool,
    ) -> Result<Vec<u8>, Error>;

    /// Polls for one unsolicited inbound packet without blocking.
    fn receive_packet(&mut self) -> Result<Option<Packet>, Error>;

    /// A wall-clock reading in milliseconds, monotone over one session.
    fn clock_ms(&mut self) -> u64;

    /// Pauses the calling thread for about the given time.
    fn pause_ms(&mut self, ms: u64);
}

/// The boot-code arithmetic collaborator: guesses a seed byte from the
/// boot-code region and computes the 6-byte boot-code checksum.
pub trait Cic {
    /// Guesses the seed byte of the given boot-code region.
    fn guess_seed(&self, boot_code: &[u8]) -> Result<u8, Error>;

    /// Computes the 6-byte checksum of the boot-code region under a seed.
    fn checksum(&self, boot_code: &[u8], seed: u8) -> Result<[u8; 6], Error>;
}

} // verus!
