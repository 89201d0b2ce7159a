//! Host-side driver core for the SC64 flash cartridge: the binary command
//! protocol, the typed configuration registry, the flash-programming engine,
//! image layout and byte-order handling, save-type classification, and the
//! firmware backup/update state machine.

pub use classify::guess_save_type;
pub use config::{Config, ConfigId, Setting, SettingId};
pub use datetime::DateTime;
pub use device::{new, DeviceState, SC64};
pub use error::Error;
pub use link::{Cic, Command, Link};
pub use packet::{DataPacket, DebugPacket, DiskBlock, DiskPacket, Packet};
pub use types::{
    BootMode, ButtonMode, CicSeed, DdDiskState, DdDriveType, DdMode, FirmwareStatus, SaveType,
    TvType, UpdateStatus,
};

pub mod bytes;
pub mod classify;
pub mod config;
pub mod datetime;
pub mod device;
pub mod error;
pub mod flash;
pub mod layout;
pub mod link;
pub mod packet;
pub mod types;
pub mod update;
