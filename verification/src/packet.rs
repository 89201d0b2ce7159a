//! Asynchronous inbound packets: the raw framed form handed over by the
//! transport, the typed unions they decode into, and the outbound debug
//! payload.

use vstd::prelude::*;
use crate::bytes::{be_u32, u32_from_vec};
use crate::error::Error;
use crate::types::{spec_update_status_decode, update_status_decode, UpdateStatus};

verus! {

/// One raw unsolicited packet as the transport delivers it: an identifier
/// byte and its payload.
#[derive(Debug, Clone, PartialEq, Eq)]
pub struct Packet {
    pub id: u8,
    pub data: Vec<u8>,
}

/// An arbitrary typed debug payload exchanged with the device.
#[derive(Debug, Clone, PartialEq, Eq)]
pub struct DebugPacket {
    pub datatype: u8,
    pub data: Vec<u8>,
}

/// One 64DD disk block named by a device request.
#[derive(Debug, Clone, PartialEq, Eq)]
pub struct DiskBlock {
    pub address: u32,
    pub data: Vec<u8>,
}

/// A 64DD disk-block request from the device.
#[derive(Debug, Clone, PartialEq, Eq)]
pub enum DiskPacket {
    /// The device asks the host to provide this block.
    ReadBlock(DiskBlock),
    /// The device hands the host this block's new content.
    WriteBlock(DiskBlock),
}

/// A decoded asynchronous inbound message.
#[derive(Debug, Clone, PartialEq, Eq)]
pub enum DataPacket {
    /// Progress report of a device-side firmware update.
    UpdateStatus(UpdateStatus),
    /// A 64DD disk-block request.
    Disk(DiskPacket),
    /// A typed debug payload.
    Debug(DebugPacket),
}

/// The mathematical shape of a decoded message: payload bytes as sequences.
pub enum DataPacketModel {
    UpdateStatus(UpdateStatus),
    DiskRead(u32, Seq<u8>),
    DiskWrite(u32, Seq<u8>),
    Debug(u8, Seq<u8>),
}

/// The model of a typed message.
pub open spec fn spec_data_packet(d: DataPacket) -> DataPacketModel {
    match d {
        DataPacket::UpdateStatus(s) => DataPacketModel::UpdateStatus(s),
        DataPacket::Disk(DiskPacket::ReadBlock(b)) => DataPacketModel::DiskRead(b.address, b.data@),
        DataPacket::Disk(DiskPacket::WriteBlock(b)) => DataPacketModel::DiskWrite(
            b.address,
            b.data@,
        ),
        DataPacket::Debug(p) => DataPacketModel::Debug(p.datatype, p.data@),
    }
}

/// Packet identifier of firmware update status reports.
pub const PACKET_ID_UPDATE: u8 = 0x46;

/// Packet identifier of 64DD disk-block requests.
pub const PACKET_ID_DISK: u8 = 0x44;

/// Packet identifier of debug payloads.
pub const PACKET_ID_DEBUG: u8 = 0x55;

/// How a raw packet decodes. An update packet carries one 32-bit status
/// code; a disk packet carries a 32-bit direction word, a 32-bit block
/// address and the block bytes; a debug packet carries a type byte and the
/// payload. An unknown identifier or an undersized payload is a protocol
/// failure naming that identifier.
pub open spec fn spec_packet_decode(id: u8, data: Seq<u8>) -> Result<DataPacketModel, Error> {
    if id == PACKET_ID_UPDATE {
        if data.len() >= 4 {
            match spec_update_status_decode(be_u32(data) as u32) {
                Ok(s) => Ok(DataPacketModel::UpdateStatus(s)),
                Err(e) => Err(e),
            }
        } else {
            Err(Error::Protocol(id))
        }
    } else if id == PACKET_ID_DISK {
        if data.len() >= 8 {
            let direction = be_u32(data);
            let address = be_u32(data.skip(4)) as u32;
            if direction == 0 {
                Ok(DataPacketModel::DiskRead(address, data.skip(8)))
            } else if direction == 1 {
                Ok(DataPacketModel::DiskWrite(address, data.skip(8)))
            } else {
                Err(Error::Protocol(id))
            }
        } else {
            Err(Error::Protocol(id))
        }
    } else if id == PACKET_ID_DEBUG {
        if data.len() >= 1 {
            Ok(DataPacketModel::Debug(data[0], data.skip(1)))
        } else {
            Err(Error::Protocol(id))
        }
    } else {
        Err(Error::Protocol(id))
    }
}

/// Decodes one raw inbound packet into its typed message.
pub fn packet_decode(p: &Packet) -> (r: Result<DataPacket, Error>)
    ensures
        ({
            let s = spec_packet_decode(p.id, p.data@);
            match r {
                Ok(d) => s == Ok::<DataPacketModel, Error>(spec_data_packet(d)),
                Err(e) => s == Err::<DataPacketModel, Error>(e),
            }
        }),
{
    if p.id == PACKET_ID_UPDATE {
        if p.data.len() >= 4 {
            let code = match u32_from_vec(p.data.as_slice()) {
                Some(v) => v,
                None => {
                    return Err(Error::Protocol(p.id));
                },
            };
            match update_status_decode(code) {
                Ok(s) => Ok(DataPacket::UpdateStatus(s)),
                Err(e) => Err(e),
            }
        } else {
            Err(Error::Protocol(p.id))
        }
    } else if p.id == PACKET_ID_DISK {
        if p.data.len() >= 8 {
            let direction = match u32_from_vec(p.data.as_slice()) {
                Some(v) => v,
                None => {
                    return Err(Error::Protocol(p.id));
                },
            };
            let tail = vstd::slice::slice_subrange(p.data.as_slice(), 4, p.data.len());
            let address = match u32_from_vec(tail) {
                Some(v) => v,
                None => {
                    return Err(Error::Protocol(p.id));
                },
            };
            let body = vstd::slice::slice_to_vec(
                vstd::slice::slice_subrange(p.data.as_slice(), 8, p.data.len()),
            );
            proof {
                assert(tail@ == p.data@.skip(4));
                assert(body@ == p.data@.skip(8));
            }
            let block = DiskBlock { address, data: body };
            if direction == 0 {
                Ok(DataPacket::Disk(DiskPacket::ReadBlock(block)))
            } else if direction == 1 {
                Ok(DataPacket::Disk(DiskPacket::WriteBlock(block)))
            } else {
                Err(Error::Protocol(p.id))
            }
        } else {
            Err(Error::Protocol(p.id))
        }
    } else if p.id == PACKET_ID_DEBUG {
        if p.data.len() >= 1 {
            let datatype = p.data[0];
            let body = vstd::slice::slice_to_vec(
                vstd::slice::slice_subrange(p.data.as_slice(), 1, p.data.len()),
            );
            proof {
                assert(body@ == p.data@.skip(1));
            }
            Ok(DataPacket::Debug(DebugPacket { datatype, data: body }))
        } else {
            Err(Error::Protocol(p.id))
        }
    } else {
        Err(Error::Protocol(p.id))
    }
}

} // verus!
