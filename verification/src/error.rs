//! The single error taxonomy of the driver. Every fallible operation reports
//! the first failure it meets; nothing is retried locally.

use vstd::prelude::*;
use crate::types::{FirmwareStatus, UpdateStatus};

verus! {

/// Why an operation failed, distinguished by cause.
#[derive(Debug, Clone, Copy, PartialEq, Eq, Structural)]
pub enum Error {
    /// The transport could not carry the command or its reply.
    Transport,
    /// A reply to the command with this opcode was malformed or undersized.
    Protocol(u8),
    /// A value lay outside a variant's legal domain, or a length exceeded a
    /// fixed region capacity.
    Domain,
    /// The device reported a non-Ok status for a firmware operation.
    Device(FirmwareStatus),
    /// The firmware update failed; carries the last in-progress step observed.
    UpdateFault(UpdateStatus),
    /// A wait exceeded its deadline.
    Timeout,
}

impl Error {
    /// A short fixed description of the failure cause, for callers that
    /// render messages.
    pub fn describe(&self) -> (r: &'static str)
        ensures
            r@.len() > 0,
    {
        let r = match self {
            Error::Transport => "transport failure",
            Error::Protocol(_) => "malformed or undersized command reply",
            Error::Domain => "value or length outside its legal domain",
            Error::Device(_) => "device reported a failure status",
            Error::UpdateFault(_) => "firmware update failed",
            Error::Timeout => "wait exceeded its deadline",
        };
        proof {
            reveal_strlit("transport failure");
            reveal_strlit("malformed or undersized command reply");
            reveal_strlit("value or length outside its legal domain");
            reveal_strlit("device reported a failure status");
            reveal_strlit("firmware update failed");
            reveal_strlit("wait exceeded its deadline");
        }
        r
    }
}

} // verus!
