//! The control channel: one indexed, 16-bit valued register access.
use vstd::prelude::*;

verus! {

/// `bmRequestType` of a register write: vendor request, host to device.
pub const WRITE_REQUEST_TYPE: u8 = 0x40;

/// `bRequest` of a register write.
pub const WRITE_REQUEST: u8 = 1;

/// `bmRequestType` of a register read: vendor request, device to host.
pub const READ_REQUEST_TYPE: u8 = 0xc0;

/// `bRequest` of a register read.
pub const READ_REQUEST: u8 = 0;

/// Every transfer completes or fails within this many milliseconds.
pub const TIMEOUT_MS: u64 = 200;

/// Which way a transfer moves its payload.
#[derive(Clone, Copy, Debug, PartialEq, Eq, Structural)]
pub enum Direction {
    Write,
    Read,
}

/// Why a transfer failed.
#[derive(Clone, Copy, Debug, PartialEq, Eq, Structural)]
pub enum Fault {
    Timeout,
    Stall,
    Disconnected,
    Other,
}

/// A single transfer failed; nothing of it was applied.
#[derive(Clone, Copy, Debug, PartialEq, Eq, Structural)]
pub struct TransportError {
    pub address: u16,
    pub direction: Direction,
    pub cause: Fault,
}

/// One register access on the control channel.
///
/// A read carries a selector besides the address: the device uses it to tell
/// polling reads from plain ones (plain reads use 0).
#[derive(Clone, Copy, Debug, PartialEq, Eq, Structural)]
pub enum Transfer {
    Write { index: u16, value: u16 },
    Read { index: u16, selector: u16 },
}

/// What came back from one transfer: the byte read (a write carries no
/// payload, its `Ok` value is ignored), or the failure.
pub type Outcome = Result<u8, TransportError>;

/// A write of `value` to register `index`.
pub open spec fn put(index: u16, value: u16) -> Transfer {
    Transfer::Write { index, value }
}

/// A plain read of register `index`.
pub open spec fn get(index: u16) -> Transfer {
    Transfer::Read { index, selector: 0 }
}

impl Transfer {
    pub open spec fn address(self) -> u16 {
        match self {
            Transfer::Write { index, .. } => index,
            Transfer::Read { index, .. } => index,
        }
    }

    pub open spec fn way(self) -> Direction {
        match self {
            Transfer::Write { .. } => Direction::Write,
            Transfer::Read { .. } => Direction::Read,
        }
    }

    /// The register this transfer addresses.
    pub fn index(&self) -> (r: u16)
        ensures
            r == self.address(),
    {
        match self {
            Transfer::Write { index, .. } => *index,
            Transfer::Read { index, .. } => *index,
        }
    }

    /// Whether this transfer writes or reads.
    pub fn direction(&self) -> (r: Direction)
        ensures
            r == self.way(),
    {
        match self {
            Transfer::Write { .. } => Direction::Write,
            Transfer::Read { .. } => Direction::Read,
        }
    }

    /// The error that reports this transfer as failed for `cause`.
    pub fn failed(&self, cause: Fault) -> (e: TransportError)
        ensures
            e == (TransportError { address: self.address(), direction: self.way(), cause }),
    {
        TransportError { address: self.index(), direction: self.direction(), cause }
    }
}

} // verus!
