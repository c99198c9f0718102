//! The codec control bridge: access to the audio codec's control registers
//! through an operation register, a command-address register and two data
//! registers.
use crate::transfer::{get, put, Transfer};
use vstd::prelude::*;

verus! {

/// Operation register: reset, read phase or write phase, and enable bits.
pub const OPERATION: u16 = 0x500;

/// High (right channel) data byte.
pub const DATA_HI: u16 = 0x502;

/// Low (left channel) data byte.
pub const DATA_LO: u16 = 0x503;

/// Which codec control register the next operation touches.
pub const COMMAND_ADDRESS: u16 = 0x504;

/// Sample format register.
pub const FORMAT: u16 = 0x506;

/// Register after the format register, cleared at start-up.
pub const FORMAT_EXTRA: u16 = 0x507;

/// Enable the link and reset it, write phase.
pub const RESET_OP: u16 = 0x94;

/// Enable the link, write phase.
pub const WRITE_OP: u16 = 0x8c;

/// Enable the link, read phase.
pub const READ_OP: u16 = 0x8b;

/// Format value: 16-bit samples.
pub const SIXTEEN_BIT: u16 = 0x01;

/// The transfers that reset and enable the link and select 16-bit audio.
pub open spec fn enable_plan() -> Seq<Transfer> {
    seq![put(OPERATION, RESET_OP), put(OPERATION, WRITE_OP), put(FORMAT, SIXTEEN_BIT), put(FORMAT_EXTRA, 0)]
}

/// The transfers of a write of (`hi`, `lo`) to codec register `reg`.
pub open spec fn write_plan(reg: u8, hi: u8, lo: u8) -> Seq<Transfer> {
    seq![
        put(COMMAND_ADDRESS, reg as u16),
        put(DATA_HI, hi as u16),
        put(DATA_LO, lo as u16),
        put(OPERATION, WRITE_OP),
    ]
}

/// The transfers of a read of codec register `reg`; the last two fetch the
/// high and the low byte.
pub open spec fn read_plan(reg: u8) -> Seq<Transfer> {
    seq![put(COMMAND_ADDRESS, reg as u16), put(OPERATION, READ_OP), get(DATA_HI), get(DATA_LO)]
}

/// Lowers the link start-up to its control transfers.
pub fn enable_transfers() -> (r: Vec<Transfer>)
    ensures
        r@ == enable_plan(),
{
    let r = vec![
        Transfer::Write { index: OPERATION, value: RESET_OP },
        Transfer::Write { index: OPERATION, value: WRITE_OP },
        Transfer::Write { index: FORMAT, value: SIXTEEN_BIT },
        Transfer::Write { index: FORMAT_EXTRA, value: 0 },
    ];
    assert(r@ =~= enable_plan());
    r
}

/// Lowers a codec register write to its control transfers.
pub fn write_transfers(reg: u8, hi: u8, lo: u8) -> (r: Vec<Transfer>)
    ensures
        r@ == write_plan(reg, hi, lo),
{
    let r = vec![
        Transfer::Write { index: COMMAND_ADDRESS, value: reg as u16 },
        Transfer::Write { index: DATA_HI, value: hi as u16 },
        Transfer::Write { index: DATA_LO, value: lo as u16 },
        Transfer::Write { index: OPERATION, value: WRITE_OP },
    ];
    assert(r@ =~= write_plan(reg, hi, lo));
    r
}

/// Lowers a codec register read to its control transfers.
pub fn read_transfers(reg: u8) -> (r: Vec<Transfer>)
    ensures
        r@ == read_plan(reg),
{
    let r = vec![
        Transfer::Write { index: COMMAND_ADDRESS, value: reg as u16 },
        Transfer::Write { index: OPERATION, value: READ_OP },
        Transfer::Read { index: DATA_HI, selector: 0 },
        Transfer::Read { index: DATA_LO, selector: 0 },
    ];
    assert(r@ =~= read_plan(reg));
    r
}

} // verus!
