//! The serial bus bridge: indirect register access to chips on the device's
//! chip-to-chip bus, through five bridge registers.
use crate::transfer::{get, put, Direction, Outcome, Transfer, TransportError};
use vstd::prelude::*;

verus! {

/// Command register: a write of an opcode starts a bus operation.
pub const COMMAND: u16 = 0x200;

/// Status register, read once an operation was started.
pub const STATUS: u16 = 0x201;

/// Which chip on the bus the next operation targets.
pub const BUS_SELECT: u16 = 0x203;

/// Register of the chip that the next write targets.
pub const WRITE_ADDRESS: u16 = 0x204;

/// Byte that the next write stores.
pub const WRITE_DATA: u16 = 0x205;

/// Register of the chip that the next read targets.
pub const READ_ADDRESS: u16 = 0x208;

/// Byte that the last read fetched.
pub const READ_DATA: u16 = 0x209;

/// Opcode that starts a write.
pub const WRITE_OP: u16 = 0x05;

/// Opcode that starts a read.
pub const READ_OP: u16 = 0x20;

/// Why a bus transaction did not complete.
#[derive(Clone, Copy, Debug, PartialEq, Eq, Structural)]
pub enum BridgeError {
    /// The status read that follows the command failed on the transport.
    BusTransactionFailed(TransportError),
    /// Any other transfer of the transaction failed.
    Transport(TransportError),
}

/// The transfers of a write of `value` to register `reg` of chip `bus`.
pub open spec fn write_plan(bus: u8, reg: u8, value: u8) -> Seq<Transfer> {
    seq![
        put(BUS_SELECT, bus as u16),
        put(WRITE_ADDRESS, reg as u16),
        put(WRITE_DATA, value as u16),
        put(COMMAND, WRITE_OP),
        get(STATUS),
    ]
}

/// The transfers of a read of register `reg` of chip `bus`; the last one
/// fetches the byte.
pub open spec fn read_plan(bus: u8, reg: u8) -> Seq<Transfer> {
    seq![
        put(BUS_SELECT, bus as u16),
        put(READ_ADDRESS, reg as u16),
        put(COMMAND, READ_OP),
        get(STATUS),
        get(READ_DATA),
    ]
}

/// Lowers a bus write to its control transfers.
pub fn write_transfers(bus: u8, reg: u8, value: u8) -> (r: Vec<Transfer>)
    ensures
        r@ == write_plan(bus, reg, value),
{
    let r = vec![
        Transfer::Write { index: BUS_SELECT, value: bus as u16 },
        Transfer::Write { index: WRITE_ADDRESS, value: reg as u16 },
        Transfer::Write { index: WRITE_DATA, value: value as u16 },
        Transfer::Write { index: COMMAND, value: WRITE_OP },
        Transfer::Read { index: STATUS, selector: 0 },
    ];
    assert(r@ =~= write_plan(bus, reg, value));
    r
}

/// Lowers a bus read to its control transfers.
pub fn read_transfers(bus: u8, reg: u8) -> (r: Vec<Transfer>)
    ensures
        r@ == read_plan(bus, reg),
{
    let r = vec![
        Transfer::Write { index: BUS_SELECT, value: bus as u16 },
        Transfer::Write { index: READ_ADDRESS, value: reg as u16 },
        Transfer::Write { index: COMMAND, value: READ_OP },
        Transfer::Read { index: STATUS, selector: 0 },
        Transfer::Read { index: READ_DATA, selector: 0 },
    ];
    assert(r@ =~= read_plan(bus, reg));
    r
}

/// The error a failed transfer of a bus transaction surfaces as: a failed
/// status read is a failed bus transaction, anything else a transport error.
pub open spec fn failure_of(e: TransportError) -> BridgeError {
    if e.direction == Direction::Read && e.address == STATUS {
        BridgeError::BusTransactionFailed(e)
    } else {
        BridgeError::Transport(e)
    }
}

/// What a bus read returns, given the outcomes of its status read and of its
/// data read.
pub open spec fn read_outcome(status: Outcome, data: Outcome) -> Result<u8, BridgeError> {
    match status {
        Err(e) => Err(BridgeError::BusTransactionFailed(e)),
        Ok(_) => match data {
            Err(e) => Err(BridgeError::Transport(e)),
            Ok(v) => Ok(v),
        },
    }
}

/// Reports a failed transfer of a bus transaction.
pub fn classify(e: TransportError) -> (r: BridgeError)
    ensures
        r == failure_of(e),
{
    if e.direction == Direction::Read && e.address == STATUS {
        BridgeError::BusTransactionFailed(e)
    } else {
        BridgeError::Transport(e)
    }
}

/// The result of a bus read: the byte of the data register, or the failure.
/// A failed status read means the data read was never made.
pub fn read_result(status: Outcome, data: Outcome) -> (r: Result<u8, BridgeError>)
    ensures
        r == read_outcome(status, data),
{
    match status {
        Err(e) => Err(BridgeError::BusTransactionFailed(e)),
        Ok(_) => match data {
            Err(e) => Err(BridgeError::Transport(e)),
            Ok(v) => Ok(v),
        },
    }
}

/// A model of the bridge with chips that remember what is written to them: the
/// last value written to each bridge register, and each chip's registers,
/// keyed by (chip, register).
pub struct EchoBridge {
    pub regs: Map<u16, u16>,
    pub chips: Map<(u16, u16), u16>,
}

/// A register of the model; one never written reads as 0.
pub open spec fn reg_of(regs: Map<u16, u16>, i: u16) -> u16 {
    if regs.dom().contains(i) {
        regs[i]
    } else {
        0
    }
}

/// A chip register of the model; one never written reads as 0.
pub open spec fn cell_of(chips: Map<(u16, u16), u16>, k: (u16, u16)) -> u16 {
    if chips.dom().contains(k) {
        chips[k]
    } else {
        0
    }
}

/// One transfer against the model: the new model and the byte returned.
/// The write opcode stores the selected data byte in the selected chip
/// register; the read opcode latches that register into the data register.
pub open spec fn echo_step(d: EchoBridge, t: Transfer) -> (EchoBridge, u8) {
    match t {
        Transfer::Write { index, value } => {
            let regs = d.regs.insert(index, value);
            let bus = reg_of(d.regs, BUS_SELECT);
            if index == COMMAND && value == WRITE_OP {
                let key = (bus, reg_of(d.regs, WRITE_ADDRESS));
                (EchoBridge { regs, chips: d.chips.insert(key, reg_of(d.regs, WRITE_DATA)) }, 0)
            } else if index == COMMAND && value == READ_OP {
                let key = (bus, reg_of(d.regs, READ_ADDRESS));
                (EchoBridge { regs: regs.insert(READ_DATA, cell_of(d.chips, key)), chips: d.chips }, 0)
            } else {
                (EchoBridge { regs, chips: d.chips }, 0)
            }
        },
        Transfer::Read { index, .. } => (d, reg_of(d.regs, index) as u8),
    }
}

/// Runs transfers against the model: the final model and one outcome per
/// transfer (the model never fails).
pub open spec fn echo_run(d: EchoBridge, ts: Seq<Transfer>) -> (EchoBridge, Seq<Outcome>)
    decreases ts.len(),
{
    if ts.len() == 0 {
        (d, Seq::empty())
    } else {
        let before = echo_run(d, ts.drop_last());
        let after = echo_step(before.0, ts.last());
        (after.0, before.1.push(Ok(after.1)))
    }
}

/// A bus read that follows a bus write to the same register of the same chip
/// returns the byte written, on a bridge whose chips remember what is written.
pub proof fn lemma_write_then_read(d: EchoBridge, bus: u8, reg: u8, value: u8)
    ensures
        ({
            let outs = echo_run(d, write_plan(bus, reg, value) + read_plan(bus, reg)).1;
            &&& outs.len() == 10
            &&& read_outcome(outs[8], outs[9]) == Ok::<u8, BridgeError>(value)
        }),
{
    reveal_with_fuel(echo_run, 11);
    assert(((value as u16) as u8) == value) by (bit_vector);
}

} // verus!
