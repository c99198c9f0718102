use std::collections::HashMap;

use capture_bringup::serial_bus::{
    classify, read_result, read_transfers, write_transfers, BUS_SELECT, COMMAND, READ_ADDRESS, READ_DATA,
    READ_OP, STATUS, WRITE_ADDRESS, WRITE_DATA, WRITE_OP,
};
use capture_bringup::timing::{handshake_transfers, SETTLE_READS};
use capture_bringup::{codec_bus, BridgeError, Direction, Fault, Outcome, Transfer, TransportError};

fn w(index: u16, value: u16) -> Transfer {
    Transfer::Write { index, value }
}

fn r(index: u16) -> Transfer {
    Transfer::Read { index, selector: 0 }
}

/// A bridge whose chips remember what is written to them, with an optional
/// failure injected on one call.
struct EchoBridge {
    regs: HashMap<u16, u16>,
    chips: HashMap<(u16, u16), u16>,
    calls: usize,
    fail_at: Option<usize>,
}

impl EchoBridge {
    fn new() -> EchoBridge {
        EchoBridge { regs: HashMap::new(), chips: HashMap::new(), calls: 0, fail_at: None }
    }

    fn reg(&self, i: u16) -> u16 {
        *self.regs.get(&i).unwrap_or(&0)
    }

    fn perform(&mut self, t: Transfer) -> Outcome {
        let n = self.calls;
        self.calls += 1;
        if self.fail_at == Some(n) {
            return Err(t.failed(Fault::Timeout));
        }
        match t {
            Transfer::Write { index, value } => {
                let bus = self.reg(BUS_SELECT);
                if index == COMMAND && value == WRITE_OP {
                    let key = (bus, self.reg(WRITE_ADDRESS));
                    let data = self.reg(WRITE_DATA);
                    self.chips.insert(key, data);
                } else if index == COMMAND && value == READ_OP {
                    let key = (bus, self.reg(READ_ADDRESS));
                    let data = *self.chips.get(&key).unwrap_or(&0);
                    self.regs.insert(READ_DATA, data);
                }
                self.regs.insert(index, value);
                Ok(0)
            }
            Transfer::Read { index, .. } => Ok(self.reg(index) as u8),
        }
    }

    fn run(&mut self, ts: &[Transfer]) -> Vec<Outcome> {
        let mut outs = Vec::new();
        for t in ts {
            let o = self.perform(*t);
            let failed = o.is_err();
            outs.push(o);
            if failed {
                break;
            }
        }
        outs
    }
}

fn bus_read(bridge: &mut EchoBridge, bus: u8, reg: u8) -> Result<u8, BridgeError> {
    let outs = bridge.run(&read_transfers(bus, reg));
    match outs.len() {
        4 => read_result(outs[3], Ok(0)),
        5 => read_result(outs[3], outs[4]),
        _ => Err(classify(outs[outs.len() - 1].unwrap_err())),
    }
}

#[test]
fn serial_write_lowers_to_five_transfers() {
    assert_eq!(
        write_transfers(0xba, 0x7f, 0x00),
        vec![w(0x203, 0xba), w(0x204, 0x7f), w(0x205, 0x00), w(0x200, 0x05), r(0x201)]
    );
}

#[test]
fn serial_read_lowers_to_five_transfers() {
    assert_eq!(
        read_transfers(0xa0, 0x3c),
        vec![w(0x203, 0xa0), w(0x208, 0x3c), w(0x200, 0x20), r(0x201), r(0x209)]
    );
}

#[test]
fn serial_write_then_read_returns_written_value() {
    for (bus, reg, value) in [(0xba, 0x08, 0x08), (0xa0, 0x3c, 0x00), (0x82, 0x0d, 0xff), (0xba, 0x28, 0x04)] {
        let mut bridge = EchoBridge::new();
        let outs = bridge.run(&write_transfers(bus, reg, value));
        assert_eq!(outs.len(), 5);
        assert_eq!(bus_read(&mut bridge, bus, reg), Ok(value));
    }
}

#[test]
fn serial_reads_keep_chips_and_registers_apart() {
    let mut bridge = EchoBridge::new();
    bridge.run(&write_transfers(0xba, 0x10, 0x11));
    bridge.run(&write_transfers(0xa0, 0x10, 0x22));
    bridge.run(&write_transfers(0xba, 0x11, 0x33));
    assert_eq!(bus_read(&mut bridge, 0xba, 0x10), Ok(0x11));
    assert_eq!(bus_read(&mut bridge, 0xa0, 0x10), Ok(0x22));
    assert_eq!(bus_read(&mut bridge, 0xba, 0x11), Ok(0x33));
    assert_eq!(bus_read(&mut bridge, 0xa0, 0x11), Ok(0x00));
}

#[test]
fn failed_status_read_is_a_failed_bus_transaction() {
    let mut bridge = EchoBridge::new();
    bridge.run(&write_transfers(0xba, 0x08, 0x08));
    bridge.fail_at = Some(bridge.calls + 3);
    let e = TransportError { address: STATUS, direction: Direction::Read, cause: Fault::Timeout };
    assert_eq!(bus_read(&mut bridge, 0xba, 0x08), Err(BridgeError::BusTransactionFailed(e)));
}

#[test]
fn failed_data_read_is_a_transport_error() {
    let mut bridge = EchoBridge::new();
    bridge.run(&write_transfers(0xba, 0x08, 0x08));
    bridge.fail_at = Some(bridge.calls + 4);
    let e = TransportError { address: READ_DATA, direction: Direction::Read, cause: Fault::Timeout };
    assert_eq!(bus_read(&mut bridge, 0xba, 0x08), Err(BridgeError::Transport(e)));
}

#[test]
fn failed_select_is_a_transport_error() {
    let mut bridge = EchoBridge::new();
    bridge.fail_at = Some(0);
    let e = TransportError { address: BUS_SELECT, direction: Direction::Write, cause: Fault::Timeout };
    assert_eq!(bus_read(&mut bridge, 0xba, 0x08), Err(BridgeError::Transport(e)));
}

#[test]
fn classify_tells_status_failures_apart() {
    let status = TransportError { address: STATUS, direction: Direction::Read, cause: Fault::Stall };
    let command = TransportError { address: COMMAND, direction: Direction::Write, cause: Fault::Stall };
    let status_write = TransportError { address: STATUS, direction: Direction::Write, cause: Fault::Other };
    assert_eq!(classify(status), BridgeError::BusTransactionFailed(status));
    assert_eq!(classify(command), BridgeError::Transport(command));
    assert_eq!(classify(status_write), BridgeError::Transport(status_write));
}

#[test]
fn read_result_returns_the_data_byte() {
    let e = TransportError { address: READ_DATA, direction: Direction::Read, cause: Fault::Disconnected };
    assert_eq!(read_result(Ok(0x01), Ok(0x42)), Ok(0x42));
    assert_eq!(read_result(Err(e), Ok(0x42)), Err(BridgeError::BusTransactionFailed(e)));
    assert_eq!(read_result(Ok(0x00), Err(e)), Err(BridgeError::Transport(e)));
}

#[test]
fn codec_transfers_follow_the_protocol() {
    assert_eq!(
        codec_bus::enable_transfers(),
        vec![w(0x500, 0x94), w(0x500, 0x8c), w(0x506, 0x01), w(0x507, 0x00)]
    );
    assert_eq!(
        codec_bus::write_transfers(0x10, 0x08, 0x88),
        vec![w(0x504, 0x10), w(0x502, 0x08), w(0x503, 0x88), w(0x500, 0x8c)]
    );
    assert_eq!(
        codec_bus::read_transfers(0x12),
        vec![w(0x504, 0x12), w(0x500, 0x8b), r(0x502), r(0x503)]
    );
}

#[test]
fn handshake_has_three_settle_reads_then_one() {
    let settle = Transfer::Read { index: 0x301, selector: 0x0200 };
    let last = Transfer::Read { index: 0x301, selector: 0x0402 };
    let ts = handshake_transfers();
    assert_eq!(ts, vec![w(0x301, 0x0100), settle, settle, settle, w(0x301, 0x0200), last]);
    assert_eq!(SETTLE_READS, 3);
    assert_eq!(ts[..4].iter().filter(|t| **t == settle).count(), 3);
    assert_eq!(ts[4..].iter().filter(|t| **t == last).count(), 1);
}
