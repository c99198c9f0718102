use capture_bringup::sequencer::{next_phase, plan_transfers};
use capture_bringup::{BringUp, BringUpAborted, Direction, Fault, Outcome, Phase, Step, Transfer, TransportError};

fn w(index: u16, value: u16) -> Transfer {
    Transfer::Write { index, value }
}

fn r(index: u16) -> Transfer {
    Transfer::Read { index, selector: 0 }
}

/// A transport that records every call, answers reads from a fixed table,
/// answers the first video settings read with `probe`, and can fail one call.
struct Mock {
    calls: Vec<Transfer>,
    fail_at: Option<usize>,
    probe: Option<u8>,
    reply: u8,
}

impl Mock {
    fn new(reply: u8) -> Mock {
        Mock { calls: Vec::new(), fail_at: None, probe: None, reply }
    }

    fn perform(&mut self, t: Transfer) -> Outcome {
        let n = self.calls.len();
        self.calls.push(t);
        if self.fail_at == Some(n) {
            return Err(t.failed(Fault::Timeout));
        }
        match t {
            Transfer::Write { .. } => Ok(0),
            Transfer::Read { index: 0x100, .. } if self.probe.is_some() => Ok(self.probe.take().unwrap()),
            Transfer::Read { index: 0x00, .. } if self.reply == 0xaa => Ok(0x61),
            Transfer::Read { index: 0x02, .. } if self.reply == 0xaa => Ok(0xef),
            Transfer::Read { .. } => Ok(self.reply),
        }
    }
}

fn drive(seq: &mut BringUp, mock: &mut Mock) -> Step {
    for _ in 0..1000 {
        match seq.next_step() {
            Step::Transfer(t) => {
                let o = mock.perform(t);
                seq.complete(o);
            }
            other => return other,
        }
    }
    panic!("bring-up did not settle");
}

const PROBE_AT: usize = 64;

#[test]
fn streams_on_a_transport_that_never_fails() {
    let mut mock = Mock::new(0);
    let mut seq = BringUp::new();
    assert_eq!(drive(&mut seq, &mut mock), Step::Streaming);
    assert_eq!(mock.calls.len(), 182);
    assert_eq!(seq.reached(), Phase::SensorPolled);
    let mut mock = Mock::new(0x33);
    assert_eq!(drive(&mut BringUp::new(), &mut mock), Step::Streaming);
    assert_eq!(mock.calls.len(), 187);
}

#[test]
fn aborts_in_gpio_configured_when_the_next_write_fails() {
    let mut mock = Mock::new(0);
    mock.fail_at = Some(37);
    let mut seq = BringUp::new();
    let error = TransportError { address: 0x203, direction: Direction::Write, cause: Fault::Timeout };
    let step = drive(&mut seq, &mut mock);
    assert_eq!(step, Step::Aborted(BringUpAborted { last: Phase::GpioConfigured, error }));
    assert_eq!(mock.calls.len(), 38);
    assert_eq!(mock.calls[37], w(0x203, 0xba));
    seq.complete(Ok(0));
    assert_eq!(seq.next_step(), step);
}

#[test]
fn aborts_in_idle_when_the_first_transfer_fails() {
    let mut mock = Mock::new(0);
    mock.fail_at = Some(0);
    let mut seq = BringUp::new();
    let error = TransportError { address: 0x00, direction: Direction::Write, cause: Fault::Timeout };
    assert_eq!(drive(&mut seq, &mut mock), Step::Aborted(BringUpAborted { last: Phase::Idle, error }));
    assert_eq!(mock.calls.len(), 1);
    assert_eq!(seq.reached(), Phase::Idle);
}

#[test]
fn gpio_phase_follows_the_expected_order() {
    let mut mock = Mock::new(0xaa);
    drive(&mut BringUp::new(), &mut mock);
    let toggles: [u16; 29] = [
        0x64, 0x64, 0x66, 0x67, 0x66, 0x64, 0x65, 0x64, 0x64, 0x65, 0x64, 0x64, 0x65, 0x64, 0x64, 0x65, 0x64,
        0x64, 0x65, 0x64, 0x64, 0x65, 0x64, 0x64, 0x65, 0x64, 0x64, 0x65, 0x61,
    ];
    assert_eq!(&mock.calls[..4], &[w(0x00, 0x60), w(0x02, 0xe8), w(0x03, 0x83), w(0x02, 0xef)]);
    for (i, v) in toggles.iter().enumerate() {
        assert_eq!(mock.calls[4 + i], w(0x00, *v));
    }
    assert_eq!(&mock.calls[33..37], &[r(0x00), r(0x02), w(0x00, 0x61), w(0x02, 0xef)]);
}

#[test]
fn zero_probe_runs_the_identification_reads() {
    let mut mock = Mock::new(0);
    mock.probe = Some(0);
    assert_eq!(drive(&mut BringUp::new(), &mut mock), Step::Streaming);
    let phase = &mock.calls[PROBE_AT..PROBE_AT + 22];
    assert_eq!(phase[0], r(0x100));
    assert_eq!(phase[1], w(0x100, 0x33));
    assert_eq!(&phase[2..7], &[w(0x203, 0xba), w(0x204, 0x7f), w(0x205, 0x00), w(0x200, 0x05), r(0x201)]);
    assert_eq!(&phase[7..12], &[w(0x203, 0xba), w(0x208, 0x80), w(0x200, 0x20), r(0x201), r(0x209)]);
    assert_eq!(&phase[12..17], &[w(0x203, 0xba), w(0x208, 0x81), w(0x200, 0x20), r(0x201), r(0x209)]);
    assert_eq!(&phase[17..22], &[w(0x203, 0xa0), w(0x208, 0x3c), w(0x200, 0x20), r(0x201), r(0x209)]);
    assert!(!mock.calls.contains(&w(0x204, 0x28)));
}

#[test]
fn nonzero_probe_runs_the_preconfiguration() {
    let mut mock = Mock::new(0);
    mock.probe = Some(0x33);
    assert_eq!(drive(&mut BringUp::new(), &mut mock), Step::Streaming);
    let phase = &mock.calls[PROBE_AT..PROBE_AT + 27];
    assert_eq!(phase[0], r(0x100));
    assert_eq!(&phase[7..12], &[w(0x203, 0xba), w(0x204, 0x08), w(0x205, 0x08), w(0x200, 0x05), r(0x201)]);
    assert_eq!(&phase[12..17], &[w(0x203, 0xba), w(0x204, 0x28), w(0x205, 0x04), w(0x200, 0x05), r(0x201)]);
    assert_eq!(&phase[17..22], &[w(0x203, 0xba), w(0x204, 0x30), w(0x205, 0x00), w(0x200, 0x05), r(0x201)]);
    assert_eq!(&phase[22..27], &[w(0x203, 0xba), w(0x204, 0x0f), w(0x205, 0x0a), w(0x200, 0x05), r(0x201)]);
    assert!(!mock.calls.contains(&w(0x208, 0x80)));
}

#[test]
fn both_branches_converge() {
    let mut zero = Mock::new(0);
    zero.probe = Some(0);
    let mut other = Mock::new(0);
    other.probe = Some(0x01);
    let mut a = BringUp::new();
    let mut b = BringUp::new();
    assert_eq!(drive(&mut a, &mut zero), Step::Streaming);
    assert_eq!(drive(&mut b, &mut other), Step::Streaming);
    assert_eq!(&zero.calls[..PROBE_AT + 7], &other.calls[..PROBE_AT + 7]);
    assert_eq!(&zero.calls[PROBE_AT + 22..], &other.calls[PROBE_AT + 27..]);
    assert_eq!(zero.calls[PROBE_AT + 22], w(0x500, 0x94));
}

#[test]
fn volumes_are_read_then_set() {
    let mut mock = Mock::new(0);
    drive(&mut BringUp::new(), &mut mock);
    let start = PROBE_AT + 22 + 19;
    assert_eq!(
        &mock.calls[start..start + 8],
        &[w(0x504, 0x10), w(0x500, 0x8b), r(0x502), r(0x503), w(0x504, 0x10), w(0x502, 0x08), w(0x503, 0x88), w(0x500, 0x8c)]
    );
    assert_eq!(&mock.calls[start + 36..start + 40], &[w(0x504, 0x1c), w(0x502, 0x00), w(0x503, 0x00), w(0x500, 0x8c)]);
}

#[test]
fn handshake_issues_three_settle_reads_then_one() {
    let mut mock = Mock::new(0);
    drive(&mut BringUp::new(), &mut mock);
    let start = PROBE_AT + 22 + 19 + 40;
    let settle = Transfer::Read { index: 0x301, selector: 0x0200 };
    let last = Transfer::Read { index: 0x301, selector: 0x0402 };
    assert_eq!(&mock.calls[start..start + 6], &[w(0x301, 0x0100), settle, settle, settle, w(0x301, 0x0200), last]);
    assert_eq!(mock.calls.iter().filter(|t| **t == settle).count(), 3);
    assert_eq!(mock.calls.iter().filter(|t| **t == last).count(), 1);
}

#[test]
fn handshake_failure_aborts_at_once() {
    let start = PROBE_AT + 22 + 19 + 40;
    for k in 0..6 {
        let mut mock = Mock::new(0);
        mock.fail_at = Some(start + k);
        let mut seq = BringUp::new();
        match drive(&mut seq, &mut mock) {
            Step::Aborted(a) => {
                assert_eq!(a.last, Phase::VolumesConfigured);
                assert_eq!(a.error.address, 0x301);
            }
            other => panic!("expected an abort, got {:?}", other),
        }
        assert_eq!(mock.calls.len(), start + k + 1);
    }
}

#[test]
fn sensor_is_polled_last() {
    let mut mock = Mock::new(0);
    drive(&mut BringUp::new(), &mut mock);
    let start = PROBE_AT + 22 + 19 + 40 + 6;
    let polled = &mock.calls[start..];
    assert_eq!(polled.len(), 31);
    assert_eq!(&polled[..5], &[w(0x203, 0xa0), w(0x208, 0x3c), w(0x200, 0x20), r(0x201), r(0x209)]);
    assert_eq!(polled[25], Transfer::Read { index: 0x301, selector: 0x0100 });
    assert_eq!(&polled[26..], &[w(0x203, 0xa0), w(0x208, 0x3e), w(0x200, 0x20), r(0x201), r(0x209)]);
}

#[test]
fn phases_are_reached_in_order() {
    let mut mock = Mock::new(0);
    let mut seq = BringUp::new();
    let mut seen = vec![seq.reached()];
    while let Step::Transfer(t) = seq.next_step() {
        let o = mock.perform(t);
        seq.complete(o);
        if *seen.last().unwrap() != seq.reached() {
            seen.push(seq.reached());
        }
    }
    let mut expected = vec![Phase::Idle];
    let mut p = Phase::Idle;
    while p != Phase::SensorPolled {
        p = next_phase(p);
        expected.push(p);
    }
    assert_eq!(seen, expected);
}

#[test]
fn plans_have_their_lengths() {
    assert!(plan_transfers(Phase::Idle, &vec![]).is_empty());
    assert_eq!(plan_transfers(Phase::GpioConfigured, &vec![]).len(), 37);
    assert_eq!(plan_transfers(Phase::SensorProbed, &vec![0]).len(), 22);
    assert_eq!(plan_transfers(Phase::SensorProbed, &vec![5]).len(), 27);
    assert_eq!(plan_transfers(Phase::SensorPolled, &vec![]).len(), 31);
    assert_eq!(next_phase(Phase::SensorPolled), Phase::SensorPolled);
}
