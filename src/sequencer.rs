//! The bring-up sequencer: the ordered program that takes the device from
//! power-on to streaming, as a state machine. The caller performs each
//! transfer the machine asks for and hands back its outcome.
use crate::codec_bus;
use crate::registers::{
    enable_gpio, lemma_start_masks, set_lower_gpio_output, CAPTURE_END, CAPTURE_START,
    ENABLE_GPIO, GPIO_DIRECTION, GPIO_DIRECTION_HIGH, GPIO_ENABLE_HIGH, GPIO_INTERRUPT,
    GPIO_INTERRUPT_HIGH, GPIO_WAKEUP, GPIO_WAKEUP_HIGH, PIXEL_CLOCKS, PIXEL_CLOCK_EXTRA,
    PIXEL_CLOCK_EXTRA_HIGH, PIXEL_PULSE, SENSOR_CLOCK, SERIAL_CLOCK_DIVIDER, STOP_CLOCK,
    TIMING_CONTROL, VBI_CONTROL, VIDEO_SETTINGS,
};
use crate::serial_bus::{self, BUS_SELECT};
use crate::timing::{self, count_reads, HANDSHAKE, PHASE_ONE_SELECTOR, PHASE_TWO_SELECTOR, RECHECK_SELECTOR};
use crate::transfer::{get, put, Outcome, Transfer, TransportError};
use vstd::prelude::*;

verus! {

/// Bus address of the video decoder.
pub const SENSOR: u8 = 0xba;

/// Bus address of the second chip on the serial bus.
pub const AUX_CHIP: u8 = 0xa0;

/// Video settings value: positive syncs, ITU 656 data, 8 bits.
pub const VIDEO_FORMAT: u16 = 0x33;

/// The states of bring-up, in order. Each names what the transfers leading to
/// it achieved; once `SensorPolled` is reached the device is streaming.
#[derive(Clone, Copy, Debug, PartialEq, Eq, Structural)]
pub enum Phase {
    Idle,
    GpioConfigured,
    SensorBusInitialized,
    TimingConfigured,
    WindowConfigured,
    SensorProbed,
    CodecBusInitialized,
    VolumesConfigured,
    TimingHandshakeComplete,
    SensorPolled,
}

/// The phase that follows `p`; `SensorPolled` is the last.
pub open spec fn successor(p: Phase) -> Phase {
    match p {
        Phase::Idle => Phase::GpioConfigured,
        Phase::GpioConfigured => Phase::SensorBusInitialized,
        Phase::SensorBusInitialized => Phase::TimingConfigured,
        Phase::TimingConfigured => Phase::WindowConfigured,
        Phase::WindowConfigured => Phase::SensorProbed,
        Phase::SensorProbed => Phase::CodecBusInitialized,
        Phase::CodecBusInitialized => Phase::VolumesConfigured,
        Phase::VolumesConfigured => Phase::TimingHandshakeComplete,
        Phase::TimingHandshakeComplete => Phase::SensorPolled,
        Phase::SensorPolled => Phase::SensorPolled,
    }
}

/// Number of phases still to go after `p`.
pub open spec fn remaining(p: Phase) -> nat {
    match p {
        Phase::Idle => 9,
        Phase::GpioConfigured => 8,
        Phase::SensorBusInitialized => 7,
        Phase::TimingConfigured => 6,
        Phase::WindowConfigured => 5,
        Phase::SensorProbed => 4,
        Phase::CodecBusInitialized => 3,
        Phase::VolumesConfigured => 2,
        Phase::TimingHandshakeComplete => 1,
        Phase::SensorPolled => 0,
    }
}

/// The values written to the GPIO enable register while the pins settle, in
/// the order the device expects them.
pub open spec fn gpio_toggles() -> Seq<u16> {
    seq![
        0x64u16, 0x64, 0x66, 0x67, 0x66, 0x64, 0x65,
        0x64, 0x64, 0x65, 0x64, 0x64, 0x65, 0x64, 0x64, 0x65, 0x64, 0x64, 0x65,
        0x64, 0x64, 0x65, 0x64, 0x64, 0x65, 0x64, 0x64, 0x65,
        0x61,
    ]
}

/// Writes of each of `values`, in order, to register `index`.
pub open spec fn writes_to(index: u16, values: Seq<u16>) -> Seq<Transfer> {
    values.map_values(|v: u16| put(index, v))
}

/// Reply `i` of a phase: the byte transfer `i` returned (0 before it ran).
pub open spec fn reply(replies: Seq<u8>, i: int) -> u8 {
    if 0 <= i < replies.len() {
        replies[i]
    } else {
        0
    }
}

/// GPIO set-up up to and including the read-back of the two GPIO registers.
pub open spec fn gpio_prefix() -> Seq<Transfer> {
    seq![
        put(ENABLE_GPIO, 0x60),
        put(GPIO_DIRECTION, 0xe8),
        put(GPIO_DIRECTION_HIGH, 0x83),
        put(GPIO_DIRECTION, 0xef),
    ] + writes_to(ENABLE_GPIO, gpio_toggles()) + seq![get(ENABLE_GPIO), get(GPIO_DIRECTION)]
}

/// Position of the read-back of the GPIO enable register in its phase.
pub const ENABLE_READBACK: usize = 33;

/// Position of the read-back of the GPIO direction register in its phase.
pub const DIRECTION_READBACK: usize = 34;

/// GPIO set-up: the pin writes, then each GPIO register is read back and the
/// value read is written again.
pub open spec fn gpio_plan(replies: Seq<u8>) -> Seq<Transfer> {
    gpio_prefix() + seq![
        put(ENABLE_GPIO, reply(replies, ENABLE_READBACK as int) as u16),
        put(GPIO_DIRECTION, reply(replies, DIRECTION_READBACK as int) as u16),
    ]
}

/// Selects the video decoder on the serial bus and finishes the GPIO,
/// interrupt and wake-up configuration.
pub open spec fn sensor_bus_plan() -> Seq<Transfer> {
    seq![
        put(BUS_SELECT, SENSOR as u16),
        put(GPIO_DIRECTION, 0xe8),
        put(GPIO_DIRECTION_HIGH, 0x83),
        put(ENABLE_GPIO, 0x60),
        put(GPIO_ENABLE_HIGH, 0x02),
        put(GPIO_INTERRUPT, 0x00),
        put(GPIO_INTERRUPT_HIGH, 0x02),
        put(GPIO_WAKEUP, 0x00),
        put(GPIO_WAKEUP_HIGH, 0x02),
        put(VBI_CONTROL, 0x00),
    ]
}

/// Configures the pixel clock and the timing generator, starts the sensor
/// clock and sets the serial interface clock.
pub open spec fn timing_plan() -> Seq<Transfer> {
    seq![
        put(TIMING_CONTROL, 0x12),
        put(PIXEL_PULSE, 0x2d),
        put(PIXEL_CLOCKS, 0x01),
        put(PIXEL_CLOCK_EXTRA, 0x00),
        put(PIXEL_CLOCK_EXTRA_HIGH, 0x00),
        put(TIMING_CONTROL, 0x80),
        put(SENSOR_CLOCK, 0x10),
        put(STOP_CLOCK, 0x00),
        put(SERIAL_CLOCK_DIVIDER, 0x1e),
    ]
}

/// Sets the capture window: start (80, 25), end (1360, 265).
pub open spec fn window_plan() -> Seq<Transfer> {
    seq![
        put(CAPTURE_START, 0x50),
        put((CAPTURE_START + 1) as u16, 0x00),
        put((CAPTURE_START + 2) as u16, 0x19),
        put((CAPTURE_START + 3) as u16, 0x00),
        put(CAPTURE_END, 0x50),
        put((CAPTURE_END + 1) as u16, 0x05),
        put((CAPTURE_END + 2) as u16, 0x09),
        put((CAPTURE_END + 3) as u16, 0x01),
    ]
}

/// Reads the video settings (the probe), sets them, and resets the video
/// decoder.
pub open spec fn probe_head() -> Seq<Transfer> {
    seq![get(VIDEO_SETTINGS), put(VIDEO_SETTINGS, VIDEO_FORMAT)] + serial_bus::write_plan(
        SENSOR,
        0x7f,
        0x00,
    )
}

/// Reads the video decoder's chip ID bytes, then a register of the second chip.
pub open spec fn sensor_id_plan() -> Seq<Transfer> {
    serial_bus::read_plan(SENSOR, 0x80) + serial_bus::read_plan(SENSOR, 0x81)
        + serial_bus::read_plan(AUX_CHIP, 0x3c)
}

/// Pre-configures the video decoder: luminance, video standard, timing
/// format and pin functions.
pub open spec fn preconfig_plan() -> Seq<Transfer> {
    serial_bus::write_plan(SENSOR, 0x08, 0x08) + serial_bus::write_plan(SENSOR, 0x28, 0x04)
        + serial_bus::write_plan(SENSOR, 0x30, 0x00) + serial_bus::write_plan(SENSOR, 0x0f, 0x0a)
}

/// The probe and its branch: a video settings value of zero (the first reply)
/// leads to the identification reads, any other to the pre-configuration.
pub open spec fn probe_plan(replies: Seq<u8>) -> Seq<Transfer> {
    probe_head() + if reply(replies, 0) == 0 {
        sensor_id_plan()
    } else {
        preconfig_plan()
    }
}

/// Starts the codec link, sets the video settings and GPIO again, and selects
/// the decoder's input and output modes.
pub open spec fn codec_start_plan() -> Seq<Transfer> {
    codec_bus::enable_plan() + seq![
        get(VIDEO_SETTINGS),
        put(VIDEO_SETTINGS, VIDEO_FORMAT),
        get(ENABLE_GPIO),
        put(ENABLE_GPIO, 0x6c),
    ] + serial_bus::write_plan(SENSOR, 0x00, 0x02) + serial_bus::write_plan(SENSOR, 0x03, 0x6f)
        + seq![put(VIDEO_SETTINGS, VIDEO_FORMAT)]
}

/// Reads and sets the line-in, CD, microphone and aux volumes, then the record
/// source and the record gain.
pub open spec fn volume_plan() -> Seq<Transfer> {
    codec_bus::read_plan(0x10) + codec_bus::write_plan(0x10, 0x08, 0x88) + codec_bus::read_plan(
        0x12,
    ) + codec_bus::write_plan(0x12, 0x08, 0x08) + codec_bus::read_plan(0x0e)
        + codec_bus::write_plan(0x0e, 0x08, 0x00) + codec_bus::read_plan(0x16)
        + codec_bus::write_plan(0x16, 0x08, 0x08) + codec_bus::write_plan(0x1a, 0x01, 0x01)
        + codec_bus::write_plan(0x1c, 0x00, 0x00)
}

/// Reads three registers of the second chip, then again, with a handshake
/// read after the second register.
pub open spec fn sensor_poll_plan() -> Seq<Transfer> {
    serial_bus::read_plan(AUX_CHIP, 0x3c) + serial_bus::read_plan(AUX_CHIP, 0x3d)
        + serial_bus::read_plan(AUX_CHIP, 0x3e) + serial_bus::read_plan(AUX_CHIP, 0x3c)
        + serial_bus::read_plan(AUX_CHIP, 0x3d) + seq![timing::settle(RECHECK_SELECTOR)]
        + serial_bus::read_plan(AUX_CHIP, 0x3e)
}

/// The transfers that lead to phase `p`, given the replies of the transfers
/// of that phase made so far (transfer i only depends on replies before i).
pub open spec fn plan(p: Phase, replies: Seq<u8>) -> Seq<Transfer> {
    match p {
        Phase::Idle => Seq::empty(),
        Phase::GpioConfigured => gpio_plan(replies),
        Phase::SensorBusInitialized => sensor_bus_plan(),
        Phase::TimingConfigured => timing_plan(),
        Phase::WindowConfigured => window_plan(),
        Phase::SensorProbed => probe_plan(replies),
        Phase::CodecBusInitialized => codec_start_plan(),
        Phase::VolumesConfigured => volume_plan(),
        Phase::TimingHandshakeComplete => timing::handshake_plan(),
        Phase::SensorPolled => sensor_poll_plan(),
    }
}

/// The phase that follows `p`.
pub fn next_phase(p: Phase) -> (r: Phase)
    ensures
        r == successor(p),
{
    match p {
        Phase::Idle => Phase::GpioConfigured,
        Phase::GpioConfigured => Phase::SensorBusInitialized,
        Phase::SensorBusInitialized => Phase::TimingConfigured,
        Phase::TimingConfigured => Phase::WindowConfigured,
        Phase::WindowConfigured => Phase::SensorProbed,
        Phase::SensorProbed => Phase::CodecBusInitialized,
        Phase::CodecBusInitialized => Phase::VolumesConfigured,
        Phase::VolumesConfigured => Phase::TimingHandshakeComplete,
        Phase::TimingHandshakeComplete => Phase::SensorPolled,
        Phase::SensorPolled => Phase::SensorPolled,
    }
}

fn push_writes(r: &mut Vec<Transfer>, index: u16, values: &Vec<u16>)
    ensures
        final(r)@ == old(r)@ + writes_to(index, values@),
{
    let ghost start = r@;
    let mut i: usize = 0;
    while i < values.len()
        invariant
            i <= values@.len(),
            r@ == start + writes_to(index, values@.subrange(0, i as int)),
        decreases values@.len() - i,
    {
        r.push(Transfer::Write { index, value: values[i] });
        i = i + 1;
        assert(r@ =~= start + writes_to(index, values@.subrange(0, i as int)));
    }
    assert(values@.subrange(0, values@.len() as int) =~= values@);
}

fn gpio_transfers(replies: &Vec<u8>) -> (r: Vec<Transfer>)
    ensures
        r@ == gpio_plan(replies@),
{
    proof {
        lemma_start_masks();
    }
    let mut r: Vec<Transfer> = Vec::new();
    r.push(enable_gpio(&[5, 6]));
    r.push(set_lower_gpio_output(&[3, 5, 6, 7]));
    r.push(Transfer::Write { index: GPIO_DIRECTION_HIGH, value: 0x83 });
    r.push(Transfer::Write { index: GPIO_DIRECTION, value: 0xef });
    let toggles: Vec<u16> = vec![
        0x64, 0x64, 0x66, 0x67, 0x66, 0x64, 0x65,
        0x64, 0x64, 0x65, 0x64, 0x64, 0x65, 0x64, 0x64, 0x65, 0x64, 0x64, 0x65,
        0x64, 0x64, 0x65, 0x64, 0x64, 0x65, 0x64, 0x64, 0x65,
        0x61,
    ];
    assert(toggles@ =~= gpio_toggles());
    push_writes(&mut r, ENABLE_GPIO, &toggles);
    r.push(Transfer::Read { index: ENABLE_GPIO, selector: 0 });
    r.push(Transfer::Read { index: GPIO_DIRECTION, selector: 0 });
    let enabled: u8 = if ENABLE_READBACK < replies.len() { replies[ENABLE_READBACK] } else { 0 };
    let direction: u8 = if DIRECTION_READBACK < replies.len() { replies[DIRECTION_READBACK] } else { 0 };
    r.push(Transfer::Write { index: ENABLE_GPIO, value: enabled as u16 });
    r.push(Transfer::Write { index: GPIO_DIRECTION, value: direction as u16 });
    assert(r@ =~= gpio_plan(replies@));
    r
}

fn sensor_bus_transfers() -> (r: Vec<Transfer>)
    ensures
        r@ == sensor_bus_plan(),
{
    proof {
        lemma_start_masks();
    }
    let r = vec![
        Transfer::Write { index: BUS_SELECT, value: SENSOR as u16 },
        set_lower_gpio_output(&[3, 5, 6, 7]),
        Transfer::Write { index: GPIO_DIRECTION_HIGH, value: 0x83 },
        enable_gpio(&[5, 6]),
        Transfer::Write { index: GPIO_ENABLE_HIGH, value: 0x02 },
        Transfer::Write { index: GPIO_INTERRUPT, value: 0x00 },
        Transfer::Write { index: GPIO_INTERRUPT_HIGH, value: 0x02 },
        Transfer::Write { index: GPIO_WAKEUP, value: 0x00 },
        Transfer::Write { index: GPIO_WAKEUP_HIGH, value: 0x02 },
        Transfer::Write { index: VBI_CONTROL, value: 0x00 },
    ];
    assert(r@ =~= sensor_bus_plan());
    r
}

fn timing_transfers() -> (r: Vec<Transfer>)
    ensures
        r@ == timing_plan(),
{
    let r = vec![
        Transfer::Write { index: TIMING_CONTROL, value: 0x12 },
        Transfer::Write { index: PIXEL_PULSE, value: 0x2d },
        Transfer::Write { index: PIXEL_CLOCKS, value: 0x01 },
        Transfer::Write { index: PIXEL_CLOCK_EXTRA, value: 0x00 },
        Transfer::Write { index: PIXEL_CLOCK_EXTRA_HIGH, value: 0x00 },
        Transfer::Write { index: TIMING_CONTROL, value: 0x80 },
        Transfer::Write { index: SENSOR_CLOCK, value: 0x10 },
        Transfer::Write { index: STOP_CLOCK, value: 0x00 },
        Transfer::Write { index: SERIAL_CLOCK_DIVIDER, value: 0x1e },
    ];
    assert(r@ =~= timing_plan());
    r
}

fn window_transfers() -> (r: Vec<Transfer>)
    ensures
        r@ == window_plan(),
{
    let r = vec![
        Transfer::Write { index: CAPTURE_START, value: 0x50 },
        Transfer::Write { index: CAPTURE_START + 1, value: 0x00 },
        Transfer::Write { index: CAPTURE_START + 2, value: 0x19 },
        Transfer::Write { index: CAPTURE_START + 3, value: 0x00 },
        Transfer::Write { index: CAPTURE_END, value: 0x50 },
        Transfer::Write { index: CAPTURE_END + 1, value: 0x05 },
        Transfer::Write { index: CAPTURE_END + 2, value: 0x09 },
        Transfer::Write { index: CAPTURE_END + 3, value: 0x01 },
    ];
    assert(r@ =~= window_plan());
    r
}

fn probe_transfers(replies: &Vec<u8>) -> (r: Vec<Transfer>)
    ensures
        r@ == probe_plan(replies@),
{
    let mut r = vec![
        Transfer::Read { index: VIDEO_SETTINGS, selector: 0 },
        Transfer::Write { index: VIDEO_SETTINGS, value: VIDEO_FORMAT },
    ];
    r.append(&mut serial_bus::write_transfers(SENSOR, 0x7f, 0x00));
    let probe: u8 = if replies.len() > 0 { replies[0] } else { 0 };
    if probe == 0 {
        r.append(&mut serial_bus::read_transfers(SENSOR, 0x80));
        r.append(&mut serial_bus::read_transfers(SENSOR, 0x81));
        r.append(&mut serial_bus::read_transfers(AUX_CHIP, 0x3c));
    } else {
        r.append(&mut serial_bus::write_transfers(SENSOR, 0x08, 0x08));
        r.append(&mut serial_bus::write_transfers(SENSOR, 0x28, 0x04));
        r.append(&mut serial_bus::write_transfers(SENSOR, 0x30, 0x00));
        r.append(&mut serial_bus::write_transfers(SENSOR, 0x0f, 0x0a));
    }
    assert(r@ =~= probe_plan(replies@));
    r
}

fn codec_start_transfers() -> (r: Vec<Transfer>)
    ensures
        r@ == codec_start_plan(),
{
    let mut r = codec_bus::enable_transfers();
    r.push(Transfer::Read { index: VIDEO_SETTINGS, selector: 0 });
    r.push(Transfer::Write { index: VIDEO_SETTINGS, value: VIDEO_FORMAT });
    r.push(Transfer::Read { index: ENABLE_GPIO, selector: 0 });
    r.push(Transfer::Write { index: ENABLE_GPIO, value: 0x6c });
    r.append(&mut serial_bus::write_transfers(SENSOR, 0x00, 0x02));
    r.append(&mut serial_bus::write_transfers(SENSOR, 0x03, 0x6f));
    r.push(Transfer::Write { index: VIDEO_SETTINGS, value: VIDEO_FORMAT });
    assert(r@ =~= codec_start_plan());
    r
}

fn volume_transfers() -> (r: Vec<Transfer>)
    ensures
        r@ == volume_plan(),
{
    let mut r = codec_bus::read_transfers(0x10);
    r.append(&mut codec_bus::write_transfers(0x10, 0x08, 0x88));
    r.append(&mut codec_bus::read_transfers(0x12));
    r.append(&mut codec_bus::write_transfers(0x12, 0x08, 0x08));
    r.append(&mut codec_bus::read_transfers(0x0e));
    r.append(&mut codec_bus::write_transfers(0x0e, 0x08, 0x00));
    r.append(&mut codec_bus::read_transfers(0x16));
    r.append(&mut codec_bus::write_transfers(0x16, 0x08, 0x08));
    r.append(&mut codec_bus::write_transfers(0x1a, 0x01, 0x01));
    r.append(&mut codec_bus::write_transfers(0x1c, 0x00, 0x00));
    assert(r@ =~= volume_plan());
    r
}

fn sensor_poll_transfers() -> (r: Vec<Transfer>)
    ensures
        r@ == sensor_poll_plan(),
{
    let mut r = serial_bus::read_transfers(AUX_CHIP, 0x3c);
    r.append(&mut serial_bus::read_transfers(AUX_CHIP, 0x3d));
    r.append(&mut serial_bus::read_transfers(AUX_CHIP, 0x3e));
    r.append(&mut serial_bus::read_transfers(AUX_CHIP, 0x3c));
    r.append(&mut serial_bus::read_transfers(AUX_CHIP, 0x3d));
    r.push(Transfer::Read { index: HANDSHAKE, selector: RECHECK_SELECTOR });
    r.append(&mut serial_bus::read_transfers(AUX_CHIP, 0x3e));
    assert(r@ =~= sensor_poll_plan());
    r
}

/// The transfers that lead to phase `p`, given the replies of that phase so far.
pub fn plan_transfers(p: Phase, replies: &Vec<u8>) -> (r: Vec<Transfer>)
    ensures
        r@ == plan(p, replies@),
{
    match p {
        Phase::Idle => Vec::new(),
        Phase::GpioConfigured => gpio_transfers(replies),
        Phase::SensorBusInitialized => sensor_bus_transfers(),
        Phase::TimingConfigured => timing_transfers(),
        Phase::WindowConfigured => window_transfers(),
        Phase::SensorProbed => probe_transfers(replies),
        Phase::CodecBusInitialized => codec_start_transfers(),
        Phase::VolumesConfigured => volume_transfers(),
        Phase::TimingHandshakeComplete => timing::handshake_transfers(),
        Phase::SensorPolled => sensor_poll_transfers(),
    }
}

/// Bring-up stopped on a failed transfer, after completing phase `last`. The
/// device is left as it is: nothing is rolled back.
#[derive(Clone, Copy, Debug, PartialEq, Eq, Structural)]
pub struct BringUpAborted {
    pub last: Phase,
    pub error: TransportError,
}

/// What the sequencer asks of its caller next.
#[derive(Clone, Copy, Debug, PartialEq, Eq, Structural)]
pub enum Step {
    /// Perform this transfer and hand back its outcome.
    Transfer(Transfer),
    /// Bring-up is complete: start the status poller.
    Streaming,
    /// Bring-up failed for good.
    Aborted(BringUpAborted),
}

/// The sequencer's state as values: the last phase completed, the replies of
/// the transfers of the current phase so far, and the failure that ended
/// bring-up, if any.
pub struct Progress {
    pub reached: Phase,
    pub replies: Seq<u8>,
    pub failure: Option<TransportError>,
}

/// The state right after phase `p` completed.
pub open spec fn phase_start(p: Phase) -> Progress {
    Progress { reached: p, replies: Seq::empty(), failure: None }
}

/// The state before anything was sent.
pub open spec fn initial() -> Progress {
    phase_start(Phase::Idle)
}

/// The transfer the sequencer waits on, if any.
pub open spec fn pending(s: Progress) -> Option<Transfer> {
    if s.failure is Some || s.reached == Phase::SensorPolled {
        None
    } else {
        Some(plan(successor(s.reached), s.replies)[s.replies.len() as int])
    }
}

/// What the sequencer asks for in state `s`.
pub open spec fn step_of(s: Progress) -> Step {
    match s.failure {
        Some(e) => Step::Aborted(BringUpAborted { last: s.reached, error: e }),
        None => if s.reached == Phase::SensorPolled {
            Step::Streaming
        } else {
            Step::Transfer(plan(successor(s.reached), s.replies)[s.replies.len() as int])
        },
    }
}

/// The state after the pending transfer of `s` came back with `outcome`. A
/// failure ends bring-up; a success records the reply and, on the last
/// transfer of a phase, completes that phase. Without a pending transfer
/// nothing changes.
pub open spec fn advance(s: Progress, outcome: Outcome) -> Progress {
    if pending(s) is None {
        s
    } else {
        match outcome {
            Err(e) => Progress { reached: s.reached, replies: s.replies, failure: Some(e) },
            Ok(v) => {
                let replies = s.replies.push(v);
                let target = successor(s.reached);
                if replies.len() >= plan(target, replies).len() {
                    phase_start(target)
                } else {
                    Progress { reached: s.reached, replies, failure: None }
                }
            },
        }
    }
}

/// While a phase is under way, the next transfer lies within its plan.
pub open spec fn well_formed(s: Progress) -> bool {
    s.failure is None && s.reached != Phase::SensorPolled ==> s.replies.len() < plan(
        successor(s.reached),
        s.replies,
    ).len()
}

/// Every phase but the first has at least one transfer.
pub proof fn lemma_plans_nonempty(p: Phase, replies: Seq<u8>)
    requires
        p != Phase::Idle,
    ensures
        plan(p, replies).len() > 0,
{
}

/// The bring-up sequencer.
pub struct BringUp {
    reached: Phase,
    replies: Vec<u8>,
    failure: Option<TransportError>,
}

impl View for BringUp {
    type V = Progress;

    closed spec fn view(&self) -> Progress {
        Progress { reached: self.reached, replies: self.replies@, failure: self.failure }
    }
}

impl BringUp {
    #[verifier::type_invariant]
    closed spec fn inv(self) -> bool {
        well_formed(self@)
    }

    /// A sequencer that has sent nothing yet.
    pub fn new() -> (r: BringUp)
        ensures
            r@ == initial(),
    {
        proof {
            lemma_plans_nonempty(Phase::GpioConfigured, Seq::empty());
        }
        BringUp { reached: Phase::Idle, replies: Vec::new(), failure: None }
    }

    /// The last phase completed.
    pub fn reached(&self) -> (r: Phase)
        ensures
            r == self@.reached,
    {
        self.reached
    }

    /// What to do next: a transfer to perform, streaming, or the failure that
    /// ended bring-up.
    pub fn next_step(&self) -> (r: Step)
        ensures
            r == step_of(self@),
    {
        proof {
            use_type_invariant(self);
        }
        match self.failure {
            Some(e) => Step::Aborted(BringUpAborted { last: self.reached, error: e }),
            None => match self.reached {
                Phase::SensorPolled => Step::Streaming,
                _ => {
                    let transfers = plan_transfers(next_phase(self.reached), &self.replies);
                    Step::Transfer(transfers[self.replies.len()])
                },
            },
        }
    }

    /// Hands back the outcome of the transfer that `next_step` asked for.
    /// For a write the `Ok` value is not used.
    pub fn complete(&mut self, outcome: Outcome)
        ensures
            final(self)@ == advance(old(self)@, outcome),
    {
        proof {
            use_type_invariant(&*self);
        }
        if self.failure.is_some() {
            return;
        }
        if let Phase::SensorPolled = self.reached {
            return;
        }
        match outcome {
            Err(e) => {
                self.failure = Some(e);
            },
            Ok(v) => {
                let target = next_phase(self.reached);
                proof {
                    lemma_plans_nonempty(target, Seq::empty());
                }
                let mut replies: Vec<u8> = Vec::new();
                std::mem::swap(&mut replies, &mut self.replies);
                replies.push(v);
                let len = plan_transfers(target, &replies).len();
                if replies.len() >= len {
                    proof {
                        if target != Phase::SensorPolled {
                            lemma_plans_nonempty(successor(target), Seq::empty());
                        }
                    }
                    *self = BringUp { reached: target, replies: Vec::new(), failure: None };
                } else {
                    self.replies = replies;
                }
            },
        }
    }
}

/// Outcomes of transfers that all succeeded, with these replies.
pub open spec fn successes(replies: Seq<u8>) -> Seq<Outcome> {
    replies.map_values(|v: u8| Ok::<u8, TransportError>(v))
}

/// The state after handing back `outs`, one after the other, from state `s`.
pub open spec fn run(s: Progress, outs: Seq<Outcome>) -> Progress
    decreases outs.len(),
{
    if outs.len() == 0 {
        s
    } else {
        advance(run(s, outs.drop_last()), outs.last())
    }
}

/// The transfers the sequencer asks for, from state `s`, while `outs` are
/// handed back.
pub open spec fn issued(s: Progress, outs: Seq<Outcome>) -> Seq<Transfer>
    decreases outs.len(),
{
    if outs.len() == 0 {
        Seq::empty()
    } else {
        match pending(run(s, outs.drop_last())) {
            Some(t) => issued(s, outs.drop_last()).push(t),
            None => issued(s, outs.drop_last()),
        }
    }
}

/// Handing back two runs of outcomes is handing back the first, then the second.
pub proof fn lemma_run_split(s: Progress, a: Seq<Outcome>, b: Seq<Outcome>)
    ensures
        run(s, a + b) == run(run(s, a), b),
        issued(s, a + b) == issued(s, a) + issued(run(s, a), b),
    decreases b.len(),
{
    if b.len() == 0 {
        assert(a + b =~= a);
        assert(issued(s, a) + issued(run(s, a), b) =~= issued(s, a));
    } else {
        lemma_run_split(s, a, b.drop_last());
        assert((a + b).drop_last() =~= a + b.drop_last());
        assert((a + b).last() == b.last());
        let mid = run(s, a);
        match pending(run(mid, b.drop_last())) {
            Some(t) => {
                assert(issued(s, a) + issued(mid, b) =~= (issued(s, a) + issued(mid, b.drop_last())).push(t));
            },
            None => {},
        }
    }
}

/// Successes with the replies of `a` then those of `b`.
proof fn lemma_successes_add(a: Seq<u8>, b: Seq<u8>)
    ensures
        successes(a + b) == successes(a) + successes(b),
{
    assert(successes(a + b) =~= successes(a) + successes(b));
}

/// A transfer of a phase does not depend on replies that come after it, and
/// once the first reply is in, the length of the phase is fixed.
proof fn lemma_plan_stable(t: Phase, w: Seq<u8>, i: int)
    requires
        0 <= i < w.len(),
        w.len() == plan(t, w).len(),
    ensures
        i < plan(t, w.take(i)).len(),
        plan(t, w.take(i))[i] == plan(t, w)[i],
        i >= 1 ==> plan(t, w.take(i)).len() == plan(t, w).len(),
{
    let k = w.take(i);
    match t {
        Phase::GpioConfigured => {
            if i == ENABLE_READBACK + 2 {
                assert(reply(k, ENABLE_READBACK as int) == reply(w, ENABLE_READBACK as int));
            }
            if i == DIRECTION_READBACK + 2 {
                assert(reply(k, DIRECTION_READBACK as int) == reply(w, DIRECTION_READBACK as int));
            }
        },
        Phase::SensorProbed => {
            if i >= 1 {
                assert(reply(k, 0) == reply(w, 0));
            }
        },
        _ => {},
    }
}

/// Within a phase whose transfers all succeed, after `i` replies the
/// sequencer holds those replies and has asked for the first `i` transfers of
/// the phase's plan.
proof fn lemma_phase_prefix(p: Phase, w: Seq<u8>, i: int)
    requires
        p != Phase::SensorPolled,
        w.len() == plan(successor(p), w).len(),
        0 <= i < w.len(),
    ensures
        run(phase_start(p), successes(w.take(i))) == (Progress {
            reached: p,
            replies: w.take(i),
            failure: None,
        }),
        issued(phase_start(p), successes(w.take(i))) == plan(successor(p), w).take(i),
    decreases i,
{
    let t = successor(p);
    let outs = successes(w.take(i));
    if i == 0 {
        assert(outs.len() == 0);
        assert(w.take(0) =~= Seq::<u8>::empty());
        assert(plan(t, w).take(0) =~= Seq::<Transfer>::empty());
    } else {
        lemma_phase_prefix(p, w, i - 1);
        assert(outs.drop_last() =~= successes(w.take(i - 1)));
        let before = Progress { reached: p, replies: w.take(i - 1), failure: None };
        lemma_plan_stable(t, w, i - 1);
        lemma_plan_stable(t, w, i);
        assert(w.take(i - 1).push(w[i - 1]) =~= w.take(i));
        assert(pending(before) == Some(plan(t, w)[i - 1]));
        assert(plan(t, w).take(i - 1).push(plan(t, w)[i - 1]) =~= plan(t, w).take(i));
    }
}

/// A phase whose transfers all succeed completes: the sequencer asks for
/// exactly the phase's plan and ends at the start of the next phase.
proof fn lemma_phase(p: Phase, w: Seq<u8>)
    requires
        p != Phase::SensorPolled,
        w.len() == plan(successor(p), w).len(),
    ensures
        run(phase_start(p), successes(w)) == phase_start(successor(p)),
        issued(phase_start(p), successes(w)) == plan(successor(p), w),
{
    let t = successor(p);
    lemma_plans_nonempty(t, w);
    let n = w.len() - 1;
    lemma_phase_prefix(p, w, n);
    lemma_plan_stable(t, w, n);
    let outs = successes(w);
    assert(outs.drop_last() =~= successes(w.take(n)));
    assert(w.take(n).push(w[n]) =~= w);
    assert(plan(t, w).take(n).push(plan(t, w)[n]) =~= plan(t, w));
}

/// One reply `v` for each transfer of phase `t`.
pub open spec fn constant_replies(t: Phase, v: u8) -> Seq<u8> {
    Seq::new(plan(t, seq![v]).len(), |_i: int| v)
}

proof fn lemma_constant_replies(t: Phase, v: u8)
    ensures
        constant_replies(t, v).len() == plan(t, constant_replies(t, v)).len(),
{
    let w = constant_replies(t, v);
    if t == Phase::SensorProbed {
        assert(reply(w, 0) == reply(seq![v], 0));
    }
}

/// The replies, all `v`, of every transfer after phase `p`.
pub open spec fn replies_after(p: Phase, v: u8) -> Seq<u8>
    decreases remaining(p),
{
    if p == Phase::SensorPolled {
        Seq::empty()
    } else {
        constant_replies(successor(p), v) + replies_after(successor(p), v)
    }
}

/// The transfers of every phase after `p`, on a transport whose every read
/// returns `v`.
pub open spec fn plan_after(p: Phase, v: u8) -> Seq<Transfer>
    decreases remaining(p),
{
    if p == Phase::SensorPolled {
        Seq::empty()
    } else {
        plan(successor(p), constant_replies(successor(p), v)) + plan_after(successor(p), v)
    }
}

proof fn lemma_phases_after(p: Phase, v: u8)
    ensures
        run(phase_start(p), successes(replies_after(p, v))) == phase_start(Phase::SensorPolled),
        issued(phase_start(p), successes(replies_after(p, v))) == plan_after(p, v),
    decreases remaining(p),
{
    if p == Phase::SensorPolled {
        assert(successes(replies_after(p, v)) =~= Seq::<Outcome>::empty());
    } else {
        let t = successor(p);
        let w = constant_replies(t, v);
        lemma_constant_replies(t, v);
        lemma_phase(p, w);
        lemma_phases_after(t, v);
        lemma_successes_add(w, replies_after(t, v));
        lemma_run_split(phase_start(p), successes(w), successes(replies_after(t, v)));
    }
}

/// On a transport where every transfer succeeds and every read returns the
/// same value `v`, bring-up asks for exactly the transfers of every phase in
/// order and then reaches streaming.
pub proof fn lemma_bring_up_streams(v: u8)
    ensures
        step_of(run(initial(), successes(replies_after(Phase::Idle, v)))) == Step::Streaming,
        issued(initial(), successes(replies_after(Phase::Idle, v))) == plan_after(Phase::Idle, v),
{
    lemma_phases_after(Phase::Idle, v);
}

/// On such a transport, once the GPIO phase is done the next transfer is a
/// write; if it fails, bring-up aborts and reports `GpioConfigured` as the
/// last phase completed.
pub proof fn lemma_abort_after_gpio(v: u8, e: TransportError)
    ensures
        ({
            let s = run(initial(), successes(constant_replies(Phase::GpioConfigured, v)));
            &&& s == phase_start(Phase::GpioConfigured)
            &&& pending(s) == Some(put(BUS_SELECT, SENSOR as u16))
            &&& step_of(advance(s, Err(e))) == Step::Aborted(
                BringUpAborted { last: Phase::GpioConfigured, error: e },
            )
        }),
{
    lemma_constant_replies(Phase::GpioConfigured, v);
    lemma_phase(Phase::Idle, constant_replies(Phase::GpioConfigured, v));
}

/// A failed transfer ends bring-up at once: the sequencer reports the failure
/// with the last phase completed, and asks for no further transfer whatever
/// is handed back after.
pub proof fn lemma_failure_is_final(s: Progress, e: TransportError, outs: Seq<Outcome>)
    requires
        pending(s) is Some,
    ensures
        step_of(advance(s, Err(e))) == Step::Aborted(BringUpAborted { last: s.reached, error: e }),
        run(advance(s, Err(e)), outs) == advance(s, Err(e)),
        issued(advance(s, Err(e)), outs) == Seq::<Transfer>::empty(),
    decreases outs.len(),
{
    if outs.len() > 0 {
        lemma_failure_is_final(s, e, outs.drop_last());
    }
}

/// The probe decides the branch. When the probe phase succeeds, a video
/// settings value of zero makes it issue the identification reads and any
/// other value the pre-configuration writes; either way the phase ends in
/// the same state.
pub proof fn lemma_probe_branch(w: Seq<u8>)
    requires
        w.len() == plan(Phase::SensorProbed, w).len(),
    ensures
        issued(phase_start(Phase::WindowConfigured), successes(w)) == probe_head() + if w[0] == 0 {
            sensor_id_plan()
        } else {
            preconfig_plan()
        },
        run(phase_start(Phase::WindowConfigured), successes(w)) == phase_start(Phase::SensorProbed),
{
    lemma_plans_nonempty(Phase::SensorProbed, w);
    lemma_phase(Phase::WindowConfigured, w);
}

/// When the handshake phase succeeds it issues exactly the handshake: three
/// settle reads in phase one, one read in phase two; then the handshake is
/// complete.
pub proof fn lemma_handshake_phase(w: Seq<u8>)
    requires
        w.len() == 6,
    ensures
        issued(phase_start(Phase::VolumesConfigured), successes(w)) == timing::handshake_plan(),
        count_reads(timing::handshake_plan().subrange(0, 4), PHASE_ONE_SELECTOR) == 3,
        count_reads(timing::handshake_plan().subrange(4, 6), PHASE_TWO_SELECTOR) == 1,
        run(phase_start(Phase::VolumesConfigured), successes(w)) == phase_start(
            Phase::TimingHandshakeComplete,
        ),
{
    lemma_phase(Phase::VolumesConfigured, w);
    timing::lemma_handshake_reads();
}

} // verus!
