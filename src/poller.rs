//! The status poller: after bring-up it repeats two bus reads every interval
//! to keep the device's bus activity alive, until it is stopped.
use crate::serial_bus::{self, failure_of, BridgeError};
use crate::transfer::{Outcome, Transfer};
use vstd::prelude::*;

verus! {

/// Bus address of the chip polled.
pub const POLLED_CHIP: u8 = 0x82;

/// First register polled.
pub const FIRST_POLLED: u8 = 0x0d;

/// Second register polled.
pub const SECOND_POLLED: u8 = 0x0b;

/// Pause between two iterations, in milliseconds.
pub const INTERVAL_MS: u64 = 333;

/// The transfers of one iteration: a bus read of each polled register.
pub open spec fn cycle_plan() -> Seq<Transfer> {
    serial_bus::read_plan(POLLED_CHIP, FIRST_POLLED) + serial_bus::read_plan(
        POLLED_CHIP,
        SECOND_POLLED,
    )
}

/// One iteration was cut short by a failed transfer; polling goes on.
#[derive(Clone, Copy, Debug, PartialEq, Eq, Structural)]
pub struct PollIterationFailed {
    pub error: BridgeError,
}

/// What the poller asks of its caller next.
#[derive(Clone, Copy, Debug, PartialEq, Eq, Structural)]
pub enum PollStep {
    /// Perform this transfer and hand back its outcome.
    Transfer(Transfer),
    /// Wait this many milliseconds, then report the wake-up.
    Sleep(u64),
    /// The poller was stopped: issue nothing more.
    Stopped,
}

/// The poller's state as values: how far the current iteration got, and
/// whether it was stopped.
pub struct PollState {
    pub pos: nat,
    pub stopped: bool,
}

/// What the poller asks for in state `s`.
pub open spec fn poll_step_of(s: PollState) -> PollStep {
    if s.stopped {
        PollStep::Stopped
    } else if s.pos < cycle_plan().len() {
        PollStep::Transfer(cycle_plan()[s.pos as int])
    } else {
        PollStep::Sleep(INTERVAL_MS)
    }
}

/// Whether a transfer is awaited in state `s`.
pub open spec fn awaiting(s: PollState) -> bool {
    !s.stopped && s.pos < cycle_plan().len()
}

/// The state after the awaited transfer came back with `outcome`: a success
/// moves on, a failure abandons the rest of the iteration.
pub open spec fn poll_complete(s: PollState, outcome: Outcome) -> PollState {
    if !awaiting(s) {
        s
    } else {
        match outcome {
            Ok(_) => PollState { pos: s.pos + 1, stopped: false },
            Err(_) => PollState { pos: cycle_plan().len(), stopped: false },
        }
    }
}

/// What handing back `outcome` in state `s` reports.
pub open spec fn poll_report(s: PollState, outcome: Outcome) -> Result<(), PollIterationFailed> {
    match outcome {
        Err(e) => if awaiting(s) {
            Err(PollIterationFailed { error: failure_of(e) })
        } else {
            Ok(())
        },
        Ok(_) => Ok(()),
    }
}

/// The state after the pause: a new iteration starts.
pub open spec fn poll_woke(s: PollState) -> PollState {
    if s.stopped || s.pos < cycle_plan().len() {
        s
    } else {
        PollState { pos: 0, stopped: false }
    }
}

/// The state after a stop request.
pub open spec fn poll_stop(s: PollState) -> PollState {
    PollState { pos: s.pos, stopped: true }
}

/// Something that happens to the poller.
pub enum PollEvent {
    Completed(Outcome),
    Woke,
    Stop,
}

/// The state after `event`.
pub open spec fn poll_after(s: PollState, event: PollEvent) -> PollState {
    match event {
        PollEvent::Completed(o) => poll_complete(s, o),
        PollEvent::Woke => poll_woke(s),
        PollEvent::Stop => poll_stop(s),
    }
}

/// The state after `events`, one after the other.
pub open spec fn poll_run(s: PollState, events: Seq<PollEvent>) -> PollState
    decreases events.len(),
{
    if events.len() == 0 {
        s
    } else {
        poll_after(poll_run(s, events.drop_last()), events.last())
    }
}

/// Once stopped, the poller never asks for a transfer again, whatever
/// happens after.
pub proof fn lemma_stop_is_final(s: PollState, events: Seq<PollEvent>)
    ensures
        poll_run(poll_stop(s), events).stopped,
        poll_step_of(poll_run(poll_stop(s), events)) == PollStep::Stopped,
    decreases events.len(),
{
    if events.len() > 0 {
        lemma_stop_is_final(s, events.drop_last());
    }
}

/// The handle on a streaming device: it runs the status poller.
pub struct StreamingHandle {
    pos: usize,
    stopped: bool,
}

impl View for StreamingHandle {
    type V = PollState;

    closed spec fn view(&self) -> PollState {
        PollState { pos: self.pos as nat, stopped: self.stopped }
    }
}

fn cycle_transfers() -> (r: Vec<Transfer>)
    ensures
        r@ == cycle_plan(),
{
    let mut r = serial_bus::read_transfers(POLLED_CHIP, FIRST_POLLED);
    r.append(&mut serial_bus::read_transfers(POLLED_CHIP, SECOND_POLLED));
    r
}

impl StreamingHandle {
    #[verifier::type_invariant]
    closed spec fn inv(self) -> bool {
        self.pos <= cycle_plan().len()
    }

    /// A poller about to start its first iteration.
    pub fn new() -> (r: StreamingHandle)
        ensures
            r@ == (PollState { pos: 0, stopped: false }),
    {
        StreamingHandle { pos: 0, stopped: false }
    }

    /// What to do next: a transfer, a pause, or nothing (stopped).
    pub fn next_step(&self) -> (r: PollStep)
        ensures
            r == poll_step_of(self@),
    {
        proof {
            use_type_invariant(self);
        }
        if self.stopped {
            PollStep::Stopped
        } else {
            let cycle = cycle_transfers();
            if self.pos < cycle.len() {
                PollStep::Transfer(cycle[self.pos])
            } else {
                PollStep::Sleep(INTERVAL_MS)
            }
        }
    }

    /// Hands back the outcome of the transfer that `next_step` asked for. A
    /// failure abandons the rest of the iteration and is reported; polling
    /// goes on after the pause.
    pub fn complete(&mut self, outcome: Outcome) -> (r: Result<(), PollIterationFailed>)
        ensures
            final(self)@ == poll_complete(old(self)@, outcome),
            r == poll_report(old(self)@, outcome),
    {
        proof {
            use_type_invariant(&*self);
        }
        let len = cycle_transfers().len();
        if self.stopped || self.pos >= len {
            return Ok(());
        }
        match outcome {
            Ok(_) => {
                self.pos = self.pos + 1;
                Ok(())
            },
            Err(e) => {
                self.pos = len;
                Err(PollIterationFailed { error: serial_bus::classify(e) })
            },
        }
    }

    /// Reports that the pause asked for is over.
    pub fn woke(&mut self)
        ensures
            final(self)@ == poll_woke(old(self)@),
    {
        proof {
            use_type_invariant(&*self);
        }
        let len = cycle_transfers().len();
        if !self.stopped && self.pos >= len {
            self.pos = 0;
        }
    }

    /// Stops the poller: from now on it asks for no transfer.
    pub fn stop(&mut self)
        ensures
            final(self)@ == poll_stop(old(self)@),
    {
        proof {
            use_type_invariant(&*self);
        }
        self.stopped = true;
    }

    /// Whether `stop` was called.
    pub fn is_stopped(&self) -> (r: bool)
        ensures
            r == self@.stopped,
    {
        self.stopped
    }
}

} // verus!
