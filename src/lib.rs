//! Bring-up of a USB analog video/audio capture bridge.
//!
//! The device exposes one indexed register-access primitive (a vendor control
//! transfer). Everything else is layered on it: a GPIO bank, a serial bus
//! bridge to the video decoder and other peripherals, a codec control bridge
//! to the audio codec, and a timing-generator handshake. This crate describes
//! each of those protocols as the exact list of control transfers it issues,
//! and drives the whole bring-up and the later keep-alive polling as state
//! machines: the caller performs each transfer on the real transport, one at
//! a time, and hands the outcome back.
pub mod codec_bus;
pub mod poller;
pub mod registers;
pub mod sequencer;
pub mod serial_bus;
pub mod timing;
pub mod transfer;

pub use poller::{PollIterationFailed, PollStep, StreamingHandle};
pub use registers::set_bits_u8;
pub use sequencer::{BringUp, BringUpAborted, Phase, Step};
pub use serial_bus::BridgeError;
pub use transfer::{Direction, Fault, Outcome, Transfer, TransportError};
