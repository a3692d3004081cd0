//! Driver core for the DShot ESC protocol: typed commands, the 16-bit wire
//! frame with its checksum nibble, the bit-level timing table of the signal
//! engine, bidirectional telemetry capture, and the link state machine that
//! drives arming, cadence and stall recovery.
//!
//! Everything here is pure: the hardware that shifts the waveform out and
//! samples the return line lives outside this crate and talks to it through
//! plain values (frames, captured words, ticks).

pub mod api;
pub mod engine;
pub mod link;
pub mod passthrough;
pub mod telemetry;

use vstd::prelude::*;

verus! {

/// A transmitter for DShot frames. Implementations own the physical line;
/// this crate only decides which frames they carry.
pub trait DshotTx {
    /// What a completed exchange hands back (nothing for a unidirectional
    /// line, captured telemetry words for a bidirectional one).
    type Output;

    /// Enables the transmitter.
    fn entry(&mut self);

    /// Queues one 16-bit wire frame.
    fn send_frame(&mut self, frame: u16);

    /// Encodes and queues one command.
    fn send_command(&mut self, command: api::Command);

    /// Takes whatever the line returned for the last frame.
    fn drain(&mut self) -> Self::Output;
}

} // verus!
