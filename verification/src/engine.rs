//! The signal engine's timing contract: how a 16-bit frame becomes a
//! waveform on the line, and the budgets of the bidirectional turnaround.
//!
//! One canonical timing table is used, the mid-speed protocol tier run at a
//! five-fold timer resolution, so one bit slot spans 40 engine ticks. A
//! logic-one bit holds the line at its mark level for 30 of them (75% of the
//! slot), a logic-zero bit for 15 (37.5%); the remainder of the slot idles.
//! Any mechanism that reproduces this table (a timer loop, DMA, a
//! micro-sequencer) satisfies the engine.

use vstd::prelude::*;

verus! {

/// Protocol bit rate of the mid-speed tier, bits per second.
pub const BIT_RATE_HZ: u64 = 300_000;

/// Engine ticks in one bit slot: the bit rate run at five-fold resolution of
/// the protocol's eight-fold baseline sampling.
pub const TICKS_PER_BIT: u32 = 40;

/// Engine ticks per second for the mid-speed tier.
pub const ENGINE_TICK_HZ: u64 = 12_000_000;

/// Ticks at mark level for a logic-one bit: 75% of the slot.
pub const MARK_TICKS_ONE: u32 = 30;

/// Ticks at mark level for a logic-zero bit: 37.5% of the slot.
pub const MARK_TICKS_ZERO: u32 = 15;

/// Data bits in one frame.
pub const FRAME_BITS: u32 = 16;

/// Ticks a frame's sixteen bit slots take.
pub const FRAME_TICKS: u32 = 640;

/// Ticks the engine spends fetching the next frame word before its first bit.
pub const FETCH_TICKS: u32 = 3;

/// Idle ticks appended after the data bits so consecutive frames are evenly
/// spaced regardless of payload.
pub const IDLE_TICKS: u32 = 637;

/// Ticks the bidirectional engine grants the ESC to take over the line after
/// a transmission, before it starts listening.
pub const SWITCH_TICKS: u32 = 320;

/// Ticks the bidirectional engine listens for the start of a reply before it
/// declares a stall: 30 microseconds.
pub const GUARD_TICKS: u32 = 360;

/// Bit `i` of a frame in transmission order: the most significant bit is
/// sent first.
pub open spec fn frame_bit(frame: u16, i: int) -> bool {
    (frame >> ((15 - i) as u16)) & 1 == 1
}

/// The word the engine shifts out for a frame. A bidirectional line idles
/// high and is driven bit-complemented, so every data bit is complemented
/// before it reaches the shifter.
pub fn line_word(frame: u16, bidirectional: bool) -> (r: u16)
    ensures
        r == if bidirectional { !frame } else { frame },
{
    if bidirectional {
        !frame
    } else {
        frame
    }
}

/// Ticks at mark level within the slot of one bit.
pub fn mark_ticks(bit: bool) -> (r: u32)
    ensures
        r == if bit { MARK_TICKS_ONE } else { MARK_TICKS_ZERO },
{
    if bit {
        MARK_TICKS_ONE
    } else {
        MARK_TICKS_ZERO
    }
}

/// The waveform of one frame word: for each bit in transmission order, the
/// ticks at mark level and the ticks idling, filling a 40-tick slot.
pub fn waveform(word: u16) -> (r: Vec<(u32, u32)>)
    ensures
        r@.len() == FRAME_BITS,
        forall|i: int| 0 <= i < 16 ==> (#[trigger] r@[i]).0
            == if frame_bit(word, i) { MARK_TICKS_ONE } else { MARK_TICKS_ZERO },
        forall|i: int| 0 <= i < 16 ==> (#[trigger] r@[i]).0 + r@[i].1 == TICKS_PER_BIT,
{
    let mut slots: Vec<(u32, u32)> = Vec::new();
    let mut i: usize = 0;
    while i < 16
        invariant
            i <= 16,
            slots@.len() == i,
            forall|j: int| 0 <= j < i ==> (#[trigger] slots@[j]).0
                == if frame_bit(word, j) { MARK_TICKS_ONE } else { MARK_TICKS_ZERO },
            forall|j: int| 0 <= j < i ==> (#[trigger] slots@[j]).0 + slots@[j].1 == TICKS_PER_BIT,
        decreases 16 - i,
    {
        let shift = (15 - i) as u16;
        let bit = (word >> shift) & 1 == 1;
        let mark = mark_ticks(bit);
        slots.push((mark, TICKS_PER_BIT - mark));
        assert(bit == frame_bit(word, i as int));
        i += 1;
    }
    slots
}

/// The timer divider, in 1/256ths, that derives an engine tick rate from the
/// system clock, rounded down as the hardware's fixed-point divider does.
pub fn clock_divider_256ths(clock_hz: u64, tick_hz: u64) -> (r: u64)
    requires
        tick_hz > 0,
        clock_hz < 0x100_0000_0000_0000,
    ensures
        r == clock_hz * 256 / (tick_hz as int),
{
    clock_hz * 256 / tick_hz
}

/// The timing table keeps the protocol's duty-cycle contract: within its
/// 40-tick slot a one-bit marks for three quarters, a zero-bit for three
/// eighths, and the tick rate realises the tier's bit rate.
pub proof fn lemma_duty_cycle()
    ensures
        4 * MARK_TICKS_ONE == 3 * TICKS_PER_BIT,
        8 * MARK_TICKS_ZERO == 3 * TICKS_PER_BIT,
        ENGINE_TICK_HZ == BIT_RATE_HZ * TICKS_PER_BIT as u64,
{
}

/// Consecutive frames are evenly spaced: the fetch preamble, the sixteen bit
/// slots and the idle padding together span exactly two nominal frame
/// durations, and the padding covers what the preamble leaves owed.
pub proof fn lemma_frame_spacing()
    ensures
        FRAME_BITS * TICKS_PER_BIT == FRAME_TICKS,
        FETCH_TICKS + FRAME_TICKS + IDLE_TICKS == 2 * FRAME_TICKS,
        IDLE_TICKS >= FRAME_TICKS - FETCH_TICKS,
{
}

/// The turnaround budget of a bidirectional exchange: the line is released
/// for 320 ticks and then watched for at most 360 more, so a stall is
/// declared within 57 microseconds of the last data bit, and never blocks.
pub proof fn lemma_guard_interval()
    ensures
        GUARD_TICKS as u64 * 1_000_000 == 30 * ENGINE_TICK_HZ,
        (SWITCH_TICKS + GUARD_TICKS) as u64 * 1_000_000 <= 57 * ENGINE_TICK_HZ,
{
}

} // verus!
