//! The 16-bit wire frame: 11-bit command code, telemetry-request flag, and
//! 4-bit checksum, with the inverted-checksum mode bidirectional links need.

use vstd::prelude::*;

verus! {

/// The payload of a wire frame: the protocol code and the telemetry-request
/// flag, before the checksum is attached.
#[derive(Debug, Clone, Copy, PartialEq, Eq, Structural)]
pub struct Frame {
    /// The 11-bit protocol code.
    pub command: u16,
    /// Whether this frame asks the ESC for a telemetry reply.
    pub telemetry: bool,
}

/// The 12-bit payload word: the code shifted left once, with the telemetry
/// flag in bit 0.
pub open spec fn raw_bits(command: u16, telemetry: bool) -> u16 {
    (command << 1) | (if telemetry { 1u16 } else { 0u16 })
}

/// The checksum nibble: XOR-fold of the payload's three nibble groups,
/// bit-complemented first in inverted mode, then masked to 4 bits.
pub open spec fn checksum_bits(raw: u16, inverted: bool) -> u16 {
    if inverted {
        !(raw ^ (raw >> 4) ^ (raw >> 8)) & 0xf
    } else {
        (raw ^ (raw >> 4) ^ (raw >> 8)) & 0xf
    }
}

/// The packed wire frame: payload in bits 15..4, checksum in bits 3..0.
pub open spec fn frame_bits(command: u16, telemetry: bool, inverted: bool) -> u16 {
    (raw_bits(command, telemetry) << 4) | checksum_bits(raw_bits(command, telemetry), inverted)
}

/// The 11-bit command code a packed frame carries in its bits 15..5.
pub open spec fn wire_code(frame: u16) -> u16 {
    (frame >> 5) & 0x7ff
}

impl Frame {
    /// Bundles a code and a telemetry flag into a frame payload.
    pub fn new(command: u16, telemetry: bool) -> (r: Self)
        ensures
            r.command == command,
            r.telemetry == telemetry,
    {
        Frame { command, telemetry }
    }

    /// The non-inverted checksum nibble of this payload.
    pub fn checksum(&self) -> (r: u16)
        ensures
            r == checksum_bits(raw_bits(self.command, self.telemetry), false),
    {
        let frame = (self.command << 1) | (if self.telemetry { 1u16 } else { 0u16 });
        let mut ret = frame;
        ret ^= frame >> 4;
        ret ^= frame >> 8;
        ret &= 0x0F;
        ret
    }
}

/// Packs a frame payload into the 16-bit wire value, optionally with the
/// complemented checksum required on bidirectional links.
#[derive(Debug, Clone, Copy, PartialEq, Eq, Structural)]
pub struct FrameBuilder {
    frame: Frame,
    inverted: bool,
}

impl FrameBuilder {
    /// The payload this builder packs.
    pub closed spec fn spec_frame(self) -> Frame {
        self.frame
    }

    /// Whether the checksum will be bit-complemented.
    pub closed spec fn spec_inverted(self) -> bool {
        self.inverted
    }

    /// Starts a builder in the plain (non-inverted) checksum mode.
    pub fn new(frame: Frame) -> (r: Self)
        ensures
            r.spec_frame() == frame,
            !r.spec_inverted(),
    {
        FrameBuilder { frame, inverted: false }
    }

    /// Switches the builder to the inverted-checksum mode.
    pub fn invert(self) -> (r: Self)
        ensures
            r.spec_frame() == self.spec_frame(),
            r.spec_inverted(),
    {
        FrameBuilder { frame: self.frame, inverted: true }
    }

    /// Packs the wire frame: payload shifted into the upper 12 bits, checksum
    /// nibble in the lower 4.
    pub fn build(self) -> (r: u16)
        ensures
            r == frame_bits(self.spec_frame().command, self.spec_frame().telemetry, self.spec_inverted()),
    {
        let frame = self.frame;
        let mut frame = (frame.command << 1) | (if frame.telemetry { 1u16 } else { 0u16 });
        let crc = {
            let mut ret = frame;
            ret ^= frame >> 4;
            ret ^= frame >> 8;
            if self.inverted {
                ret = !ret;
            }
            ret &= 0x0F;
            ret
        };
        frame <<= 4;
        frame |= crc;
        frame
    }
}

/// The checksum survives packing: recomputing the XOR-fold from a packed
/// frame's upper 12 bits gives the frame's low nibble back, and in inverted
/// mode its bit-complement.
pub proof fn lemma_checksum_round_trip(command: u16, telemetry: bool)
    requires
        command <= 2047,
    ensures
        checksum_bits(frame_bits(command, telemetry, false) >> 4, false)
            == frame_bits(command, telemetry, false) & 0xf,
        checksum_bits(frame_bits(command, telemetry, true) >> 4, false)
            == !frame_bits(command, telemetry, true) & 0xf,
{
    assert(checksum_bits(frame_bits(command, telemetry, false) >> 4, false)
            == frame_bits(command, telemetry, false) & 0xf
        && checksum_bits(frame_bits(command, telemetry, true) >> 4, false)
            == !frame_bits(command, telemetry, true) & 0xf) by (bit_vector)
        requires
            command <= 2047,
    ;
}

/// Packing is faithful to the code: a packed frame carries the command code
/// it was built from in its upper 11 bits.
pub proof fn lemma_wire_code(command: u16, telemetry: bool, inverted: bool)
    requires
        command <= 2047,
    ensures
        wire_code(frame_bits(command, telemetry, inverted)) == command,
{
    assert(wire_code(frame_bits(command, telemetry, inverted)) == command) by (bit_vector)
        requires
            command <= 2047,
    ;
}

} // verus!
