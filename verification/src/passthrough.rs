//! The serial pass-through companion protocol: its control bytes and the
//! 16-bit cyclic redundancy check its frames carry.

use vstd::prelude::*;

verus! {

/// Control bytes of the serial pass-through protocol.
#[derive(Debug, Clone, Copy, PartialEq, Eq, Structural)]
pub enum Command {
    /// Restarts the interface.
    Restart,
    /// Keeps the session alive.
    KeepAlive,
    /// Selects the transfer buffer.
    SetBuffer,
    /// Selects the target address.
    SetAddress,
}

impl Command {
    /// The protocol byte of each control command.
    pub fn code(self) -> (r: u8)
        ensures
            r == match self {
                Command::Restart => 0u8,
                Command::KeepAlive => 0xFDu8,
                Command::SetBuffer => 0xFEu8,
                Command::SetAddress => 0xFFu8,
            },
    {
        match self {
            Command::Restart => 0,
            Command::KeepAlive => 0xFD,
            Command::SetBuffer => 0xFE,
            Command::SetAddress => 0xFF,
        }
    }
}

/// One shift round of the check: the register moves right one bit, and the
/// reflected polynomial 0xA001 is folded in when the incoming bit differs
/// from the bit shifted out.
pub open spec fn crc_round(value: u16, bit: bool) -> u16 {
    let mask = (if bit { 1u16 } else { 0u16 }) ^ (value & 1);
    if mask == 1 {
        (value >> 1) ^ 0xA001
    } else {
        value >> 1
    }
}

/// The register after the low `n` bits of `data`, least significant first,
/// have been shifted in.
pub open spec fn crc_bits(value: u16, data: u8, n: nat) -> u16
    decreases n,
{
    if n == 0 {
        value
    } else {
        crc_round(crc_bits(value, data, (n - 1) as nat), (data >> ((n - 1) as u8)) & 1 == 1)
    }
}

/// The running 16-bit cyclic redundancy check of a pass-through frame.
#[derive(Debug, Clone, Copy, PartialEq, Eq, Structural)]
pub struct CRC {
    value: u16,
}

impl CRC {
    /// The register's current value.
    pub closed spec fn spec_value(self) -> u16 {
        self.value
    }

    /// A register cleared to the protocol's initial value.
    pub fn new() -> (r: Self)
        ensures
            r.spec_value() == 0,
    {
        CRC { value: 0 }
    }

    /// Shifts one byte into the register, least significant bit first.
    pub fn next(&mut self, data: u8)
        ensures
            final(self).spec_value() == crc_bits(old(self).spec_value(), data, 8),
    {
        let ghost start = self.value;
        let mut d = data;
        let mut i: usize = 0;
        assert(data >> 0u8 == data) by (bit_vector);
        while i < 8
            invariant
                i <= 8,
                d == data >> (i as u8),
                self.value == crc_bits(start, data, i as nat),
            decreases 8 - i,
        {
            let ghost bit = (data >> (i as u8)) & 1 == 1;
            proof {
                assert((d & 0x01) as u16 == (if (data >> (i as u8)) & 1 == 1 {
                    1u16
                } else {
                    0u16
                })) by (bit_vector)
                    requires
                        d == data >> (i as u8),
                ;
                assert(d >> 1 == data >> ((i + 1) as u8)) by (bit_vector)
                    requires
                        d == data >> (i as u8) && i < 8,
                ;
            }
            let ghost v = self.value;
            let mask = (d & 0x01) as u16 ^ (self.value & 0x0001);
            proof {
                assert(mask == 1 || mask == 0) by (bit_vector)
                    requires
                        mask == (d & 0x01) as u16 ^ (v & 0x0001),
                ;
            }
            self.value >>= 1;
            if mask > 0 {
                self.value ^= 0xA001;
            }
            d >>= 1;
            i += 1;
            assert(self.value == crc_round(crc_bits(start, data, (i - 1) as nat), bit));
        }
    }

    /// Yields the finished check value.
    pub fn drain(self) -> (r: u16)
        ensures
            r == self.spec_value(),
    {
        self.value
    }
}

} // verus!
