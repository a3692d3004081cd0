//! Typed motor commands and their translation to 11-bit protocol codes.

use vstd::prelude::*;

verus! {

/// Why a command was refused before anything reached the wire.
#[derive(Debug, Clone, Copy, PartialEq, Eq, Structural)]
pub enum CommandError {
    /// A field was out of its allowed range.
    Invalid,
}

/// One request to the ESC. Immutable once constructed; validation happens
/// when a command is encoded, never on the wire.
#[derive(Debug, Clone, Copy, PartialEq, Eq, Structural)]
pub enum Command {
    /// Zero throttle; also the frame the arm sequence repeats.
    MotorStop,
    /// Switches the ESC's extended telemetry on or off.
    ExtendedTelemetry { enabled: bool },
    /// Sounds the motor `count` times; `count` must lie in `1..=5`.
    Beep { count: u8 },
    /// Asks the ESC to report its firmware information.
    EscInfo,
    /// Selects reversed (`true`) or normal (`false`) rotation.
    Reverse(bool),
    /// Switches LED `id` (`0..=3`) on or off.
    Led { id: u8, enabled: bool },
    /// Sets the throttle, `0..=1999`.
    Throttle(u16),
}

/// Whether every field of `c` lies in its allowed range.
pub open spec fn command_valid(c: Command) -> bool {
    match c {
        Command::Beep { count } => 1 <= count && count <= 5,
        Command::Led { id, enabled: _ } => id <= 3,
        Command::Throttle(throttle) => throttle <= 1999,
        _ => true,
    }
}

/// The protocol's code table. Meaningful only for valid commands.
pub open spec fn command_code(c: Command) -> u16 {
    match c {
        Command::MotorStop => 0,
        Command::ExtendedTelemetry { enabled } => if enabled { 13 } else { 14 },
        Command::Beep { count } => count as u16,
        Command::EscInfo => 6,
        Command::Reverse(rev) => if rev { 21 } else { 20 },
        Command::Led { id, enabled } => ((if enabled { 22int } else { 26int }) + id) as u16,
        Command::Throttle(throttle) => (throttle + 48) as u16,
    }
}

/// Translates a command to its 11-bit protocol code, or refuses it.
///
/// Every valid command maps to the table exactly, and every code fits in
/// 11 bits; an invalid command never produces a code.
pub fn encode(command: Command) -> (r: Result<u16, CommandError>)
    ensures
        command_valid(command) ==> r == Ok::<u16, CommandError>(command_code(command)),
        command_valid(command) ==> command_code(command) <= 2047,
        !command_valid(command) ==> r == Err::<u16, CommandError>(CommandError::Invalid),
{
    let code: u16 = match command {
        Command::MotorStop => 0,
        Command::ExtendedTelemetry { enabled } => if enabled { 13 } else { 14 },
        Command::Beep { count } => {
            if count < 1 || count > 5 {
                return Err(CommandError::Invalid);
            }
            count as u16
        },
        Command::EscInfo => 6,
        Command::Reverse(rev) => if rev { 21 } else { 20 },
        Command::Led { id, enabled } => {
            if id > 3 {
                return Err(CommandError::Invalid);
            }
            let base: u16 = if enabled { 22 } else { 26 };
            base + id as u16
        },
        Command::Throttle(throttle) => {
            if throttle > 1999 {
                return Err(CommandError::Invalid);
            }
            throttle + 48
        },
    };
    Ok(code)
}

} // verus!
