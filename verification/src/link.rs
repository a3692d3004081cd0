//! The link controller: per-frame cadence, the arm handshake, and the
//! application-facing command path.
//!
//! The controller is a pure state machine. The caller owns the loop: each
//! cadence tick it asks the controller which wire frame to put on the line,
//! and on a bidirectional link it hands the captured words back afterwards.
//! Frames leave strictly in call order; a reply belongs to the frame sent
//! just before it.

use crate::api::command::Command;
use crate::api::command::CommandError;
use crate::api::command::command_code;
use crate::api::command::command_valid;
use crate::api::command::encode;
use crate::api::frame::Frame;
use crate::api::frame::FrameBuilder;
use crate::api::frame::frame_bits;
use crate::api::frame::lemma_wire_code;
use crate::api::frame::wire_code;
use crate::telemetry::CAPTURE_WORDS;
use crate::telemetry::TelemetryFrame;
use crate::telemetry::collect;
use vstd::prelude::*;

verus! {

/// The protocol's standard speed tiers.
#[derive(Debug, Clone, Copy, PartialEq, Eq, Structural)]
pub enum RateTier {
    /// 150 kbit/s.
    Slow,
    /// 300 kbit/s, the baseline this crate's engine table is written for.
    Mid,
    /// 600 kbit/s.
    Fast,
}

impl RateTier {
    /// The tier's protocol bit rate, bits per second.
    pub fn bit_rate_hz(self) -> (r: u64)
        ensures
            r == match self {
                RateTier::Slow => 150_000u64,
                RateTier::Mid => 300_000u64,
                RateTier::Fast => 600_000u64,
            },
    {
        match self {
            RateTier::Slow => 150_000,
            RateTier::Mid => 300_000,
            RateTier::Fast => 600_000,
        }
    }
}

/// The configuration surface of one link instance.
#[derive(Debug, Clone, Copy, PartialEq, Eq, Structural)]
pub struct LinkConfig {
    /// The speed tier the engine is clocked for.
    pub rate: RateTier,
    /// Whether the line is half-duplex with telemetry replies.
    pub bidirectional: bool,
    /// Whether the arm handshake switches the ESC's extended telemetry on.
    pub extended_telemetry: bool,
    /// Whether frames carry the bit-complemented checksum. The protocol
    /// requires this whenever the link is bidirectional.
    pub inverted_checksum: bool,
    /// Zero-throttle frames the arm handshake must run; an ESC-firmware
    /// convention, so configurable rather than fixed.
    pub arm_stop_frames: u32,
    /// Forward-direction frames sent after the zero-throttle run, before the
    /// link settles to idle.
    pub arm_settle_frames: u32,
}

impl LinkConfig {
    /// A configuration is well formed when the inverted checksum is on
    /// wherever the protocol demands it, the arm run is non-empty, and the
    /// handshake length leaves the progress counter room.
    pub open spec fn wf(self) -> bool {
        &&& self.bidirectional ==> self.inverted_checksum
        &&& self.arm_stop_frames >= 1
        &&& self.arm_stop_frames < 0x4000_0000
        &&& self.arm_settle_frames < 0x4000_0000
    }
}

/// The observable phase of a link.
#[derive(Debug, Clone, Copy, PartialEq, Eq, Structural)]
pub enum LinkState {
    /// Created; the engine is not running yet.
    Uninitialized,
    /// Running the one-time mode setup and the arm handshake.
    Configuring,
    /// Armed, holding zero throttle between active commands.
    Idle,
    /// Armed and re-sending an active command at cadence.
    Streaming,
    /// A bidirectional receive window elapsed empty; transient, recovery
    /// always returns the link to idle.
    Stalled,
}

/// Frames the configuring phase emits in total: the optional one-time
/// extended-telemetry enable, the zero-throttle run, the settle burst.
pub open spec fn arm_total(cfg: LinkConfig) -> int {
    (if cfg.extended_telemetry { 1int } else { 0int }) + cfg.arm_stop_frames + cfg.arm_settle_frames
}

/// The code the configuring phase emits at position `p`: the
/// extended-telemetry enable first if configured, then zero throttle for the
/// arm run, then forward direction for the settle burst.
pub open spec fn config_code(cfg: LinkConfig, p: int) -> u16 {
    let et: int = if cfg.extended_telemetry { 1 } else { 0 };
    if cfg.extended_telemetry && p == 0 {
        13
    } else if p < et + cfg.arm_stop_frames {
        0
    } else {
        20
    }
}

/// The wire frame the link builds for a code under its configuration:
/// telemetry is requested, and the checksum complemented, per the
/// configuration flags.
pub open spec fn link_frame(cfg: LinkConfig, code: u16) -> u16 {
    frame_bits(code, cfg.bidirectional, cfg.inverted_checksum)
}

/// Packs one wire frame for a code under a configuration.
pub fn build_link_frame(cfg: &LinkConfig, code: u16) -> (r: u16)
    ensures
        r == link_frame(*cfg, code),
{
    let frame = Frame::new(code, cfg.bidirectional);
    let builder = FrameBuilder::new(frame);
    let builder = if cfg.inverted_checksum {
        builder.invert()
    } else {
        builder
    };
    builder.build()
}

/// Drives one line instance: owns the cadence, the arm handshake and the
/// stall recovery, and decides every frame that leaves.
#[derive(Debug, Clone, Copy, PartialEq, Eq, Structural)]
pub struct LinkController {
    /// The configuration the link was opened with.
    pub config: LinkConfig,
    /// The phase the link is in.
    pub state: LinkState,
    /// Frames of the configuring phase already emitted.
    pub progress: u32,
    /// The code of the active command, re-sent while streaming.
    pub current: u16,
}

/// The controller after one cadence tick: the configuring phase advances by
/// one frame and settles to idle when its run completes; an armed link is
/// unchanged by ticking.
pub open spec fn spec_tick_state(s: LinkController) -> LinkController {
    if s.state == LinkState::Configuring {
        LinkController {
            progress: (s.progress + 1) as u32,
            state: if s.progress + 1 == arm_total(s.config) {
                LinkState::Idle
            } else {
                LinkState::Configuring
            },
            ..s
        }
    } else {
        s
    }
}

/// The controller after `n` cadence ticks.
pub open spec fn run_ticks(s: LinkController, n: nat) -> LinkController
    decreases n,
{
    if n == 0 {
        s
    } else {
        run_ticks(spec_tick_state(s), (n - 1) as nat)
    }
}

impl LinkController {
    /// The controller's invariant: its configuration is well formed, the
    /// active code fits eleven bits, and the configuring phase has not
    /// outrun its schedule.
    pub open spec fn wf(self) -> bool {
        &&& self.config.wf()
        &&& self.current <= 2047
        &&& self.state == LinkState::Configuring ==> self.progress < arm_total(self.config)
    }

    /// Opens a link; nothing runs until `start`.
    pub fn new(config: LinkConfig) -> (r: Self)
        requires
            config.wf(),
        ensures
            r.wf(),
            r == (LinkController {
                config,
                state: LinkState::Uninitialized,
                progress: 0,
                current: 0,
            }),
    {
        LinkController { config, state: LinkState::Uninitialized, progress: 0, current: 0 }
    }

    /// Starts the engine: the link enters the configuring phase, whose
    /// cadence ticks will run the arm handshake.
    pub fn start(&mut self)
        requires
            old(self).wf(),
            old(self).state == LinkState::Uninitialized,
            old(self).progress == 0,
        ensures
            final(self).wf(),
            *final(self) == (LinkController { state: LinkState::Configuring, ..*old(self) }),
    {
        self.state = LinkState::Configuring;
    }

    /// One cadence tick: the frame to put on the wire now. While
    /// configuring, this runs the arm handshake one frame at a time and
    /// settles to idle when the run completes; an armed link re-sends its
    /// standing code — zero throttle when idle — to keep the ESC's command
    /// watchdog fed.
    pub fn tick(&mut self) -> (frame: u16)
        requires
            old(self).wf(),
            old(self).state != LinkState::Uninitialized,
            old(self).state != LinkState::Stalled,
        ensures
            final(self).wf(),
            *final(self) == spec_tick_state(*old(self)),
            old(self).state == LinkState::Configuring ==> frame == link_frame(
                old(self).config,
                config_code(old(self).config, old(self).progress as int),
            ),
            old(self).state == LinkState::Idle ==> frame == link_frame(old(self).config, 0),
            old(self).state == LinkState::Streaming ==> frame == link_frame(
                old(self).config,
                old(self).current,
            ),
    {
        match self.state {
            LinkState::Configuring => {
                let et: u32 = if self.config.extended_telemetry {
                    1
                } else {
                    0
                };
                let code: u16 = if self.config.extended_telemetry && self.progress == 0 {
                    13
                } else if self.progress < et + self.config.arm_stop_frames {
                    0
                } else {
                    20
                };
                let frame = build_link_frame(&self.config, code);
                self.progress = self.progress + 1;
                if self.progress == et + self.config.arm_stop_frames + self.config.arm_settle_frames {
                    self.state = LinkState::Idle;
                }
                frame
            },
            LinkState::Idle => build_link_frame(&self.config, 0),
            _ => build_link_frame(&self.config, self.current),
        }
    }

    /// Sends one command. An invalid command is refused before any wire
    /// activity. Before the link is armed the command is pre-empted: the arm
    /// handshake's own frame leaves instead and the command is dropped, so
    /// no early throttle can reach the motor. Once armed, the command's
    /// frame leaves and becomes the standing code the cadence re-sends:
    /// zero throttle keeps the link idle, anything else streams.
    pub fn send(&mut self, command: Command) -> (r: Result<u16, CommandError>)
        requires
            old(self).wf(),
            old(self).state != LinkState::Uninitialized,
            old(self).state != LinkState::Stalled,
        ensures
            final(self).wf(),
            !command_valid(command) ==> r == Err::<u16, CommandError>(CommandError::Invalid)
                && *final(self) == *old(self),
            command_valid(command) && old(self).state == LinkState::Configuring ==> {
                &&& r == Ok::<u16, CommandError>(link_frame(
                    old(self).config,
                    config_code(old(self).config, old(self).progress as int),
                ))
                &&& *final(self) == spec_tick_state(*old(self))
            },
            command_valid(command) && (old(self).state == LinkState::Idle || old(self).state
                == LinkState::Streaming) ==> {
                &&& r == Ok::<u16, CommandError>(link_frame(old(self).config, command_code(command)))
                &&& *final(self) == (LinkController {
                    current: command_code(command),
                    state: if command_code(command) == 0 {
                        LinkState::Idle
                    } else {
                        LinkState::Streaming
                    },
                    ..*old(self)
                })
            },
    {
        let code = match encode(command) {
            Ok(code) => code,
            Err(e) => {
                return Err(e);
            },
        };
        match self.state {
            LinkState::Configuring => Ok(self.tick()),
            _ => {
                self.current = code;
                self.state = if code == 0 {
                    LinkState::Idle
                } else {
                    LinkState::Streaming
                };
                Ok(build_link_frame(&self.config, code))
            },
        }
    }

    /// Marks the receive window of the last bidirectional frame as having
    /// elapsed empty.
    pub fn note_stall(&mut self)
        requires
            old(self).wf(),
            old(self).config.bidirectional,
            old(self).state == LinkState::Idle || old(self).state == LinkState::Streaming,
        ensures
            final(self).wf(),
            *final(self) == (LinkController { state: LinkState::Stalled, ..*old(self) }),
    {
        self.state = LinkState::Stalled;
    }

    /// Resynchronizes after a stall: the link returns to its transmit entry
    /// point, ready for the next send. Unconditional, and free of side
    /// effects beyond restoring transmit readiness.
    pub fn resync(&mut self)
        requires
            old(self).wf(),
            old(self).state == LinkState::Stalled,
        ensures
            final(self).wf(),
            *final(self) == (LinkController { state: LinkState::Idle, ..*old(self) }),
    {
        self.state = LinkState::Idle;
    }

    /// Consumes the receive outcome of the last bidirectional frame: a full
    /// capture becomes a telemetry frame carrying exactly the captured
    /// words; anything less is a stall, reported as absence, after which the
    /// link stands at idle again — never stalled for good — and the next
    /// send proceeds normally.
    pub fn on_receive(&mut self, words: &Vec<u32>) -> (r: Option<TelemetryFrame>)
        requires
            old(self).wf(),
            old(self).config.bidirectional,
            old(self).state == LinkState::Idle || old(self).state == LinkState::Streaming,
        ensures
            final(self).wf(),
            words@.len() == CAPTURE_WORDS ==> *final(self) == *old(self),
            words@.len() != CAPTURE_WORDS ==> *final(self) == (LinkController {
                state: LinkState::Idle,
                ..*old(self)
            }),
            r is Some <==> words@.len() == CAPTURE_WORDS,
            r matches Some(t) ==> t.wf() && t.words@ == words@,
    {
        match collect(words) {
            Some(t) => Some(t),
            None => {
                self.note_stall();
                self.resync();
                None
            },
        }
    }
}

/// Arm handshake completion: from anywhere in the configuring phase, the
/// link is armed — idle, accepting streaming commands — after exactly the
/// remaining count of cadence ticks, and at no tick before that.
pub proof fn lemma_arm_completion(s: LinkController, n: nat)
    requires
        s.wf(),
        s.state == LinkState::Configuring,
        n == arm_total(s.config) - s.progress,
    ensures
        run_ticks(s, n).state == LinkState::Idle,
        forall|k: nat| k < n ==> (#[trigger] run_ticks(s, k)).state == LinkState::Configuring,
    decreases n,
{
    let s1 = spec_tick_state(s);
    if s.progress + 1 == arm_total(s.config) {
        assert(run_ticks(s1, 0) == s1);
        assert forall|k: nat| k < n implies (#[trigger] run_ticks(s, k)).state
            == LinkState::Configuring by {
            assert(k == 0);
        }
    } else {
        lemma_arm_completion(s1, (n - 1) as nat);
        assert forall|k: nat| k < n implies (#[trigger] run_ticks(s, k)).state
            == LinkState::Configuring by {
            if k > 0 {
                assert(run_ticks(s, k) == run_ticks(s1, (k - 1) as nat));
            }
        }
    }
}

/// No throttle can leave before arming: every frame the configuring phase
/// emits — by cadence tick or by a pre-empted send — carries a code below
/// 48, the smallest throttle code, observable as such in its upper bits.
pub proof fn lemma_config_frames_below_throttle(cfg: LinkConfig, p: int)
    ensures
        config_code(cfg, p) < 48,
        wire_code(link_frame(cfg, config_code(cfg, p))) < 48,
{
    lemma_wire_code(config_code(cfg, p), cfg.bidirectional, cfg.inverted_checksum);
}

} // verus!
