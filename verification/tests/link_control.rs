use penguin_dshot::api::Command;
use penguin_dshot::api::CommandError;
use penguin_dshot::link::build_link_frame;
use penguin_dshot::link::LinkConfig;
use penguin_dshot::link::LinkController;
use penguin_dshot::link::LinkState;
use penguin_dshot::link::RateTier;

fn bidir_config(arm_stop_frames: u32, arm_settle_frames: u32) -> LinkConfig {
    LinkConfig {
        rate: RateTier::Mid,
        bidirectional: true,
        extended_telemetry: true,
        inverted_checksum: true,
        arm_stop_frames,
        arm_settle_frames,
    }
}

fn unidir_config(arm_stop_frames: u32) -> LinkConfig {
    LinkConfig {
        rate: RateTier::Mid,
        bidirectional: false,
        extended_telemetry: false,
        inverted_checksum: false,
        arm_stop_frames,
        arm_settle_frames: 0,
    }
}

#[test]
fn rate_tiers() {
    assert_eq!(RateTier::Slow.bit_rate_hz(), 150_000);
    assert_eq!(RateTier::Mid.bit_rate_hz(), 300_000);
    assert_eq!(RateTier::Fast.bit_rate_hz(), 600_000);
}

#[test]
fn link_frames_for_known_codes() {
    let bidir = bidir_config(1, 0);
    // Telemetry bit set, checksum complemented.
    assert_eq!(build_link_frame(&bidir, 0), 0x001E);
    assert_eq!(build_link_frame(&bidir, 13), 0x01B5);
    assert_eq!(build_link_frame(&bidir, 20), 0x0294);
    assert_eq!(build_link_frame(&bidir, 168), 0x151A);

    let unidir = unidir_config(1);
    assert_eq!(build_link_frame(&unidir, 0), 0x0000);
    assert_eq!(build_link_frame(&unidir, 168), 0x1504);
}

#[test]
fn arm_scenario_counts_stop_frames_then_settles() {
    let cfg = bidir_config(5, 2);
    let mut link = LinkController::new(cfg);
    assert_eq!(link.state, LinkState::Uninitialized);
    link.start();

    // One extended-telemetry enable, five zero-throttle frames, two
    // forward-direction frames: armed after eight ticks, not before.
    let mut frames = Vec::new();
    for _ in 0..7 {
        assert_eq!(link.state, LinkState::Configuring);
        frames.push(link.tick());
    }
    frames.push(link.tick());
    assert_eq!(link.state, LinkState::Idle);

    assert_eq!(frames[0], build_link_frame(&cfg, 13));
    for k in 1..=5 {
        assert_eq!(frames[k], build_link_frame(&cfg, 0));
    }
    assert_eq!(frames[6], build_link_frame(&cfg, 20));
    assert_eq!(frames[7], build_link_frame(&cfg, 20));
}

#[test]
fn throttle_before_arm_is_preempted() {
    let cfg = unidir_config(3);
    let mut link = LinkController::new(cfg);
    link.start();

    // A throttle sent while configuring yields the arm sequence's own
    // frame: nothing with a code in the throttle range reaches the wire.
    let frame = link.send(Command::Throttle(500)).unwrap();
    assert!((frame >> 5) & 0x7FF < 48);
    assert_eq!(frame, build_link_frame(&cfg, 0));
    assert_eq!(link.state, LinkState::Configuring);
    assert_eq!(link.current, 0);

    link.tick();
    let frame = link.tick();
    assert_eq!(link.state, LinkState::Idle);
    assert_eq!(frame, build_link_frame(&cfg, 0));

    // Armed now: the same command leaves as a real throttle frame.
    let frame = link.send(Command::Throttle(500)).unwrap();
    assert_eq!((frame >> 5) & 0x7FF, 548);
    assert_eq!(link.state, LinkState::Streaming);
}

#[test]
fn invalid_command_is_refused_without_wire_activity() {
    let mut link = LinkController::new(unidir_config(1));
    link.start();
    let before = link;
    assert_eq!(link.send(Command::Throttle(2000)), Err(CommandError::Invalid));
    assert_eq!(link, before);
}

#[test]
fn armed_cadence_resends_standing_code() {
    let cfg = unidir_config(1);
    let mut link = LinkController::new(cfg);
    link.start();
    link.tick();
    assert_eq!(link.state, LinkState::Idle);

    // Idle keeps the watchdog fed with zero throttle.
    assert_eq!(link.tick(), build_link_frame(&cfg, 0));

    link.send(Command::Throttle(120)).unwrap();
    assert_eq!(link.state, LinkState::Streaming);
    assert_eq!(link.tick(), build_link_frame(&cfg, 168));
    assert_eq!(link.tick(), build_link_frame(&cfg, 168));

    // Zero throttle returns the link to idle.
    link.send(Command::MotorStop).unwrap();
    assert_eq!(link.state, LinkState::Idle);
}

#[test]
fn stall_scenario_recovers_to_idle() {
    let cfg = bidir_config(1, 0);
    let mut link = LinkController::new(cfg);
    link.start();
    link.tick();
    link.tick();
    assert_eq!(link.state, LinkState::Idle);

    link.send(Command::Throttle(120)).unwrap();
    assert_eq!(link.state, LinkState::Streaming);

    // Empty receive window: absent telemetry, and the link stands at idle
    // again, not stalled for good.
    let empty: Vec<u32> = vec![];
    assert!(link.on_receive(&empty).is_none());
    assert_eq!(link.state, LinkState::Idle);

    // The following send succeeds and may return real telemetry.
    let frame = link.send(Command::Throttle(120)).unwrap();
    assert_eq!(frame, build_link_frame(&cfg, 168));
    let words: Vec<u32> = vec![0, 0xE001, 0x2345, 0x6789];
    let reply = link.on_receive(&words).unwrap();
    assert_eq!(reply.words, words);
    assert_eq!(link.state, LinkState::Streaming);
}

#[test]
fn explicit_stall_marking_and_resync() {
    let mut link = LinkController::new(bidir_config(1, 0));
    link.start();
    link.tick();
    link.tick();
    assert_eq!(link.state, LinkState::Idle);
    link.note_stall();
    assert_eq!(link.state, LinkState::Stalled);
    link.resync();
    assert_eq!(link.state, LinkState::Idle);
}
