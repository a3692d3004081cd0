use penguin_dshot::api::command::encode;
use penguin_dshot::api::Command;
use penguin_dshot::api::Frame;
use penguin_dshot::api::FrameBuilder;

#[test]
fn zero_frame_packs_to_zero() {
    let frame = FrameBuilder::new(Frame::new(0, false)).build();
    assert_eq!(frame, 0x0000);
}

#[test]
fn throttle_zero_frame_vector() {
    let code = encode(Command::Throttle(0)).unwrap();
    assert_eq!(code, 48);
    let frame = FrameBuilder::new(Frame::new(code, false)).build();
    // raw = 96 (0x60); fold = 0x60 ^ 0x06 ^ 0x00 = 0x66, masked 0x6.
    assert_eq!(frame, 0x606);
}

#[test]
fn throttle_zero_frame_vector_inverted() {
    let frame = FrameBuilder::new(Frame::new(48, false)).invert().build();
    // fold = 0x66; complemented and masked: 0x9.
    assert_eq!(frame, 0x609);
}

#[test]
fn telemetry_flag_lands_in_bit_four() {
    let plain = FrameBuilder::new(Frame::new(48, false)).build();
    let flagged = FrameBuilder::new(Frame::new(48, true)).build();
    assert_eq!(plain & 0x10, 0);
    assert_eq!(flagged & 0x10, 0x10);
    assert_eq!(plain >> 5, flagged >> 5);
}

#[test]
fn checksum_method_matches_build() {
    let payload = Frame::new(48, false);
    let frame = FrameBuilder::new(payload).build();
    assert_eq!(payload.checksum(), frame & 0xF);
    assert_eq!(payload.checksum(), 0x6);
}

#[test]
fn checksum_round_trip_all_codes() {
    for code in 0..=2047u16 {
        for telemetry in [false, true] {
            let payload = Frame::new(code, telemetry);
            let plain = FrameBuilder::new(payload).build();
            let raw = plain >> 4;
            let fold = (raw ^ (raw >> 4) ^ (raw >> 8)) & 0xF;
            assert_eq!(fold, plain & 0xF);

            let inverted = FrameBuilder::new(payload).invert().build();
            let raw_inv = inverted >> 4;
            assert_eq!(raw_inv, raw);
            let fold_inv = (raw_inv ^ (raw_inv >> 4) ^ (raw_inv >> 8)) & 0xF;
            assert_eq!(fold_inv, !inverted & 0xF);
        }
    }
}

#[test]
fn packed_frame_carries_its_code() {
    for code in [0u16, 1, 48, 1000, 2047] {
        for telemetry in [false, true] {
            for inverted in [false, true] {
                let builder = FrameBuilder::new(Frame::new(code, telemetry));
                let builder = if inverted { builder.invert() } else { builder };
                let frame = builder.build();
                assert_eq!((frame >> 5) & 0x7FF, code);
            }
        }
    }
}
