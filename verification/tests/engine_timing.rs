use penguin_dshot::engine;

#[test]
fn waveform_marks_follow_bits() {
    let slots = engine::waveform(0x8001);
    assert_eq!(slots.len(), 16);
    // Most significant bit first: bit 15 of the word leads.
    assert_eq!(slots[0], (30, 10));
    for i in 1..15 {
        assert_eq!(slots[i], (15, 25));
    }
    assert_eq!(slots[15], (30, 10));
}

#[test]
fn waveform_slots_span_forty_ticks() {
    for word in [0u16, 0xFFFF, 0x0606, 0x151A] {
        for (mark, space) in engine::waveform(word) {
            assert_eq!(mark + space, engine::TICKS_PER_BIT);
            assert!(mark == engine::MARK_TICKS_ONE || mark == engine::MARK_TICKS_ZERO);
        }
    }
}

#[test]
fn mark_ticks_duty_cycle() {
    // 75% of the slot for a one, 37.5% for a zero.
    assert_eq!(engine::mark_ticks(true) * 4, engine::TICKS_PER_BIT * 3);
    assert_eq!(engine::mark_ticks(false) * 8, engine::TICKS_PER_BIT * 3);
}

#[test]
fn line_word_complements_only_bidirectional() {
    assert_eq!(engine::line_word(0x0606, false), 0x0606);
    assert_eq!(engine::line_word(0x0606, true), 0xF9F9);
    assert_eq!(engine::line_word(0, true), 0xFFFF);
}

#[test]
fn clock_divider_mid_tier() {
    // 125 MHz system clock against the 12 MHz engine tick: 10.4166…,
    // or 2666 in 1/256ths after the hardware's truncation.
    let d = engine::clock_divider_256ths(125_000_000, engine::ENGINE_TICK_HZ);
    assert_eq!(d, 2666);
}

#[test]
fn clock_divider_exact_ratio() {
    assert_eq!(engine::clock_divider_256ths(120_000_000, 12_000_000), 2560);
}

#[test]
fn frame_spacing_constants() {
    assert_eq!(engine::FRAME_BITS * engine::TICKS_PER_BIT, engine::FRAME_TICKS);
    assert_eq!(
        engine::FETCH_TICKS + engine::FRAME_TICKS + engine::IDLE_TICKS,
        2 * engine::FRAME_TICKS
    );
    assert_eq!(engine::ENGINE_TICK_HZ, engine::BIT_RATE_HZ * engine::TICKS_PER_BIT as u64);
}
