use pipe_bird::audio::{AudioPreset, AudioState};

fn preset(clock_divider: u16, period_hz: u16, duty_divisor: u8) -> AudioPreset {
    AudioPreset { clock_divider, period_hz, duty_divisor }
}

#[test]
fn fresh_handler_state() {
    let s = AudioState::new();
    assert_eq!(s.cycle, 0);
    assert_eq!(s.ticks, 0);
    assert!(!s.done);
}

#[test]
fn presets_per_cycle_position() {
    let mut s = AudioState::new();
    assert_eq!(s.current_preset(), preset(128, 2, 4));
    s.cycle = 1;
    assert_eq!(s.current_preset(), preset(128, 80, 4));
    s.cycle = 2;
    assert_eq!(s.current_preset(), preset(64, 400, 8));
}

#[test]
fn cycle_advances_after_5_8_20_ticks() {
    let mut s = AudioState::new();
    for tick in 1..=33u32 {
        let a = s.on_tick(false);
        assert!(!a.shutdown);
        match tick {
            1..=4 => assert_eq!((s.cycle, s.ticks), (0, tick as u8)),
            5 => assert_eq!((s.cycle, s.ticks), (1, 0)),
            6..=12 => assert_eq!((s.cycle, s.ticks), (1, (tick - 5) as u8)),
            13 => assert_eq!((s.cycle, s.ticks), (2, 0)),
            14..=32 => assert_eq!((s.cycle, s.ticks), (2, (tick - 13) as u8)),
            _ => assert_eq!((s.cycle, s.ticks), (0, 0)),
        }
        assert!(!s.done);
    }
}

#[test]
fn tick_applies_the_preset_of_the_entered_cycle() {
    let mut s = AudioState::new();
    // The first four ticks and the advancing fifth all apply cycle 0's preset.
    for _ in 0..5 {
        let a = s.on_tick(false);
        assert_eq!(a.preset, preset(128, 2, 4));
    }
    // From the sixth tick on, cycle 1's preset is applied.
    let a = s.on_tick(false);
    assert_eq!(a.preset, preset(128, 80, 4));
}

#[test]
fn off_flag_shuts_down_once_and_for_all() {
    let mut s = AudioState::new();
    s.on_tick(false);
    let a = s.on_tick(true);
    assert!(a.shutdown);
    assert!(s.done);
    let frozen = (s.cycle, s.ticks);
    // Later ticks change nothing and owe no further shutdown.
    for off in [false, true, false] {
        let b = s.on_tick(off);
        assert!(!b.shutdown);
        assert!(s.done);
        assert_eq!((s.cycle, s.ticks), frozen);
    }
}

#[test]
fn off_flag_observed_on_an_advancing_tick() {
    let mut s = AudioState::new();
    for _ in 0..4 {
        s.on_tick(false);
    }
    let a = s.on_tick(true);
    assert!(a.shutdown);
    assert!(s.done);
    assert_eq!((s.cycle, s.ticks), (1, 0));
}
