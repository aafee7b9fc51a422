use sysfp::{Flags, Rounding};

const ALL_MODES: [Rounding; 4] = [Rounding::Zero, Rounding::Up, Rounding::Down, Rounding::Nearest];

#[test]
fn new_is_nearest_without_ftz() {
    let f = Flags::new();
    assert_eq!(f.rounding(), Rounding::Nearest);
    assert!(!f.ftz());
    assert_eq!(f.control_word(), 0x1F80);
}

#[test]
fn default_matches_new() {
    let f = Flags::default();
    assert_eq!(f.rounding(), Rounding::Nearest);
    assert!(!f.ftz());
    assert_eq!(f.control_word(), Flags::new().control_word());
}

#[test]
fn with_rounding_round_trips() {
    for base in [Flags::new(), Flags::new().with_ftz(true)] {
        for m in ALL_MODES {
            let f = base.with_rounding(m);
            assert_eq!(f.rounding(), m);
            assert_eq!(f.ftz(), base.ftz());
            assert_eq!(f.control_word() & !0x6000, base.control_word() & !0x6000);
        }
    }
}

#[test]
fn set_rounding_round_trips() {
    for m in ALL_MODES {
        for prev in ALL_MODES {
            let mut f = Flags::new().with_ftz(true).with_rounding(prev);
            f.set_rounding(m);
            assert_eq!(f.rounding(), m);
            assert!(f.ftz());
        }
    }
}

#[test]
fn rounding_control_words() {
    let f = Flags::new();
    assert_eq!(f.with_rounding(Rounding::Nearest).control_word(), 0x1F80);
    assert_eq!(f.with_rounding(Rounding::Down).control_word(), 0x3F80);
    assert_eq!(f.with_rounding(Rounding::Up).control_word(), 0x5F80);
    assert_eq!(f.with_rounding(Rounding::Zero).control_word(), 0x7F80);
}

#[test]
fn with_ftz_round_trips() {
    for m in ALL_MODES {
        for b in [false, true] {
            let base = Flags::new().with_rounding(m);
            let f = base.with_ftz(b);
            assert_eq!(f.ftz(), b);
            assert_eq!(f.rounding(), m);
            assert_eq!(f.control_word() & 0x1F80, 0x1F80);
            assert_eq!(f.control_word() & !0x8000, base.control_word() & !0x8000);
        }
    }
}

#[test]
fn set_ftz_on_and_off() {
    let mut f = Flags::new().with_rounding(Rounding::Up);
    f.set_ftz(true);
    assert!(f.ftz());
    assert_eq!(f.control_word(), 0xDF80);
    f.set_ftz(false);
    assert!(!f.ftz());
    assert_eq!(f.rounding(), Rounding::Up);
    assert_eq!(f.control_word(), 0x5F80);
}
