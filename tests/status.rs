use sysfp::{Exception, Status};

const ALL_KINDS: [Exception; 5] = [
    Exception::Overflow,
    Exception::Underflow,
    Exception::Inexact,
    Exception::Denorm,
    Exception::DivZero,
];

fn predicates(s: Status) -> [bool; 5] {
    [s.overflow(), s.underflow(), s.inexact(), s.denorm(), s.div_zero()]
}

#[test]
fn empty_has_no_exceptions() {
    let s = Status::empty();
    assert!(!s.has_exceptions());
    assert_eq!(predicates(s), [false; 5]);
}

#[test]
fn single_flags_answer_their_own_predicate() {
    for (i, e) in ALL_KINDS.iter().enumerate() {
        let s = Status::of(*e);
        assert!(s.has_exceptions());
        let p = predicates(s);
        for j in 0..5 {
            assert_eq!(p[j], i == j);
        }
    }
}

#[test]
fn or_holds_both_sides() {
    for a in ALL_KINDS {
        for b in ALL_KINDS {
            let sa = Status::of(a).or(Status::of(Exception::Inexact));
            let sb = Status::of(b);
            let u = sa.or(sb);
            assert!(u.has(sa));
            assert!(u.has(sb));
        }
    }
    let u = Status::empty().or(Status::empty());
    assert!(!u.has_exceptions());
}

#[test]
fn and_holds_a_only_when_b_does() {
    for a in ALL_KINDS {
        for b in ALL_KINDS {
            let sa = Status::of(a);
            let sb = Status::of(b).or(Status::of(Exception::Denorm));
            assert_eq!(sa.and(sb).has(sa), sb.has(sa));
        }
    }
}

#[test]
fn and_of_disjoint_is_empty() {
    let s = Status::of(Exception::Overflow).or(Status::of(Exception::Inexact));
    let t = s.and(Status::of(Exception::Underflow));
    assert!(!t.has_exceptions());
    let k = s.and(Status::of(Exception::Inexact));
    assert!(k.inexact());
    assert!(!k.overflow());
}

#[test]
fn has_is_a_subset_test() {
    let s = Status::of(Exception::Overflow).or(Status::of(Exception::Inexact));
    assert!(s.has(Status::of(Exception::Overflow)));
    assert!(s.has(s));
    assert!(s.has(Status::empty()));
    let t = Status::of(Exception::Overflow).or(Status::of(Exception::Underflow));
    assert!(!s.has(t));
    assert!(!Status::empty().has(s));
}

#[test]
fn from_register_reads_status_bits() {
    // round up, all traps masked, overflow and inexact raised
    let s = Status::from_register(0x5FA8);
    assert_eq!(predicates(s), [true, false, true, false, false]);
    assert!(s.has_exceptions());
    // divide by zero and denormal operand
    let d = Status::from_register(0x1F86);
    assert_eq!(predicates(d), [false, false, false, true, true]);
}

#[test]
fn from_register_ignores_control_and_invalid_bits() {
    let s = Status::from_register(0xFFC1);
    assert!(!s.has_exceptions());
    assert_eq!(predicates(s), [false; 5]);
    let t = Status::from_register(0xFFFF);
    assert_eq!(predicates(t), [true; 5]);
}
