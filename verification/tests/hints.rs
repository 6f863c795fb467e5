use nudge::{assume_nopanic, assume_true, likely, unlikely, unreach};

#[test]
fn likely_returns_its_argument() {
    assert!(likely(true));
    assert!(!likely(false));
}

#[test]
fn unlikely_returns_its_argument() {
    assert!(unlikely(true));
    assert!(!unlikely(false));
}

#[test]
fn hints_agree_on_every_value() {
    for b in [false, true] {
        assert_eq!(likely(b), b);
        assert_eq!(unlikely(b), b);
        assert_eq!(likely(b), unlikely(b));
    }
}

#[test]
fn hints_do_not_change_which_branch_runs() {
    let mut taken = Vec::new();
    for n in 0..6u32 {
        if likely(n % 2 == 0) {
            taken.push(n);
        }
        if unlikely(n == 5) {
            taken.push(100);
        }
    }
    assert_eq!(taken, vec![0, 2, 4, 100]);
}

#[test]
fn hints_nest() {
    assert!(likely(unlikely(true)));
    assert!(!unlikely(likely(false)));
}

#[test]
fn assume_true_lets_control_continue() {
    let mut steps = 0;
    assume_true(true);
    steps += 1;
    let v = vec![1, 2, 3];
    assume_true(v.len() == 3);
    steps += 1;
    assert_eq!(steps, 2);
}

#[test]
fn unreach_stays_behind_a_false_condition() {
    let n = 7u32;
    if n != 7 {
        unreach();
    }
    let label = match n {
        7 => "seven",
        _ => match unreach() {},
    };
    assert_eq!(label, "seven");
}

#[test]
fn assume_nopanic_returns_the_closure_result() {
    assert_eq!(assume_nopanic(|| 42), 42);
}

#[test]
fn assume_nopanic_runs_the_closure_exactly_once() {
    let mut calls = 0;
    let r = assume_nopanic(|| {
        calls += 1;
        calls * 10
    });
    assert_eq!(r, 10);
    assert_eq!(calls, 1);
}

#[test]
fn assume_nopanic_hands_back_owned_values() {
    let name = String::from("nudge");
    let moved = assume_nopanic(move || name);
    assert_eq!(moved, "nudge");
    let pair = assume_nopanic(|| (vec![1u8, 2], Some('x')));
    assert_eq!(pair, (vec![1u8, 2], Some('x')));
}

#[test]
fn assume_nopanic_returns_unit() {
    let mut seen = false;
    assume_nopanic(|| seen = true);
    assert!(seen);
}

#[test]
fn assume_nopanic_nests() {
    let r = assume_nopanic(|| assume_nopanic(|| 20) + assume_nopanic(|| 22));
    assert_eq!(r, 42);
}
