use autofingers::coverage::{discover_rounds, Coverage, HitPolicy, SimpleCov};
use autofingers::fingers::{
    powers_of_u64, wrapping_successor_of, xor_fingers_of, AutoFingers, Fingers, Index, POWER_COUNT,
};

fn xor_gen(i: u64) -> u64 {
    i ^ 0x123
}

fn small_or_multiple(x: &u64) -> bool {
    *x < 35 || *x % 31 == 0
}

#[test]
fn powers_are_two_through_two_to_the_sixty_two() {
    let p = 5u64.powers();
    assert_eq!(p.len(), POWER_COUNT);
    assert_eq!(p[0], 2);
    assert_eq!(p[1], 4);
    assert_eq!(p[61], 1u64 << 62);
    assert_eq!(powers_of_u64(), p);
}

#[test]
fn fingers_of_zero_are_the_powers() {
    assert_eq!(0u64.xor_fingers(), 0u64.powers());
    assert_eq!(0u64.fingers(), 0u64.powers());
}

#[test]
fn fingers_differ_by_one_power_and_are_distinct() {
    for i in [0u64, 1, 7, 0x123, u64::MAX, u64::MAX - 5] {
        let f = i.xor_fingers();
        for (k, x) in f.iter().enumerate() {
            assert_eq!(x ^ i, 1u64 << (k + 1));
        }
        let mut sorted = f.clone();
        sorted.sort();
        sorted.dedup();
        assert_eq!(sorted.len(), f.len());
    }
    assert_eq!(xor_fingers_of(1)[0], 3);
    assert_eq!(u64::MAX.xor_fingers()[0], u64::MAX - 2);
}

#[test]
fn wrapping_successor_wraps_only_at_the_top() {
    assert_eq!(0u64.wrapping_successor(), 1);
    assert_eq!(41u64.successor(), 42);
    assert_eq!((u64::MAX - 1).wrapping_successor(), u64::MAX);
    assert_eq!(u64::MAX.wrapping_successor(), 0);
    assert_eq!(wrapping_successor_of(u64::MAX), 0);
    assert_eq!(u64::zero(), 0);
}

#[test]
fn generation_is_restartable() {
    let i = 0x5555u64;
    assert_eq!(i.fingers(), i.fingers());
    assert_eq!(i.powers(), i.powers());
}

#[test]
fn xor_scenario_rounds() {
    let mut cov = SimpleCov::new(xor_gen, small_or_multiple);
    let mut got = Vec::new();
    for _ in 0..10 {
        got.push(cov.shallow_discover());
    }
    assert_eq!(
        got,
        vec![
            None,
            Some(34),
            Some(33),
            Some(32),
            Some(7),
            Some(6),
            Some(5),
            Some(4),
            Some(11),
            Some(10)
        ]
    );
    assert_eq!(cov.cursor_index(), 298);
}

#[test]
fn xor_scenario_is_reproducible() {
    let mut a = SimpleCov::new(xor_gen, small_or_multiple);
    let mut b = SimpleCov::new(xor_gen, small_or_multiple);
    for _ in 0..25 {
        assert_eq!(a.shallow_discover(), b.shallow_discover());
        assert_eq!(a.cursor_index(), b.cursor_index());
    }
}

#[test]
fn first_round_misses_and_steps_to_one() {
    let mut cov = SimpleCov::new(xor_gen, small_or_multiple);
    assert_eq!(cov.shallow_discover(), None);
    assert_eq!(cov.cursor_index(), 1);
}

#[test]
fn small_last_index_bounds_sampling() {
    let mut cov = SimpleCov::new(|i: u64| i, |_x: &u64| true).with_last_index(10);
    assert_eq!(cov.last_index(), 10);
    assert_eq!(cov.sample(11), None);
    assert_eq!(cov.sample(u64::MAX), None);
    assert_eq!(cov.sample(10), Some(10));
    cov.cursor_jump(9);
    // fingers of 9 are 11, 13, 1, ...: the first already lies beyond 10
    assert_eq!(cov.fingers(), Vec::<u64>::new());
    cov.cursor_jump(1);
    assert_eq!(cov.fingers(), vec![3, 5, 9]);
    cov.cursor_jump(10);
    assert_eq!(cov.successor(), 0);
}

#[test]
fn small_last_index_rounds_wrap_to_zero() {
    let mut cov = SimpleCov::new(|i: u64| i, |x: &u64| *x == 100).with_last_index(10);
    for _ in 0..10 {
        assert_eq!(cov.shallow_discover(), None);
    }
    assert_eq!(cov.cursor_index(), 10);
    assert_eq!(cov.shallow_discover(), None);
    assert_eq!(cov.cursor_index(), 0);
}

#[test]
fn single_accepted_index_is_found_or_cursor_advances() {
    let k = 6u64;
    let mut cov = SimpleCov::new(|i: u64| i * 10, move |x: &u64| *x == k * 10);
    let mut found = 0;
    for _ in 0..20 {
        let before = cov.cursor_index();
        match cov.shallow_discover() {
            Some(item) => {
                assert_eq!(item, 60);
                assert_eq!(cov.cursor_index(), k + 1);
                found += 1;
            }
            None => assert_eq!(cov.cursor_index(), before + 1),
        }
    }
    assert!(found >= 1);
}

#[test]
fn stay_policy_keeps_cursor_on_hit() {
    let mut cov =
        SimpleCov::new(xor_gen, small_or_multiple).with_policy(HitPolicy::StayOnHit);
    assert_eq!(cov.hit_policy(), HitPolicy::StayOnHit);
    assert_eq!(cov.shallow_discover(), None);
    assert_eq!(cov.shallow_discover(), Some(34));
    assert_eq!(cov.cursor_index(), 257);
    assert_eq!(cov.shallow_discover(), Some(34));
    assert_eq!(cov.cursor_index(), 257);
}

#[test]
fn raw_sample_and_predicate_use_the_closures() {
    let cov = SimpleCov::new(xor_gen, small_or_multiple);
    assert_eq!(cov.raw_sample(0), 0x123);
    assert!(cov.predicate(&62));
    assert!(!cov.predicate(&63));
}

#[test]
fn last_index_zero_keeps_the_cursor_at_zero() {
    let mut cov = SimpleCov::new(|i: u64| i + 1, |x: &u64| *x == 5).with_last_index(0);
    assert_eq!(cov.fingers(), Vec::<u64>::new());
    assert_eq!(cov.shallow_discover(), None);
    assert_eq!(cov.cursor_index(), 0);
    let mut hit = SimpleCov::new(|i: u64| i + 1, |x: &u64| *x == 1).with_last_index(0);
    assert_eq!(hit.shallow_discover(), Some(1));
    assert_eq!(hit.cursor_index(), 0);
}

#[test]
fn cursor_at_the_largest_index_wraps_to_zero() {
    let mut cov = SimpleCov::new(|i: u64| i, |x: &u64| *x == u64::MAX);
    cov.cursor_jump(u64::MAX);
    assert_eq!(cov.successor(), 0);
    assert_eq!(cov.shallow_discover(), Some(u64::MAX));
    assert_eq!(cov.cursor_index(), 0);
    let mut miss = SimpleCov::new(|i: u64| i, |_x: &u64| false);
    miss.cursor_jump(u64::MAX);
    assert_eq!(miss.shallow_discover(), None);
    assert_eq!(miss.cursor_index(), 0);
}

#[test]
fn finger_hit_reports_the_finger_item() {
    // from cursor 1 the fingers are 3, 5, 9, 17, ...; only 9 is accepted
    let mut cov = SimpleCov::new(|i: u64| i * 3, |x: &u64| *x == 27);
    cov.cursor_jump(1);
    assert_eq!(cov.shallow_discover(), Some(27));
    assert_eq!(cov.cursor_index(), 10);
}

#[test]
fn driver_returns_every_round() {
    let mut cov = SimpleCov::new(xor_gen, small_or_multiple);
    let got = discover_rounds(&mut cov, 10);
    assert_eq!(
        got,
        vec![
            None,
            Some(34),
            Some(33),
            Some(32),
            Some(7),
            Some(6),
            Some(5),
            Some(4),
            Some(11),
            Some(10)
        ]
    );
    assert_eq!(cov.cursor_index(), 298);
    assert!(discover_rounds(&mut cov, 0).is_empty());
    assert_eq!(cov.cursor_index(), 298);
}
