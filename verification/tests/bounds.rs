use frogger::add2;
use frogger::safe_add;
use frogger::sub2;

#[test]
fn safe_add_adds_below_the_limit() {
    assert_eq!(safe_add::<80>(37, 2), 39);
    assert_eq!(safe_add::<80>(0, 0), 0);
    assert_eq!(safe_add::<25>(3, 2), 5);
}

#[test]
fn safe_add_wraps_at_the_limit() {
    assert_eq!(safe_add::<80>(79, 2), 1);
    assert_eq!(safe_add::<80>(78, 2), 0);
    assert_eq!(safe_add::<80>(37, 78), 35);
    assert_eq!(safe_add::<77>(0, 76), 76);
    assert_eq!(safe_add::<77>(1, 75), 76);
    assert_eq!(safe_add::<77>(72, 76), 71);
}

#[test]
fn safe_add_reduces_each_operand() {
    // A result equal to an operand reduced once too few would be 15 here.
    assert_eq!(safe_add::<10>(25, 0), 5);
    assert_eq!(safe_add::<10>(0, 25), 5);
    assert_eq!(safe_add::<10>(25, 25), 0);
    assert_eq!(safe_add::<7>(100, 100), 4);
}

#[test]
fn safe_add_with_limit_one_is_zero() {
    assert_eq!(safe_add::<1>(0, 0), 0);
    assert_eq!(safe_add::<1>(5, 9), 0);
}

#[test]
fn safe_add_takes_sums_beyond_the_machine_word() {
    // (2^64 - 1) + (2^64 - 1) = 2^65 - 2, and 2^65 - 2 = 62 modulo 77 on a
    // 64-bit machine; on any machine the result is the sum of the residues.
    let r = usize::MAX % 77;
    assert_eq!(safe_add::<77>(usize::MAX, usize::MAX), (r + r) % 77);
    assert_eq!(safe_add::<80>(usize::MAX, 1), (usize::MAX % 80 + 1) % 80);
    assert_eq!(safe_add::<{ usize::MAX }>(usize::MAX - 1, usize::MAX - 2), usize::MAX - 3);
}

#[test]
fn safe_add_stays_below_the_limit() {
    for a in 0..200usize {
        for b in 0..200usize {
            assert!(safe_add::<77>(a, b) < 77);
            assert!(safe_add::<25>(a, b) < 25);
            assert!(safe_add::<1>(a, b) < 1);
            assert_eq!(safe_add::<77>(a, b), (a + b) % 77);
        }
    }
}

#[test]
fn add2_steps_forward() {
    assert_eq!(add2::<25>(3), 5);
    assert_eq!(add2::<25>(21), 23);
    assert_eq!(add2::<25>(23), 0);
    assert_eq!(add2::<25>(24), 1);
    assert_eq!(add2::<80>(79), 1);
}

#[test]
fn sub2_steps_backward() {
    assert_eq!(sub2::<25>(23), 21);
    assert_eq!(sub2::<25>(5), 3);
    assert_eq!(sub2::<25>(1), 24);
    assert_eq!(sub2::<25>(0), 23);
    assert_eq!(sub2::<80>(1), 79);
    assert_eq!(sub2::<80>(37), 35);
}

#[test]
fn sub2_with_the_smallest_limits() {
    assert_eq!(sub2::<1>(0), 0);
    assert_eq!(sub2::<1>(9), 0);
    assert_eq!(sub2::<2>(0), 0);
    assert_eq!(sub2::<2>(1), 1);
    assert_eq!(sub2::<3>(0), 1);
}

#[test]
fn sub2_undoes_add2() {
    for v in 0..25usize {
        assert_eq!(sub2::<25>(add2::<25>(v)), v);
    }
    for v in 0..80usize {
        assert_eq!(sub2::<80>(add2::<80>(v)), v);
    }
    for v in 0..2usize {
        assert_eq!(sub2::<2>(add2::<2>(v)), v);
    }
    assert_eq!(sub2::<1>(add2::<1>(0)), 0);
}

#[test]
fn add2_undoes_sub2() {
    for v in 0..25usize {
        assert_eq!(add2::<25>(sub2::<25>(v)), v);
    }
    for v in 0..3usize {
        assert_eq!(add2::<3>(sub2::<3>(v)), v);
    }
}
