use synth_utils::utils::{ilog_2, linear_interp, UNIT};

#[test]
fn lin_interp_endpoints() {
    assert_eq!(linear_interp(0, UNIT as i64, 0), 0);
    assert_eq!(linear_interp(0, UNIT as i64, UNIT), UNIT as i64);
}

#[test]
fn lin_interp_halfway() {
    assert_eq!(linear_interp(0, UNIT as i64, 1 << 31), 1 << 31);
}

#[test]
fn lin_interp_both_non_zero() {
    assert_eq!(linear_interp(10, 40, UNIT / 3), 20);
}

#[test]
fn lin_interp_falling_rounds_down() {
    assert_eq!(linear_interp(40, 10, UNIT / 3), 30);
    assert_eq!(linear_interp(1, 0, 1), 0);
    assert_eq!(linear_interp(i64::MIN, i64::MAX, UNIT), i64::MAX);
    assert_eq!(linear_interp(i64::MAX, i64::MIN, UNIT), i64::MIN);
}

#[test]
fn ilog_2_of_1_is_zero() {
    assert_eq!(ilog_2(1), 0);
}

#[test]
fn ilog_2_of_2_is_1() {
    assert_eq!(ilog_2(2), 1);
}

#[test]
fn ilog_2_of_256_is_8() {
    assert_eq!(ilog_2(256), 8);
}

#[test]
fn ilog_2_of_1023_is_9() {
    assert_eq!(ilog_2(1023), 9);
}

#[test]
fn ilog_2_of_1024_is_10() {
    assert_eq!(ilog_2(1024), 10);
}

#[test]
fn ilog_2_of_zero_and_max() {
    assert_eq!(ilog_2(0), 0);
    assert_eq!(ilog_2(usize::MAX), usize::BITS - 1);
}
