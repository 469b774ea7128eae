use ncpv::estimate::{eta_seconds, remaining_bytes, transfer_rate, Confidence, Percent};

fn band(done: u64, total: u64) -> Confidence {
    Percent { done, total }.band()
}

#[test]
fn rate_is_zero_before_the_first_second() {
    assert_eq!(transfer_rate(0, 0), 0);
    assert_eq!(transfer_rate(1, 0), 0);
    assert_eq!(transfer_rate(u64::MAX, 0), 0);
}

#[test]
fn rate_is_the_truncated_quotient() {
    assert_eq!(transfer_rate(1000, 1), 1000);
    assert_eq!(transfer_rate(1000, 3), 333);
    assert_eq!(transfer_rate(2, 3), 0);
    assert_eq!(transfer_rate(u64::MAX, u64::MAX), 1);
}

#[test]
fn nothing_remains_once_the_target_is_reached() {
    assert_eq!(remaining_bytes(1000, 1000), 0);
    assert_eq!(remaining_bytes(1000, 1001), 0);
    assert_eq!(remaining_bytes(0, 0), 0);
    assert_eq!(remaining_bytes(0, u64::MAX), 0);
    for rate in [0, 1, 1000, u64::MAX] {
        assert_eq!(eta_seconds(remaining_bytes(1000, 2000), rate), 0);
    }
}

#[test]
fn remaining_is_the_difference() {
    assert_eq!(remaining_bytes(1000, 0), 1000);
    assert_eq!(remaining_bytes(1000, 999), 1);
    assert_eq!(remaining_bytes(u64::MAX, 1), u64::MAX - 1);
}

#[test]
fn eta_is_zero_at_rate_zero() {
    assert_eq!(eta_seconds(1000, 0), 0);
    assert_eq!(eta_seconds(u64::MAX, 0), 0);
}

#[test]
fn eta_is_the_truncated_quotient() {
    assert_eq!(eta_seconds(1000, 1), 1000);
    assert_eq!(eta_seconds(1000, 3), 333);
    assert_eq!(eta_seconds(490, 102), 4);
    assert_eq!(eta_seconds(5, 10), 0);
}

#[test]
fn bands_change_at_25_50_and_100_percent() {
    assert_eq!(band(0, 1000), Confidence::Uncertain);
    assert_eq!(band(249, 1000), Confidence::Uncertain);
    assert_eq!(band(250, 1000), Confidence::Approximate);
    assert_eq!(band(499, 1000), Confidence::Approximate);
    assert_eq!(band(500, 1000), Confidence::Exact);
    assert_eq!(band(999, 1000), Confidence::Exact);
    assert_eq!(band(1000, 1000), Confidence::Done);
    assert_eq!(band(1001, 1000), Confidence::Exact);
}

#[test]
fn bands_are_exact_for_totals_that_do_not_divide() {
    assert_eq!(band(0, 3), Confidence::Uncertain);
    assert_eq!(band(1, 3), Confidence::Approximate);
    assert_eq!(band(2, 3), Confidence::Exact);
    assert_eq!(band(1, 5), Confidence::Uncertain);
    assert_eq!(band(2, 5), Confidence::Approximate);
    assert_eq!(band(3, 5), Confidence::Exact);
    assert_eq!(band(u64::MAX / 4, u64::MAX), Confidence::Uncertain);
    assert_eq!(band(u64::MAX / 4 + 1, u64::MAX), Confidence::Approximate);
    assert_eq!(band(u64::MAX / 2, u64::MAX), Confidence::Approximate);
    assert_eq!(band(u64::MAX / 2 + 1, u64::MAX), Confidence::Exact);
    assert_eq!(band(u64::MAX, u64::MAX), Confidence::Done);
}

#[test]
fn bands_of_a_zero_total() {
    assert_eq!(band(0, 0), Confidence::Uncertain);
    assert_eq!(band(1, 0), Confidence::Exact);
    assert_eq!(band(u64::MAX, 0), Confidence::Exact);
}

#[test]
fn rounding_is_to_the_nearest_with_halves_up() {
    assert_eq!(Percent { done: 0, total: 0 }.round(), None);
    assert_eq!(Percent { done: 7, total: 0 }.round(), None);
    assert_eq!(Percent { done: 0, total: 8 }.round(), Some(0));
    assert_eq!(Percent { done: 1, total: 8 }.round(), Some(13));
    assert_eq!(Percent { done: 3, total: 8 }.round(), Some(38));
    assert_eq!(Percent { done: 8, total: 8 }.round(), Some(100));
    assert_eq!(Percent { done: 199, total: 200 }.round(), Some(100));
    assert_eq!(Percent { done: 994, total: 1000 }.round(), Some(99));
    assert_eq!(Percent { done: 995, total: 1000 }.round(), Some(100));
    assert_eq!(Percent { done: u64::MAX, total: u64::MAX }.round(), Some(100));
}
