use ncpv::chart::{elapsed_label, percent_string};
use ncpv::decimal::decimal_string;
use ncpv::estimate::Percent;
use ncpv::utils::{bytes2human, bytes2human_scale, bytes2human_unit, seconds2human};

const KB: u64 = 1024;
const MB: u64 = 1024 * KB;
const GB: u64 = 1024 * MB;
const TB: u64 = 1024 * GB;

#[test]
fn numerals_have_no_leading_zero() {
    assert_eq!(decimal_string(0), "0");
    assert_eq!(decimal_string(7), "7");
    assert_eq!(decimal_string(10), "10");
    assert_eq!(decimal_string(1005), "1005");
    assert_eq!(decimal_string(u64::MAX as u128), "18446744073709551615");
    assert_eq!(decimal_string(u128::MAX), "340282366920938463463374607431768211455");
}

#[test]
fn bytes_band_changes_at_1024() {
    assert_eq!(bytes2human(1023), "1023.00 B");
    assert_eq!(bytes2human(1024), "1.00 KB");
    assert_eq!(bytes2human_scale(1023), "B");
    assert_eq!(bytes2human_scale(1024), "KB");
}

#[test]
fn bytes_band_changes_at_each_power() {
    assert_eq!(bytes2human(MB - 1), "1024.00 KB");
    assert_eq!(bytes2human(MB), "1.00 MB");
    assert_eq!(bytes2human(GB - 1), "1024.00 MB");
    assert_eq!(bytes2human(GB), "1.00 GB");
    assert_eq!(bytes2human(TB - 1), "1024.00 GB");
    assert_eq!(bytes2human(TB), "1.00 TB");
    assert_eq!(bytes2human_scale(MB - 1), "KB");
    assert_eq!(bytes2human_scale(MB), "MB");
    assert_eq!(bytes2human_scale(GB - 1), "MB");
    assert_eq!(bytes2human_scale(GB), "GB");
    assert_eq!(bytes2human_scale(TB - 1), "GB");
    assert_eq!(bytes2human_scale(TB), "TB");
}

#[test]
fn bytes_beyond_the_last_band_stay_in_it() {
    assert_eq!(bytes2human(1024 * TB), "1024.00 TB");
    assert_eq!(bytes2human(u64::MAX), "16777216.00 TB");
    assert_eq!(bytes2human_scale(u64::MAX), "TB");
}

#[test]
fn bytes_have_two_decimals() {
    assert_eq!(bytes2human(0), "0.00 B");
    assert_eq!(bytes2human(1), "1.00 B");
    assert_eq!(bytes2human(1536), "1.50 KB");
    assert_eq!(bytes2human(1029), "1.00 KB");
    assert_eq!(bytes2human(1030), "1.01 KB");
    assert_eq!(bytes2human(2048), "2.00 KB");
    assert_eq!(bytes2human(5 * MB + 17), "5.00 MB");
    assert_eq!(bytes2human(10 * MB + 999_999), "10.95 MB");
    assert_eq!(bytes2human(GB + GB / 4), "1.25 GB");
}

#[test]
fn second_decimal_is_rounded_to_the_nearest() {
    assert_eq!(bytes2human(1689), "1.65 KB");
    assert_eq!(bytes2human(1695), "1.66 KB");
    assert_eq!(bytes2human(2047), "2.00 KB");
    assert_eq!(bytes2human(MB - 6), "1023.99 KB");
    assert_eq!(bytes2human(MB - 5), "1024.00 KB");
}

#[test]
fn ties_go_to_the_even_digit() {
    assert_eq!(bytes2human(1664), "1.62 KB");
    assert_eq!(bytes2human(1664 + 256), "1.88 KB");
    assert_eq!(bytes2human(1024 + 128), "1.12 KB");
    assert_eq!(bytes2human(1024 + 384), "1.38 KB");
    assert_eq!(bytes2human(3 * MB + MB / 8), "3.12 MB");
    assert_eq!(bytes2human(3 * MB + 3 * (MB / 8)), "3.38 MB");
}

#[test]
fn bytes_are_written_as_the_quotient_to_two_decimals() {
    let units = ["B", "KB", "MB", "GB", "TB"];
    let mut bytes: u64 = 0;
    let mut step: u64 = 1;
    while bytes < (1 << 52) {
        let mut band = 0;
        while band < 4 && bytes >= 1024u64.pow(band as u32 + 1) {
            band += 1;
        }
        let quotient = bytes as f64 / 1024u64.pow(band as u32) as f64;
        assert_eq!(bytes2human(bytes), format!("{:.2} {}", quotient, units[band]));
        assert_eq!(bytes2human_scale(bytes), units[band]);
        bytes += step;
        step += step / 7 + 1;
    }
}

#[test]
fn unit_and_whole_units() {
    assert_eq!(bytes2human_unit(0), (0, "B".to_string()));
    assert_eq!(bytes2human_unit(1023), (1023, "B".to_string()));
    assert_eq!(bytes2human_unit(1024), (1, "KB".to_string()));
    assert_eq!(bytes2human_unit(5 * MB + 17), (5, "MB".to_string()));
    assert_eq!(bytes2human_unit(3 * GB), (3, "GB".to_string()));
    assert_eq!(bytes2human_unit(u64::MAX), (16777215, "TB".to_string()));
}

#[test]
fn duration_boundaries_of_the_minute() {
    assert_eq!(seconds2human(0), "0s");
    assert_eq!(seconds2human(59), "59s");
    assert_eq!(seconds2human(60), "1m");
    assert_eq!(seconds2human(119), "1m");
    assert_eq!(seconds2human(120), "2m");
}

#[test]
fn duration_boundaries_of_hour_and_day() {
    assert_eq!(seconds2human(3599), "59m");
    assert_eq!(seconds2human(3600), "1h");
    assert_eq!(seconds2human(86399), "23h");
    assert_eq!(seconds2human(86400), "1d");
}

#[test]
fn duration_boundaries_of_week_month_and_year() {
    assert_eq!(seconds2human(7 * 86400 - 1), "6d");
    assert_eq!(seconds2human(7 * 86400), "1w");
    assert_eq!(seconds2human(4 * 7 * 86400 - 1), "3w");
    assert_eq!(seconds2human(4 * 7 * 86400), "1M");
    assert_eq!(seconds2human(12 * 4 * 7 * 86400 - 1), "11M");
    assert_eq!(seconds2human(12 * 4 * 7 * 86400), "1y");
    assert_eq!(seconds2human(u64::MAX), "635428518852y");
}

#[test]
fn elapsed_label_names_the_duration() {
    assert_eq!(elapsed_label(0), "0s elapsed");
    assert_eq!(elapsed_label(61), "1m elapsed");
}

#[test]
fn percent_in_the_title_is_rounded() {
    assert_eq!(percent_string(None), "0");
    assert_eq!(percent_string(Some(Percent { done: 0, total: 200 })), "0");
    assert_eq!(percent_string(Some(Percent { done: 1, total: 200 })), "1");
    assert_eq!(percent_string(Some(Percent { done: 1, total: 201 })), "0");
    assert_eq!(percent_string(Some(Percent { done: 1, total: 3 })), "33");
    assert_eq!(percent_string(Some(Percent { done: 2, total: 3 })), "67");
    assert_eq!(percent_string(Some(Percent { done: 3, total: 3 })), "100");
    assert_eq!(percent_string(Some(Percent { done: 6, total: 3 })), "200");
    assert_eq!(percent_string(Some(Percent { done: u64::MAX, total: 1 })), "1844674407370955161500");
}

#[test]
fn percent_of_a_zero_total_has_no_number() {
    assert_eq!(percent_string(Some(Percent { done: 0, total: 0 })), "NaN");
    assert_eq!(percent_string(Some(Percent { done: 5, total: 0 })), "inf");
}
