//! Byte counts and durations as text, and byte literals as numbers.

use vstd::prelude::*;
use vstd::string::*;
use crate::decimal::{
    all_digits, decimal, decimal_string, is_digit, lemma_number_grows, number, push_two_digits,
    two_digits,
};
use crate::error::{StartupError, StartupErrorView};

verus! {

/// Seconds in a minute.
pub const MINUTE: u64 = 60;

/// Seconds in an hour.
pub const HOUR: u64 = 60 * MINUTE;

/// Seconds in a day.
pub const DAY: u64 = 24 * HOUR;

/// Seconds in a week.
pub const WEEK: u64 = 7 * DAY;

/// Seconds in a month of four weeks.
pub const MONTH: u64 = 4 * WEEK;

/// Seconds in a year of twelve such months.
pub const YEAR: u64 = 12 * MONTH;

/// The path that stands for standard input.
pub open spec fn stdin_path() -> Seq<char> {
    "/dev/stdin"@
}

/// `1024` to the power `k`.
pub open spec fn kibi(k: nat) -> nat
    decreases k,
{
    if k == 0 {
        1
    } else {
        1024 * kibi((k - 1) as nat)
    }
}

/// The first five powers of 1024.
pub proof fn lemma_kibi_values()
    ensures
        kibi(0) == 1,
        kibi(1) == 1024,
        kibi(2) == 1048576,
        kibi(3) == 1073741824,
        kibi(4) == 1099511627776,
{
    reveal_with_fuel(kibi, 6);
}

/// The power of 1024 that a magnitude suffix stands for, in either case.
pub open spec fn suffix_exponent(c: char) -> Option<nat> {
    if c == 'k' || c == 'K' {
        Some(1)
    } else if c == 'm' || c == 'M' {
        Some(2)
    } else if c == 'g' || c == 'G' {
        Some(3)
    } else if c == 't' || c == 'T' {
        Some(4)
    } else {
        None
    }
}

/// The number that a byte literal writes: one or more digits, then at most
/// one magnitude suffix. `None` for any other text.
pub open spec fn literal_value(s: Seq<char>) -> Option<nat> {
    if s.len() >= 1 && all_digits(s) {
        Some(number(s))
    } else if s.len() >= 2 && all_digits(s.drop_last()) && suffix_exponent(s.last()) is Some {
        Some(number(s.drop_last()) * kibi(suffix_exponent(s.last())->0))
    } else {
        None
    }
}

/// The byte count of a literal, where the literal is well formed and its
/// number fits in 64 bits.
pub open spec fn literal_bytes(s: Seq<char>) -> Option<u64> {
    match literal_value(s) {
        Some(v) => if v <= u64::MAX {
            Some(v as u64)
        } else {
            None
        },
        None => None,
    }
}

/// The unit band of a byte count: the largest `k` up to 4 with
/// `bytes >= 1024^k`.
pub open spec fn unit_index(bytes: u64) -> nat {
    if bytes < kibi(1) {
        0
    } else if bytes < kibi(2) {
        1
    } else if bytes < kibi(3) {
        2
    } else if bytes < kibi(4) {
        3
    } else {
        4
    }
}

/// The name of a unit band.
pub open spec fn unit_name(k: nat) -> Seq<char> {
    if k == 0 {
        "B"@
    } else if k == 1 {
        "KB"@
    } else if k == 2 {
        "MB"@
    } else if k == 3 {
        "GB"@
    } else {
        "TB"@
    }
}

/// A byte count in whole units of its band, truncated.
pub open spec fn scaled(bytes: u64) -> nat {
    bytes as nat / kibi(unit_index(bytes))
}

/// The quotient `n / d` rounded to the nearest whole number; where it lies
/// halfway between two, to the even one.
pub open spec fn round_half_even(n: nat, d: nat) -> nat
    recommends
        d > 0,
{
    let below = n / d;
    let rest = n % d;
    if 2 * rest < d {
        below
    } else if 2 * rest > d {
        below + 1
    } else if below % 2 == 0 {
        below
    } else {
        below + 1
    }
}

/// A byte count in hundredths of the unit of its band, rounded to the
/// nearest hundredth, a tie to the even one.
pub open spec fn hundredths(bytes: u64) -> nat {
    round_half_even(100 * bytes as nat, kibi(unit_index(bytes)))
}

/// A byte count as text: the count in units of its band with two decimals,
/// a space, and the unit. The second decimal is rounded to the nearest, a
/// tie to the even digit: 1536 bytes are `1.50 KB`, 1664 bytes, which are
/// 1.625 KB, are `1.62 KB`, and 1048575 bytes are `1024.00 KB`.
pub open spec fn bytes_text(bytes: u64) -> Seq<char> {
    decimal(hundredths(bytes) / 100) + "."@ + two_digits(hundredths(bytes)) + " "@ + unit_name(
        unit_index(bytes),
    )
}

/// The hundredths shown are the nearest to the byte count: they differ
/// from it by at most half a hundredth of the unit, and where two are
/// equally near the even one is shown. A whole number of units is shown
/// with two zeros.
pub proof fn lemma_hundredths_are_nearest(bytes: u64)
    ensures
        2 * (100 * bytes - hundredths(bytes) * kibi(unit_index(bytes))) <= kibi(
            unit_index(bytes),
        ),
        2 * (hundredths(bytes) * kibi(unit_index(bytes)) - 100 * bytes) <= kibi(
            unit_index(bytes),
        ),
        2 * (100 * bytes - hundredths(bytes) * kibi(unit_index(bytes))) == kibi(
            unit_index(bytes),
        ) || 2 * (hundredths(bytes) * kibi(unit_index(bytes)) - 100 * bytes) == kibi(
            unit_index(bytes),
        ) ==> hundredths(bytes) % 2 == 0,
        bytes % (kibi(unit_index(bytes)) as u64) == 0 ==> hundredths(bytes) == 100 * scaled(bytes),
        unit_index(bytes) < 4 ==> hundredths(bytes) <= 102400,
        unit_index(bytes) >= 1 ==> hundredths(bytes) >= 100,
{
    lemma_kibi_values();
    let unit = kibi(unit_index(bytes)) as int;
    let n = 100 * bytes as int;
    let below = n / unit;
    let rest = n % unit;
    assert(n == below * unit + rest && 0 <= rest < unit) by (nonlinear_arith)
        requires
            unit > 0,
            below == n / unit,
            rest == n % unit,
    ;
    assert((below + 1) * unit == below * unit + unit) by (nonlinear_arith);
    if bytes as int % unit == 0 {
        let whole = bytes as int / unit;
        assert(bytes as int == whole * unit) by (nonlinear_arith)
            requires
                unit > 0,
                whole == bytes as int / unit,
                bytes as int % unit == 0,
        ;
        assert(n == (100 * whole) * unit) by (nonlinear_arith)
            requires
                n == 100 * (whole * unit),
        ;
        assert(n / unit == 100 * whole && n % unit == 0) by (nonlinear_arith)
            requires
                unit > 0,
                n == (100 * whole) * unit,
        ;
    }
    if unit_index(bytes) < 4 {
        assert(kibi(unit_index(bytes) + 1) == 1024 * unit);
        assert(below < 102400) by (nonlinear_arith)
            requires
                unit > 0,
                below == n / unit,
                0 <= n < 102400 * unit,
        ;
    }
    if unit_index(bytes) >= 1 {
        assert(below >= 100) by (nonlinear_arith)
            requires
                unit > 0,
                below == n / unit,
                n >= 100 * unit,
        ;
    }
}

/// The bands meet at the powers of 1024: a byte count is at least the power
/// of its band, and below the next power in every band but the last. So
/// the whole units of [`bytes2human_unit`] are below 1024 in every band but
/// the last, and at least one from the second band on.
pub proof fn lemma_unit_bands(bytes: u64)
    ensures
        unit_index(bytes) <= 4,
        unit_index(bytes) >= 1 ==> kibi(unit_index(bytes)) <= bytes,
        unit_index(bytes) < 4 ==> bytes < kibi(unit_index(bytes) + 1),
        unit_index(bytes) < 4 ==> scaled(bytes) < 1024,
        unit_index(bytes) >= 1 ==> scaled(bytes) >= 1,
{
    lemma_kibi_values();
    let k = unit_index(bytes);
    let unit = kibi(k) as int;
    let b = bytes as int;
    if k < 4 {
        assert(kibi(k + 1) == 1024 * unit);
        assert(b / unit < 1024) by (nonlinear_arith)
            requires
                unit > 0,
                0 <= b < 1024 * unit,
        ;
    }
    if k >= 1 {
        assert(b / unit >= 1) by (nonlinear_arith)
            requires
                unit > 0,
                b >= unit,
        ;
    }
}

/// A duration as text: the largest unit of which it holds at least one,
/// truncated to a whole number, and the unit's letter.
pub open spec fn duration_text(seconds: u64) -> Seq<char> {
    if seconds < MINUTE {
        decimal(seconds as nat) + "s"@
    } else if seconds < HOUR {
        decimal((seconds / MINUTE) as nat) + "m"@
    } else if seconds < DAY {
        decimal((seconds / HOUR) as nat) + "h"@
    } else if seconds < WEEK {
        decimal((seconds / DAY) as nat) + "d"@
    } else if seconds < MONTH {
        decimal((seconds / WEEK) as nat) + "w"@
    } else if seconds < YEAR {
        decimal((seconds / MONTH) as nat) + "M"@
    } else {
        decimal((seconds / YEAR) as nat) + "y"@
    }
}

/// The numeral of `n` followed by `unit`.
fn with_unit(n: u64, unit: &str) -> (s: String)
    ensures
        s@ == decimal(n as nat) + unit@,
{
    let mut s = decimal_string(n as u128);
    s.append(unit);
    s
}

/// Formats a duration given in seconds; see [`duration_text`].
pub fn seconds2human(seconds: u64) -> (s: String)
    ensures
        s@ == duration_text(seconds),
{
    if seconds < MINUTE {
        with_unit(seconds, "s")
    } else if seconds < HOUR {
        with_unit(seconds / MINUTE, "m")
    } else if seconds < DAY {
        with_unit(seconds / HOUR, "h")
    } else if seconds < WEEK {
        with_unit(seconds / DAY, "d")
    } else if seconds < MONTH {
        with_unit(seconds / WEEK, "w")
    } else if seconds < YEAR {
        with_unit(seconds / MONTH, "M")
    } else {
        with_unit(seconds / YEAR, "y")
    }
}

/// The bytes in the unit of a byte count's band.
fn unit_size(bytes: u64) -> (unit: u64)
    ensures
        unit == kibi(unit_index(bytes)),
        unit > 0,
{
    proof {
        lemma_kibi_values();
    }
    if bytes < 1024 {
        1
    } else if bytes < 1048576 {
        1024
    } else if bytes < 1073741824 {
        1048576
    } else if bytes < 1099511627776 {
        1073741824
    } else {
        1099511627776
    }
}

/// The unit in which [`bytes2human`] writes a byte count.
pub fn bytes2human_scale(bytes: u64) -> (s: String)
    ensures
        s@ == unit_name(unit_index(bytes)),
{
    proof {
        lemma_kibi_values();
    }
    let unit = if bytes < 1024 {
        "B"
    } else if bytes < 1048576 {
        "KB"
    } else if bytes < 1073741824 {
        "MB"
    } else if bytes < 1099511627776 {
        "GB"
    } else {
        "TB"
    };
    String::from_str(unit)
}

/// Scales a byte count to its band: the whole units, truncated, and the
/// unit's name.
pub fn bytes2human_unit(bytes: u64) -> (r: (u64, String))
    ensures
        r.0 == scaled(bytes),
        r.1@ == unit_name(unit_index(bytes)),
{
    (bytes / unit_size(bytes), bytes2human_scale(bytes))
}

/// Computes [`round_half_even`].
fn rounded_quotient(n: u128, d: u128) -> (q: u128)
    requires
        d > 0,
        n / d < u128::MAX,
        2 * d <= u128::MAX,
    ensures
        q == round_half_even(n as nat, d as nat),
{
    let below: u128 = n / d;
    let rest: u128 = n % d;
    if 2 * rest < d {
        below
    } else if 2 * rest > d {
        below + 1
    } else if below % 2 == 0 {
        below
    } else {
        below + 1
    }
}

/// Formats a byte count with two decimals; see [`bytes_text`].
pub fn bytes2human(bytes: u64) -> (s: String)
    ensures
        s@ == bytes_text(bytes),
{
    let hundredths: u128 = rounded_quotient(100 * (bytes as u128), unit_size(bytes) as u128);
    let mut s = decimal_string(hundredths / 100);
    s.append(".");
    push_two_digits(&mut s, hundredths);
    s.append(" ");
    s.append(bytes2human_scale(bytes).as_str());
    s
}

/// The magnitude that a suffix byte multiplies by, if it is one.
fn suffix_factor(b: u8) -> (f: Option<u64>)
    ensures
        match suffix_exponent(b as char) {
            Some(k) => f == Some(kibi(k) as u64) && kibi(k) <= u64::MAX,
            None => f.is_none(),
        },
{
    proof {
        lemma_kibi_values();
    }
    if b == 107 || b == 75 {
        Some(1024)
    } else if b == 109 || b == 77 {
        Some(1048576)
    } else if b == 103 || b == 71 {
        Some(1073741824)
    } else if b == 116 || b == 84 {
        Some(1099511627776)
    } else {
        None
    }
}

/// A well-formed literal holds ASCII characters only.
proof fn lemma_literal_is_ascii(s: Seq<char>)
    requires
        literal_value(s) is Some,
    ensures
        vstd::utf8::is_ascii_chars(s),
{
    assert forall|i: int| 0 <= i < s.len() implies '\0' <= #[trigger] s[i] <= '\u{7f}' by {
        if !all_digits(s) {
            if i < s.len() - 1 {
                assert(s[i] == s.drop_last()[i]);
            }
        }
    }
}

/// Reads the digits `text[..end]`: their number where all are digits and
/// the number fits in 64 bits.
fn read_digits(text: &str, end: usize) -> (r: Option<u64>)
    requires
        text.is_ascii(),
        end <= text@.len(),
    ensures
        match r {
            Some(v) => all_digits(text@.take(end as int)) && v == number(text@.take(end as int)),
            None => !all_digits(text@.take(end as int)) || number(text@.take(end as int))
                > u64::MAX,
        },
{
    let ghost digits = text@.take(end as int);
    let mut value: u64 = 0;
    let mut i: usize = 0;
    assert(digits.take(0) =~= Seq::<char>::empty());
    while i < end
        invariant
            text.is_ascii(),
            end <= text@.len(),
            digits == text@.take(end as int),
            i <= end,
            all_digits(digits.take(i as int)),
            value == number(digits.take(i as int)),
        decreases end - i,
    {
        let b: u8 = text.get_ascii(i);
        let ghost next = digits.take(i + 1);
        proof {
            assert(next.drop_last() =~= digits.take(i as int));
            assert(next.last() == text@[i as int]);
            if all_digits(digits) {
                lemma_number_grows(digits, i + 1);
            }
        }
        if b < 48 || b > 57 {
            assert(!is_digit(digits[i as int]));
            return None;
        }
        let d: u64 = (b - 48) as u64;
        let shifted = match value.checked_mul(10) {
            Some(v) => v,
            None => {
                return None;
            },
        };
        value = match shifted.checked_add(d) {
            Some(v) => v,
            None => {
                return None;
            },
        };
        i = i + 1;
        proof {
            assert forall|j: int| 0 <= j < next.len() implies is_digit(#[trigger] next[j]) by {
                if j < i - 1 {
                    assert(next[j] == digits.take(i - 1)[j]);
                }
            }
        }
    }
    assert(digits.take(end as int) =~= digits);
    Some(value)
}

/// Reads a byte literal: a whole number, or a whole number with one of the
/// suffixes `k`, `m`, `g`, `t` in either case, each a further factor of
/// 1024.
///
/// Any other text, and a literal whose number does not fit in 64 bits, is
/// refused with the literal in the error.
pub fn human2bytes(human: &str) -> (r: Result<u64, StartupError>)
    ensures
        match literal_bytes(human@) {
            Some(bytes) => r matches Ok(v) && v == bytes,
            None => r matches Err(e) && e@ == StartupErrorView::Config(human@),
        },
{
    if !human.is_ascii() {
        proof {
            if literal_value(human@) is Some {
                lemma_literal_is_ascii(human@);
            }
        }
        return Err(StartupError::Config(String::from_str(human)));
    }
    proof {
        vstd::utf8::is_ascii_chars_encode_utf8(human@);
    }
    let len: usize = human.as_bytes().len();
    if len == 0 {
        return Err(StartupError::Config(String::from_str(human)));
    }
    let last: u8 = human.get_ascii(len - 1);
    assert(human@.take(len as int) =~= human@);
    assert(human@.take(len - 1) =~= human@.drop_last());
    if 48 <= last && last <= 57 {
        return match read_digits(human, len) {
            Some(v) => Ok(v),
            None => {
                assert(!all_digits(human@) ==> !all_digits(human@.drop_last())) by {
                    if all_digits(human@.drop_last()) {
                        assert forall|i: int| 0 <= i < human@.len() implies is_digit(
                            #[trigger] human@[i],
                        ) by {
                            if i < len - 1 {
                                assert(human@[i] == human@.drop_last()[i]);
                            }
                        }
                    }
                }
                Err(StartupError::Config(String::from_str(human)))
            },
        };
    }
    assert(!all_digits(human@)) by {
        assert(!is_digit(human@[len - 1]));
    }
    let factor: u64 = match suffix_factor(last) {
        Some(f) => f,
        None => {
            return Err(StartupError::Config(String::from_str(human)));
        },
    };
    if len < 2 {
        return Err(StartupError::Config(String::from_str(human)));
    }
    let count: u64 = match read_digits(human, len - 1) {
        Some(v) => v,
        None => {
            proof {
                let n = number(human@.drop_last());
                let f = kibi(suffix_exponent(human@.last())->0);
                if all_digits(human@.drop_last()) {
                    lemma_kibi_values();
                    assert(n * f >= n) by (nonlinear_arith)
                        requires
                            f >= 1,
                            n >= 0,
                    ;
                }
            }
            return Err(StartupError::Config(String::from_str(human)));
        },
    };
    match count.checked_mul(factor) {
        Some(v) => Ok(v),
        None => Err(StartupError::Config(String::from_str(human))),
    }
}

/// The numeral of any number `n` is a literal of `n` bytes, and followed by
/// a magnitude suffix it is a literal of `n` times that power of 1024.
/// [`human2bytes`] returns these numbers wherever they fit in 64 bits.
pub proof fn lemma_literal_of_numeral(n: nat, suffix: char)
    requires
        suffix_exponent(suffix) is Some,
    ensures
        literal_value(decimal(n)) == Some(n),
        literal_value(decimal(n).push(suffix)) == Some(n * kibi(suffix_exponent(suffix)->0)),
        n <= u64::MAX ==> literal_bytes(decimal(n)) == Some(n as u64),
        n * kibi(suffix_exponent(suffix)->0) <= u64::MAX ==> literal_bytes(
            decimal(n).push(suffix),
        ) == Some((n * kibi(suffix_exponent(suffix)->0)) as u64),
{
    crate::decimal::lemma_decimal_reads_back(n);
    let with_suffix = decimal(n).push(suffix);
    assert(with_suffix.drop_last() =~= decimal(n));
    assert(with_suffix.last() == suffix);
    assert(!all_digits(with_suffix)) by {
        assert(!is_digit(with_suffix[with_suffix.len() - 1]));
    }
}

/// Resolves the input path: the named file where one is named and exists,
/// standard input where none is named.
///
/// `exists` says whether the named file was found; it is not read where no
/// file is named.
pub fn get_file_path_or_stdin(candidate: Option<&str>, exists: bool) -> (r: Result<
    String,
    StartupError,
>)
    ensures
        match candidate {
            None => r matches Ok(path) && path@ == stdin_path(),
            Some(name) => if exists {
                r matches Ok(path) && path@ == name@
            } else {
                r matches Err(e) && e@ == StartupErrorView::NotFound(name@)
            },
        },
{
    match candidate {
        None => Ok(String::from_str("/dev/stdin")),
        Some(name) => if exists {
            Ok(String::from_str(name))
        } else {
            Err(StartupError::NotFound(String::from_str(name)))
        },
    }
}

} // verus!
