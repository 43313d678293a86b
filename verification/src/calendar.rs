//! Civil-calendar arithmetic for the versioned-copy naming scheme: a
//! modification timestamp (seconds since 1970-01-01 00:00:00 UTC) is
//! split into year, month, day, hour, minute and second, which the
//! version suffix formats. The split is proved to be a decomposition of
//! the timestamp, which makes the suffix injective at second resolution.

use vstd::prelude::*;
use vstd::arithmetic::div_mod::{
    lemma_fundamental_div_mod, lemma_mod_bound, lemma_multiply_divide_lt, lemma_div_pos_is_pos,
    lemma_fundamental_div_mod_converse, lemma_mod_mod, lemma_small_mod,
};

verus! {

/// Timestamps from this bound on fall outside the four-digit-year era
/// the version suffix can format; they are the first second of year
/// 10000 and later.
pub const YEAR_BOUND_SECONDS: u64 = 253402300800;

pub open spec fn is_leap_year(y: int) -> bool {
    (y % 4 == 0 && y % 100 != 0) || y % 400 == 0
}

pub open spec fn year_length(y: int) -> int {
    if is_leap_year(y) {
        366
    } else {
        365
    }
}

pub open spec fn month_length(y: int, m: int) -> int {
    if m == 2 {
        if is_leap_year(y) {
            29
        } else {
            28
        }
    } else if m == 4 || m == 6 || m == 9 || m == 11 {
        30
    } else {
        31
    }
}

/// Days from 1970-01-01 to the first of January of year `y`.
pub open spec fn days_before_year(y: int) -> int
    decreases y - 1970,
{
    if y <= 1970 {
        0
    } else {
        days_before_year(y - 1) + year_length(y - 1)
    }
}

/// Days from the first of January of `y` to the first of month `m`.
pub open spec fn days_before_month(y: int, m: int) -> int
    decreases m - 1,
{
    if m <= 1 {
        0
    } else {
        days_before_month(y, m - 1) + month_length(y, m - 1)
    }
}

/// The day number (0-based, day 0 is 1970-01-01) of the civil date
/// `y`-`m`-`d`.
pub open spec fn day_number(y: int, m: int, d: int) -> int {
    days_before_year(y) + days_before_month(y, m) + (d - 1)
}

/// Seconds since the epoch of the civil instant `y`-`m`-`d` `h`:`mi`:`s`.
pub open spec fn timestamp_of(y: int, m: int, d: int, h: int, mi: int, s: int) -> int {
    day_number(y, m, d) * 86400 + h * 3600 + mi * 60 + s
}

/// Walk forward from the first of January of year `y` by `rem` days:
/// the year reached and the days left within it.
pub open spec fn year_split(y: int, rem: int) -> (int, int)
    decreases rem,
{
    if rem >= year_length(y) {
        year_split(y + 1, rem - year_length(y))
    } else {
        (y, rem)
    }
}

/// Walk forward from the first of month `m` of year `y` by `rem` days:
/// the month reached and the days left within it.
pub open spec fn month_split(y: int, m: int, rem: int) -> (int, int)
    decreases rem,
{
    if rem >= month_length(y, m) {
        month_split(y, m + 1, rem - month_length(y, m))
    } else {
        (m, rem)
    }
}

pub open spec fn civil_year(secs: int) -> int {
    year_split(1970, secs / 86400).0
}

pub open spec fn civil_day_in_year(secs: int) -> int {
    year_split(1970, secs / 86400).1
}

pub open spec fn civil_month(secs: int) -> int {
    month_split(civil_year(secs), 1, civil_day_in_year(secs)).0
}

pub open spec fn civil_day(secs: int) -> int {
    month_split(civil_year(secs), 1, civil_day_in_year(secs)).1 + 1
}

pub open spec fn civil_hour(secs: int) -> int {
    (secs % 86400) / 3600
}

pub open spec fn civil_minute(secs: int) -> int {
    ((secs % 86400) % 3600) / 60
}

pub open spec fn civil_second(secs: int) -> int {
    ((secs % 86400) % 3600) % 60
}

/// `year_split` decomposes its input: the days walked equal the days
/// before the year reached, and the remainder falls within that year.
proof fn lemma_year_split(y: int, rem: int)
    requires
        y >= 1970,
        rem >= 0,
    ensures
        year_split(y, rem).0 >= y,
        0 <= year_split(y, rem).1 < year_length(year_split(y, rem).0),
        days_before_year(year_split(y, rem).0) + year_split(y, rem).1 == days_before_year(y) + rem,
    decreases rem,
{
    if rem >= year_length(y) {
        lemma_year_split(y + 1, rem - year_length(y));
        assert(days_before_year(y + 1) == days_before_year(y) + year_length(y));
    }
}

/// Stepping the dividend by one steps the quotient exactly at the
/// multiples of the divisor.
proof fn lemma_div_step(x: int, d: int)
    requires
        d > 0,
    ensures
        x / d == (x - 1) / d + (if x % d == 0 {
            1int
        } else {
            0int
        }),
{
    let q = (x - 1) / d;
    let r = (x - 1) % d;
    lemma_fundamental_div_mod(x - 1, d);
    lemma_mod_bound(x - 1, d);
    assert((q + 1) * d == q * d + d) by (nonlinear_arith);
    assert(d * q == q * d) by (nonlinear_arith);
    if r == d - 1 {
        lemma_fundamental_div_mod_converse(x, d, q + 1, 0);
    } else {
        lemma_fundamental_div_mod_converse(x, d, q, r + 1);
    }
}

/// A multiple of 400 is a multiple of 100, and a multiple of 100 one
/// of 4.
proof fn lemma_divisibility_chain(x: int)
    ensures
        x % 400 == 0 ==> x % 100 == 0,
        x % 100 == 0 ==> x % 4 == 0,
{
    lemma_mod_mod(x, 100, 4);
    lemma_mod_mod(x, 4, 25);
    if x % 400 == 0 {
        lemma_small_mod(0, 100);
    }
    if x % 100 == 0 {
        lemma_small_mod(0, 4);
    }
}

/// The days before a year, in closed form: 365 per year plus one per
/// leap year since the epoch.
proof fn lemma_days_before_year_closed(y: int)
    requires
        y >= 1970,
    ensures
        days_before_year(y) == 365 * (y - 1970) + (y - 1) / 4 - (y - 1) / 100 + (y - 1) / 400
            - 477,
    decreases y - 1970,
{
    if y == 1970 {
        assert(1969int / 4 == 492 && 1969int / 100 == 19 && 1969int / 400 == 4);
    } else {
        lemma_days_before_year_closed(y - 1);
        let x = y - 1;
        lemma_div_step(x, 4);
        lemma_div_step(x, 100);
        lemma_div_step(x, 400);
        lemma_divisibility_chain(x);
        assert(days_before_year(y) == days_before_year(y - 1) + year_length(y - 1));
    }
}

/// Within the day budget of this crate's era, `year_split` never leaves
/// the four-digit years.
proof fn lemma_year_split_bounded(y: int, rem: int)
    requires
        1970 <= y <= 9999,
        days_before_year(y) + rem <= 2932896,
        rem >= 0,
    ensures
        year_split(y, rem).0 <= 9999,
    decreases rem,
{
    if rem >= year_length(y) {
        assert(days_before_year(y + 1) == days_before_year(y) + year_length(y));
        if y == 9999 {
            lemma_days_before_year_closed(10000);
            assert(9999int / 4 == 2499 && 9999int / 100 == 99 && 9999int / 400 == 24);
            assert(false);
        }
        lemma_year_split_bounded(y + 1, rem - year_length(y));
    }
}

/// A year is at most 366 days of months.
proof fn lemma_year_of_months(y: int)
    ensures
        days_before_month(y, 13) == year_length(y),
{
    reveal_with_fuel(days_before_month, 13);
}

/// `month_split` decomposes its input and stays within the twelve
/// months when the input fits in one year.
proof fn lemma_month_split(y: int, m: int, rem: int)
    requires
        1 <= m <= 12,
        rem >= 0,
        days_before_month(y, m) + rem < year_length(y),
    ensures
        m <= month_split(y, m, rem).0 <= 12,
        0 <= month_split(y, m, rem).1 < month_length(y, month_split(y, m, rem).0),
        days_before_month(y, month_split(y, m, rem).0) + month_split(y, m, rem).1
            == days_before_month(y, m) + rem,
    decreases rem,
{
    if rem >= month_length(y, m) {
        assert(days_before_month(y, m + 1) == days_before_month(y, m) + month_length(y, m));
        if m == 12 {
            lemma_year_of_months(y);
            assert(false);
        }
        lemma_month_split(y, m + 1, rem - month_length(y, m));
    }
}

/// The civil split of a timestamp is a true decomposition: the fields
/// are in range and reassemble to the timestamp itself. This is what
/// makes the formatted suffix injective.
pub proof fn lemma_civil_decomposition(secs: int)
    requires
        0 <= secs < YEAR_BOUND_SECONDS,
    ensures
        1970 <= civil_year(secs) <= 9999,
        1 <= civil_month(secs) <= 12,
        1 <= civil_day(secs) <= 31,
        0 <= civil_hour(secs) < 24,
        0 <= civil_minute(secs) < 60,
        0 <= civil_second(secs) < 60,
        timestamp_of(
            civil_year(secs),
            civil_month(secs),
            civil_day(secs),
            civil_hour(secs),
            civil_minute(secs),
            civil_second(secs),
        ) == secs,
{
    let days = secs / 86400;
    let sod = secs % 86400;
    lemma_fundamental_div_mod(secs, 86400);
    lemma_mod_bound(secs, 86400);
    lemma_div_pos_is_pos(secs, 86400);
    assert(days <= 2932896) by {
        lemma_multiply_divide_lt(secs, 86400, 2932897);
    }
    lemma_year_split(1970, days);
    lemma_year_split_bounded(1970, days);
    let y = civil_year(secs);
    let diy = civil_day_in_year(secs);
    lemma_month_split(y, 1, diy);
    let mo = civil_month(secs);
    let d = civil_day(secs);
    assert(1 <= d <= 31);
    assert(day_number(y, mo, d) == days);
    let h = civil_hour(secs);
    let mi = civil_minute(secs);
    let s = civil_second(secs);
    lemma_fundamental_div_mod(sod, 3600);
    lemma_mod_bound(sod, 3600);
    lemma_div_pos_is_pos(sod, 3600);
    assert(h < 24) by {
        lemma_multiply_divide_lt(sod, 3600, 24);
    }
    let rem2 = sod % 3600;
    lemma_fundamental_div_mod(rem2, 60);
    lemma_mod_bound(rem2, 60);
    lemma_div_pos_is_pos(rem2, 60);
    assert(mi < 60) by {
        lemma_multiply_divide_lt(rem2, 60, 60);
    }
    assert(h * 3600 + mi * 60 + s == sod);
    assert(timestamp_of(y, mo, d, h, mi, s) == days * 86400 + sod);
}

/// Two timestamps with the same civil split are the same timestamp.
pub proof fn lemma_civil_injective(s1: int, s2: int)
    requires
        0 <= s1 < YEAR_BOUND_SECONDS,
        0 <= s2 < YEAR_BOUND_SECONDS,
        civil_year(s1) == civil_year(s2),
        civil_month(s1) == civil_month(s2),
        civil_day(s1) == civil_day(s2),
        civil_hour(s1) == civil_hour(s2),
        civil_minute(s1) == civil_minute(s2),
        civil_second(s1) == civil_second(s2),
    ensures
        s1 == s2,
{
    lemma_civil_decomposition(s1);
    lemma_civil_decomposition(s2);
}

/// One step of `year_split`, unfolded for the loop below.
proof fn lemma_year_split_step(y: int, rem: int)
    requires
        rem >= year_length(y),
    ensures
        year_split(y, rem) == year_split(y + 1, rem - year_length(y)),
{
}

/// One step of `month_split`, unfolded for the loop below.
proof fn lemma_month_split_step(y: int, m: int, rem: int)
    requires
        rem >= month_length(y, m),
    ensures
        month_split(y, m, rem) == month_split(y, m + 1, rem - month_length(y, m)),
{
}

pub fn exec_year_length(y: u64) -> (r: u64)
    ensures
        r == year_length(y as int),
{
    if (y % 4 == 0 && y % 100 != 0) || y % 400 == 0 {
        366
    } else {
        365
    }
}

pub fn exec_month_length(y: u64, m: u64) -> (r: u64)
    ensures
        r == month_length(y as int, m as int),
{
    if m == 2 {
        if (y % 4 == 0 && y % 100 != 0) || y % 400 == 0 {
            29
        } else {
            28
        }
    } else if m == 4 || m == 6 || m == 9 || m == 11 {
        30
    } else {
        31
    }
}

/// The civil split of `secs`, computed by walking years and then months
/// from the epoch.
pub fn civil_of_timestamp(secs: u64) -> (r: (u64, u64, u64, u64, u64, u64))
    requires
        secs < YEAR_BOUND_SECONDS,
    ensures
        r.0 == civil_year(secs as int),
        r.1 == civil_month(secs as int),
        r.2 == civil_day(secs as int),
        r.3 == civil_hour(secs as int),
        r.4 == civil_minute(secs as int),
        r.5 == civil_second(secs as int),
{
    proof {
        lemma_civil_decomposition(secs as int);
    }
    let days: u64 = secs / 86400;
    let sod: u64 = secs % 86400;
    let mut y: u64 = 1970;
    let mut rem: u64 = days;
    proof {
        lemma_year_split(1970, days as int);
        lemma_year_split_bounded(1970, days as int);
    }
    loop
        invariant
            days == secs as int / 86400,
            1970 <= y <= 9999,
            year_split(y as int, rem as int) == year_split(1970, days as int),
            year_split(1970, days as int).0 <= 9999,
        ensures
            y == civil_year(secs as int),
            rem == civil_day_in_year(secs as int),
        decreases rem,
    {
        let len = exec_year_length(y);
        if rem < len {
            proof {
                assert(year_split(y as int, rem as int) == (y as int, rem as int));
            }
            break;
        }
        proof {
            lemma_year_split_step(y as int, rem as int);
            lemma_year_split(y as int + 1, rem as int - year_length(y as int));
        }
        rem = rem - len;
        y = y + 1;
    }
    let diy: Ghost<int> = Ghost(civil_day_in_year(secs as int));
    let mut m: u64 = 1;
    proof {
        lemma_month_split(y as int, 1, rem as int);
        lemma_year_of_months(y as int);
    }
    loop
        invariant
            1 <= m <= 12,
            y == civil_year(secs as int),
            diy@ == civil_day_in_year(secs as int),
            days_before_month(y as int, m as int) + rem == diy@,
            month_split(y as int, m as int, rem as int) == month_split(y as int, 1, diy@),
            month_split(y as int, 1, diy@).0 <= 12,
            diy@ < year_length(y as int),
        ensures
            m == civil_month(secs as int),
            rem == civil_day(secs as int) - 1,
        decreases rem,
    {
        let len = exec_month_length(y, m);
        if rem < len {
            proof {
                assert(month_split(y as int, m as int, rem as int) == (m as int, rem as int));
            }
            break;
        }
        proof {
            lemma_year_of_months(y as int);
            if m == 12 {
                assert(days_before_month(y as int, 13)
                    == days_before_month(y as int, 12) + month_length(y as int, 12));
                assert(false);
            }
            lemma_month_split_step(y as int, m as int, rem as int);
            lemma_month_split(y as int, m as int + 1, rem as int - month_length(y as int, m as int));
        }
        rem = rem - len;
        m = m + 1;
    }
    let d: u64 = rem + 1;
    let h: u64 = sod / 3600;
    let rem2: u64 = sod % 3600;
    let mi: u64 = rem2 / 60;
    let s: u64 = rem2 % 60;
    (y, m, d, h, mi, s)
}

} // verus!
