//! Calendar arithmetic on plain timestamps.
//!
//! A point in time is a count of seconds; a calendar day is the floor of that
//! count over the seconds of one day. Conversions between day numbers and
//! civil dates use the standard era-based formulas over integer division.

use vstd::prelude::*;
use vstd::arithmetic::div_mod::{
    lemma_fundamental_div_mod,
    lemma_fundamental_div_mod_converse_div,
    lemma_mod_bound,
};
use crate::text::{
    digit_char, int_str, is_digit, digit_val, append_i64, char_of_digit, is_digit_char,
    digit_value, string_to_chars,
};

verus! {

/// Seconds in one calendar day.
pub const DAY_SECONDS: i64 = 86400;

/// Floor division by a positive divisor; agrees with mathematical (Euclidean)
/// division for every dividend.
pub fn floor_div(a: i64, b: i64) -> (q: i64)
    requires
        1 <= b,
    ensures
        q as int == a as int / b as int,
        (b as int) * (q as int) <= a as int,
        (a as int) < (b as int) * (q as int) + b as int,
{
    let q: i64 = if a >= 0 {
        ((a as u64) / (b as u64)) as i64
    } else {
        let na: u64 = (-(a + 1)) as u64;
        let qq: u64 = na / (b as u64);
        -(qq as i64) - 1
    };
    proof {
        let ai = a as int;
        let bi = b as int;
        if ai >= 0 {
            assert(q as int == ai / bi);
        } else {
            let nai = -ai - 1;
            let qi = nai / bi;
            lemma_fundamental_div_mod(nai, bi);
            lemma_mod_bound(nai, bi);
            let r = nai % bi;
            assert(ai == bi * (-qi - 1) + (bi - 1 - r)) by (nonlinear_arith)
                requires
                    nai == bi * qi + r,
                    ai == -nai - 1,
            ;
            lemma_fundamental_div_mod_converse_div(ai, bi, -qi - 1, bi - 1 - r);
        }
        lemma_fundamental_div_mod(ai, bi);
        lemma_mod_bound(ai, bi);
    }
    q
}

/// Euclidean remainder by a positive divisor; always in `[0, b)`.
pub fn euclid_rem(a: i64, b: i64) -> (r: i64)
    requires
        1 <= b,
    ensures
        r as int == a as int % b as int,
        0 <= r < b,
{
    let r: i64 = if a >= 0 {
        ((a as u64) % (b as u64)) as i64
    } else {
        let na: u64 = (-(a + 1)) as u64;
        let rr: i64 = (na % (b as u64)) as i64;
        b - 1 - rr
    };
    proof {
        let ai = a as int;
        let bi = b as int;
        lemma_fundamental_div_mod(ai, bi);
        lemma_mod_bound(ai, bi);
        if ai < 0 {
            let nai = -ai - 1;
            let qi = nai / bi;
            lemma_fundamental_div_mod(nai, bi);
            lemma_mod_bound(nai, bi);
            let rem = nai % bi;
            assert(ai == bi * (-qi - 1) + (bi - 1 - rem)) by (nonlinear_arith)
                requires
                    nai == bi * qi + rem,
                    ai == -nai - 1,
            ;
            lemma_fundamental_div_mod_converse_div(ai, bi, -qi - 1, bi - 1 - rem);
            assert(ai % bi == ai - bi * (ai / bi));
        }
    }
    r
}

/// The calendar day that a timestamp falls on.
pub open spec fn spec_day_of(ts: int) -> int {
    ts / (DAY_SECONDS as int)
}

/// Executable day-of-timestamp; the result is small enough for all later
/// calendar arithmetic.
pub fn day_of_timestamp(ts: i64) -> (r: i64)
    ensures
        r as int == spec_day_of(ts as int),
        -106752000000000 <= r <= 106752000000000,
    {
    let r = floor_div(ts, DAY_SECONDS);
    proof {
        assert(86400 * (r as int) <= ts as int);
        assert((ts as int) < 86400 * (r as int) + 86400);
    }
    r
}

/// Whether `y` is a leap year in the proleptic Gregorian calendar.
pub open spec fn spec_is_leap(y: int) -> bool {
    (y % 4 == 0 && y % 100 != 0) || y % 400 == 0
}

/// Executable leap-year test.
pub fn is_leap_year(y: i64) -> (r: bool)
    requires
        0 <= y,
    ensures
        r == spec_is_leap(y as int),
{
    let r4 = euclid_rem(y, 4);
    let r100 = euclid_rem(y, 100);
    let r400 = euclid_rem(y, 400);
    (r4 == 0 && r100 != 0) || r400 == 0
}

/// Days in a month of the given year; `0` for a month outside `1..=12`.
pub open spec fn spec_days_in_month(y: int, m: int) -> int {
    if m == 1 || m == 3 || m == 5 || m == 7 || m == 8 || m == 10 || m == 12 {
        31
    } else if m == 4 || m == 6 || m == 9 || m == 11 {
        30
    } else if m == 2 {
        if spec_is_leap(y) {
            29
        } else {
            28
        }
    } else {
        0
    }
}

/// Executable month length.
pub fn days_in_month(y: i64, m: i64) -> (r: i64)
    requires
        0 <= y,
    ensures
        r as int == spec_days_in_month(y as int, m as int),
{
    if m == 1 || m == 3 || m == 5 || m == 7 || m == 8 || m == 10 || m == 12 {
        31
    } else if m == 4 || m == 6 || m == 9 || m == 11 {
        30
    } else if m == 2 {
        if is_leap_year(y) {
            29
        } else {
            28
        }
    } else {
        0
    }
}

/// Day number of a civil date, with day `0` at the epoch date.
pub open spec fn spec_days_from_civil(y: int, m: int, d: int) -> int {
    let yy = if m <= 2 {
        y - 1
    } else {
        y
    };
    let era = yy / 400;
    let yoe = yy - era * 400;
    let mp = if m > 2 {
        m - 3
    } else {
        m + 9
    };
    let doy = (153 * mp + 2) / 5 + d - 1;
    let doe = yoe * 365 + yoe / 4 - yoe / 100 + doy;
    era * 146097 + doe - 719468
}

/// Executable civil-date-to-day conversion.
pub fn days_from_civil(y: i64, m: i64, d: i64) -> (r: i64)
    requires
        0 <= y <= 9999,
        1 <= m <= 12,
        1 <= d <= 31,
    ensures
        r as int == spec_days_from_civil(y as int, m as int, d as int),
        -870000 <= r <= 2940000,
{
    let yy: i64 = if m <= 2 {
        y - 1
    } else {
        y
    };
    let era: i64 = floor_div(yy, 400);
    let yoe: i64 = yy - era * 400;
    let mp: i64 = if m > 2 {
        m - 3
    } else {
        m + 9
    };
    let doy: i64 = floor_div(153 * mp + 2, 5) + d - 1;
    let doe: i64 = yoe * 365 + floor_div(yoe, 4) - floor_div(yoe, 100) + doy;
    era * 146097 + doe - 719468
}

/// Civil date `(year, month, day)` of a day number.
pub open spec fn spec_civil_of_day(z0: int) -> (int, int, int) {
    let z = z0 + 719468;
    let era = z / 146097;
    let doe = z - era * 146097;
    let yoe = (doe - doe / 1460 + doe / 36524 - doe / 146096) / 365;
    let y = yoe + era * 400;
    let doy = doe - (365 * yoe + yoe / 4 - yoe / 100);
    let mp = (5 * doy + 2) / 153;
    let d = doy - (153 * mp + 2) / 5 + 1;
    let m = if mp < 10 {
        mp + 3
    } else {
        mp - 9
    };
    (if m <= 2 {
        y + 1
    } else {
        y
    }, m, d)
}

/// Executable day-to-civil-date conversion.
pub fn civil_of_day(z0: i64) -> (r: (i64, i64, i64))
    requires
        -106753000000000 <= z0 <= 106753000000000,
    ensures
        (r.0 as int, r.1 as int, r.2 as int) == spec_civil_of_day(z0 as int),
{
    let z: i64 = z0 + 719468;
    let era: i64 = floor_div(z, 146097);
    let doe: i64 = z - era * 146097;
    let t1: i64 = floor_div(doe, 1460);
    let t2: i64 = floor_div(doe, 36524);
    let t3: i64 = floor_div(doe, 146096);
    let yoe: i64 = floor_div(doe - t1 + t2 - t3, 365);
    let y: i64 = yoe + era * 400;
    let doy: i64 = doe - (365 * yoe + floor_div(yoe, 4) - floor_div(yoe, 100));
    let mp: i64 = floor_div(5 * doy + 2, 153);
    let d: i64 = doy - floor_div(153 * mp + 2, 5) + 1;
    let m: i64 = if mp < 10 {
        mp + 3
    } else {
        mp - 9
    };
    let yr: i64 = if m <= 2 {
        y + 1
    } else {
        y
    };
    (yr, m, d)
}

/// Three-letter month name; a placeholder outside `1..=12`.
pub open spec fn spec_month_abbrev(m: int) -> Seq<char> {
    if m == 1 {
        "Jan"@
    } else if m == 2 {
        "Feb"@
    } else if m == 3 {
        "Mar"@
    } else if m == 4 {
        "Apr"@
    } else if m == 5 {
        "May"@
    } else if m == 6 {
        "Jun"@
    } else if m == 7 {
        "Jul"@
    } else if m == 8 {
        "Aug"@
    } else if m == 9 {
        "Sep"@
    } else if m == 10 {
        "Oct"@
    } else if m == 11 {
        "Nov"@
    } else if m == 12 {
        "Dec"@
    } else {
        "???"@
    }
}

/// Executable month name.
pub fn month_abbrev(m: i64) -> (r: Vec<char>)
    ensures
        r@ == spec_month_abbrev(m as int),
{
    let s: &str = if m == 1 {
        "Jan"
    } else if m == 2 {
        "Feb"
    } else if m == 3 {
        "Mar"
    } else if m == 4 {
        "Apr"
    } else if m == 5 {
        "May"
    } else if m == 6 {
        "Jun"
    } else if m == 7 {
        "Jul"
    } else if m == 8 {
        "Aug"
    } else if m == 9 {
        "Sep"
    } else if m == 10 {
        "Oct"
    } else if m == 11 {
        "Nov"
    } else if m == 12 {
        "Dec"
    } else {
        "???"
    };
    string_to_chars(s)
}

/// A number padded to two digits, as in day-of-month or minute fields;
/// plain decimal outside `0..=9`.
pub open spec fn spec_pad2(n: int) -> Seq<char> {
    if 0 <= n <= 9 {
        seq!['0', digit_char(n)]
    } else {
        int_str(n)
    }
}

/// Appends `n`, zero-padded to two digits.
pub fn append_pad2(out: &mut Vec<char>, n: i64)
    ensures
        final(out)@ == old(out)@ + spec_pad2(n as int),
{
    if 0 <= n && n <= 9 {
        out.push('0');
        out.push(char_of_digit(n as u32));
        proof {
            assert(old(out)@.push('0').push(digit_char(n as int))
                =~= old(out)@ + spec_pad2(n as int));
        }
    } else {
        append_i64(out, n);
    }
}

/// A year padded to four digits; plain decimal outside `0..=9999`.
pub open spec fn spec_pad4(n: int) -> Seq<char> {
    if 0 <= n <= 9999 {
        seq![
            digit_char(n / 1000),
            digit_char((n / 100) % 10),
            digit_char((n / 10) % 10),
            digit_char(n % 10),
        ]
    } else {
        int_str(n)
    }
}

/// Appends `n`, zero-padded to four digits.
pub fn append_pad4(out: &mut Vec<char>, n: i64)
    ensures
        final(out)@ == old(out)@ + spec_pad4(n as int),
{
    if 0 <= n && n <= 9999 {
        let u: u64 = n as u64;
        out.push(char_of_digit((u / 1000) as u32));
        out.push(char_of_digit(((u / 100) % 10) as u32));
        out.push(char_of_digit(((u / 10) % 10) as u32));
        out.push(char_of_digit((u % 10) as u32));
        proof {
            assert(old(out)@
                .push(digit_char(n as int / 1000))
                .push(digit_char((n as int / 100) % 10))
                .push(digit_char((n as int / 10) % 10))
                .push(digit_char(n as int % 10)) =~= old(out)@ + spec_pad4(n as int));
        }
    } else {
        append_i64(out, n);
    }
}

/// The `YYYY-MM-DD` rendering of the day a timestamp falls on.
pub open spec fn spec_format_date(ts: int) -> Seq<char> {
    let (y, m, d) = spec_civil_of_day(spec_day_of(ts));
    spec_pad4(y) + seq!['-'] + spec_pad2(m) + seq!['-'] + spec_pad2(d)
}

/// Renders the calendar date of `ts` as `YYYY-MM-DD`.
pub fn format_date(ts: i64) -> (r: Vec<char>)
    ensures
        r@ == spec_format_date(ts as int),
{
    let z = day_of_timestamp(ts);
    let (y, m, d) = civil_of_day(z);
    let mut out: Vec<char> = Vec::new();
    append_pad4(&mut out, y);
    out.push('-');
    append_pad2(&mut out, m);
    out.push('-');
    append_pad2(&mut out, d);
    proof {
        assert(out@ =~= spec_format_date(ts as int));
    }
    out
}

/// The `HH:MM` or `HH:MM:SS` rendering of the time of day of a timestamp.
pub open spec fn spec_format_time(ts: int, with_seconds: bool) -> Seq<char> {
    let sod = ts % (DAY_SECONDS as int);
    let base = spec_pad2(sod / 3600) + seq![':'] + spec_pad2((sod / 60) % 60);
    if with_seconds {
        base + seq![':'] + spec_pad2(sod % 60)
    } else {
        base
    }
}

/// Renders the time of day of `ts`, with or without the seconds field.
pub fn format_time(ts: i64, with_seconds: bool) -> (r: Vec<char>)
    ensures
        r@ == spec_format_time(ts as int, with_seconds),
{
    let sod: i64 = euclid_rem(ts, DAY_SECONDS);
    let h: i64 = floor_div(sod, 3600);
    let mi: i64 = euclid_rem(floor_div(sod, 60), 60);
    let mut out: Vec<char> = Vec::new();
    append_pad2(&mut out, h);
    out.push(':');
    append_pad2(&mut out, mi);
    if with_seconds {
        let se: i64 = euclid_rem(sod, 60);
        out.push(':');
        append_pad2(&mut out, se);
        proof {
            assert(out@ =~= spec_format_time(ts as int, with_seconds));
        }
    } else {
        proof {
            assert(out@ =~= spec_format_time(ts as int, with_seconds));
        }
    }
    out
}

/// The full `YYYY-MM-DD HH:MM[:SS]` rendering of a timestamp.
pub open spec fn spec_format_datetime(ts: int, with_seconds: bool) -> Seq<char> {
    spec_format_date(ts) + seq![' '] + spec_format_time(ts, with_seconds)
}

/// Renders `ts` as a date and time of day.
pub fn format_datetime(ts: i64, with_seconds: bool) -> (r: Vec<char>)
    ensures
        r@ == spec_format_datetime(ts as int, with_seconds),
{
    let mut out = format_date(ts);
    out.push(' ');
    let time = format_time(ts, with_seconds);
    let mut k: usize = 0;
    while k < time.len()
        invariant
            0 <= k <= time.len(),
            out@ == spec_format_date(ts as int) + seq![' '] + time@.subrange(0, k as int),
        decreases time.len() - k,
    {
        out.push(time[k]);
        proof {
            assert(time@.subrange(0, k + 1 as int)
                == time@.subrange(0, k as int).push(time@[k as int]));
        }
        k += 1;
    }
    proof {
        assert(time@.subrange(0, time@.len() as int) == time@);
    }
    out
}

/// Whether `s` has the exact `YYYY-MM-DD` shape.
pub open spec fn is_date_shape(s: Seq<char>) -> bool {
    &&& s.len() == 10
    &&& is_digit(s[0]) && is_digit(s[1]) && is_digit(s[2]) && is_digit(s[3])
    &&& s[4] == '-'
    &&& is_digit(s[5]) && is_digit(s[6])
    &&& s[7] == '-'
    &&& is_digit(s[8]) && is_digit(s[9])
}

/// The year field of a date-shaped string.
pub open spec fn date_year(s: Seq<char>) -> int {
    digit_val(s[0]) * 1000 + digit_val(s[1]) * 100 + digit_val(s[2]) * 10 + digit_val(s[3])
}

/// The month field of a date-shaped string.
pub open spec fn date_month(s: Seq<char>) -> int {
    digit_val(s[5]) * 10 + digit_val(s[6])
}

/// The day field of a date-shaped string.
pub open spec fn date_day(s: Seq<char>) -> int {
    digit_val(s[8]) * 10 + digit_val(s[9])
}

/// Whether the named date exists on the civil calendar.
pub open spec fn valid_civil_date(y: int, m: int, d: int) -> bool {
    1 <= m <= 12 && 1 <= d <= spec_days_in_month(y, m)
}

/// The timestamp a parsed calendar date stands for: the last second of that
/// day.
pub open spec fn spec_date_timestamp(y: int, m: int, d: int) -> int {
    spec_days_from_civil(y, m, d) * (DAY_SECONDS as int) + 86399
}

/// The timestamp a calendar-date string stands for, when it has the
/// `YYYY-MM-DD` shape and names a date that exists.
pub open spec fn spec_parse_date(s: Seq<char>) -> Option<int> {
    if is_date_shape(s) && valid_civil_date(date_year(s), date_month(s), date_day(s)) {
        Some(spec_date_timestamp(date_year(s), date_month(s), date_day(s)))
    } else {
        None
    }
}

/// Parses a `YYYY-MM-DD` string into the timestamp of the last second of
/// that day; `None` exactly when the shape is wrong or the date does not
/// exist.
pub fn parse_date_chars(v: &Vec<char>) -> (r: Option<i64>)
    ensures
        r is None <==> spec_parse_date(v@) is None,
        r matches Some(ts) ==> Some(ts as int) == spec_parse_date(v@),
{
    if v.len() != 10 {
        return None;
    }
    if !(is_digit_char(v[0]) && is_digit_char(v[1]) && is_digit_char(v[2]) && is_digit_char(v[3]))
    {
        return None;
    }
    if v[4] != '-' {
        return None;
    }
    if !(is_digit_char(v[5]) && is_digit_char(v[6])) {
        return None;
    }
    if v[7] != '-' {
        return None;
    }
    if !(is_digit_char(v[8]) && is_digit_char(v[9])) {
        return None;
    }
    let y: i64 = (digit_value(v[0]) * 1000 + digit_value(v[1]) * 100 + digit_value(v[2]) * 10
        + digit_value(v[3])) as i64;
    let m: i64 = (digit_value(v[5]) * 10 + digit_value(v[6])) as i64;
    let d: i64 = (digit_value(v[8]) * 10 + digit_value(v[9])) as i64;
    if m < 1 || m > 12 {
        return None;
    }
    if d < 1 || d > days_in_month(y, m) {
        return None;
    }
    let days = days_from_civil(y, m, d);
    Some(days * DAY_SECONDS + 86399)
}

} // verus!
