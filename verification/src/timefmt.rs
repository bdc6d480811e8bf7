//! Rendering of numbers and of episode timestamps.
//!
//! A timestamp is a count of whole seconds since 1970-01-01T00:00:00 UTC and
//! is rendered in ISO-8601 form, `YYYY-MM-DDThh:mm:ssZ`. The calendar is
//! specified directly: a year is 365 days, 366 in a leap year, and the days
//! of a year are split over the usual month lengths.

use vstd::prelude::*;
use vstd::string::StrSliceExecFns;
use vstd::string::StringExecFns;

verus! {

/// The digit character for one value below ten.
pub open spec fn digit_char(d: int) -> char {
    if d == 0 {
        '0'
    } else if d == 1 {
        '1'
    } else if d == 2 {
        '2'
    } else if d == 3 {
        '3'
    } else if d == 4 {
        '4'
    } else if d == 5 {
        '5'
    } else if d == 6 {
        '6'
    } else if d == 7 {
        '7'
    } else if d == 8 {
        '8'
    } else {
        '9'
    }
}

/// The decimal rendering of `n`, without padding.
pub open spec fn dec_seq(n: nat) -> Seq<char>
    decreases n,
{
    if n < 10 {
        seq![digit_char(n as int)]
    } else {
        dec_seq(n / 10) + seq![digit_char((n % 10) as int)]
    }
}

/// The decimal rendering of `n`, left-padded with zeros to two places.
pub open spec fn pad2_seq(n: int) -> Seq<char> {
    if 0 <= n < 10 {
        seq!['0'] + dec_seq(n as nat)
    } else {
        dec_seq(n as nat)
    }
}

/// The decimal rendering of `n`, left-padded with zeros to four places.
pub open spec fn pad4_seq(n: int) -> Seq<char> {
    if 0 <= n < 10 {
        seq!['0', '0', '0'] + dec_seq(n as nat)
    } else if 10 <= n < 100 {
        seq!['0', '0'] + dec_seq(n as nat)
    } else if 100 <= n < 1000 {
        seq!['0'] + dec_seq(n as nat)
    } else {
        dec_seq(n as nat)
    }
}

pub open spec fn spec_is_leap(y: int) -> bool {
    (y % 4 == 0 && y % 100 != 0) || y % 400 == 0
}

pub open spec fn spec_days_in_year(y: int) -> int {
    if spec_is_leap(y) {
        366
    } else {
        365
    }
}

pub open spec fn spec_days_in_month(y: int, m: int) -> int {
    if m == 2 {
        if spec_is_leap(y) {
            29
        } else {
            28
        }
    } else if m == 4 || m == 6 || m == 9 || m == 11 {
        30
    } else {
        31
    }
}

/// Starting at year `y` with `d` whole days left, the year the last day
/// falls in, and the day's index within that year.
pub open spec fn year_split(y: int, d: nat) -> (int, nat)
    decreases d,
{
    if d < spec_days_in_year(y) {
        (y, d)
    } else {
        year_split(y + 1, (d - spec_days_in_year(y)) as nat)
    }
}

/// Starting at month `m` of year `y` with `d` days left, the month the last
/// day falls in, and the day's index within that month.
pub open spec fn month_split(y: int, m: int, d: nat) -> (int, nat)
    decreases 12 - m,
{
    if m >= 12 || d < spec_days_in_month(y, m) {
        (m, d)
    } else {
        month_split(y, m + 1, (d - spec_days_in_month(y, m)) as nat)
    }
}

/// The civil date, `(year, month, day)`, of the timestamp `t`.
pub open spec fn spec_date(t: nat) -> (int, int, int) {
    let (y, rem) = year_split(1970, t / 86400);
    let (m, rem2) = month_split(y, 1, rem);
    (y, m, rem2 + 1 as int)
}

/// The ISO-8601 rendering of the timestamp `t`.
pub open spec fn iso8601_seq(t: nat) -> Seq<char> {
    let (y, m, d) = spec_date(t);
    let secs = t % 86400;
    pad4_seq(y) + seq!['-'] + pad2_seq(m) + seq!['-'] + pad2_seq(d) + seq!['T'] + pad2_seq(
        (secs / 3600) as int,
    ) + seq![':'] + pad2_seq(((secs % 3600) / 60) as int) + seq![':'] + pad2_seq(
        (secs % 60) as int,
    ) + seq!['Z']
}

fn digit_str(d: u64) -> (r: &'static str)
    requires
        d < 10,
    ensures
        r@ == seq![digit_char(d as int)],
{
    proof {
        reveal_strlit("0");
        reveal_strlit("1");
        reveal_strlit("2");
        reveal_strlit("3");
        reveal_strlit("4");
        reveal_strlit("5");
        reveal_strlit("6");
        reveal_strlit("7");
        reveal_strlit("8");
        reveal_strlit("9");
    }
    let r = match d {
        0 => "0",
        1 => "1",
        2 => "2",
        3 => "3",
        4 => "4",
        5 => "5",
        6 => "6",
        7 => "7",
        8 => "8",
        _ => "9",
    };
    proof {
        assert(r@ =~= seq![digit_char(d as int)]);
    }
    r
}

/// The decimal rendering of `n`.
pub fn dec_string(n: u64) -> (r: String)
    ensures
        r@ == dec_seq(n as nat),
    decreases n,
{
    if n < 10 {
        digit_str(n).to_owned()
    } else {
        proof {
            assert(n as nat / 10 < n as nat) by (nonlinear_arith)
                requires
                    n >= 10,
            ;
        }
        let mut s = dec_string(n / 10);
        s.append(digit_str(n % 10));
        s
    }
}

/// The decimal rendering of `n`, zero-padded to two places.
pub fn pad2_string(n: u64) -> (r: String)
    ensures
        r@ == pad2_seq(n as int),
{
    if n < 10 {
        proof {
            reveal_strlit("0");
        }
        let mut s = String::new();
        s.append("0");
        s.append(digit_str(n));
        proof {
            assert(s@ =~= pad2_seq(n as int));
        }
        s
    } else {
        dec_string(n)
    }
}

/// The decimal rendering of `n`, zero-padded to four places.
pub fn pad4_string(n: u64) -> (r: String)
    ensures
        r@ == pad4_seq(n as int),
{
    let mut s = String::new();
    proof {
        reveal_strlit("000");
        reveal_strlit("00");
        reveal_strlit("0");
    }
    if n < 10 {
        s.append("000");
    } else if n < 100 {
        s.append("00");
    } else if n < 1000 {
        s.append("0");
    }
    let d = dec_string(n);
    s.append(d.as_str());
    proof {
        assert(s@ =~= pad4_seq(n as int));
    }
    s
}

fn is_leap(y: u64) -> (r: bool)
    ensures
        r == spec_is_leap(y as int),
{
    (y % 4 == 0 && y % 100 != 0) || y % 400 == 0
}

fn days_in_year(y: u64) -> (r: u64)
    ensures
        r == spec_days_in_year(y as int),
{
    if is_leap(y) {
        366
    } else {
        365
    }
}

fn days_in_month(y: u64, m: u64) -> (r: u64)
    ensures
        r == spec_days_in_month(y as int, m as int),
{
    if m == 2 {
        if is_leap(y) {
            29
        } else {
            28
        }
    } else if m == 4 || m == 6 || m == 9 || m == 11 {
        30
    } else {
        31
    }
}

/// The ISO-8601 rendering of `t` seconds since 1970-01-01T00:00:00 UTC.
pub fn iso8601(t: u64) -> (r: String)
    ensures
        r@ == iso8601_seq(t as nat),
{
    let days: u64 = t / 86400;
    let secs: u64 = t % 86400;
    proof {
        vstd::arithmetic::div_mod::lemma_div_is_ordered(
            t as int,
            u64::MAX as int,
            86400,
        );
        assert(days <= 213503982334601);
    }
    let mut y: u64 = 1970;
    let mut rem: u64 = days;
    loop
        invariant
            1970 <= y,
            y - 1970 <= days - rem,
            rem <= days,
            days <= 213503982334601,
            year_split(1970, days as nat) == year_split(y as int, rem as nat),
        ensures
            (rem as int) < spec_days_in_year(y as int),
            year_split(1970, days as nat) == (y as int, rem as nat),
        decreases rem,
    {
        let diy = days_in_year(y);
        if rem < diy {
            break ;
        }
        rem = rem - diy;
        y = y + 1;
    }
    let mut m: u64 = 1;
    loop
        invariant
            1 <= m <= 12,
            rem <= 365,
            month_split(y as int, 1, year_split(1970, days as nat).1) == month_split(
                y as int,
                m as int,
                rem as nat,
            ),
        ensures
            rem <= 365,
            month_split(y as int, 1, year_split(1970, days as nat).1) == (
                m as int,
                rem as nat,
            ),
        decreases 12 - m,
    {
        if m >= 12 {
            break ;
        }
        let dim = days_in_month(y, m);
        if rem < dim {
            break ;
        }
        rem = rem - dim;
        m = m + 1;
    }
    let day: u64 = rem + 1;
    let hour: u64 = secs / 3600;
    let minute: u64 = (secs % 3600) / 60;
    let second: u64 = secs % 60;
    proof {
        reveal_strlit("-");
        reveal_strlit("T");
        reveal_strlit(":");
        reveal_strlit("Z");
    }
    let mut out = pad4_string(y);
    out.append("-");
    let p = pad2_string(m);
    out.append(p.as_str());
    out.append("-");
    let p = pad2_string(day);
    out.append(p.as_str());
    out.append("T");
    let p = pad2_string(hour);
    out.append(p.as_str());
    out.append(":");
    let p = pad2_string(minute);
    out.append(p.as_str());
    out.append(":");
    let p = pad2_string(second);
    out.append(p.as_str());
    out.append("Z");
    proof {
        assert(out@ =~= iso8601_seq(t as nat));
    }
    out
}

} // verus!
