use vstd::prelude::*;
use crate::text::{decimal, decimal_text};

verus! {

pub const SECONDS_PER_DAY: u64 = 86400;

/// Days in 400 consecutive Gregorian years.
pub const DAYS_PER_ERA: u64 = 146097;

pub open spec fn is_leap(y: nat) -> bool {
    y % 4 == 0 && (y % 100 != 0 || y % 400 == 0)
}

pub open spec fn year_len(y: nat) -> nat {
    if is_leap(y) {
        366
    } else {
        365
    }
}

/// Days in month `m` (1 to 12) of year `y`.
pub open spec fn month_len(y: nat, m: nat) -> nat {
    if m == 2 {
        if is_leap(y) {
            29
        } else {
            28
        }
    } else if m == 4 || m == 6 || m == 9 || m == 11 {
        30
    } else {
        31
    }
}

/// Days in the `n` years that begin with year `y`.
pub open spec fn span(y: nat, n: nat) -> nat
    decreases n,
{
    if n == 0 {
        0
    } else {
        year_len(y) + span(y + 1, (n - 1) as nat)
    }
}

/// The year and the zero-based day within it that lie `d` days after the start of year `y`.
pub open spec fn year_and_day(y: nat, d: nat) -> (nat, nat)
    decreases d,
{
    if d < year_len(y) {
        (y, d)
    } else {
        year_and_day(y + 1, (d - year_len(y)) as nat)
    }
}

/// The month (from `m`) and the zero-based day within it that lie `d` days
/// after the start of month `m` of year `y`; December takes what is left.
pub open spec fn month_and_day(y: nat, m: nat, d: nat) -> (nat, nat)
    decreases 12 - m,
{
    if m >= 12 || d < month_len(y, m) {
        (m, d)
    } else {
        month_and_day(y, m + 1, (d - month_len(y, m)) as nat)
    }
}

/// `n` in decimal, with zeros in front up to `w` characters.
pub open spec fn padded(n: nat, w: nat) -> Seq<char> {
    if decimal(n).len() >= w {
        decimal(n)
    } else {
        Seq::new((w - decimal(n).len()) as nat, |i: int| '0') + decimal(n)
    }
}

/// The UTC calendar date and time, `YYYY-MM-DDTHH:MM:SSZ`, of `secs` seconds
/// after 1970-01-01T00:00:00Z.
pub open spec fn iso_utc(secs: nat) -> Seq<char> {
    let days = secs / 86400;
    let rem = secs % 86400;
    let (y, yd) = year_and_day(1970, days);
    let (m, md) = month_and_day(y, 1, yd);
    padded(y, 4) + "-"@ + padded(m, 2) + "-"@ + padded(md + 1, 2) + "T"@ + padded(rem / 3600, 2)
        + ":"@ + padded((rem % 3600) / 60, 2) + ":"@ + padded(rem % 60, 2) + "Z"@
}

proof fn lemma_year_len_periodic(y: nat)
    ensures
        year_len(y + 400) == year_len(y),
{
    assert((y + 400) % 4 == y % 4);
    assert((y + 400) % 100 == y % 100);
    assert((y + 400) % 400 == y % 400);
}

proof fn lemma_span_periodic(y: nat, n: nat)
    ensures
        span(y + 400, n) == span(y, n),
    decreases n,
{
    if n > 0 {
        lemma_year_len_periodic(y);
        lemma_span_periodic(y + 1, (n - 1) as nat);
    }
}

proof fn lemma_span_snoc(y: nat, n: nat)
    ensures
        span(y, n + 1) == span(y, n) + year_len(y + n),
    decreases n,
{
    if n > 0 {
        lemma_span_snoc(y + 1, (n - 1) as nat);
        assert(span(y, n + 1) == year_len(y) + span(y + 1, n));
        assert(span(y, n) == year_len(y) + span(y + 1, (n - 1) as nat));
        assert((y + 1 + (n - 1) as nat) == y + n);
    } else {
        assert(span(y + 1, 0) == 0);
        assert(span(y, 1) == year_len(y) + span(y + 1, 0));
    }
}

proof fn lemma_span_split(y: nat, a: nat, b: nat)
    ensures
        span(y, a + b) == span(y, a) + span(y + a, b),
    decreases a,
{
    if a > 0 {
        lemma_span_split(y + 1, (a - 1) as nat, b);
        assert((a - 1) as nat + b == (a + b - 1) as nat);
    }
}

/// Days in years 0 to n - 1: a year in four is long, but for centuries not divisible by 400.
proof fn lemma_span_from_zero(n: nat)
    ensures
        span(0, n) == 365 * n + (n + 3) / 4 - (n + 99) / 100 + (n + 399) / 400,
    decreases n,
{
    if n > 0 {
        let p = (n - 1) as nat;
        lemma_span_from_zero(p);
        lemma_span_snoc(0, p);
        assert((p + 4) / 4 - (p + 3) / 4 == if p % 4 == 0 { 1int } else { 0int });
        assert((p + 100) / 100 - (p + 99) / 100 == if p % 100 == 0 { 1int } else { 0int });
        assert((p + 400) / 400 - (p + 399) / 400 == if p % 400 == 0 { 1int } else { 0int });
    }
}

proof fn lemma_era_from_epoch(k: nat)
    ensures
        span(1970 + 400 * k, 400) == 146097,
    decreases k,
{
    if k == 0 {
        lemma_span_split(0, 1970, 400);
        lemma_span_from_zero(1970);
        lemma_span_from_zero(2370);
    } else {
        lemma_era_from_epoch((k - 1) as nat);
        lemma_span_periodic((1970 + 400 * (k - 1)) as nat, 400);
        assert(1970 + 400 * (k - 1) + 400 == 1970 + 400 * k) by (nonlinear_arith)
            requires k >= 1;
    }
}

proof fn lemma_skip_years(y: nat, n: nat, d: nat)
    requires
        d >= span(y, n),
    ensures
        year_and_day(y, d) == year_and_day(y + n, (d - span(y, n)) as nat),
    decreases n,
{
    if n > 0 {
        lemma_skip_years(y + 1, (n - 1) as nat, (d - year_len(y)) as nat);
    }
}

proof fn lemma_skip_eras(q: nat, r: nat)
    ensures
        year_and_day(1970, 146097 * q + r) == year_and_day(1970 + 400 * q, r),
    decreases q,
{
    if q > 0 {
        let p = (q - 1) as nat;
        assert(146097 * q + r == 146097 * p + (146097 + r)) by (nonlinear_arith)
            requires p == q - 1;
        lemma_skip_eras(p, 146097 + r);
        lemma_era_from_epoch(p);
        lemma_skip_years(1970 + 400 * p, 400, 146097 + r);
        assert(1970 + 400 * p + 400 == 1970 + 400 * q) by (nonlinear_arith)
            requires p == q - 1;
    }
}

fn year_len_of(y: u64) -> (r: u64)
    ensures
        r == year_len(y as nat),
{
    if y % 4 == 0 && (y % 100 != 0 || y % 400 == 0) {
        366
    } else {
        365
    }
}

fn month_len_of(y: u64, m: u64) -> (r: u64)
    ensures
        r == month_len(y as nat, m as nat),
{
    if m == 2 {
        if y % 4 == 0 && (y % 100 != 0 || y % 400 == 0) {
            29
        } else {
            28
        }
    } else if m == 4 || m == 6 || m == 9 || m == 11 {
        30
    } else {
        31
    }
}

/// The Gregorian year, month (1 to 12) and zero-based day of the month that lie
/// `days` days after 1970-01-01.
pub fn civil_from_days(days: u64) -> (r: (u64, u64, u64))
    ensures
        r.0 == year_and_day(1970, days as nat).0,
        (r.1 as nat, r.2 as nat) == month_and_day(r.0 as nat, 1, year_and_day(1970, days as nat).1),
        r.2 < DAYS_PER_ERA,
{
    let ghost target = year_and_day(1970, days as nat);
    let q = days / DAYS_PER_ERA;
    let mut d = days % DAYS_PER_ERA;
    assert(q <= 126268082325886) by (nonlinear_arith)
        requires q == days / 146097, days <= u64::MAX;
    let mut y: u64 = 1970 + 400 * q;
    proof {
        lemma_skip_eras(q as nat, d as nat);
        assert(days == 146097 * q + d);
    }
    while d >= year_len_of(y)
        invariant
            year_and_day(y as nat, d as nat) == target,
            q <= 126268082325886,
            y + d <= 1970 + 400 * q + 146097,
            d < DAYS_PER_ERA,
        decreases d,
    {
        d = d - year_len_of(y);
        y = y + 1;
    }
    assert(target == (y as nat, d as nat));
    let ghost month_target = month_and_day(y as nat, 1, d as nat);
    let mut m: u64 = 1;
    while m < 12 && d >= month_len_of(y, m)
        invariant
            1 <= m <= 12,
            d < DAYS_PER_ERA,
            month_and_day(y as nat, m as nat, d as nat) == month_target,
        decreases 12 - m,
    {
        d = d - month_len_of(y, m);
        m = m + 1;
    }
    (y, m, d)
}

/// `n` in decimal, with zeros in front up to `w` characters.
pub fn padded_text(n: u64, w: usize) -> (r: String)
    ensures
        r@ == padded(n as nat, w as nat),
{
    let digits = decimal_text(n);
    let len = digits.as_str().unicode_len();
    if len >= w {
        return digits;
    }
    let mut r = String::new();
    let mut i: usize = 0;
    while i < w - len
        invariant
            len < w,
            i <= w - len,
            r@ == Seq::new(i as nat, |k: int| '0'),
        decreases w - len - i,
    {
        proof {
            reveal_strlit("0");
        }
        r.append("0");
        i = i + 1;
        assert(r@ =~= Seq::new(i as nat, |k: int| '0'));
    }
    r.append(digits.as_str());
    r
}

/// `secs` seconds after the Unix epoch as an ISO-8601 UTC timestamp.
pub fn format_utc(secs: u64) -> (r: String)
    ensures
        r@ == iso_utc(secs as nat),
{
    let days = secs / SECONDS_PER_DAY;
    let rem = secs % SECONDS_PER_DAY;
    let (y, m, md) = civil_from_days(days);
    let mut r = padded_text(y, 4);
    r.append("-");
    r.append(padded_text(m, 2).as_str());
    r.append("-");
    r.append(padded_text(md + 1, 2).as_str());
    r.append("T");
    r.append(padded_text(rem / 3600, 2).as_str());
    r.append(":");
    r.append(padded_text((rem % 3600) / 60, 2).as_str());
    r.append(":");
    r.append(padded_text(rem % 60, 2).as_str());
    r.append("Z");
    r
}

} // verus!
