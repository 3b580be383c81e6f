//! Absolute UTC timestamps, the cutoff computation, and the exact
//! `yyyy-MM-dd:HH:mm:ss` rendering the pruning statement embeds.
//!
//! A day is exactly 24 hours and an hour exactly 3600 seconds: cutoffs are
//! fixed-duration arithmetic, never calendar arithmetic.  Rendering, on the
//! other hand, must name the civil date of a timestamp, so this module also
//! carries a verified proleptic-Gregorian conversion from seconds since the
//! epoch to year, month and day.

use crate::errors::ValidationError;
use crate::granularity::Granularity;
use crate::policy::RetentionPeriod;
use crate::text::{
    four_digit_text, render_four_digits, render_two_digits, two_digit_text,
};
use vstd::arithmetic::div_mod::{
    lemma_fundamental_div_mod, lemma_fundamental_div_mod_converse_div,
    lemma_fundamental_div_mod_converse_mod, lemma_mod_bound,
};
use vstd::prelude::*;

verus! {

pub const SECONDS_PER_HOUR: u64 = 3600;

pub const SECONDS_PER_DAY: u64 = 86400;

/// Days from 1970-01-01 up to 10000-01-01.
pub const DAYS_IN_TEXT_RANGE: u64 = 2932897;

/// The first second of year 10000.  Timestamps stay below it, so a year is
/// always rendered with exactly four digits.
pub const TEXT_RANGE_END: u64 = 2932897 * 86400;

/// An absolute point in time: whole seconds since 1970-01-01T00:00:00 UTC,
/// within the window the statement's `yyyy` year format can render.
#[derive(Debug, Clone, Copy, PartialEq, Eq, Structural)]
pub struct Timestamp {
    secs: u64,
}

impl Timestamp {
    /// Every timestamp that exists can be rendered with a four-digit year.
    #[verifier::type_invariant]
    spec fn in_text_range(self) -> bool {
        self.secs < TEXT_RANGE_END
    }

    /// Seconds since the epoch, as the contracts speak of them.
    pub closed spec fn secs_spec(self) -> u64 {
        self.secs
    }

    /// Build a timestamp from seconds since the epoch.  Seconds before the
    /// epoch or at year 10000 and beyond are refused, never clamped.
    pub fn from_epoch_seconds(secs: i64) -> (r: Option<Timestamp>)
        ensures
            match r {
                Some(t) => 0 <= secs < TEXT_RANGE_END && t.secs_spec() == secs,
                None => !(0 <= secs < TEXT_RANGE_END),
            },
    {
        if secs >= 0 && (secs as u64) < TEXT_RANGE_END {
            Some(Timestamp { secs: secs as u64 })
        } else {
            None
        }
    }

    /// Seconds since the epoch.
    pub fn epoch_seconds(&self) -> (r: u64)
        ensures
            r == self.secs_spec(),
            r < TEXT_RANGE_END,
    {
        proof {
            use_type_invariant(&*self);
        }
        self.secs
    }
}

/// How many seconds one unit of a granularity spans.  Only the fixed-length
/// units support a cutoff; the others span no defined length here.
pub open spec fn unit_seconds(g: Granularity) -> int {
    match g {
        Granularity::Day => 86400,
        Granularity::Hour => 3600,
        _ => 0,
    }
}

/// The granularities whose cutoff is defined: exactly the fixed-length ones.
pub open spec fn cutoff_supported(g: Granularity) -> bool {
    g == Granularity::Day || g == Granularity::Hour
}

/// The cutoff a policy denotes at a given instant: now minus
/// amount times the unit's fixed length.
pub open spec fn cutoff_secs(p: RetentionPeriod, now: Timestamp) -> int {
    now.secs_spec() - p.amount_spec() * unit_seconds(p.granularity_spec())
}

/// Whether the denoted cutoff lies at or after the epoch, so that the
/// machine can represent it.  Vacuous for unsupported granularities.
pub open spec fn cutoff_in_range(p: RetentionPeriod, now: Timestamp) -> bool {
    cutoff_supported(p.granularity_spec()) ==> cutoff_secs(p, now) >= 0
}

/// Decide [`cutoff_in_range`] at run time.
pub fn cutoff_fits(p: &RetentionPeriod, now: Timestamp) -> (r: bool)
    ensures
        r == cutoff_in_range(*p, now),
{
    let g = p.granularity();
    let unit: u64 = match g {
        Granularity::Day => SECONDS_PER_DAY,
        Granularity::Hour => SECONDS_PER_HOUR,
        _ => {
            return true;
        },
    };
    let amount = p.amount();
    match (amount as u64).checked_mul(unit) {
        Some(span) => span <= now.epoch_seconds(),
        None => false,
    }
}

/// The cutoff computation: now minus amount units, exact to the second.
/// Month and year have no fixed length, so they are always rejected, for
/// every amount; an unpartitioned granularity cannot reach this point from
/// a validated policy but is rejected the same way rather than guessed at.
pub fn compute_cutoff(p: &RetentionPeriod, now: Timestamp) -> (r: Result<
    Timestamp,
    ValidationError,
>)
    requires
        cutoff_in_range(*p, now),
    ensures
        match r {
            Ok(t) => cutoff_supported(p.granularity_spec()) && t.secs_spec() == cutoff_secs(
                *p,
                now,
            ),
            Err(e) => !cutoff_supported(p.granularity_spec()) && (e matches
                ValidationError::UnsupportedGranularity(g) && g == p.granularity_spec()),
        },
{
    let g = p.granularity();
    let unit: u64 = match g {
        Granularity::Day => SECONDS_PER_DAY,
        Granularity::Hour => SECONDS_PER_HOUR,
        _ => {
            return Err(ValidationError::UnsupportedGranularity(g));
        },
    };
    let amount = p.amount();
    let now_secs = now.epoch_seconds();
    let span: u64 = (amount as u64) * unit;
    Ok(Timestamp { secs: now_secs - span })
}

/// Leap years of the proleptic Gregorian calendar.
pub open spec fn is_leap_year(y: int) -> bool {
    y % 4 == 0 && (y % 100 != 0 || y % 400 == 0)
}

pub open spec fn days_in_year(y: int) -> int {
    if is_leap_year(y) {
        366
    } else {
        365
    }
}

/// Month lengths, February depending on the year.
pub open spec fn days_in_month(y: int, m: int) -> int {
    if m == 2 {
        if is_leap_year(y) {
            29
        } else {
            28
        }
    } else if m == 4 || m == 6 || m == 9 || m == 11 {
        30
    } else {
        31
    }
}

/// Walk whole years forward from `y`, consuming `rem` days; yields the year
/// the remaining days fall in and the day index within it.
pub open spec fn split_year(y: int, rem: int) -> (int, int)
    decreases rem,
{
    if rem < days_in_year(y) || rem < 0 {
        (y, rem)
    } else {
        split_year(y + 1, rem - days_in_year(y))
    }
}

/// Walk whole months forward from `m`, consuming `rem` days; yields the
/// month the remaining days fall in and the day index within it.
pub open spec fn split_month(y: int, m: int, rem: int) -> (int, int)
    decreases rem,
{
    if rem < days_in_month(y, m) || rem < 0 {
        (m, rem)
    } else {
        split_month(y, m + 1, rem - days_in_month(y, m))
    }
}

pub open spec fn year_of(secs: int) -> int {
    split_year(1970, secs / 86400).0
}

pub open spec fn year_day_of(secs: int) -> int {
    split_year(1970, secs / 86400).1
}

pub open spec fn month_of(secs: int) -> int {
    split_month(year_of(secs), 1, year_day_of(secs)).0
}

pub open spec fn day_of(secs: int) -> int {
    split_month(year_of(secs), 1, year_day_of(secs)).1 + 1
}

pub open spec fn hour_of(secs: int) -> int {
    (secs / 3600) % 24
}

pub open spec fn minute_of(secs: int) -> int {
    (secs / 60) % 60
}

pub open spec fn second_of(secs: int) -> int {
    secs % 60
}

/// The exact text of a timestamp in the statement's fixed UTC format:
/// `yyyy-MM-dd:HH:mm:ss`, every field zero-padded.
pub open spec fn timestamp_text(secs: int) -> Seq<char> {
    four_digit_text(year_of(secs)) + seq!['-'] + two_digit_text(month_of(secs)) + seq!['-']
        + two_digit_text(day_of(secs)) + seq![':'] + two_digit_text(hour_of(secs)) + seq![':']
        + two_digit_text(minute_of(secs)) + seq![':'] + two_digit_text(second_of(secs))
}

/// Leap years strictly before year `y` and after year 0.
pub open spec fn leap_years_before(y: int) -> int {
    (y - 1) / 4 - (y - 1) / 100 + (y - 1) / 400
}

/// Days from 1970-01-01 to the first day of year `y`.
pub open spec fn days_before_year(y: int) -> int {
    365 * (y - 1970) + leap_years_before(y) - leap_years_before(1970)
}

/// One step of integer division: dividing `y` rounds one unit higher than
/// dividing `y - 1` exactly when `d` divides `y`.
proof fn lemma_div_step(y: int, d: int)
    requires
        y >= 1,
        d >= 1,
    ensures
        y / d - (y - 1) / d == if y % d == 0 {
            1int
        } else {
            0int
        },
{
    lemma_fundamental_div_mod(y, d);
    lemma_mod_bound(y, d);
    let q = y / d;
    let r = y % d;
    if r == 0 {
        assert((q - 1) * d + (d - 1) == q * d - 1) by (nonlinear_arith);
        assert(y - 1 == (q - 1) * d + (d - 1)) by {
            assert(y == d * q);
            assert(d * q == q * d) by (nonlinear_arith);
        }
        lemma_fundamental_div_mod_converse_div(y - 1, d, q - 1, d - 1);
    } else {
        assert(y - 1 == q * d + (r - 1)) by {
            assert(d * q == q * d) by (nonlinear_arith);
        }
        lemma_fundamental_div_mod_converse_div(y - 1, d, q, r - 1);
    }
}

/// A multiple of 100 is a multiple of 4; a multiple of 400 is a multiple
/// of both.
proof fn lemma_century_divisibility(y: int)
    requires
        y >= 1,
    ensures
        y % 100 == 0 ==> y % 4 == 0,
        y % 400 == 0 ==> y % 100 == 0 && y % 4 == 0,
{
    if y % 100 == 0 {
        lemma_fundamental_div_mod(y, 100);
        assert(y == 100 * (y / 100));
        assert(100 * (y / 100) == 25 * (y / 100) * 4 + 0) by (nonlinear_arith);
        lemma_fundamental_div_mod_converse_mod(y, 4, 25 * (y / 100), 0);
    }
    if y % 400 == 0 {
        lemma_fundamental_div_mod(y, 400);
        assert(y == 400 * (y / 400));
        assert(400 * (y / 400) == 4 * (y / 400) * 100 + 0) by (nonlinear_arith);
        lemma_fundamental_div_mod_converse_mod(y, 100, 4 * (y / 400), 0);
        assert(400 * (y / 400) == 100 * (y / 400) * 4 + 0) by (nonlinear_arith);
        lemma_fundamental_div_mod_converse_mod(y, 4, 100 * (y / 400), 0);
    }
}

/// Crossing from year `y` to `y + 1` adds exactly the length of year `y`.
proof fn lemma_days_before_year_step(y: int)
    requires
        y >= 1970,
    ensures
        days_before_year(y + 1) == days_before_year(y) + days_in_year(y),
{
    lemma_div_step(y, 4);
    lemma_div_step(y, 100);
    lemma_div_step(y, 400);
    lemma_century_divisibility(y);
}

/// Counting years forward never loses days, and every year has at least
/// 365 of them.
proof fn lemma_days_before_year_mono(a: int, b: int)
    requires
        1970 <= a <= b,
    ensures
        days_before_year(b) - days_before_year(a) >= 365 * (b - a),
    decreases b - a,
{
    if a < b {
        lemma_days_before_year_mono(a, b - 1);
        lemma_days_before_year_step(b - 1);
    }
}

/// What the year walk computes, stated over the day counts: it preserves
/// the total day offset and lands within the year it names.
proof fn lemma_split_year_days(y: int, rem: int)
    requires
        y >= 1970,
        rem >= 0,
    ensures
        ({
            let (ry, rrem) = split_year(y, rem);
            ry >= y && 0 <= rrem < days_in_year(ry) && days_before_year(ry) + rrem
                == days_before_year(y) + rem
        }),
    decreases rem,
{
    if rem >= days_in_year(y) {
        lemma_days_before_year_step(y);
        lemma_split_year_days(y + 1, rem - days_in_year(y));
    }
}

/// Any day offset below the window's end falls in a four-digit year.
proof fn lemma_year_in_text_range(total: int)
    requires
        0 <= total < DAYS_IN_TEXT_RANGE,
    ensures
        ({
            let (ry, rrem) = split_year(1970, total);
            1970 <= ry <= 9999 && 0 <= rrem < days_in_year(ry) && days_before_year(ry) + rrem
                == total
        }),
{
    lemma_split_year_days(1970, total);
    let (ry, rrem) = split_year(1970, total);
    if ry >= 10000 {
        lemma_days_before_year_mono(10000, ry);
        assert(days_before_year(10000) == 2932897);
        assert(365 * (ry - 10000) >= 0) by (nonlinear_arith)
            requires
                ry >= 10000,
        ;
        assert(false);
    }
}

/// The days of the months of year `y`, from month `m` to December.
pub open spec fn days_from_month(y: int, m: int) -> int
    decreases 13 - m,
{
    if m > 12 || m < 1 {
        0
    } else {
        days_in_month(y, m) + days_from_month(y, m + 1)
    }
}

/// Twelve months exactly cover their year.
proof fn lemma_months_cover_year(y: int)
    ensures
        days_from_month(y, 1) == days_in_year(y),
{
    reveal_with_fuel(days_from_month, 14);
}

/// What the month walk computes: it stays within the twelve months and
/// lands on a day index inside the month it names.
proof fn lemma_split_month_bound(y: int, m: int, rem: int)
    requires
        1 <= m <= 12,
        0 <= rem < days_from_month(y, m),
    ensures
        ({
            let (rm, rrem) = split_month(y, m, rem);
            m <= rm <= 12 && 0 <= rrem < days_in_month(y, rm)
        }),
    decreases 13 - m,
{
    if rem >= days_in_month(y, m) {
        assert(days_from_month(y, m) == days_in_month(y, m) + days_from_month(y, m + 1));
        lemma_split_month_bound(y, m + 1, rem - days_in_month(y, m));
    }
}

/// Days from the first of January of year `y` to the first of month `m`.
pub open spec fn days_before_month(y: int, m: int) -> int
    decreases m,
{
    if m <= 1 {
        0
    } else {
        days_before_month(y, m - 1) + days_in_month(y, m - 1)
    }
}

/// What the month walk computes, stated over the day counts: it preserves
/// the day offset within the year.
proof fn lemma_split_month_days(y: int, m: int, rem: int)
    requires
        1 <= m,
        0 <= rem,
    ensures
        ({
            let (rm, rrem) = split_month(y, m, rem);
            rm >= m && rrem >= 0 && days_before_month(y, rm) + rrem == days_before_month(y, m)
                + rem
        }),
    decreases rem,
{
    if rem >= days_in_month(y, m) {
        lemma_split_month_days(y, m + 1, rem - days_in_month(y, m));
    }
}

/// The civil fields a timestamp renders are faithful: they are in range,
/// and together they denote exactly the rendered timestamp — counting the
/// days of the whole years and months before it and the seconds of its
/// final day reconstructs the seconds since the epoch.
pub proof fn lemma_civil_fields_faithful(secs: int)
    requires
        0 <= secs < TEXT_RANGE_END,
    ensures
        1970 <= year_of(secs) <= 9999,
        1 <= month_of(secs) <= 12,
        1 <= day_of(secs) <= days_in_month(year_of(secs), month_of(secs)),
        0 <= hour_of(secs) < 24,
        0 <= minute_of(secs) < 60,
        0 <= second_of(secs) < 60,
        86400 * (days_before_year(year_of(secs)) + days_before_month(year_of(secs), month_of(secs))
            + (day_of(secs) - 1)) + 3600 * hour_of(secs) + 60 * minute_of(secs) + second_of(secs)
            == secs,
{
    let total = secs / 86400;
    lemma_fundamental_div_mod(secs, 86400);
    lemma_mod_bound(secs, 86400);
    assert(0 <= total < DAYS_IN_TEXT_RANGE);
    lemma_year_in_text_range(total);
    let (y, yd) = split_year(1970, total);
    lemma_months_cover_year(y);
    lemma_split_month_bound(y, 1, yd);
    lemma_split_month_days(y, 1, yd);
    let r = secs % 86400;
    let a = r / 3600;
    let s2 = r % 3600;
    lemma_fundamental_div_mod(r, 3600);
    lemma_mod_bound(r, 3600);
    lemma_fundamental_div_mod(s2, 60);
    lemma_mod_bound(s2, 60);
    assert(secs == (24 * total + a) * 3600 + s2) by (nonlinear_arith)
        requires
            secs == 86400 * total + r,
            r == 3600 * a + s2,
    ;
    lemma_fundamental_div_mod_converse_div(secs, 3600, 24 * total + a, s2);
    lemma_fundamental_div_mod_converse_mod(secs / 3600, 24, total, a);
    assert(secs / 3600 == 24 * total + a && a == (secs / 3600) % 24) by {
        assert(secs / 3600 == total * 24 + a) by (nonlinear_arith)
            requires
                secs / 3600 == 24 * total + a,
        ;
    }
    let b = s2 / 60;
    let c = s2 % 60;
    assert(secs == (1440 * total + 60 * a + b) * 60 + c) by (nonlinear_arith)
        requires
            secs == 86400 * total + r,
            r == 3600 * a + s2,
            s2 == 60 * b + c,
    ;
    lemma_fundamental_div_mod_converse_div(secs, 60, 1440 * total + 60 * a + b, c);
    lemma_fundamental_div_mod_converse_mod(secs, 60, 1440 * total + 60 * a + b, c);
    assert(secs / 60 == (24 * total + a) * 60 + b) by (nonlinear_arith)
        requires
            secs / 60 == 1440 * total + 60 * a + b,
    ;
    lemma_fundamental_div_mod_converse_mod(secs / 60, 60, 24 * total + a, b);
}

fn is_leap_year_exec(y: u64) -> (r: bool)
    ensures
        r == is_leap_year(y as int),
{
    y % 4 == 0 && (y % 100 != 0 || y % 400 == 0)
}

fn days_in_year_exec(y: u64) -> (r: u64)
    ensures
        r as int == days_in_year(y as int),
{
    if is_leap_year_exec(y) {
        366
    } else {
        365
    }
}

fn days_in_month_exec(y: u64, m: u64) -> (r: u64)
    ensures
        r as int == days_in_month(y as int, m as int),
{
    if m == 2 {
        if is_leap_year_exec(y) {
            29
        } else {
            28
        }
    } else if m == 4 || m == 6 || m == 9 || m == 11 {
        30
    } else {
        31
    }
}

/// Render a timestamp in the statement's fixed UTC format.
pub fn format_timestamp(t: &Timestamp) -> (s: String)
    ensures
        s@ == timestamp_text(t.secs_spec() as int),
{
    proof {
        use_type_invariant(&*t);
    }
    let secs: u64 = t.secs;
    let total_days: u64 = secs / SECONDS_PER_DAY;
    proof {
        lemma_fundamental_div_mod(secs as int, 86400);
        lemma_mod_bound(secs as int, 86400);
        assert(total_days < DAYS_IN_TEXT_RANGE);
        lemma_year_in_text_range(total_days as int);
    }
    let mut y: u64 = 1970;
    let mut rem: u64 = total_days;
    while rem >= days_in_year_exec(y)
        invariant
            1970 <= y <= 9999,
            rem as int <= total_days as int,
            total_days < DAYS_IN_TEXT_RANGE,
            split_year(1970, total_days as int) == split_year(y as int, rem as int),
        decreases rem,
    {
        let len = days_in_year_exec(y);
        rem = rem - len;
        y = y + 1;
        proof {
            if y > 9999 {
                lemma_year_in_text_range(total_days as int);
                lemma_split_year_days(y as int, rem as int);
                lemma_days_before_year_mono(10000, y as int);
                assert(days_before_year(10000) == 2932897);
                assert(365 * (y as int - 10000) >= 0) by (nonlinear_arith)
                    requires
                        y as int >= 10000,
                ;
            }
        }
    }
    proof {
        assert(split_year(y as int, rem as int) == (y as int, rem as int));
        assert(year_of(secs as int) == y as int);
        assert(year_day_of(secs as int) == rem as int);
        lemma_year_in_text_range(total_days as int);
        lemma_months_cover_year(y as int);
    }
    let year: u64 = y;
    let mut m: u64 = 1;
    while rem >= days_in_month_exec(year, m)
        invariant
            1 <= m <= 12,
            (rem as int) < days_from_month(year as int, m as int),
            split_month(year as int, 1, year_day_of(secs as int)) == split_month(
                year as int,
                m as int,
                rem as int,
            ),
        decreases rem,
    {
        let len = days_in_month_exec(year, m);
        proof {
            assert(days_from_month(year as int, m as int) == days_in_month(
                year as int,
                m as int,
            ) + days_from_month(year as int, m as int + 1));
            assert(m as int + 1 <= 12 || days_from_month(year as int, m as int + 1) == 0);
        }
        rem = rem - len;
        m = m + 1;
    }
    proof {
        assert(split_month(year as int, m as int, rem as int) == (m as int, rem as int));
        assert(month_of(secs as int) == m as int);
        assert(day_of(secs as int) == rem as int + 1);
    }
    let day: u64 = rem + 1;
    let hour: u64 = (secs / SECONDS_PER_HOUR) % 24;
    let minute: u64 = (secs / 60) % 60;
    let second: u64 = secs % 60;
    proof {
        lemma_mod_bound(secs as int / 3600, 24);
        lemma_mod_bound(secs as int / 60, 60);
        lemma_mod_bound(secs as int, 60);
    }
    let mut out = render_four_digits(year);
    out.append("-");
    out.append(render_two_digits(m).as_str());
    out.append("-");
    out.append(render_two_digits(day).as_str());
    out.append(":");
    out.append(render_two_digits(hour).as_str());
    out.append(":");
    out.append(render_two_digits(minute).as_str());
    out.append(":");
    out.append(render_two_digits(second).as_str());
    proof {
        reveal_strlit("-");
        reveal_strlit(":");
        assert("-"@ =~= seq!['-']);
        assert(":"@ =~= seq![':']);
        assert(out@ =~= timestamp_text(secs as int));
    }
    out
}

} // verus!
