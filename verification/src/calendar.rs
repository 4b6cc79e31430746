//! Proleptic Gregorian calendar arithmetic, counted in days from 1970-01-01.
use vstd::prelude::*;

verus! {

/// Gregorian leap-year rule.
pub open spec fn is_leap_year(y: int) -> bool {
    (y % 4 == 0 && y % 100 != 0) || y % 400 == 0
}

/// Number of leap years in `1..=y`, extended to all integers by floor division.
pub open spec fn leap_years_through(y: int) -> int {
    y / 4 - y / 100 + y / 400
}

/// Days from 1970-01-01 to January 1st of year `y`.
pub open spec fn days_before_year(y: int) -> int {
    365 * (y - 1970) + leap_years_through(y - 1) - leap_years_through(1969)
}

/// Length of month `m` (1 = January) of year `y`.
pub open spec fn days_in_month(y: int, m: int) -> int {
    if m == 2 {
        if is_leap_year(y) { 29 } else { 28 }
    } else if m == 4 || m == 6 || m == 9 || m == 11 {
        30
    } else {
        31
    }
}

/// Days from January 1st to the first day of month `m` of year `y`.
pub open spec fn days_before_month(y: int, m: int) -> int {
    let common: int = if m <= 1 { 0 }
        else if m == 2 { 31 }
        else if m == 3 { 59 }
        else if m == 4 { 90 }
        else if m == 5 { 120 }
        else if m == 6 { 151 }
        else if m == 7 { 181 }
        else if m == 8 { 212 }
        else if m == 9 { 243 }
        else if m == 10 { 273 }
        else if m == 11 { 304 }
        else { 334 };
    if m > 2 && is_leap_year(y) { common + 1 } else { common }
}

/// `(y, m, d)` names a real day of the calendar.
pub open spec fn is_valid_date(y: int, m: int, d: int) -> bool {
    1 <= m <= 12 && 1 <= d <= days_in_month(y, m)
}

/// Days from 1970-01-01 to the date `(y, m, d)`; negative before the epoch.
pub open spec fn days_from_civil(y: int, m: int, d: int) -> int {
    days_before_year(y) + days_before_month(y, m) + d - 1
}

/// Days from 0000-03-01 to March 1st of year `x`.
spec fn days_to_march(x: int) -> int {
    365 * x + x / 4 - x / 100 + x / 400
}

/// Offset of March 1st of year `yoe` of a 400-year era from the era's start.
spec fn era_year_start(yoe: int) -> int {
    365 * yoe + yoe / 4 - yoe / 100
}

/// Offset of the first day of month `mp` (0 = March) from March 1st.
spec fn march_month_start(mp: int) -> int {
    (153 * mp + 2) / 5
}

proof fn lemma_leap_step(x: int)
    ensures
        leap_years_through(x) - leap_years_through(x - 1) == (if is_leap_year(x) { 1int } else { 0int }),
{
}

proof fn lemma_march_year_length(x: int)
    ensures
        days_to_march(x + 1) - days_to_march(x) == 365 + (if is_leap_year(x + 1) { 1int } else { 0int }),
{
    lemma_leap_step(x + 1);
}

proof fn lemma_year_start_against_march(x: int)
    ensures
        days_before_year(x) + 59 + (if is_leap_year(x) { 1int } else { 0int }) == days_to_march(x) - 719_468,
        days_before_year(x + 1) == days_to_march(x) + 306 - 719_468,
{
    lemma_leap_step(x);
    lemma_leap_step(x + 1);
}

proof fn lemma_era_start(era: int, yoe: int)
    requires
        0 <= yoe < 400,
    ensures
        days_to_march(400 * era + yoe) == 146_097 * era + era_year_start(yoe),
        is_leap_year(400 * era + yoe + 1) == is_leap_year(yoe + 1),
{
}

proof fn lemma_year_of_era(doe: int)
    requires
        0 <= doe < 146_097,
    ensures
        ({
            let yoe = (doe - doe / 1460 + doe / 36_524 - doe / 146_096) / 365;
            &&& 0 <= yoe < 400
            &&& era_year_start(yoe) <= doe
            &&& doe < era_year_start(yoe) + 365 + (if is_leap_year(yoe + 1) { 1int } else { 0int })
        }),
{
}

proof fn lemma_month_of_year(doy: int)
    requires
        0 <= doy < 366,
    ensures
        ({
            let mp = (5 * doy + 2) / 153;
            &&& 0 <= mp < 12
            &&& march_month_start(mp) <= doy
            &&& doy < march_month_start(mp + 1)
        }),
{
}


proof fn lemma_year_span(y: int)
    ensures
        days_before_year(y + 1) - days_before_year(y) == 365 + (if is_leap_year(y) { 1int } else { 0int }),
{
    lemma_leap_step(y);
}

proof fn lemma_date_within_year(y: int, m: int, d: int)
    requires
        is_valid_date(y, m, d),
    ensures
        days_before_year(y) <= days_from_civil(y, m, d) < days_before_year(y + 1),
{
    lemma_year_span(y);
}

proof fn lemma_leap_count_monotone(a: int, b: int)
    requires
        a <= b,
    ensures
        leap_years_through(a) <= leap_years_through(b),
    decreases b - a,
{
    if a < b {
        lemma_leap_step(b);
        lemma_leap_count_monotone(a, b - 1);
    }
}

proof fn lemma_years_ordered(a: int, b: int)
    requires
        a < b,
    ensures
        days_before_year(a + 1) <= days_before_year(b),
{
    lemma_leap_count_monotone(a, b - 1);
}

/// Distinct valid dates have distinct day counts, so a day count names at
/// most one date.
pub proof fn lemma_days_from_civil_injective(y1: int, m1: int, d1: int, y2: int, m2: int, d2: int)
    requires
        is_valid_date(y1, m1, d1),
        is_valid_date(y2, m2, d2),
        days_from_civil(y1, m1, d1) == days_from_civil(y2, m2, d2),
    ensures
        y1 == y2 && m1 == m2 && d1 == d2,
{
    lemma_date_within_year(y1, m1, d1);
    lemma_date_within_year(y2, m2, d2);
    if y1 < y2 {
        lemma_years_ordered(y1, y2);
    } else if y2 < y1 {
        lemma_years_ordered(y2, y1);
    }
}

/// The valid date whose day count from 1970-01-01 is `z`.
pub open spec fn civil_of_days(z: int) -> (int, int, int) {
    choose|t: (int, int, int)| is_valid_date(t.0, t.1, t.2) && days_from_civil(t.0, t.1, t.2) == z
}

/// A date on or after 1970-01-01 lies in year 1970 or later.
pub proof fn lemma_year_after_epoch(y: int, m: int, d: int)
    requires
        is_valid_date(y, m, d),
        days_from_civil(y, m, d) >= 0,
    ensures
        y >= 1970,
{
    lemma_date_within_year(y, m, d);
    if y < 1970 {
        lemma_years_ordered(y, 1970);
    }
}

proof fn lemma_civil_parts(z1: int, era: int, doe: int, yoe: int, doy: int, mp: int)
    requires
        z1 == 146_097 * era + doe,
        0 <= doe < 146_097,
        yoe == (doe - doe / 1460 + doe / 36_524 - doe / 146_096) / 365,
        doy == doe - era_year_start(yoe),
        mp == (5 * doy + 2) / 153,
    ensures
        ({
            let ym = 400 * era + yoe;
            let d = doy - march_month_start(mp) + 1;
            let m = if mp < 10 { mp + 3 } else { mp - 9 };
            let y = if m <= 2 { ym + 1 } else { ym };
            &&& 0 <= yoe < 400
            &&& 0 <= doy < 366
            &&& 0 <= mp < 12
            &&& 1 <= d <= 31
            &&& is_valid_date(y, m, d)
            &&& days_from_civil(y, m, d) == z1 - 719_468
        }),
{
    let ym = 400 * era + yoe;
    lemma_year_of_era(doe);
    lemma_month_of_year(doy);
    lemma_era_start(era, yoe);
    lemma_march_year_length(ym);
    lemma_year_start_against_march(ym);
    assert(z1 == days_to_march(ym) + doy);
}

/// The civil date `(year, month, day)` of the day `z` counted from 1970-01-01,
/// following Howard Hinnant's days-from-civil inverse.
///
/// The result is the one valid date whose day count is `z`.
pub fn civil_from_days(z: i64) -> (r: (i64, u32, u32))
    requires
        z <= i64::MAX - 719_468,
    ensures
        is_valid_date(r.0 as int, r.1 as int, r.2 as int),
        days_from_civil(r.0 as int, r.1 as int, r.2 as int) == z as int,
        (r.0 as int, r.1 as int, r.2 as int) == civil_of_days(z as int),
{
    let z = z + 719_468;
    let era = (if z >= 0 { z } else { z - 146_096 }) / 146_097;
    assert(era == z as int / 146_097);
    let doe = (z - era * 146_097) as u64;
    let yoe = (doe - doe / 1460 + doe / 36_524 - doe / 146_096) / 365;
    proof {
        lemma_civil_parts(z as int, era as int, doe as int, yoe as int,
            doe - era_year_start(yoe as int), (5 * (doe - era_year_start(yoe as int)) + 2) / 153);
    }
    let y = yoe as i64 + era * 400;
    let doy = doe - (365 * yoe + yoe / 4 - yoe / 100);
    let mp = (5 * doy + 2) / 153;
    let d = (doy - (153 * mp + 2) / 5 + 1) as u32;
    let m = (if mp < 10 { mp + 3 } else { mp - 9 }) as u32;
    let r = (if m <= 2 { y + 1 } else { y }, m, d);
    proof {
        let t = (r.0 as int, r.1 as int, r.2 as int);
        let c = civil_of_days(z as int - 719_468);
        assert(is_valid_date(t.0, t.1, t.2) && days_from_civil(t.0, t.1, t.2) == z as int - 719_468);
        lemma_days_from_civil_injective(t.0, t.1, t.2, c.0, c.1, c.2);
    }
    r
}

} // verus!
