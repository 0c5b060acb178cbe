//! Dates as DuckDB stores them: a count of days after 1970-01-01.

use vstd::prelude::*;
use crate::text::{digits, zero_pad};

verus! {

/// The first day that the date library can represent (-262143-01-01),
/// counted from 1970-01-01.
pub const FIRST_EPOCH_DAY: i32 = -96465292;

/// The last day that the date library can represent (262142-12-31),
/// counted from 1970-01-01.
pub const LAST_EPOCH_DAY: i32 = 95026236;

/// The proleptic Gregorian calendar date `(year, month, day)` that lies
/// `z` days after 1970-01-01.
pub open spec fn civil_from_days(z: int) -> (int, int, int) {
    let z0 = z + 719468;
    let era = z0 / 146097;
    let doe = z0 - era * 146097;
    let yoe = (doe - doe / 1460 + doe / 36524 - doe / 146096) / 365;
    let doy = doe - (365 * yoe + yoe / 4 - yoe / 100);
    let mp = (5 * doy + 2) / 153;
    let day = doy - (153 * mp + 2) / 5 + 1;
    let month = if mp < 10 { mp + 3 } else { mp - 9 };
    let year = yoe + era * 400 + if month <= 2 { 1int } else { 0int };
    (year, month, day)
}

/// The text of a year in ISO 8601: four digits for years 0 to 9999, and an
/// explicit sign before at least four digits for the others.
pub open spec fn iso_year(y: int) -> Seq<char> {
    if 0 <= y <= 9999 {
        zero_pad(digits(y as nat), 4)
    } else if y > 9999 {
        seq!['+'] + digits(y as nat)
    } else {
        seq!['-'] + zero_pad(digits((-y) as nat), 4)
    }
}

/// `YYYY-MM-DD` for a calendar date.
pub open spec fn iso_date(year: int, month: int, day: int) -> Seq<char> {
    iso_year(year) + seq!['-'] + zero_pad(digits(month as nat), 2) + seq!['-'] + zero_pad(
        digits(day as nat),
        2,
    )
}

/// The `YYYY-MM-DD` text of the date `days` days after 1970-01-01.
pub open spec fn epoch_day_text(days: int) -> Seq<char> {
    let (y, m, d) = civil_from_days(days);
    iso_date(y, m, d)
}

/// The number of days from 1970-01-01 to the proleptic Gregorian date
/// `(year, month, day)` (negative before it).
pub open spec fn days_from_civil(year: int, month: int, day: int) -> int {
    let y = if month <= 2 { year - 1 } else { year };
    let era = y / 400;
    let yoe = y - era * 400;
    let mp = if month > 2 { month - 3 } else { month + 9 };
    let doy = (153 * mp + 2) / 5 + day - 1;
    let doe = yoe * 365 + yoe / 4 - yoe / 100 + doy;
    era * 146097 + doe - 719468
}

/// The year has a 29th of February.
pub open spec fn is_leap_year(year: int) -> bool {
    year % 4 == 0 && (year % 100 != 0 || year % 400 == 0)
}

/// The number of days of a month.
pub open spec fn days_in_month(year: int, month: int) -> int {
    if month == 2 {
        if is_leap_year(year) {
            29
        } else {
            28
        }
    } else if month == 4 || month == 6 || month == 9 || month == 11 {
        30
    } else {
        31
    }
}

/// `(year, month, day)` is a date of the calendar that the date library
/// can represent.
pub open spec fn is_representable_date(year: int, month: int, day: int) -> bool {
    &&& 1 <= month <= 12
    &&& 1 <= day <= days_in_month(year, month)
    &&& FIRST_EPOCH_DAY <= days_from_civil(year, month, day) <= LAST_EPOCH_DAY
}

/// The text of the date `days` days after `(year, month, day)`.
///
/// Calls chrono: `NaiveDate::from_ymd(year, month, day)`, adds
/// `Duration::days(days)` and writes the result with `Display`. The
/// contract claims what chrono documents: dates follow the proleptic
/// Gregorian calendar, and `Display` writes `%Y-%m-%d`, with a sign before
/// years outside 0..=9999. Both the construction and the addition panic
/// outside chrono's range of dates, which `requires` leaves out.
#[verifier::external_body]
fn date_after(year: i32, month: u32, day: u32, days: i64) -> (text: String)
    requires
        is_representable_date(year as int, month as int, day as int),
        FIRST_EPOCH_DAY <= days_from_civil(year as int, month as int, day as int) + days
            <= LAST_EPOCH_DAY,
    ensures
        text@ == epoch_day_text(days_from_civil(year as int, month as int, day as int) + days),
{
    #[allow(deprecated)]
    let base = chrono::NaiveDate::from_ymd(year, month, day);
    (base + chrono::Duration::days(days)).to_string()
}

/// The text of a date that DuckDB stores as `date` days after 1970-01-01.
pub(crate) fn duckdb_date_to_string(date: i32) -> (text: String)
    requires
        FIRST_EPOCH_DAY <= date <= LAST_EPOCH_DAY,
    ensures
        text@ == epoch_day_text(date as int),
{
    let epoch_days = date as i64;
    assert(days_from_civil(1970, 1, 1) == 0);
    date_after(1970, 1, 1, epoch_days)
}

/// A date of birth stored as the day count of a calendar date is listed as
/// that date: the text of `days_from_civil(year, month, day)` is
/// `iso_date(year, month, day)`.
pub proof fn lemma_stored_date_lists_as_itself(year: int, month: int, day: int)
    requires
        1 <= month <= 12,
        1 <= day <= days_in_month(year, month),
    ensures
        civil_from_days(days_from_civil(year, month, day)) == (year, month, day),
        epoch_day_text(days_from_civil(year, month, day)) == iso_date(year, month, day),
{
    let y = if month <= 2 { year - 1 } else { year };
    let era = y / 400;
    let yoe = y - era * 400;
    let mp = if month > 2 { month - 3 } else { month + 9 };
    let doy = (153 * mp + 2) / 5 + day - 1;
    let doe = yoe * 365 + yoe / 4 - yoe / 100 + doy;
    assert(0 <= yoe < 400);
    assert(0 <= doy < 366);
    assert(0 <= doe < 146097);
    let z0 = days_from_civil(year, month, day) + 719468;
    assert(z0 == era * 146097 + doe);
    assert(z0 / 146097 == era);
    assert(z0 - era * 146097 == doe);
    assert((doe - doe / 1460 + doe / 36524 - doe / 146096) / 365 == yoe);
    assert(doe - (365 * yoe + yoe / 4 - yoe / 100) == doy);
    assert((5 * doy + 2) / 153 == mp);
    assert(doy - (153 * mp + 2) / 5 + 1 == day);
}

/// The date that a day count is written as gives back that day count: the
/// text of `days` is `YYYY-MM-DD` of a calendar date, and counting that
/// date's days from 1970-01-01 yields `days` again.
pub proof fn lemma_listed_date_counts_back(days: int)
    ensures
        ({
            let (y, m, d) = civil_from_days(days);
            &&& 1 <= m <= 12
            &&& 1 <= d <= days_in_month(y, m)
            &&& epoch_day_text(days) == iso_date(y, m, d)
            &&& days_from_civil(y, m, d) == days
        }),
{
    let z0 = days + 719468;
    let era = z0 / 146097;
    let doe = z0 - era * 146097;
    assert(0 <= doe < 146097);
    let yoe = (doe - doe / 1460 + doe / 36524 - doe / 146096) / 365;
    assert(0 <= yoe < 400);
    let doy = doe - (365 * yoe + yoe / 4 - yoe / 100);
    assert(0 <= doy < 366);
    let mp = (5 * doy + 2) / 153;
    assert(0 <= mp < 12);
    let day = doy - (153 * mp + 2) / 5 + 1;
    let month = if mp < 10 { mp + 3 } else { mp - 9 };
    let year = yoe + era * 400 + if month <= 2 { 1int } else { 0int };
    assert(civil_from_days(days) == (year, month, day));
    let y = if month <= 2 { year - 1 } else { year };
    assert(y == yoe + era * 400);
    assert(y / 400 == era);
    let mp2 = if month > 2 { month - 3 } else { month + 9 };
    assert(mp2 == mp);
    assert((153 * mp + 2) / 5 + day - 1 == doy);
    assert(yoe * 365 + yoe / 4 - yoe / 100 + doy == doe);
}

} // verus!
