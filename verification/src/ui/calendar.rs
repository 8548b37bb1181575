//! Dates of the Gregorian calendar, and times as the player reads them.

use vstd::arithmetic::div_mod::{
    lemma_fundamental_div_mod, lemma_fundamental_div_mod_converse, lemma_hoist_over_denominator,
    lemma_mod_mod, lemma_mod_multiples_vanish,
};
use vstd::prelude::*;
use vstd::string::StringExecFns;

use super::format::{compact_duration, compact_text};
use crate::model::units::UtcSeconds;
use crate::text::{decimal, decimal_text, signed_zero_pad, signed_zero_padded, zero_pad, zero_padded};

verus! {

/// A day of the Gregorian calendar.
#[derive(Clone, Copy, Debug, PartialEq, Eq, Structural)]
pub struct CivilDate {
    pub year: i64,
    pub month: i64,
    pub day: i64,
}

pub open spec fn leap_year(year: int) -> bool {
    year % 4 == 0 && (year % 100 != 0 || year % 400 == 0)
}

pub open spec fn days_in_month(year: int, month: int) -> int {
    if month == 2 {
        if leap_year(year) {
            29
        } else {
            28
        }
    } else if month == 4 || month == 6 || month == 9 || month == 11 {
        30
    } else {
        31
    }
}

/// The days of a year that precede a month.
pub open spec fn days_before_month(year: int, month: int) -> int
    decreases month,
{
    if month <= 1 {
        0
    } else {
        days_before_month(year, month - 1) + days_in_month(year, month - 1)
    }
}

/// The days from the first of January of the year 1 to that of another year.
pub open spec fn days_before_year(year: int) -> int {
    365 * (year - 1) + (year - 1) / 4 - (year - 1) / 100 + (year - 1) / 400
}

/// The days from the first of January of the year 1 to that of 1970.
pub open spec fn epoch_day() -> int {
    719_162
}

impl CivilDate {
    pub open spec fn valid(self) -> bool {
        1 <= self.month <= 12 && 1 <= self.day <= days_in_month(self.year as int, self.month as int)
    }

    /// The days from the first of January 1970 to this one.
    pub open spec fn unix_day(self) -> int {
        days_before_year(self.year as int) + days_before_month(self.year as int, self.month as int)
            + self.day - 1 - epoch_day()
    }
}

/// The date of a day counted from the first of January 1970.
pub open spec fn date_of(day: int) -> CivilDate {
    choose|date: CivilDate| date.valid() && #[trigger] date.unix_day() == day
}

proof fn lemma_months(year: int)
    ensures
        days_before_month(year, 1) == 0,
        days_before_month(year, 2) == 31,
        days_before_month(year, 3) == 31 + days_in_month(year, 2),
        days_before_month(year, 4) == 62 + days_in_month(year, 2),
        days_before_month(year, 5) == 92 + days_in_month(year, 2),
        days_before_month(year, 6) == 123 + days_in_month(year, 2),
        days_before_month(year, 7) == 153 + days_in_month(year, 2),
        days_before_month(year, 8) == 184 + days_in_month(year, 2),
        days_before_month(year, 9) == 215 + days_in_month(year, 2),
        days_before_month(year, 10) == 245 + days_in_month(year, 2),
        days_before_month(year, 11) == 276 + days_in_month(year, 2),
        days_before_month(year, 12) == 306 + days_in_month(year, 2),
{
    reveal_with_fuel(days_before_month, 13);
}

/// A quotient grows by one at each multiple of the divisor.
proof fn lemma_quotient_step(value: int, divisor: int)
    requires
        divisor > 1,
    ensures
        value / divisor == (value - 1) / divisor + if value % divisor == 0 {
            1int
        } else {
            0
        },
{
    let quotient = value / divisor;
    let remainder = value % divisor;
    lemma_fundamental_div_mod(value, divisor);
    if remainder == 0 {
        assert(divisor * quotient - 1 == (quotient - 1) * divisor + (divisor - 1))
            by (nonlinear_arith);
        lemma_fundamental_div_mod_converse(value - 1, divisor, quotient - 1, divisor - 1);
    } else {
        assert(divisor * quotient == quotient * divisor) by (nonlinear_arith);
        lemma_fundamental_div_mod_converse(value - 1, divisor, quotient, remainder - 1);
    }
}

/// A year lasts 365 days, and 366 where it is a leap year.
proof fn lemma_year_length(year: int)
    ensures
        days_before_year(year + 1) == days_before_year(year) + if leap_year(year) {
            366int
        } else {
            365
        },
{
    lemma_quotient_step(year, 4);
    lemma_quotient_step(year, 100);
    lemma_quotient_step(year, 400);
    lemma_fundamental_div_mod(year, 100);
    lemma_fundamental_div_mod(year, 400);
    lemma_mod_multiples_vanish(25 * (year / 100), 0, 4);
    lemma_mod_multiples_vanish(4 * (year / 400), 0, 100);
}

proof fn lemma_years_grow(first: int, second: int)
    requires
        first < second,
    ensures
        days_before_year(first) + if leap_year(first) {
            366int
        } else {
            365
        } <= days_before_year(second),
    decreases second - first,
{
    lemma_year_length(first);
    if first + 1 < second {
        lemma_years_grow(first + 1, second);
    }
}

/// No two days of the calendar share a number: a number names one date.
pub proof fn dates_are_distinct(first: CivilDate, second: CivilDate)
    requires
        first.valid(),
        second.valid(),
        first.unix_day() == second.unix_day(),
    ensures
        first == second,
{
    lemma_months(first.year as int);
    lemma_months(second.year as int);
    if first.year < second.year {
        lemma_years_grow(first.year as int, second.year as int);
        assert(false);
    }
    if second.year < first.year {
        lemma_years_grow(second.year as int, first.year as int);
        assert(false);
    }
}

proof fn lemma_date_of(date: CivilDate)
    requires
        date.valid(),
    ensures
        date_of(date.unix_day()) == date,
{
    let found = date_of(date.unix_day());
    assert(found.valid() && found.unix_day() == date.unix_day());
    dates_are_distinct(found, date);
}

/// The year of a 400-year era that begins in March, counted from the day of the era.
proof fn lemma_year_of_era(day: int, year: int)
    requires
        0 <= day <= 146_096,
        year == (day - day / 1_460 + day / 36_524 - day / 146_096) / 365,
    ensures
        0 <= year <= 399,
        0 <= day - (365 * year + year / 4 - year / 100) <= 365,
        day - (365 * year + year / 4 - year / 100) == 365 ==> leap_year(year + 1),
{
    let centuries = day / 36_524;
    let quads = day / 1_460;
    let rest = day - quads + centuries - day / 146_096;
    assert(0 <= centuries <= 4);
    assert(365 * year <= rest < 365 * year + 365);
}

/// Moving by whole eras keeps the calendar.
proof fn lemma_eras(year: int, eras: int)
    ensures
        days_before_year(year + 400 * eras) == days_before_year(year) + 146_097 * eras,
        leap_year(year + 400 * eras) == leap_year(year),
{
    let before = year - 1;
    lemma_hoist_over_denominator(before, 100 * eras, 4);
    lemma_hoist_over_denominator(before, 4 * eras, 100);
    lemma_hoist_over_denominator(before, eras, 400);
    lemma_mod_multiples_vanish(100 * eras, year, 4);
    lemma_mod_multiples_vanish(4 * eras, year, 100);
    lemma_mod_multiples_vanish(eras, year, 400);
}

/// The date of a day of the first era that begins in March of the year 0.
proof fn lemma_date_in_era(
    day_of_era: int,
    year_of_era: int,
    day_of_year: int,
    month_prime: int,
    date: CivilDate,
)
    requires
        0 <= year_of_era <= 399,
        day_of_year == day_of_era - (365 * year_of_era + year_of_era / 4 - year_of_era / 100),
        0 <= day_of_year <= 365,
        day_of_year == 365 ==> leap_year(year_of_era + 1),
        month_prime == (5 * day_of_year + 2) / 153,
        date.day == day_of_year - (153 * month_prime + 2) / 5 + 1,
        date.month == if month_prime < 10 {
            month_prime + 3
        } else {
            month_prime - 9
        },
        date.year == year_of_era + if date.month <= 2 {
            1int
        } else {
            0
        },
    ensures
        date.valid(),
        date.unix_day() == day_of_era - 719_468,
{
    lemma_months(date.year as int);
    assert(0 <= month_prime <= 11);
    assert(year_of_era / 400 == 0);
    lemma_year_length(year_of_era);
    assert(days_before_year(year_of_era + 1) == 365 * year_of_era + year_of_era / 4 - year_of_era
        / 100);
    if date.month <= 2 {
        assert(days_before_year(date.year as int) == days_before_year(year_of_era + 1));
    }
}

/// The day number that the calendar is asked for: the last days before the end of the range
/// of numbers share a date.
pub open spec fn reachable_day(days: int) -> int {
    if days + 719_468 > i64::MAX {
        i64::MAX - 719_468
    } else {
        days
    }
}

/// The date of a day counted from the first of January 1970.
pub fn civil_date_from_unix_days(days: i64) -> (result: CivilDate)
    ensures
        result.valid(),
        result.unix_day() == reachable_day(days as int),
        result == date_of(reachable_day(days as int)),
{
    let shifted: i64 = if days <= i64::MAX - 719_468 {
        days + 719_468
    } else {
        i64::MAX
    };
    let era: i64 = floor_quotient(shifted, 146_097);
    let day_of_era: i64 = floor_remainder(shifted, 146_097);
    let year_of_era: i64 = (day_of_era - day_of_era / 1_460 + day_of_era / 36_524 - day_of_era
        / 146_096) / 365;
    proof {
        lemma_year_of_era(day_of_era as int, year_of_era as int);
    }
    let day_of_year: i64 = day_of_era - (365 * year_of_era + year_of_era / 4 - year_of_era / 100);
    let month_prime: i64 = (5 * day_of_year + 2) / 153;
    let day: i64 = day_of_year - (153 * month_prime + 2) / 5 + 1;
    let month: i64 = if month_prime < 10 {
        month_prime + 3
    } else {
        month_prime - 9
    };
    let late: i64 = if month <= 2 {
        1
    } else {
        0
    };
    let year: i64 = year_of_era + era * 400 + late;
    let date = CivilDate { year, month, day };
    let ghost inner = CivilDate { year: (year_of_era + late) as i64, month, day };
    proof {
        lemma_date_in_era(day_of_era as int, year_of_era as int, day_of_year as int, month_prime as int, inner);
        lemma_eras(inner.year as int, era as int);
        lemma_months(year as int);
        lemma_months(inner.year as int);
        lemma_date_of(date);
    }
    date
}

/// The quotient rounded toward minus infinity.
fn floor_quotient(value: i64, divisor: i64) -> (result: i64)
    requires
        divisor > 1,
    ensures
        result == value as int / divisor as int,
{
    assert(i64::MIN <= value as int / divisor as int <= i64::MAX) by (nonlinear_arith)
        requires
            i64::MIN <= value <= i64::MAX,
            divisor > 1,
    ;
    match value.checked_div_euclid(divisor) {
        Some(quotient) => quotient,
        None => 0,
    }
}

/// What that quotient leaves, which is never negative.
fn floor_remainder(value: i64, divisor: i64) -> (result: i64)
    requires
        divisor > 1,
    ensures
        result == value as int % divisor as int,
{
    match value.checked_rem_euclid(divisor) {
        Some(remainder) => remainder,
        None => 0,
    }
}

/// The day of a time, counted from the first of January 1970.
pub open spec fn day_of(time: UtcSeconds) -> int {
    time.seconds as int / 86_400
}

pub open spec fn hour_of(time: UtcSeconds) -> int {
    (time.seconds as int % 86_400) / 3_600
}

pub open spec fn minute_of(time: UtcSeconds) -> int {
    (time.seconds as int % 3_600) / 60
}

/// The day of a time.
pub fn unix_day(time: UtcSeconds) -> (result: i64)
    ensures
        result == day_of(time),
{
    floor_quotient(time.seconds, 86_400)
}

/// The date, hour and minute of a time.
pub fn utc_date_time(time: UtcSeconds) -> (result: (CivilDate, i64, i64))
    ensures
        result.0.valid(),
        result.0 == date_of(day_of(time)),
        result.0.unix_day() == day_of(time),
        result.1 == hour_of(time),
        result.2 == minute_of(time),
        0 <= result.1 < 24,
        0 <= result.2 < 60,
{
    let date = civil_date_from_unix_days(unix_day(time));
    let seconds: i64 = floor_remainder(time.seconds, 86_400);
    proof {
        lemma_mod_mod(time.seconds as int, 3_600, 24);
    }
    (date, seconds / 3_600, (seconds % 3_600) / 60)
}

/// A date as year, month and day.
pub open spec fn date_text(date: CivilDate) -> Seq<char> {
    signed_zero_padded(date.year as int, 4) + "-"@ + signed_zero_padded(date.month as int, 2) + "-"@
        + signed_zero_padded(date.day as int, 2)
}

/// A time of day as hour and minute.
pub open spec fn clock_text(time: UtcSeconds) -> Seq<char> {
    signed_zero_padded(hour_of(time), 2) + ":"@ + signed_zero_padded(minute_of(time), 2)
}

pub fn format_date(date: CivilDate) -> (result: String)
    ensures
        result@ == date_text(date),
{
    let month = signed_zero_pad(date.month, 2);
    let day = signed_zero_pad(date.day, 2);
    signed_zero_pad(date.year, 4).concat("-").concat(month.as_str()).concat("-").concat(day.as_str())
}

pub fn format_clock(time: UtcSeconds) -> (result: String)
    ensures
        result@ == clock_text(time),
{
    let (_, hour, minute) = utc_date_time(time);
    let minutes = signed_zero_pad(minute, 2);
    signed_zero_pad(hour, 2).concat(":").concat(minutes.as_str())
}

/// A time without its seconds; the present day and the next go by name.
pub open spec fn timestamp_text(time: UtcSeconds, now: UtcSeconds) -> Seq<char> {
    let day = if day_of(time) == day_of(now) {
        "Today"@
    } else if day_of(time) == day_of(now) + 1 {
        "Tomorrow"@
    } else {
        date_text(date_of(day_of(time)))
    };
    day + " "@ + clock_text(time) + " UTC"@
}

pub fn format_project_timestamp(time: UtcSeconds, now: UtcSeconds) -> (result: String)
    ensures
        result@ == timestamp_text(time, now),
{
    let (date, _, _) = utc_date_time(time);
    let day: i64 = unix_day(time);
    let today: i64 = unix_day(now);
    let clock = format_clock(time);
    let name = if day == today {
        "Today".to_owned()
    } else if day == today + 1 {
        "Tomorrow".to_owned()
    } else {
        format_date(date)
    };
    name.concat(" ").concat(clock.as_str()).concat(" UTC")
}

pub open spec fn clamp_i64(value: int) -> int {
    if value > i64::MAX {
        i64::MAX as int
    } else if value < i64::MIN {
        i64::MIN as int
    } else {
        value
    }
}

/// The seconds from one time to another.
pub open spec fn seconds_until(time: UtcSeconds, now: UtcSeconds) -> int {
    clamp_i64(time.seconds - now.seconds)
}

pub fn seconds_between(time: UtcSeconds, now: UtcSeconds) -> (result: i64)
    ensures
        result == seconds_until(time, now),
{
    let difference: i128 = time.seconds as i128 - now.seconds as i128;
    if difference > i64::MAX as i128 {
        i64::MAX
    } else if difference < i64::MIN as i128 {
        i64::MIN
    } else {
        difference as i64
    }
}

/// How far away a time is.
pub open spec fn relative_text(time: UtcSeconds, now: UtcSeconds) -> Seq<char> {
    let seconds = seconds_until(time, now);
    if seconds == 0 {
        "now"@
    } else if seconds > 0 {
        "in "@ + compact_text(seconds as nat)
    } else {
        compact_text((-seconds) as nat) + " ago"@
    }
}

pub fn relative_time(time: UtcSeconds, now: UtcSeconds) -> (result: String)
    ensures
        result@ == relative_text(time, now),
{
    let seconds: i64 = seconds_between(time, now);
    if seconds == 0 {
        "now".to_owned()
    } else if seconds > 0 {
        let duration = compact_duration(seconds as u64);
        "in ".to_owned().concat(duration.as_str())
    } else {
        let duration = compact_duration((-(seconds as i128)) as u64);
        duration.concat(" ago")
    }
}

/// What is left of works: to the second in the last half hour.
pub open spec fn remaining_text(seconds: nat) -> Seq<char> {
    if seconds > 1_800 {
        compact_text(seconds)
    } else if seconds < 60 {
        decimal(seconds) + "s"@
    } else {
        decimal(seconds / 60) + "m "@ + zero_padded(seconds % 60, 2) + "s"@
    }
}

pub fn construction_remaining_duration(seconds: u64) -> (result: String)
    ensures
        result@ == remaining_text(seconds as nat),
{
    if seconds > 1_800 {
        return compact_duration(seconds);
    }
    let minutes: u64 = seconds / 60;
    if minutes == 0 {
        return decimal_text(seconds).concat("s");
    }
    let rest = zero_pad(seconds % 60, 2);
    decimal_text(minutes).concat("m ").concat(rest.as_str()).concat("s")
}

} // verus!
