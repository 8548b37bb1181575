//! How amounts, durations, times and names read, whatever their values are.

use vstd::prelude::*;

use super::calendar::{
    clock_text, date_of, date_text, day_of, days_before_month, days_before_year, days_in_month,
    relative_text, remaining_text, timestamp_text, CivilDate,
};
use super::format::{compact_text, distance_text, money_text, signed_text};
use super::geometry::nearest;
use super::keys::{moved, KeyCode};
use super::places::{
    lines_at, route_label, settlement_label, station_label, station_settlement,
};
use crate::model::ids::{RailStationId, SettlementId};
use crate::model::network::{RailLine, RailStation, Settlement};
use crate::model::state::Region;
use crate::model::units::UtcSeconds;
use crate::text::{
    decimal, digit, grouped, joined, padded_left, padded_right, printed,     trimmed, upper_case, white_space, zero_padded,
};

verus! {

/// Decimal notation grows by a digit on the right for each factor of ten.
pub proof fn decimals_grow_on_the_right(value: nat, last: nat)
    requires
        last < 10,
    ensures
        value > 0 ==> decimal(10 * value + last) == decimal(value).push(digit(last as int)),
        decimal(last) == seq![digit(last as int)],
        digit(last as int) as u32 == '0' as u32 + last,
{
    if value > 0 {
        assert((10 * value + last) / 10 == value);
        assert((10 * value + last) % 10 == last as int);
    }
}

/// Thousands are set apart by commas, and every group but the first has three digits.
pub proof fn thousands_are_set_apart(thousands: nat, rest: nat)
    requires
        rest < 1000,
    ensures
        thousands > 0 ==> grouped(1000 * thousands + rest) == grouped(thousands) + ","@
            + zero_padded(rest, 3),
        grouped(rest) == decimal(rest),
{
    if thousands > 0 {
        assert((1000 * thousands + rest) / 1000 == thousands);
        assert((1000 * thousands + rest) % 1000 == rest as int);
    }
}

/// An amount reads as its dollars and two digits of cents, with a sign exactly below zero;
/// a result also shows a sign above zero.
pub proof fn amounts_read_in_dollars_and_cents(dollar: nat, cents: nat)
    requires
        cents < 100,
    ensures
        money_text((100 * dollar + cents) as int) == "$"@ + grouped(dollar) + "."@ + zero_padded(
            cents,
            2,
        ),
        100 * dollar + cents > 0 ==> money_text(-(100 * dollar + cents)) == "-"@ + ("$"@ + grouped(
            dollar,
        ) + "."@ + zero_padded(cents, 2)),
        100 * dollar + cents > 0 ==> signed_text((100 * dollar + cents) as int) == "+"@ + ("$"@
            + grouped(dollar) + "."@ + zero_padded(cents, 2)),
        signed_text(-(100 * dollar + cents)) == money_text(-(100 * dollar + cents)),
{
    assert((100 * dollar + cents) / 100 == dollar);
    assert((100 * dollar + cents) % 100 == cents as int);
}

/// A distance reads in kilometres with one digit behind the point, cut off.
pub proof fn distances_read_in_kilometres(kilometres: nat, hundreds: nat, rest: nat)
    requires
        hundreds < 10,
        rest < 100,
    ensures
        distance_text(1000 * kilometres + 100 * hundreds + rest) == decimal(kilometres) + "."@
            + decimal(hundreds) + " km"@,
{
    let metres = 1000 * kilometres + 100 * hundreds + rest;
    assert(metres / 1000 == kilometres);
    assert(metres % 1000 == 100 * hundreds + rest);
    assert((100 * hundreds + rest) / 100 == hundreds);
}

/// A duration reads in its two largest units, without the second where it is nothing.
pub proof fn durations_read_in_two_units(days: nat, hours: nat, minutes: nat, seconds: nat)
    requires
        hours < 24,
        minutes < 60,
        seconds < 60,
    ensures
        ({
            let text = compact_text(86_400 * days + 3_600 * hours + 60 * minutes + seconds);
            &&& days > 0 && hours > 0 ==> text == decimal(days) + "d "@ + decimal(hours) + "h"@
            &&& days > 0 && hours == 0 ==> text == decimal(days) + "d"@
            &&& days == 0 && hours > 0 && minutes > 0 ==> text == decimal(hours) + "h "@ + decimal(
                minutes,
            ) + "m"@
            &&& days == 0 && hours > 0 && minutes == 0 ==> text == decimal(hours) + "h"@
            &&& days == 0 && hours == 0 && minutes > 0 ==> text == decimal(minutes) + "m"@
            &&& days == 0 && hours == 0 && minutes == 0 ==> text == decimal(seconds) + "s"@
        }),
{
    let total = 86_400 * days + 3_600 * hours + 60 * minutes + seconds;
    let in_minutes = 1_440 * days + 60 * hours + minutes;
    let in_hours = 24 * days + hours;
    assert(total / 60 == in_minutes);
    assert(in_minutes / 60 == in_hours);
    assert(in_hours / 24 == days);
    assert(in_minutes % 60 == minutes as int);
    assert(in_hours % 24 == hours as int);
}

/// What is left of works reads in minutes and seconds for the last half hour, before that in
/// the two largest units.
pub proof fn the_last_half_hour_counts_seconds(minutes: nat, seconds: nat)
    requires
        seconds < 60,
    ensures
        60 * minutes + seconds > 1_800 ==> remaining_text(60 * minutes + seconds) == compact_text(
            60 * minutes + seconds,
        ),
        60 * minutes + seconds <= 1_800 && minutes > 0 ==> remaining_text(60 * minutes + seconds)
            == decimal(minutes) + "m "@ + zero_padded(seconds, 2) + "s"@,
        minutes == 0 ==> remaining_text(seconds) == decimal(seconds) + "s"@,
{
    assert((60 * minutes + seconds) / 60 == minutes);
    assert((60 * minutes + seconds) % 60 == seconds as int);
}

/// A time to come reads "in" so long, a time gone by so long "ago", and between them is now.
pub proof fn times_read_from_now(time: UtcSeconds, now: UtcSeconds, distance: nat)
    requires
        0 < distance <= i64::MAX,
    ensures
        time.seconds == now.seconds + distance ==> relative_text(time, now) == "in "@
            + compact_text(distance),
        time.seconds + distance == now.seconds ==> relative_text(time, now) == compact_text(
            distance,
        ) + " ago"@,
        time.seconds == now.seconds ==> relative_text(time, now) == "now"@,
{
}

/// A clock shows the hour and minute of the day, whatever the day is.
pub proof fn clocks_show_the_time_of_day(
    time: UtcSeconds,
    day: int,
    hour: int,
    minute: int,
    second: int,
)
    requires
        0 <= hour < 24,
        0 <= minute < 60,
        0 <= second < 60,
        time.seconds == 86_400 * day + 3_600 * hour + 60 * minute + second,
    ensures
        day_of(time) == day,
        clock_text(time) == zero_padded(hour as nat, 2) + ":"@ + zero_padded(minute as nat, 2),
{
    let of_day = 3_600 * hour + 60 * minute + second;
    assert(time.seconds as int / 86_400 == day);
    assert(time.seconds as int % 86_400 == of_day);
    assert(of_day / 3_600 == hour);
    assert(time.seconds as int % 3_600 == 60 * minute + second);
}

/// A timestamp names today and tomorrow, and every other day by its date.
pub proof fn timestamps_name_the_day(time: UtcSeconds, now: UtcSeconds)
    ensures
        day_of(time) == day_of(now) ==> timestamp_text(time, now) == "Today"@ + " "@ + clock_text(
            time,
        ) + " UTC"@,
        day_of(time) == day_of(now) + 1 ==> timestamp_text(time, now) == "Tomorrow"@ + " "@
            + clock_text(time) + " UTC"@,
        day_of(time) < day_of(now) || day_of(time) > day_of(now) + 1 ==> timestamp_text(time, now)
            == date_text(date_of(day_of(time))) + " "@ + clock_text(time) + " UTC"@,
{
}

/// A date reads year, month and day, each with its digits filled up.
pub proof fn dates_read_from_year_to_day(date: CivilDate)
    requires
        date.year >= 0,
        date.valid(),
    ensures
        date_text(date) == zero_padded(date.year as nat, 4) + "-"@ + zero_padded(
            date.month as nat,
            2,
        ) + "-"@ + zero_padded(date.day as nat, 2),
{
}

/// The day after a date is the next in its month, or the first of the next month.
pub proof fn days_follow_each_other(date: CivilDate, next: CivilDate)
    requires
        date.valid(),
        next.valid(),
        (next.year == date.year && next.month == date.month && next.day == date.day + 1) || (
        next.year == date.year && next.month == date.month + 1 && next.day == 1 && (date.day == 31
            || (date.day == 30 && (date.month == 4 || date.month == 6 || date.month == 9
            || date.month == 11)) || (date.day == 29 && date.month == 2) || (date.day == 28
            && date.month == 2 && !(date.year as int % 4 == 0 && (date.year as int % 100 != 0
            || date.year as int % 400 == 0)))) ) || (next.year == date.year + 1 && next.month == 1
            && next.day == 1 && date.month == 12 && date.day == 31),
    ensures
        next.unix_day() == date.unix_day() + 1,
{
    let year = date.year as int;
    if next.year == date.year + 1 {
        lemma_year(year);
    }
}

proof fn lemma_year(year: int)
    ensures
        days_before_year(year + 1) == days_before_year(year) + days_before_month(year, 12) + 31,
{
    let d = |month: int| days_in_month(year, month);
    assert(days_before_month(year, 1) == 0);
    assert(days_before_month(year, 2) == 31);
    assert(days_before_month(year, 3) == 31 + d(2));
    assert(days_before_month(year, 4) == 62 + d(2));
    assert(days_before_month(year, 5) == 92 + d(2));
    assert(days_before_month(year, 6) == 123 + d(2));
    assert(days_before_month(year, 7) == 153 + d(2));
    assert(days_before_month(year, 8) == 184 + d(2));
    assert(days_before_month(year, 9) == 215 + d(2));
    assert(days_before_month(year, 10) == 245 + d(2));
    assert(days_before_month(year, 11) == 276 + d(2));
    assert(days_before_month(year, 12) == 306 + d(2));
    lemma_multiple(year, 4);
    lemma_multiple(year, 100);
    lemma_multiple(year, 400);
}

proof fn lemma_multiple(year: int, factor: int)
    requires
        factor == 4 || factor == 100 || factor == 400,
    ensures
        year / factor == (year - 1) / factor + if year % factor == 0 {
            1int
        } else {
            0
        },
{
}

/// Days are counted from the first of January 1970.
pub proof fn days_count_from_the_epoch(date: CivilDate)
    requires
        date.year == 1970,
        date.month == 1,
    ensures
        date.unix_day() == date.day - 1,
{
}

/// Padding fills a text up to a width and never cuts it.
pub proof fn padding_fills_up(text: Seq<char>, width: nat, i: int)
    ensures
        text.len() >= width ==> padded_right(text, width) == text && padded_left(text, width, '0')
            == text,
        text.len() < width ==> padded_right(text, width).len() == width && padded_left(
            text,
            width,
            '0',
        ).len() == width,
        0 <= i < text.len() ==> padded_right(text, width)[i] == text[i],
        text.len() <= i < width ==> padded_right(text, width)[i] == ' ',
        text.len() < width && 0 <= i < width - text.len() ==> padded_left(text, width, '0')[i]
            == '0',
        text.len() < width && width - text.len() <= i < width ==> padded_left(text, width, '0')[i]
            == text[i - (width - text.len())],
{
    if text.len() >= width {
        assert(padded_right(text, width) =~= text);
        assert(padded_left(text, width, '0') =~= text);
    }
}

/// Joined texts stand in order with the separator between them.
pub proof fn joining_keeps_the_order(
    texts: Seq<Seq<char>>,
    text: Seq<char>,
    separator: Seq<char>,
)
    ensures
        joined(seq![text], separator) == text,
        texts.len() > 0 ==> joined(texts.push(text), separator) == joined(texts, separator)
            + separator + text,
{
    assert(texts.push(text).drop_last() =~= texts);
}

/// Printed lines stand in order, each with a line feed at its end.
pub proof fn printing_keeps_the_order(lines: Seq<Seq<char>>, line: Seq<char>)
    ensures
        printed(lines.push(line)) == printed(lines) + line + "\n"@,
        printed(Seq::empty()) == Seq::<char>::empty(),
{
    assert(lines.push(line).drop_last() =~= lines);
}

/// Keys move a selection by a row or a page, never beyond the first or the last row.
pub proof fn keys_move_by_rows_and_pages(selected: int, count: int, page: int)
    requires
        0 <= selected < count,
        1 <= page,
    ensures
        selected > 0 ==> moved(selected, KeyCode::Up, count, page) == selected - 1,
        moved(0, KeyCode::Up, count, page) == 0,
        selected + 1 < count ==> moved(selected, KeyCode::Down, count, page) == selected + 1,
        moved(count - 1, KeyCode::Down, count, page) == count - 1,
        selected >= page ==> moved(selected, KeyCode::PageUp, count, page) == selected - page,
        selected < page ==> moved(selected, KeyCode::PageUp, count, page) == 0,
        selected + page < count ==> moved(selected, KeyCode::PageDown, count, page) == selected
            + page,
        selected + page >= count ==> moved(selected, KeyCode::PageDown, count, page) == count - 1,
        moved(selected, KeyCode::Char('j'), count, page) == moved(
            selected,
            KeyCode::Down,
            count,
            page,
        ),
        moved(selected, KeyCode::Char('k'), count, page) == moved(
            selected,
            KeyCode::Up,
            count,
            page,
        ),
        moved(selected, KeyCode::Enter, count, page) == selected,
        moved(selected, KeyCode::Esc, count, page) == selected,
{
}

/// A settlement is named by the first entry with its identity.
pub proof fn settlements_have_their_names(settlements: Seq<Settlement>, id: SettlementId, i: int)
    requires
        forall|j: int| 0 <= j < settlements.len() && j < i ==> (#[trigger] settlements[j]).id != id,
    ensures
        0 <= i < settlements.len() && settlements[i].id == id ==> settlement_label(settlements, id)
            == settlements[i].name@,
        i >= settlements.len() ==> settlement_label(settlements, id) == "Unknown settlement"@,
    decreases settlements.len(),
{
    if settlements.len() > 0 && i > 0 {
        let rest = settlements.skip(1);
        assert(settlements[0].id != id);
        assert forall|j: int| 0 <= j < rest.len() && j < i - 1 implies (#[trigger] rest[j]).id
            != id by {
            assert(rest[j] == settlements[j + 1]);
        }
        settlements_have_their_names(rest, id, i - 1);
        if i < settlements.len() {
            assert(rest[i - 1] == settlements[i]);
        }
    }
}

/// A station stands in the settlement of the first entry with its identity.
pub proof fn stations_stand_in_their_settlements(
    stations: Seq<RailStation>,
    id: RailStationId,
    i: int,
)
    requires
        forall|j: int| 0 <= j < stations.len() && j < i ==> (#[trigger] stations[j]).id != id,
    ensures
        0 <= i < stations.len() && stations[i].id == id ==> station_settlement(stations, id) == Some(
            stations[i].settlement_id,
        ),
        i >= stations.len() ==> station_settlement(stations, id) is None,
    decreases stations.len(),
{
    if stations.len() > 0 && i > 0 {
        let rest = stations.skip(1);
        assert(stations[0].id != id);
        assert forall|j: int| 0 <= j < rest.len() && j < i - 1 implies (#[trigger] rest[j]).id
            != id by {
            assert(rest[j] == stations[j + 1]);
        }
        stations_stand_in_their_settlements(rest, id, i - 1);
        if i < stations.len() {
            assert(rest[i - 1] == stations[i]);
        }
    }
}

/// A station is named by its settlement: a planned one by the plan, any other by the network.
pub proof fn stations_are_named_by_their_settlements(
    region: Region,
    planned: Seq<RailStation>,
    id: RailStationId,
)
    ensures
        station_settlement(planned, id) matches Some(settlement) ==> station_label(
            region,
            planned,
            id,
        ) == settlement_label(region.settlements@, settlement),
        station_settlement(planned, id) is None ==> (station_settlement(
            region.rail_authority.rail_network.rail_stations@,
            id,
        ) matches Some(settlement) ==> station_label(region, planned, id) == settlement_label(
            region.settlements@,
            settlement,
        )),
        station_settlement(planned, id) is None && station_settlement(
            region.rail_authority.rail_network.rail_stations@,
            id,
        ) is None ==> station_label(region, planned, id) == "Unknown station"@,
{
}

/// The route of a new line between one built and one planned station runs from the built one
/// to the planned one, whichever way round the line is drawn.
pub proof fn routes_lead_to_the_planned_station(
    region: Region,
    planned: Seq<RailStation>,
    lines: Seq<RailLine>,
    built: RailStationId,
)
    requires
        planned.len() == 1,
        lines.len() == 1,
        built != planned[0].id,
        (lines[0].first_station_id == built && lines[0].second_station_id == planned[0].id) || (
        lines[0].first_station_id == planned[0].id && lines[0].second_station_id == built),
    ensures
        route_label(region, planned, lines) == Some(
            station_label(region, planned, built) + " → "@ + station_label(
                region,
                planned,
                planned[0].id,
            ),
        ),
{
    reveal_with_fuel(station_settlement, 3);
    reveal_with_fuel(super::places::built_end, 2);
    reveal_with_fuel(super::places::edge_station, 2);
    reveal_with_fuel(lines_at, 2);
    assert(planned.skip(1).len() == 0);
}

/// Trimming leaves no white space at either end and takes nothing else away.
pub proof fn trimming_takes_only_the_ends(text: Seq<char>)
    ensures
        trimmed(text).len() > 0 ==> !white_space(trimmed(text)[0]) && !white_space(
            trimmed(text).last(),
        ),
        exists|start: int, end: int|
            0 <= start <= end <= text.len() && trimmed(text) == #[trigger] text.subrange(start, end)
                && (forall|i: int| 0 <= i < start ==> white_space(#[trigger] text[i])) && (forall|
                i: int,
            |
                end <= i < text.len() ==> white_space(#[trigger] text[i])),
{
    let start = crate::text::skip_space(text, 0);
    let end = crate::text::skip_space_back(text, text.len() as int);
    lemma_skip(text, 0);
    lemma_skip_back(text, text.len() as int);
    if start < end {
        assert(trimmed(text) == text.subrange(start, end));
    } else {
        assert(text.subrange(0, 0) =~= trimmed(text));
        assert forall|i: int| 0 <= i < text.len() implies white_space(#[trigger] text[i]) by {
            if i >= start {
                assert(i >= end);
            }
        }
        assert(text.subrange(0, 0) =~= Seq::<char>::empty());
    }
}

proof fn lemma_skip(text: Seq<char>, from: int)
    requires
        0 <= from <= text.len(),
    ensures
        from <= crate::text::skip_space(text, from) <= text.len(),
        forall|i: int|
            from <= i < crate::text::skip_space(text, from) ==> white_space(#[trigger] text[i]),
        crate::text::skip_space(text, from) < text.len() ==> !white_space(
            text[crate::text::skip_space(text, from)],
        ),
    decreases text.len() - from,
{
    if from < text.len() && white_space(text[from]) {
        lemma_skip(text, from + 1);
    }
}

proof fn lemma_skip_back(text: Seq<char>, to: int)
    requires
        0 <= to <= text.len(),
    ensures
        0 <= crate::text::skip_space_back(text, to) <= to,
        forall|i: int|
            crate::text::skip_space_back(text, to) <= i < to ==> white_space(#[trigger] text[i]),
        crate::text::skip_space_back(text, to) > 0 ==> !white_space(
            text[crate::text::skip_space_back(text, to) - 1],
        ),
    decreases to,
{
    if to > 0 && white_space(text[to - 1]) {
        lemma_skip_back(text, to - 1);
    }
}

/// Upper case changes the small letters of the alphabet and nothing else.
pub proof fn upper_case_keeps_all_but_small_letters(text: Seq<char>, i: int)
    requires
        0 <= i < text.len(),
    ensures
        upper_case(text).len() == text.len(),
        'a' <= text[i] <= 'z' ==> upper_case(text)[i] as u32 + 32 == text[i] as u32,
        !('a' <= text[i] <= 'z') ==> upper_case(text)[i] == text[i],
{
}

/// A share goes to the nearest whole cell: no other is nearer.
pub proof fn cells_are_nearest(numerator: int, denominator: int)
    requires
        denominator > 0,
        numerator >= 0,
    ensures
        2 * denominator * nearest(numerator, denominator) <= 2 * numerator + denominator,
        2 * numerator + denominator < 2 * denominator * (nearest(numerator, denominator) + 1),
{
    let whole = nearest(numerator, denominator);
    let d = 2 * denominator;
    let n = 2 * numerator + denominator;
    assert(d * whole <= n < d * (whole + 1)) by (nonlinear_arith)
        requires
            whole == n / d,
            d > 0,
    ;
    assert(d * (whole + 1) == 2 * denominator * (whole + 1)) by (nonlinear_arith)
        requires
            d == 2 * denominator,
    ;
    assert(d * whole == 2 * denominator * whole) by (nonlinear_arith)
        requires
            d == 2 * denominator,
    ;
}

} // verus!
