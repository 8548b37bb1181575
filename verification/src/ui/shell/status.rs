//! The status line at the top.

use vstd::prelude::*;
use vstd::string::StrSliceExecFns;
use vstd::string::StringExecFns;

use crate::model::company::{Journey, Train, TrainStatus};
use crate::model::state::GameState;
use crate::model::units::UtcSeconds;
use crate::text::{decimal, decimal_text, part, repeat, repeated};
use crate::ui::calendar::{seconds_between, seconds_until};
use crate::ui::components::{at_most_usize, display_width, text_width};
use crate::ui::format::{compact_duration, compact_text, money, money_text};
use crate::ui::style::{plain, Style, StyledLine, Tone};

verus! {


/// How many of the first `count` Trains are ready.
pub open spec fn ready_trains(trains: Seq<Train>, count: int) -> int
    decreases count,
{
    if count <= 0 {
        0
    } else {
        ready_trains(trains, count - 1) + if trains[count - 1].status is Ready {
            1int
        } else {
            0
        }
    }
}

/// How many of the first `count` Trains travel.
pub open spec fn travelling_trains(trains: Seq<Train>, count: int) -> int
    decreases count,
{
    if count <= 0 {
        0
    } else {
        travelling_trains(trains, count - 1) + if trains[count - 1].status is Travelling {
            1int
        } else {
            0
        }
    }
}

/// The Trains that are ready and those that travel.
pub fn train_counts(trains: &Vec<Train>) -> (result: (usize, usize))
    ensures
        result.0 == ready_trains(trains@, trains@.len() as int),
        result.1 == travelling_trains(trains@, trains@.len() as int),
{
    let mut ready: usize = 0;
    let mut travelling: usize = 0;
    let mut i: usize = 0;
    while i < trains.len()
        invariant
            i <= trains@.len(),
            ready == ready_trains(trains@, i as int),
            travelling == travelling_trains(trains@, i as int),
            ready <= i,
            travelling <= i,
        decreases trains.len() - i,
    {
        match trains[i].status {
            TrainStatus::Ready { .. } => {
                ready += 1;
            },
            TrainStatus::Travelling { .. } => {
                travelling += 1;
            },
        }
        i += 1;
    }
    (ready, travelling)
}

/// The seconds until a Journey arrives; none once it is due.
pub open spec fn arrival(journey: Journey, now: UtcSeconds) -> int {
    if seconds_until(journey.arrives_at, now) > 0 {
        seconds_until(journey.arrives_at, now)
    } else {
        0
    }
}

/// The least of these over the first `count` Journeys.
pub open spec fn next_arrival(journeys: Seq<Journey>, now: UtcSeconds, count: int) -> Option<int>
    decreases count,
{
    if count <= 0 {
        None
    } else {
        let seconds = arrival(journeys[count - 1], now);
        match next_arrival(journeys, now, count - 1) {
            Some(least) => Some(
                if least <= seconds {
                    least
                } else {
                    seconds
                },
            ),
            None => Some(seconds),
        }
    }
}

/// The time to the next arrival.
pub open spec fn eta_text(journeys: Seq<Journey>, now: UtcSeconds) -> Seq<char> {
    match next_arrival(journeys, now, journeys.len() as int) {
        Some(seconds) => compact_text(seconds as nat),
        None => "—"@,
    }
}

/// The seconds to the next arrival.
pub fn nearest_arrival(journeys: &Vec<Journey>, now: UtcSeconds) -> (result: Option<u64>)
    ensures
        match result {
            Some(seconds) => next_arrival(journeys@, now, journeys@.len() as int) == Some(
                seconds as int,
            ),
            None => next_arrival(journeys@, now, journeys@.len() as int) is None,
        },
{
    let mut least: Option<u64> = None;
    let mut i: usize = 0;
    while i < journeys.len()
        invariant
            i <= journeys@.len(),
            match least {
                Some(seconds) => next_arrival(journeys@, now, i as int) == Some(seconds as int),
                None => next_arrival(journeys@, now, i as int) is None,
            },
        decreases journeys.len() - i,
    {
        let left: i64 = seconds_between(journeys[i].arrives_at, now);
        let seconds: u64 = if left > 0 {
            left as u64
        } else {
            0
        };
        least = match least {
            Some(known) => Some(
                if known <= seconds {
                    known
                } else {
                    seconds
                },
            ),
            None => Some(seconds),
        };
        i += 1;
    }
    least
}

pub fn nearest_eta(journeys: &Vec<Journey>, now: UtcSeconds) -> (result: String)
    ensures
        result@ == eta_text(journeys@, now),
{
    match nearest_arrival(journeys, now) {
        Some(seconds) => compact_duration(seconds),
        None => "—".to_owned(),
    }
}

/// A text cut to so many characters, with an ellipsis where something was cut.
pub open spec fn shortened(text: Seq<char>, most: int) -> Seq<char> {
    if text.len() > most {
        text.take(most) + "…"@
    } else {
        text
    }
}

pub fn shorten(text: &str, most: usize) -> (result: String)
    ensures
        result@ == shortened(text@, most as int),
{
    if text.unicode_len() > most {
        let start = part(text, 0, most);
        assert(start@ =~= text@.take(most as int));
        start.concat("…")
    } else {
        text.to_owned()
    }
}

/// The columns of the first `count` pieces of a line.
pub open spec fn columns(line: Seq<(Seq<char>, Style)>, count: int) -> int
    decreases count,
{
    if count <= 0 {
        0
    } else {
        at_most_usize(columns(line, count - 1) + display_width(line[count - 1].0))
    }
}

/// The displayed width of a line.
pub fn line_columns(line: &StyledLine) -> (result: usize)
    ensures
        result == columns(line@, line@.len() as int),
{
    let mut total: usize = 0;
    let mut i: usize = 0;
    while i < line.spans.len()
        invariant
            i <= line.spans@.len(),
            total == columns(line@, i as int),
        decreases line.spans.len() - i,
    {
        total = total.saturating_add(text_width(line.spans[i].text.as_str()));
        i += 1;
    }
    total
}

/// The gap between the two halves of a line: what they leave, but two columns at least.
pub open spec fn gap(left: int, right: int, width: u16) -> int {
    if width - left - right < 2 {
        2
    } else {
        width - left - right
    }
}

pub fn status_gap(left: usize, right: usize, width: u16) -> (result: usize)
    ensures
        result == gap(left as int, right as int, width),
{
    let available: usize = width as usize;
    let rest: usize = available.saturating_sub(left).saturating_sub(right);
    if rest < 2 {
        2
    } else {
        rest
    }
}

/// Who plays: the game's name and the Company's.
pub open spec fn identity_spans(company: Seq<char>, most: int) -> Seq<(Seq<char>, Style)> {
    seq![
        ("RailQ"@, plain(Tone::ShellBrand)),
        ("  "@, plain(Tone::Plain)),
        (shortened(company, most), plain(Tone::ShellIdentity)),
    ]
}

fn identity(company: &str, most: usize) -> (result: StyledLine)
    ensures
        result@ == identity_spans(company@, most as int),
{
    let name = shorten(company, most);
    StyledLine::triple(
        "RailQ",
        Style::plain(Tone::ShellBrand),
        "  ",
        Style::plain(Tone::Plain),
        name.as_str(),
        Style::plain(Tone::ShellIdentity),
    )
}

/// Funds, Trains and the next arrival, each behind its label.
pub open spec fn wide_metrics(state: GameState, now: UtcSeconds) -> Seq<(Seq<char>, Style)> {
    let trains = state.player_company.fleet.trains@;
    seq![
        ("Cash "@, plain(Tone::ShellMetricLabel)),
        (money_text(state.player_company.funds.cents as int), plain(Tone::ShellMetricValue)),
        ("   "@, plain(Tone::Plain)),
        ("Fleet "@, plain(Tone::ShellMetricLabel)),
        (
            decimal(ready_trains(trains, trains.len() as int) as nat) + " ready · "@ + decimal(
                travelling_trains(trains, trains.len() as int) as nat,
            ) + " travelling"@,
            plain(Tone::ShellMetricValue),
        ),
        ("   "@, plain(Tone::Plain)),
        ("Next "@, plain(Tone::ShellMetricLabel)),
        (eta_text(state.active_journeys@, now), plain(Tone::ShellMetricValue)),
    ]
}

fn wide_figures(state: &GameState, now: UtcSeconds) -> (result: StyledLine)
    ensures
        result@ == wide_metrics(*state, now),
{
    let label = Style::plain(Tone::ShellMetricLabel);
    let value = Style::plain(Tone::ShellMetricValue);
    let (ready, travelling) = train_counts(&state.player_company.fleet.trains);
    let second = decimal_text(travelling as u64);
    let fleet = decimal_text(ready as u64).concat(" ready · ").concat(second.as_str()).concat(
        " travelling",
    );
    let cash = money(state.player_company.funds);
    let next = nearest_eta(&state.active_journeys, now);
    let mut line = StyledLine::new();
    line.push("Cash ", label);
    line.push(cash.as_str(), value);
    line.push("   ", Style::plain(Tone::Plain));
    line.push("Fleet ", label);
    line.push(fleet.as_str(), value);
    line.push("   ", Style::plain(Tone::Plain));
    line.push("Next ", label);
    line.push(next.as_str(), value);
    line
}

/// The same in few words.
pub open spec fn compact_metrics(state: GameState, now: UtcSeconds) -> Seq<(Seq<char>, Style)> {
    let trains = state.player_company.fleet.trains@;
    seq![
        (money_text(state.player_company.funds.cents as int), plain(Tone::ShellMetricValue)),
        ("   "@, plain(Tone::Plain)),
        (
            "R"@ + decimal(ready_trains(trains, trains.len() as int) as nat) + "/T"@ + decimal(
                travelling_trains(trains, trains.len() as int) as nat,
            ),
            plain(Tone::ShellMetricValue),
        ),
        ("   "@, plain(Tone::Plain)),
        ("Next "@, plain(Tone::ShellMetricLabel)),
        (eta_text(state.active_journeys@, now), plain(Tone::ShellMetricValue)),
    ]
}

fn compact_figures(state: &GameState, now: UtcSeconds) -> (result: StyledLine)
    ensures
        result@ == compact_metrics(*state, now),
{
    let value = Style::plain(Tone::ShellMetricValue);
    let (ready, travelling) = train_counts(&state.player_company.fleet.trains);
    let first = decimal_text(ready as u64);
    let second = decimal_text(travelling as u64);
    let fleet = "R".to_owned().concat(first.as_str()).concat("/T").concat(second.as_str());
    let cash = money(state.player_company.funds);
    let next = nearest_eta(&state.active_journeys, now);
    let mut line = StyledLine::new();
    line.push(cash.as_str(), value);
    line.push("   ", Style::plain(Tone::Plain));
    line.push(fleet.as_str(), value);
    line.push("   ", Style::plain(Tone::Plain));
    line.push("Next ", Style::plain(Tone::ShellMetricLabel));
    line.push(next.as_str(), value);
    line
}

/// Two halves of a line with a gap between them.
pub open spec fn spread(
    left: Seq<(Seq<char>, Style)>,
    right: Seq<(Seq<char>, Style)>,
    width: u16,
) -> Seq<(Seq<char>, Style)> {
    let space = gap(
        columns(left, left.len() as int),
        columns(right, right.len() as int),
        width,
    );
    left.push((repeated(' ', space as nat), plain(Tone::Plain))) + right
}

/// The status line: who plays on the left and the figures on the right.
pub open spec fn status_spans(state: GameState, now: UtcSeconds, width: u16) -> Seq<
    (Seq<char>, Style),
> {
    if width >= 100 {
        spread(
            identity_spans(state.player_company.name@, 30),
            wide_metrics(state, now),
            width,
        )
    } else {
        spread(
            identity_spans(state.player_company.name@, 16),
            compact_metrics(state, now),
            width,
        )
    }
}

pub fn shell_status_line(state: &GameState, now: UtcSeconds, width: u16) -> (result: StyledLine)
    ensures
        result@ == status_spans(*state, now, width),
{
    let most: usize = if width >= 100 {
        30
    } else {
        16
    };
    let mut line = identity(state.player_company.name.as_str(), most);
    let figures = if width >= 100 {
        wide_figures(state, now)
    } else {
        compact_figures(state, now)
    };
    let space: usize = status_gap(line_columns(&line), line_columns(&figures), width);
    let blanks = repeat(' ', space);
    line.push(blanks.as_str(), Style::plain(Tone::Plain));
    line.extend(&figures);
    line
}

} // verus!
