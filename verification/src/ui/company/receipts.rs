//! Journey receipts as the player reads them.

use vstd::prelude::*;
use vstd::string::StringExecFns;

use super::figures::{result_cents, result_of, result_style, result_tone};
use super::recovery::{panel_heading, section_heading, station_label, stop_name, train_number};
use crate::model::company::JourneyReceipt;
use crate::model::ids::{display_number, JourneyId};
use crate::model::state::{GameState, Region};
use crate::model::units::UtcSeconds;
use crate::text::{decimal, decimal_text, pad_right, padded_right, zero_pad, zero_padded};
use crate::ui::calendar::{seconds_between, seconds_until};
use crate::ui::format::{money, money_text, signed_cents, signed_text};
use crate::ui::style::{
    blank_line, line_of, plain, row_views, CellView, Page, RowView, Style, StyledLine, TableRow,
    Tone,
};

verus! {

/// The number of a Journey.
pub open spec fn journey_number(id: JourneyId) -> nat {
    display_number(id.value) as nat
}

/// What a receipt leaves.
pub open spec fn left_of(receipt: JourneyReceipt) -> int {
    result_of(receipt.revenue, receipt.infrastructure_access_fee, receipt.fuel_cost)
}

fn receipt_left(receipt: &JourneyReceipt) -> (result: i128)
    ensures
        result == left_of(*receipt),
        -0x2_0000_0000_0000_0000 <= result <= 0x2_0000_0000_0000_0000,
{
    result_cents(receipt.revenue, receipt.infrastructure_access_fee, receipt.fuel_cost)
}

/// Whether a receipt tells how its Journey was operated.
pub open spec fn has_context(receipt: JourneyReceipt) -> bool {
    receipt.train_id is Some && receipt.train_model_name is Some && receipt.origin_station_id is Some
        && receipt.destination_station_id is Some && receipt.passengers_carried is Some
        && receipt.passenger_capacity is Some && receipt.completed_at is Some
}

pub fn receipt_has_operating_context(receipt: &JourneyReceipt) -> (result: bool)
    ensures
        result == has_context(*receipt),
{
    receipt.train_id.is_some() && receipt.train_model_name.is_some()
        && receipt.origin_station_id.is_some() && receipt.destination_station_id.is_some()
        && receipt.passengers_carried.is_some() && receipt.passenger_capacity.is_some()
        && receipt.completed_at.is_some()
}

/// The route of a Journey.
pub open spec fn journey_route(region: Region, receipt: JourneyReceipt) -> Seq<char> {
    match (receipt.origin_station_id, receipt.destination_station_id) {
        (Some(origin), Some(destination)) => stop_name(region, origin) + " → "@ + stop_name(
            region,
            destination,
        ),
        _ => "Legacy receipt"@,
    }
}

pub fn receipt_route_label(region: &Region, receipt: &JourneyReceipt) -> (result: String)
    ensures
        result@ == journey_route(*region, *receipt),
{
    match (receipt.origin_station_id, receipt.destination_station_id) {
        (Some(origin), Some(destination)) => {
            let end = station_label(region, destination);
            station_label(region, origin).concat(" → ").concat(end.as_str())
        },
        _ => "Legacy receipt".to_owned(),
    }
}

/// The route of a Journey, or its number where the route is not known.
pub open spec fn route_or_number(region: Region, receipt: JourneyReceipt) -> Seq<char> {
    if receipt.origin_station_id is Some && receipt.destination_station_id is Some {
        journey_route(region, receipt)
    } else {
        "Journey "@ + decimal(journey_number(receipt.journey_id))
    }
}

pub fn receipt_route_or_id_label(region: &Region, receipt: &JourneyReceipt) -> (result: String)
    ensures
        result@ == route_or_number(*region, *receipt),
{
    if receipt.origin_station_id.is_some() && receipt.destination_station_id.is_some() {
        receipt_route_label(region, receipt)
    } else {
        let number = decimal_text(receipt.journey_id.get());
        "Journey ".to_owned().concat(number.as_str())
    }
}

/// The Train of a Journey, as far as it is known.
pub open spec fn journey_train(receipt: JourneyReceipt) -> Seq<char> {
    match (receipt.train_id, receipt.train_model_name) {
        (Some(id), Some(name)) => "T"@ + train_number(id) + " · "@ + name@,
        (Some(id), None) => "Train "@ + train_number(id),
        (None, Some(name)) => name@,
        (None, None) => "—"@,
    }
}

pub fn receipt_train_label(receipt: &JourneyReceipt) -> (result: String)
    ensures
        result@ == journey_train(*receipt),
{
    match (&receipt.train_id, &receipt.train_model_name) {
        (Some(id), Some(name)) => {
            let number = decimal_text(id.get());
            "T".to_owned().concat(number.as_str()).concat(" · ").concat(name.as_str())
        },
        (Some(id), None) => {
            let number = decimal_text(id.get());
            "Train ".to_owned().concat(number.as_str())
        },
        (None, Some(name)) => name.clone(),
        (None, None) => "—".to_owned(),
    }
}

/// The passengers of a Journey, as far as they are known.
pub open spec fn journey_passengers(receipt: JourneyReceipt) -> Seq<char> {
    match (receipt.passengers_carried, receipt.passenger_capacity) {
        (Some(passengers), Some(capacity)) => decimal(passengers as nat) + " boarded · "@ + decimal(
            capacity as nat,
        ) + " seats"@,
        (Some(passengers), None) => decimal(passengers as nat) + " boarded"@,
        _ => "—"@,
    }
}

pub fn receipt_passenger_label(receipt: &JourneyReceipt) -> (result: String)
    ensures
        result@ == journey_passengers(*receipt),
{
    match (receipt.passengers_carried, receipt.passenger_capacity) {
        (Some(passengers), Some(capacity)) => {
            let seats = decimal_text(capacity as u64);
            decimal_text(passengers as u64).concat(" boarded · ").concat(seats.as_str()).concat(
                " seats",
            )
        },
        (Some(passengers), None) => decimal_text(passengers as u64).concat(" boarded"),
        _ => "—".to_owned(),
    }
}

/// How long ago a Journey ended.
pub open spec fn journey_age(now: UtcSeconds, receipt: JourneyReceipt) -> Seq<char> {
    match receipt.completed_at {
        None => "legacy"@,
        Some(time) => {
            let seconds = seconds_until(now, time);
            if seconds < 60 {
                "just now"@
            } else if seconds < 3_600 {
                decimal((seconds / 60) as nat) + "m ago"@
            } else if seconds < 86_400 {
                decimal((seconds / 3_600) as nat) + "h "@ + decimal(
                    ((seconds % 3_600) / 60) as nat,
                ) + "m ago"@
            } else {
                decimal((seconds / 86_400) as nat) + "d ago"@
            }
        },
    }
}

pub fn receipt_age_label(now: UtcSeconds, receipt: &JourneyReceipt) -> (result: String)
    ensures
        result@ == journey_age(now, *receipt),
{
    let time = match receipt.completed_at {
        None => return "legacy".to_owned(),
        Some(time) => time,
    };
    let seconds: i64 = seconds_between(now, time);
    if seconds < 60 {
        "just now".to_owned()
    } else if seconds < 3_600 {
        decimal_text((seconds / 60) as u64).concat("m ago")
    } else if seconds < 86_400 {
        let minutes = decimal_text(((seconds % 3_600) / 60) as u64);
        decimal_text((seconds / 3_600) as u64).concat("h ").concat(minutes.as_str()).concat(
            "m ago",
        )
    } else {
        decimal_text((seconds / 86_400) as u64).concat("d ago")
    }
}

/// A muted label of a width and a value.
pub open spec fn figure_line(
    label: Seq<char>,
    width: nat,
    value: Seq<char>,
    style: Style,
) -> Seq<(Seq<char>, Style)> {
    seq![(padded_right(label, width), plain(Tone::Secondary)), (value, style)]
}

pub fn figure(label: &str, width: usize, value: String, style: Style) -> (result: StyledLine)
    ensures
        result@ == figure_line(label@, width as nat, value@, style),
{
    let padded = pad_right(label, width);
    StyledLine::pair(padded.as_str(), Style::plain(Tone::Secondary), value.as_str(), style)
}

/// How a Journey was operated.
pub open spec fn context_lines(region: Region, receipt: JourneyReceipt) -> Seq<
    Seq<(Seq<char>, Style)>,
> {
    let value = plain(Tone::PrimaryValue);
    if has_context(receipt) {
        seq![
            panel_heading("JOURNEY"@),
            figure_line("Route"@, 20, journey_route(region, receipt), value),
            figure_line("Train"@, 20, journey_train(receipt), value),
            figure_line("Passengers"@, 20, journey_passengers(receipt), value),
            blank_line(),
        ]
    } else {
        seq![
            line_of(
                "Operating context is unavailable for this legacy receipt."@,
                plain(Tone::Secondary),
            ),
            blank_line(),
        ]
    }
}

fn context_page(region: &Region, receipt: &JourneyReceipt) -> (result: Page)
    ensures
        result@ == context_lines(*region, *receipt),
{
    let value = Style::plain(Tone::PrimaryValue);
    let mut page = Page::new();
    if receipt_has_operating_context(receipt) {
        page.push(section_heading("JOURNEY"));
        page.push(figure("Route", 20, receipt_route_label(region, receipt), value));
        page.push(figure("Train", 20, receipt_train_label(receipt), value));
        page.push(figure("Passengers", 20, receipt_passenger_label(receipt), value));
        page.push_blank();
    } else {
        page.push_styled(
            "Operating context is unavailable for this legacy receipt.",
            Style::plain(Tone::Secondary),
        );
        page.push_blank();
    }
    page
}

/// The account of a Journey.
pub open spec fn account_lines(receipt: JourneyReceipt) -> Seq<Seq<(Seq<char>, Style)>> {
    let value = plain(Tone::PrimaryValue);
    seq![
        panel_heading("FINANCIAL"@),
        figure_line("Revenue"@, 20, money_text(receipt.revenue.cents as int), value),
        figure_line(
            "Access fees"@,
            20,
            money_text(receipt.infrastructure_access_fee.cents as int),
            value,
        ),
        figure_line("Fuel"@, 20, money_text(receipt.fuel_cost.cents as int), value),
        figure_line("Result"@, 20, signed_text(left_of(receipt)), result_tone(left_of(receipt))),
    ]
}

fn account_page(receipt: &JourneyReceipt) -> (result: Page)
    ensures
        result@ == account_lines(*receipt),
{
    let value = Style::plain(Tone::PrimaryValue);
    let left: i128 = receipt_left(receipt);
    let mut page = Page::new();
    page.push(section_heading("FINANCIAL"));
    page.push(figure("Revenue", 20, money(receipt.revenue), value));
    page.push(figure("Access fees", 20, money(receipt.infrastructure_access_fee), value));
    page.push(figure("Fuel", 20, money(receipt.fuel_cost), value));
    page.push(figure("Result", 20, signed_cents(left), result_style(left)));
    page
}

/// A receipt in full.
pub open spec fn receipt_page(state: GameState, receipt: Option<JourneyReceipt>) -> Seq<
    Seq<(Seq<char>, Style)>,
> {
    match receipt {
        None => seq![
            line_of("The selected receipt is no longer retained."@, plain(Tone::Secondary)),
        ],
        Some(receipt) => seq![
            line_of(
                "Journey "@ + decimal(journey_number(receipt.journey_id)) + " · "@ + journey_age(
                    state.last_processed_at,
                    receipt,
                ),
                plain(Tone::Title),
            ),
            blank_line(),
        ] + context_lines(state.region, receipt) + account_lines(receipt),
    }
}

pub fn receipt_detail_lines(state: &GameState, receipt: Option<&JourneyReceipt>) -> (result: Page)
    ensures
        result@ == receipt_page(
            *state,
            match receipt {
                Some(receipt) => Some(*receipt),
                None => None,
            },
        ),
{
    let mut page = Page::new();
    match receipt {
        None => {
            page.push_styled(
                "The selected receipt is no longer retained.",
                Style::plain(Tone::Secondary),
            );
        },
        Some(receipt) => {
            let number = decimal_text(receipt.journey_id.get());
            let age = receipt_age_label(state.last_processed_at, receipt);
            let title = "Journey ".to_owned().concat(number.as_str()).concat(" · ").concat(
                age.as_str(),
            );
            page.push_styled(title.as_str(), Style::plain(Tone::Title));
            page.push_blank();
            let mut context = context_page(&state.region, receipt);
            page.append(&mut context);
            let mut account = account_page(receipt);
            page.append(&mut account);
        },
    }
    page
}

/// The number of a Journey with at least two digits.
pub open spec fn short_number(id: JourneyId) -> Seq<char> {
    "J"@ + zero_padded(journey_number(id), 2)
}

fn short_label(id: JourneyId) -> (result: String)
    ensures
        result@ == short_number(id),
{
    let number = zero_pad(id.get(), 2);
    "J".to_owned().concat(number.as_str())
}

/// The title of a receipt's modal.
pub fn receipt_title(receipt: Option<&JourneyReceipt>) -> (result: String)
    ensures
        result@ == (match receipt {
            Some(receipt) => "Journey Receipt · "@ + short_number(receipt.journey_id),
            None => "Journey Receipt"@,
        }),
{
    match receipt {
        Some(receipt) => {
            let number = short_label(receipt.journey_id);
            "Journey Receipt · ".to_owned().concat(number.as_str())
        },
        None => "Journey Receipt".to_owned(),
    }
}

/// The heading of the history.
pub fn history_heading(receipts: usize) -> (result: StyledLine)
    ensures
        result@ == panel_heading("JOURNEY HISTORY · "@ + decimal(receipts as nat) + " RECEIPTS"@),
{
    let number = decimal_text(receipts as u64);
    let title = "JOURNEY HISTORY · ".to_owned().concat(number.as_str()).concat(" RECEIPTS");
    section_heading(title.as_str())
}

/// The cells of a receipt.
pub open spec fn receipt_cells(
    state: GameState,
    receipt: JourneyReceipt,
    detailed: bool,
) -> Seq<CellView> {
    let normal = plain(Tone::Plain);
    let result = (signed_text(left_of(receipt)), result_tone(left_of(receipt)), false);
    let passengers = (journey_passengers(receipt), normal, false);
    if detailed {
        seq![
            (short_number(receipt.journey_id), normal, false),
            (journey_route(state.region, receipt), normal, false),
            (journey_train(receipt), normal, false),
            passengers,
            (journey_age(state.last_processed_at, receipt), normal, false),
            result,
        ]
    } else {
        seq![(route_or_number(state.region, receipt), normal, false), passengers, result]
    }
}

fn receipt_row(state: &GameState, receipt: &JourneyReceipt, detailed: bool) -> (result: TableRow)
    ensures
        result@ == (receipt_cells(*state, *receipt, detailed), false),
{
    let normal = Style::plain(Tone::Plain);
    let left: i128 = receipt_left(receipt);
    let amount = signed_cents(left);
    let passengers = receipt_passenger_label(receipt);
    let mut row = TableRow::new();
    if detailed {
        let number = short_label(receipt.journey_id);
        let route = receipt_route_label(&state.region, receipt);
        let train = receipt_train_label(receipt);
        let age = receipt_age_label(state.last_processed_at, receipt);
        row.push(number.as_str(), normal);
        row.push(route.as_str(), normal);
        row.push(train.as_str(), normal);
        row.push(passengers.as_str(), normal);
        row.push(age.as_str(), normal);
    } else {
        let route = receipt_route_or_id_label(&state.region, receipt);
        row.push(route.as_str(), normal);
        row.push(passengers.as_str(), normal);
    }
    row.push(amount.as_str(), result_style(left));
    row
}

/// The history, newest first.
pub open spec fn receipt_table(state: GameState, detailed: bool) -> Seq<RowView> {
    let receipts = state.financials.recent_journey_receipts@;
    Seq::new(
        receipts.len(),
        |i: int| (receipt_cells(state, receipts[receipts.len() - 1 - i], detailed), false),
    )
}

pub fn receipt_rows(state: &GameState, detailed: bool) -> (result: Vec<TableRow>)
    ensures
        row_views(result@) == receipt_table(*state, detailed),
{
    let receipts = &state.financials.recent_journey_receipts;
    let ghost table = receipt_table(*state, detailed);
    let mut rows: Vec<TableRow> = Vec::new();
    let mut left: usize = receipts.len();
    while left > 0
        invariant
            left <= receipts@.len(),
            receipts@ == state.financials.recent_journey_receipts@,
            table == receipt_table(*state, detailed),
            rows@.len() + left == receipts@.len(),
            forall|j: int| 0 <= j < rows@.len() ==> (#[trigger] rows@[j])@ == table[j],
        decreases left,
    {
        rows.push(receipt_row(state, &receipts[left - 1], detailed));
        left = left - 1;
    }
    assert(row_views(rows@) =~= table);
    rows
}

/// Whether the history has room for all columns.
pub fn shows_all_columns(wide: bool, width: u16) -> (result: bool)
    ensures
        result == (wide && width >= 86),
{
    wide && width >= 86
}

/// The receipts that one page of the history shows: two rows go to its header, and one is
/// left at least.
pub fn history_page_size(height: u16) -> (result: usize)
    ensures
        result == (if height <= 3 {
            1
        } else {
            height - 2
        }),
{
    if height <= 3 {
        1
    } else {
        height as usize - 2
    }
}

} // verus!
