//! What the Company's figures mean, whatever a game holds.

use vstd::prelude::*;

use super::analytics::{
    loss_making, on_board, profitable, recent, receipt_costs, receipt_result, total_costs,
    total_passengers, total_revenue, uncredited, ActiveJourneyExposure, RecentJourneyPerformance,
};
use super::figures::{
    active_services, company_settlements, connected_settlements, coverage_text, fleet_value,
    margin_text, operating_costs, operating_result, purchase_prices, running,
    served_settlements, station_settlements, stop_settlements,
};
use super::dashboard::{
    compact_company, compact_finances, cost_page, costs_page, fleet_page, layout_of, margin_page,
    network_page, result_page, revenue_page, service_page,
};
use super::editor::{edited, EditorOutcome, EditorView};
use super::receipts::{
    account_lines, journey_age, journey_passengers, journey_route, journey_train, left_of,
    receipt_table,
};
use super::recovery::{
    destination_of, journey_text, model_name, open_routes, option_text, place_name, route_list,
    route_text, status_text,
    status_tone, stop_name, train_list, train_number, CompanyOutlook, FinancialStatus,
    RecoveryDestination, RecoveryJourney, RecoveryOption,
};
use super::report::totals;
use super::selection::{receipt_in, receipt_synchronized, row_of_journey, ReceiptSelection};
use super::workspace::{company_pressed, CompanyOutcome, CompanyView};
use crate::model::catalogue::TrainCatalogue;
use crate::model::company::{
    group_passengers, Financials, Journey, JourneyPassengerGroup, JourneyReceipt, PassengerService,
    Train,
};
use crate::model::ids::{display_number, JourneyId, RailStationId, SettlementId};
use crate::model::network::{RailStation, Settlement};
use crate::model::state::{GameState, Region};
use crate::model::units::UtcSeconds;
use crate::text::{decimal, padded_left, padded_right};
use crate::ui::calendar::seconds_until;
use crate::ui::format::{magnitude, money_text, signed_text};
use crate::ui::geometry::Rect;
use crate::ui::keys::KeyCode;
use crate::ui::places::station_settlement;
use crate::ui::style::{strong, Tone};

verus! {

proof fn lemma_prices(first: Seq<Train>, second: Seq<Train>, count: int)
    requires
        0 <= count <= second.len(),
    ensures
        purchase_prices(first + second, first.len() as int) == purchase_prices(
            first,
            first.len() as int,
        ),
        purchase_prices(first + second, first.len() + count) == purchase_prices(
            first,
            first.len() as int,
        ) + purchase_prices(second, count),
    decreases count,
{
    lemma_prices_of_start(first, second, first.len() as int);
    if count > 0 {
        lemma_prices(first, second, count - 1);
        assert((first + second)[first.len() + count - 1] == second[count - 1]);
    }
}

proof fn lemma_prices_of_start(first: Seq<Train>, second: Seq<Train>, count: int)
    requires
        0 <= count <= first.len(),
    ensures
        purchase_prices(first + second, count) == purchase_prices(first, count),
    decreases count,
{
    if count > 0 {
        lemma_prices_of_start(first, second, count - 1);
        assert((first + second)[count - 1] == first[count - 1]);
    }
}

/// The value of an empty Fleet is zero, that of one Train is its original price, and Fleets
/// together are worth what each of them is.
pub proof fn fleet_values_add_up(first: GameState, second: GameState, both: GameState)
    requires
        both.player_company.fleet.trains@ == first.player_company.fleet.trains@
            + second.player_company.fleet.trains@,
    ensures
        fleet_value(both) == fleet_value(first) + fleet_value(second),
        first.player_company.fleet.trains@.len() == 0 ==> fleet_value(first) == 0,
        first.player_company.fleet.trains@.len() == 1 ==> fleet_value(first)
            == first.player_company.fleet.trains@[0].original_purchase_price.cents,
{
    let a = first.player_company.fleet.trains@;
    let b = second.player_company.fleet.trains@;
    lemma_prices(a, b, b.len() as int);
    reveal_with_fuel(purchase_prices, 2);
}

/// A Train that joins a Fleet raises its value by what the Train cost, and nothing else of the
/// game matters.
pub proof fn a_train_adds_its_price(before: GameState, after: GameState, train: Train)
    requires
        after.player_company.fleet.trains@ == before.player_company.fleet.trains@.push(train),
    ensures
        fleet_value(after) == fleet_value(before) + train.original_purchase_price.cents,
{
    let trains = before.player_company.fleet.trains@;
    assert(trains.push(train) =~= trains + seq![train]);
    lemma_prices(trains, seq![train], 1);
    reveal_with_fuel(purchase_prices, 2);
}

/// Revenue is what pays access fees and fuel and leaves the result.
pub proof fn revenue_covers_costs_and_result(financials: Financials)
    ensures
        operating_result(financials) + financials.infrastructure_access_fees.cents
            + financials.fuel_costs.cents == financials.operating_revenue.cents,
        operating_costs(financials) == financials.infrastructure_access_fees.cents
            + financials.fuel_costs.cents,
{
}

/// A receipt's result is what its revenue leaves after access fee and fuel.
pub proof fn receipts_leave_what_is_not_spent(receipt: JourneyReceipt)
    ensures
        left_of(receipt) + receipt.infrastructure_access_fee.cents + receipt.fuel_cost.cents
            == receipt.revenue.cents,
        receipt_result(receipt) == left_of(receipt),
        receipt_costs(receipt) + receipt_result(receipt) == receipt.revenue.cents,
{
}

/// The margin is the result in tenths of a percent of revenue, rounded toward zero: signed
/// wherever a tenth is left, and not told where there is no revenue.
pub proof fn margins_measure_the_result(financials: Financials, tenths: int)
    requires
        financials.operating_revenue.cents != 0,
        tenths >= 0,
        tenths * magnitude(financials.operating_revenue.cents as int) <= 1_000 * magnitude(
            financials.operating_revenue.cents - financials.infrastructure_access_fees.cents
                - financials.fuel_costs.cents,
        ) < (tenths + 1) * magnitude(financials.operating_revenue.cents as int),
    ensures
        tenths == 0 ==> margin_text(financials) == ""@ + decimal(0) + "."@ + decimal(0) + "%"@,
        tenths > 0 && financials.operating_revenue.cents > 0
            && financials.infrastructure_access_fees.cents + financials.fuel_costs.cents
            > financials.operating_revenue.cents ==> margin_text(financials) == "-"@ + decimal(
            (tenths / 10) as nat,
        ) + "."@ + decimal((tenths % 10) as nat) + "%"@,
        tenths > 0 && financials.operating_revenue.cents > 0
            && financials.infrastructure_access_fees.cents + financials.fuel_costs.cents
            <= financials.operating_revenue.cents ==> margin_text(financials) == "+"@ + decimal(
            (tenths / 10) as nat,
        ) + "."@ + decimal((tenths % 10) as nat) + "%"@,
{
    let revenue = magnitude(financials.operating_revenue.cents as int) as int;
    let result = magnitude(operating_result(financials)) as int;
    assert(result * 1_000 / revenue == tenths) by (nonlinear_arith)
        requires
            revenue > 0,
            tenths * revenue <= 1_000 * result < (tenths + 1) * revenue,
    ;
}

pub proof fn no_margin_without_revenue(financials: Financials)
    ensures
        (margin_text(financials) == "—"@) == (financials.operating_revenue.cents == 0),
{
    if financials.operating_revenue.cents != 0 {
        reveal_strlit("—");
        let text = margin_text(financials);
        reveal_strlit("%");
        assert(text.last() == '%');
        assert("—"@.last() == '—');
    }
}

proof fn lemma_running(
    services: Seq<PassengerService>,
    service: PassengerService,
    journeys: Seq<Journey>,
    count: int,
)
    requires
        0 <= count <= services.len(),
    ensures
        running(services.push(service), journeys, count) == running(services, journeys, count),
    decreases count,
{
    if count > 0 {
        lemma_running(services, service, journeys, count - 1);
        assert(services.push(service)[count - 1] == services[count - 1]);
    }
}

/// A service counts as active exactly if a Journey under way is one of its own.
pub proof fn active_services_have_journeys(
    before: GameState,
    after: GameState,
    service: PassengerService,
)
    requires
        after.player_company.passenger_services@ == before.player_company.passenger_services@.push(
            service,
        ),
        after.active_journeys@ == before.active_journeys@,
    ensures
        before.player_company.passenger_services@.len() == 0 ==> active_services(before) == 0,
        (exists|i: int|
            0 <= i < after.active_journeys@.len() && (#[trigger] after.active_journeys@[i]).service_id
                == service.id) ==> active_services(after) == active_services(before) + 1,
        (forall|i: int|
            0 <= i < after.active_journeys@.len() ==> (
            #[trigger] after.active_journeys@[i]).service_id != service.id) ==> active_services(
            after,
        ) == active_services(before),
{
    let services = before.player_company.passenger_services@;
    lemma_running(services, service, after.active_journeys@, services.len() as int);
    assert(services.push(service)[services.len() as int] == service);
}

/// A settlement is connected exactly if a station stands in it.
pub proof fn connected_settlements_have_stations(state: GameState, settlement: SettlementId)
    ensures
        connected_settlements(state).contains(settlement) <==> exists|i: int|
            0 <= i < state.region.rail_authority.rail_network.rail_stations@.len() && (
            #[trigger] state.region.rail_authority.rail_network.rail_stations@[i]).settlement_id
                == settlement,
{
    let stations = state.region.rail_authority.rail_network.rail_stations@;
    let places = station_settlements(stations);
    if connected_settlements(state).contains(settlement) {
        let i = choose|i: int| 0 <= i < places.len() && places[i] == settlement;
        assert(stations[i].settlement_id == settlement);
    }
    if exists|i: int|
        0 <= i < stations.len() && (#[trigger] stations[i]).settlement_id == settlement {
        let i = choose|i: int|
            0 <= i < stations.len() && (#[trigger] stations[i]).settlement_id == settlement;
        assert(places[i] == settlement);
    }
}

proof fn lemma_stop_settlements(
    stops: Seq<RailStationId>,
    stations: Seq<RailStation>,
    count: int,
    settlement: SettlementId,
)
    requires
        0 <= count <= stops.len(),
    ensures
        stop_settlements(stops, stations, count).contains(settlement) <==> exists|j: int|
            0 <= j < count && station_settlement(stations, #[trigger] stops[j]) == Some(settlement),
    decreases count,
{
    if count > 0 {
        lemma_stop_settlements(stops, stations, count - 1, settlement);
        assert(stops[count - 1] == stops[count - 1]);
    }
}

proof fn lemma_served(
    services: Seq<PassengerService>,
    stations: Seq<RailStation>,
    count: int,
    settlement: SettlementId,
)
    requires
        0 <= count <= services.len(),
    ensures
        served_settlements(services, stations, count).contains(settlement) <==> exists|
            i: int,
            j: int,
        |
            0 <= i < count && 0 <= j < services[i].stop_station_ids@.len() && station_settlement(
                stations,
                #[trigger] services[i].stop_station_ids@[j],
            ) == Some(settlement),
    decreases count,
{
    if count > 0 {
        lemma_served(services, stations, count - 1, settlement);
        let stops = services[count - 1].stop_station_ids@;
        lemma_stop_settlements(stops, stations, stops.len() as int, settlement);
        if stop_settlements(stops, stations, stops.len() as int).contains(settlement) {
            let j = choose|j: int|
                0 <= j < stops.len() && station_settlement(stations, #[trigger] stops[j]) == Some(
                    settlement,
                );
            assert(station_settlement(stations, services[count - 1].stop_station_ids@[j]) == Some(
                settlement,
            ));
        }
    }
}

/// A settlement is served exactly if some service stops at its station.
pub proof fn served_settlements_have_stops(state: GameState, settlement: SettlementId)
    ensures
        company_settlements(state).contains(settlement) <==> exists|i: int, j: int|
            0 <= i < state.player_company.passenger_services@.len() && 0 <= j
                < state.player_company.passenger_services@[i].stop_station_ids@.len()
                && station_settlement(
                state.region.rail_authority.rail_network.rail_stations@,
                #[trigger] state.player_company.passenger_services@[i].stop_station_ids@[j],
            ) == Some(settlement),
{
    lemma_served(
        state.player_company.passenger_services@,
        state.region.rail_authority.rail_network.rail_stations@,
        state.player_company.passenger_services@.len() as int,
        settlement,
    );
}

/// Coverage tells both counts and the whole percent that the served ones are of the connected.
pub proof fn coverage_is_a_share(served: int, connected: int, percent: int)
    requires
        0 <= served,
        served * 100 <= usize::MAX,
        0 < connected,
        percent * connected <= served * 100 < (percent + 1) * connected,
    ensures
        coverage_text(served, connected) == decimal(served as nat) + " / "@ + decimal(
            connected as nat,
        ) + " · "@ + decimal(percent as nat) + "%"@,
        coverage_text(served, 0) == "—"@,
{
    assert(served * 100 / connected == percent) by (nonlinear_arith)
        requires
            connected > 0,
            percent * connected <= served * 100 < (percent + 1) * connected,
    ;
}

/// The dashboard looks back on the last twelve receipts, or on all where there are fewer.
pub proof fn recent_receipts_are_the_last(receipts: Seq<JourneyReceipt>, i: int)
    requires
        0 <= i < receipts.len(),
    ensures
        receipts.len() <= 12 ==> recent(receipts).len() == receipts.len(),
        receipts.len() > 12 ==> recent(receipts).len() == 12,
        i >= receipts.len() - 12 ==> recent(receipts)[i - (receipts.len() - recent(receipts).len())]
            == receipts[i],
{
}

proof fn lemma_totals(first: Seq<JourneyReceipt>, second: Seq<JourneyReceipt>)
    ensures
        total_revenue(first + second) == total_revenue(first) + total_revenue(second),
        total_costs(first + second) == total_costs(first) + total_costs(second),
        profitable(first + second) == profitable(first) + profitable(second),
        loss_making(first + second) == loss_making(first) + loss_making(second),
        total_passengers(first + second) == match (
            total_passengers(first),
            total_passengers(second),
        ) {
            (Some(a), Some(b)) => Some(a + b),
            _ => None::<int>,
        },
    decreases first.len(),
{
    if first.len() == 0 {
        assert(first + second =~= second);
    } else {
        lemma_totals(first.skip(1), second);
        assert((first + second).skip(1) =~= first.skip(1) + second);
        assert((first + second)[0] == first[0]);
    }
}

/// Recent performance adds up: the figures of receipts together are the sums of their figures.
pub proof fn performances_add_up(
    first: Seq<JourneyReceipt>,
    second: Seq<JourneyReceipt>,
    a: RecentJourneyPerformance,
    b: RecentJourneyPerformance,
    both: RecentJourneyPerformance,
)
    requires
        a.sums(first),
        b.sums(second),
        both.sums(first + second),
    ensures
        both.journey_count == a.journey_count + b.journey_count,
        both.revenue_cents == a.revenue_cents + b.revenue_cents,
        both.operating_costs_cents == a.operating_costs_cents + b.operating_costs_cents,
        both.result_cents == a.result_cents + b.result_cents,
        both.profitable_journeys == a.profitable_journeys + b.profitable_journeys,
        both.loss_making_journeys == a.loss_making_journeys + b.loss_making_journeys,
        both.passengers_carried is Some <==> a.passengers_carried is Some && b.passengers_carried
            is Some,
        both.passengers_carried is Some ==> both.passengers_carried->0 == a.passengers_carried->0
            + b.passengers_carried->0,
{
    lemma_totals(first, second);
}

/// The performance of a single Journey is its receipt.
pub proof fn one_receipt_is_its_performance(
    receipt: JourneyReceipt,
    figures: RecentJourneyPerformance,
)
    requires
        figures.sums(seq![receipt]),
    ensures
        figures.journey_count == 1,
        figures.revenue_cents == receipt.revenue.cents,
        figures.operating_costs_cents == receipt.infrastructure_access_fee.cents
            + receipt.fuel_cost.cents,
        figures.result_cents == receipt.revenue.cents - receipt.infrastructure_access_fee.cents
            - receipt.fuel_cost.cents,
        figures.profitable_journeys == 1 <==> receipt.revenue.cents
            > receipt.infrastructure_access_fee.cents + receipt.fuel_cost.cents,
        figures.loss_making_journeys == 1 <==> receipt.revenue.cents
            < receipt.infrastructure_access_fee.cents + receipt.fuel_cost.cents,
        figures.profitable_journeys <= 1,
        figures.loss_making_journeys <= 1,
        figures.passengers_carried is Some <==> receipt.passengers_carried is Some,
        receipt.passengers_carried is Some ==> figures.passengers_carried->0
            == receipt.passengers_carried->0,
{
    assert(seq![receipt].skip(1) =~= Seq::<JourneyReceipt>::empty());
    reveal_with_fuel(total_revenue, 2);
    reveal_with_fuel(total_costs, 2);
    reveal_with_fuel(profitable, 2);
    reveal_with_fuel(loss_making, 2);
    reveal_with_fuel(total_passengers, 2);
}

proof fn lemma_exposure(journeys: Seq<Journey>, journey: Journey, count: int)
    requires
        0 <= count <= journeys.len(),
    ensures
        uncredited(journeys.push(journey), count) == uncredited(journeys, count),
        on_board(journeys.push(journey), count) == on_board(journeys, count),
    decreases count,
{
    if count > 0 {
        lemma_exposure(journeys, journey, count - 1);
        assert(journeys.push(journey)[count - 1] == journeys[count - 1]);
    }
}

/// A Journey that departs adds its passengers on board, and the revenue that was booked for it
/// and not credited yet.
pub proof fn a_journey_adds_its_exposure(journeys: Seq<Journey>, journey: Journey)
    ensures
        uncredited(Seq::empty(), 0) == 0,
        on_board(Seq::empty(), 0) == 0,
        uncredited(journeys.push(journey), (journeys.len() + 1) as int) == uncredited(
            journeys,
            journeys.len() as int,
        ) + journey.operating_revenue.cents - journey.credited_revenue.cents,
        on_board(journeys.push(journey), (journeys.len() + 1) as int) == on_board(
            journeys,
            journeys.len() as int,
        ) + journey.onboard(),
{
    lemma_exposure(journeys, journey, journeys.len() as int);
    assert(journeys.push(journey)[journeys.len() as int] == journey);
}

proof fn lemma_group_passengers(
    groups: Seq<JourneyPassengerGroup>,
    group: JourneyPassengerGroup,
    count: int,
)
    requires
        0 <= count <= groups.len(),
    ensures
        group_passengers(groups.push(group), count) == group_passengers(groups, count),
    decreases count,
{
    if count > 0 {
        lemma_group_passengers(groups, group, count - 1);
        assert(groups.push(group)[count - 1] == groups[count - 1]);
    }
}

/// The passengers on board are those of all groups together: a group that boards adds its
/// number, as far as the unit goes.
pub proof fn a_group_adds_its_passengers(
    before: Journey,
    after: Journey,
    group: JourneyPassengerGroup,
)
    requires
        after.passenger_groups@ == before.passenger_groups@.push(group),
    ensures
        before.passenger_groups@.len() == 0 ==> before.onboard() == 0,
        before.onboard() + group.passengers < u32::MAX ==> after.onboard() == before.onboard()
            + group.passengers,
        before.onboard() + group.passengers >= u32::MAX ==> after.onboard() == u32::MAX,
{
    let groups = before.passenger_groups@;
    lemma_group_passengers(groups, group, groups.len() as int);
    assert(groups.push(group)[groups.len() as int] == group);
}

/// How long ago a Journey ended is told in its largest whole unit, in hours with their minutes.
pub proof fn ages_are_told_in_their_largest_unit(
    now: UtcSeconds,
    receipt: JourneyReceipt,
    days: int,
    hours: int,
    minutes: int,
    seconds: int,
)
    requires
        receipt.completed_at is Some,
        days >= 0,
        0 <= hours < 24,
        0 <= minutes < 60,
        0 <= seconds < 60,
        now.seconds - receipt.completed_at->0.seconds == 86_400 * days + 3_600 * hours + 60
            * minutes + seconds,
        now.seconds - receipt.completed_at->0.seconds <= i64::MAX,
    ensures
        days > 0 ==> journey_age(now, receipt) == decimal(days as nat) + "d ago"@,
        days == 0 && hours > 0 ==> journey_age(now, receipt) == decimal(hours as nat) + "h "@
            + decimal(minutes as nat) + "m ago"@,
        days == 0 && hours == 0 && minutes > 0 ==> journey_age(now, receipt) == decimal(
            minutes as nat,
        ) + "m ago"@,
        days == 0 && hours == 0 && minutes == 0 ==> journey_age(now, receipt) == "just now"@,
{
    let elapsed = seconds_until(now, receipt.completed_at->0);
    assert(elapsed == 86_400 * days + 3_600 * hours + 60 * minutes + seconds);
    if days > 0 {
        assert(elapsed / 86_400 == days);
    } else if hours > 0 {
        assert(elapsed / 3_600 == hours);
        assert((elapsed % 3_600) / 60 == minutes);
    } else {
        assert(elapsed / 60 == minutes);
    }
}

/// A letter that is typed joins the draft as a capital, and deleting takes it away again.
pub proof fn deleting_undoes_typing(editor: EditorView, letter: char)
    requires
        'a' <= letter <= 'z' || 'A' <= letter <= 'Z',
        editor.draft.len() < 5,
    ensures
        ({
            let typed = edited(editor, KeyCode::Char(letter));
            let deleted = edited(typed.0, KeyCode::Backspace);
            &&& typed.1 is Continue
            &&& typed.0.draft.len() == editor.draft.len() + 1
            &&& 'A' <= typed.0.draft.last() <= 'Z'
            &&& 'A' <= letter <= 'Z' ==> typed.0.draft.last() == letter
            &&& 'a' <= letter <= 'z' ==> typed.0.draft.last() as u32 + 32 == letter as u32
            &&& typed.0.error is None
            &&& deleted.0.draft == editor.draft
        }),
{
    let typed = edited(editor, KeyCode::Char(letter));
    assert(typed.0.draft.drop_last() =~= editor.draft);
}

/// Two to five capitals are confirmed as they are, anything else stays in the editor with a
/// reason, and leaving changes nothing.
pub proof fn drafts_are_confirmed_as_they_are(editor: EditorView)
    ensures
        2 <= editor.draft.len() <= 5 && (forall|i: int|
            0 <= i < editor.draft.len() ==> 'A' <= #[trigger] editor.draft[i] <= 'Z') ==> edited(
            editor,
            KeyCode::Enter,
        ) == (editor, EditorOutcome::Confirm(editor.draft)),
        editor.draft.len() < 2 || editor.draft.len() > 5 ==> edited(editor, KeyCode::Enter).1
            is Continue && edited(editor, KeyCode::Enter).0.error is Some && edited(
            editor,
            KeyCode::Enter,
        ).0.draft == editor.draft,
        edited(editor, KeyCode::Esc) == (editor, EditorOutcome::Cancel),
        editor.draft.len() >= 5 ==> edited(editor, KeyCode::Char('A')).0.draft == editor.draft,
        edited(editor, KeyCode::Char('1')).0.draft == editor.draft,
{
}

/// Routes are open only to an insolvent Company, and all that were found are.
pub proof fn routes_are_for_the_insolvent(outlook: CompanyOutlook)
    ensures
        outlook.evaluation matches Ok(evaluation) ==> {
            &&& evaluation.status is Insolvent ==> open_routes(outlook)
                == evaluation.recovery_options@
            &&& !(evaluation.status is Insolvent) ==> open_routes(outlook).len() == 0
        },
        outlook.evaluation is Err ==> open_routes(outlook).len() == 0,
{
}

/// A route without sales leads to the map, where it is dispatched; any other starts in the
/// Fleet, where Trains are sold.
pub proof fn routes_lead_to_their_first_step(option: RecoveryOption)
    ensures
        option is CashOnly <==> destination_of(option) is RegionMap,
        !(option is CashOnly) ==> destination_of(option) is Fleet,
        RecoveryDestination::Fleet.name() == "Fleet"@,
        RecoveryDestination::BuyTrains.name() == "Market"@,
        RecoveryDestination::RegionMap.name() == "Map"@,
{
}

/// The history is listed from the newest receipt to the oldest.
pub proof fn receipts_are_listed_newest_first(
    receipts: Seq<JourneyReceipt>,
    row: int,
    id: JourneyId,
)
    requires
        0 <= row < receipts.len(),
    ensures
        receipt_in(receipts, 0) == receipts.last(),
        receipt_in(receipts, receipts.len() - 1) == receipts[0],
        row + 1 < receipts.len() ==> receipt_in(receipts, row + 1) == receipts[receipts.len() - 2
            - row],
        receipt_in(receipts, row) == receipts[receipts.len() - 1 - row],
{
}

/// The state of the Company's finances has a name and a colour: all is well only while it
/// operates.
pub proof fn standings_have_their_names(status: FinancialStatus)
    ensures
        status is Operating ==> status_text(status) == "[OK] OPERATING"@,
        status is Insolvent ==> status_text(status) == "[!] INSOLVENT"@,
        status is BankruptcyDeferred ==> status_text(status)
            == "[~] SETTLEMENT PENDING"@,
        status is Bankruptcy ==> status_text(status) == "[X] BANKRUPT"@,
        status_tone(Some(status)).tone is Success <==> status is Operating,
        status_tone(Some(status)).tone is Error <==> status is Bankruptcy,
{
}

/// The text of the totals tells the Company's name, mark, funds, Fleet value, revenue, fees,
/// fuel and result, each on its own line.
pub proof fn totals_tell_each_figure(state: GameState)
    ensures
        ({
            let lines = totals(state);
            let financials = state.financials;
            &&& lines.len() == 10
            &&& lines[0] == state.player_company.name@
            &&& lines[1] == "Vehicle Keeper Mark (VKM): "@
                + state.player_company.vehicle_keeper_mark.mark@
            &&& lines[2] == "Company Funds: "@ + money_text(state.player_company.funds.cents as int)
            &&& lines[3] == "Fleet value: "@ + money_text(fleet_value(state))
                + " (original purchase prices)"@
            &&& lines[6] == "  Operating Revenue: "@ + money_text(
                financials.operating_revenue.cents as int,
            )
            &&& lines[7] == "  Infrastructure Access Fee: "@ + money_text(
                financials.infrastructure_access_fees.cents as int,
            )
            &&& lines[8] == "  Fuel Cost: "@ + money_text(financials.fuel_costs.cents as int)
            &&& lines[9] == "  Journey Profitability total: "@ + money_text(
                financials.operating_revenue.cents - financials.infrastructure_access_fees.cents
                    - financials.fuel_costs.cents,
            )
        }),
{
}

/// The small dashboard tells mark, Fleet value, services, coverage, revenue, costs, result and
/// margin, each behind its label.
pub proof fn the_small_dashboard_tells_each_figure(state: GameState)
    ensures
        ({
            let company = compact_company(state);
            let finances = compact_finances(state);
            let financials = state.financials;
            let costs = financials.infrastructure_access_fees.cents + financials.fuel_costs.cents;
            &&& company[1][1].0 == state.player_company.vehicle_keeper_mark.mark@
            &&& company[2][1].0 == money_text(fleet_value(state))
            &&& company[3][1].0 == decimal(state.player_company.passenger_services@.len()) + " · "@
                + decimal(active_services(state) as nat) + " active"@
            &&& company[4][1].0 == coverage_text(
                company_settlements(state).len() as int,
                connected_settlements(state).len() as int,
            ) + " places"@
            &&& finances[1][1].0 == money_text(financials.operating_revenue.cents as int)
            &&& finances[2][1].0 == money_text(costs)
            &&& finances[3][1].0 == signed_text(financials.operating_revenue.cents - costs)
            &&& finances[4][1].0 == margin_text(financials)
            &&& financials.operating_revenue.cents < costs ==> finances[3][1].1 == strong(
                Tone::Warning,
            )
            &&& financials.operating_revenue.cents >= costs ==> finances[3][1].1 == strong(
                Tone::Success,
            )
        }),
{
}

/// A receipt tells its route, Train and passengers, and its revenue, fees, fuel and result.
pub proof fn receipts_tell_each_figure(receipt: JourneyReceipt, region: Region)
    ensures
        ({
            let account = account_lines(receipt);
            let result = receipt.revenue.cents - receipt.infrastructure_access_fee.cents
                - receipt.fuel_cost.cents;
            &&& account.len() == 5
            &&& account[1][1].0 == money_text(receipt.revenue.cents as int)
            &&& account[2][1].0 == money_text(receipt.infrastructure_access_fee.cents as int)
            &&& account[3][1].0 == money_text(receipt.fuel_cost.cents as int)
            &&& account[4][1].0 == signed_text(result)
            &&& result < 0 ==> account[4][1].1 == strong(Tone::Warning)
            &&& result >= 0 ==> account[4][1].1 == strong(Tone::Success)
        }),
        receipt.passengers_carried is Some && receipt.passenger_capacity is Some
            ==> journey_passengers(receipt) == decimal(receipt.passengers_carried->0 as nat)
            + " boarded · "@ + decimal(receipt.passenger_capacity->0 as nat) + " seats"@,
        receipt.passengers_carried is None ==> journey_passengers(receipt) == "—"@,
        receipt.origin_station_id is Some && receipt.destination_station_id is Some
            ==> journey_route(region, receipt) == stop_name(
            region,
            receipt.origin_station_id->0,
        ) + " → "@ + stop_name(region, receipt.destination_station_id->0),
{
}

/// The cards of the dashboard tell what their titles say: the result with its sign, the
/// revenue, the costs, the margin, the Fleet, the services, the coverage and the cost mix.
pub proof fn cards_tell_their_figures(state: GameState)
    ensures
        ({
            let financials = state.financials;
            let costs = financials.infrastructure_access_fees.cents + financials.fuel_costs.cents;
            let services = state.player_company.passenger_services@.len();
            &&& result_page(state)[0][0].0 == signed_text(financials.operating_revenue.cents - costs)
            &&& revenue_page(state)[0][0].0 == money_text(financials.operating_revenue.cents as int)
            &&& costs_page(state)[0][0].0 == money_text(costs)
            &&& margin_page(state)[0][0].0 == margin_text(financials)
            &&& fleet_page(state)[1][0].0 == decimal(state.player_company.fleet.trains@.len())
                + " trains"@
            &&& fleet_page(state)[2][1].0 == money_text(fleet_value(state))
            &&& service_page(state)[1][0].0 == decimal(active_services(state) as nat) + " / "@
                + decimal(services) + " active"@
            &&& service_page(state)[2][1].0 == decimal((services - active_services(state)) as nat)
            &&& network_page(state)[1][0].0 == decimal(company_settlements(state).len()) + " / "@
                + decimal(connected_settlements(state).len()) + " served"@
            &&& cost_page(state)[1][1].0 == money_text(
                financials.infrastructure_access_fees.cents as int,
            )
            &&& cost_page(state)[2][1].0 == money_text(financials.fuel_costs.cents as int)
        }),
{
}

/// On the dashboard a key opens what it is for: the editor with the present mark, the review
/// where routes are open, and the details where there are receipts.
pub proof fn keys_open_what_they_are_for(
    workspace: CompanyView,
    state: GameState,
    outlook: CompanyOutlook,
)
    requires
        workspace.editor is None,
        !workspace.review,
        !workspace.details,
    ensures
        ({
            let edit = company_pressed(workspace, KeyCode::Char('v'), state, outlook);
            let review = company_pressed(workspace, KeyCode::Char('r'), state, outlook);
            let details = company_pressed(workspace, KeyCode::Enter, state, outlook);
            &&& edit.0.editor is Some && edit.0.editor->0.draft
                == state.player_company.vehicle_keeper_mark.mark@ && edit.0.editor->0.error is None
            &&& review.0.review <==> open_routes(outlook).len() > 0
            &&& details.0.details <==> state.financials.recent_journey_receipts@.len() > 0
            &&& company_pressed(workspace, KeyCode::Char('V'), state, outlook) == edit
            &&& company_pressed(workspace, KeyCode::Char('R'), state, outlook) == review
        }),
{
}

/// What is open is closed by leaving it, and nothing else changes.
pub proof fn leaving_closes_what_is_open(
    workspace: CompanyView,
    state: GameState,
    outlook: CompanyOutlook,
)
    ensures
        workspace.editor is Some ==> company_pressed(workspace, KeyCode::Esc, state, outlook).0 == (
        CompanyView { editor: None, ..workspace }),
        workspace.editor is None && workspace.review ==> company_pressed(
            workspace,
            KeyCode::Esc,
            state,
            outlook,
        ).0 == (CompanyView { review: false, ..workspace }),
        workspace.editor is None && !workspace.review && workspace.details ==> company_pressed(
            workspace,
            KeyCode::Esc,
            state,
            outlook,
        ).0 == (CompanyView { details: false, ..workspace }),
{
}

/// A confirmed mark is handed on as it was typed, and the editor stays until it is saved.
pub proof fn confirmed_marks_are_handed_on(
    workspace: CompanyView,
    state: GameState,
    outlook: CompanyOutlook,
)
    requires
        workspace.editor is Some,
        2 <= workspace.editor->0.draft.len() <= 5,
        forall|i: int|
            0 <= i < workspace.editor->0.draft.len() ==> 'A'
                <= #[trigger] workspace.editor->0.draft[i] <= 'Z',
    ensures
        company_pressed(workspace, KeyCode::Enter, state, outlook).1 == CompanyOutcome::UpdateVkm(
            workspace.editor->0.draft,
        ),
        company_pressed(workspace, KeyCode::Enter, state, outlook).0.editor is Some,
{
}

/// Confirming a route leads to its first step and closes the review.
pub proof fn confirmed_routes_are_followed(
    workspace: CompanyView,
    state: GameState,
    outlook: CompanyOutlook,
    row: usize,
)
    requires
        workspace.editor is None,
        workspace.review,
        workspace.routes.list.selected == Some(row),
        row < open_routes(outlook).len(),
    ensures
        ({
            let next = company_pressed(workspace, KeyCode::Enter, state, outlook);
            &&& !next.0.review
            &&& open_routes(outlook)[row as int] is CashOnly ==> next.1 == CompanyOutcome::Navigate(
                RecoveryDestination::RegionMap,
            )
            &&& !(open_routes(outlook)[row as int] is CashOnly) ==> next.1
                == CompanyOutcome::Navigate(RecoveryDestination::Fleet)
        }),
{
}

/// A route tells its Trains, its proceeds and its Journey.
pub proof fn routes_tell_what_they_take(
    region: Region,
    catalogue: TrainCatalogue,
    option: RecoveryOption,
)
    ensures
        option matches RecoveryOption::CashOnly { journey } ==> option_text(
            region,
            catalogue,
            option,
        ) == "Dispatch "@ + journey_text(region, journey),
        option matches RecoveryOption::SellOthersAndRetain {
            retained_train_id,
            sold_train_ids,
            resale_proceeds,
            journey,
        } ==> option_text(region, catalogue, option) == "Keep Train "@ + train_number(
            retained_train_id,
        ) + "; sell "@ + train_list(sold_train_ids@) + " for "@ + money_text(
            resale_proceeds.cents as int,
        ) + "; then dispatch "@ + journey_text(region, journey),
        option matches RecoveryOption::SellAllAndRebuy {
            sold_train_ids,
            resale_proceeds,
            catalogue_index,
            delivery_station_id,
            journey,
        } ==> option_text(region, catalogue, option) == "Sell "@ + train_list(sold_train_ids@)
            + " for "@ + money_text(resale_proceeds.cents as int) + "; buy "@ + model_name(
            catalogue,
            catalogue_index,
        ) + " at "@ + stop_name(region, delivery_station_id) + "; then dispatch "@ + journey_text(
            region,
            journey,
        ),
        catalogue.models@.len() > 0 ==> model_name(catalogue, 0) == catalogue.models@[0].name@,
{
}

/// A recovery Journey tells its Train, its way and its cost.
pub proof fn recovery_journeys_tell_their_way(region: Region, journey: RecoveryJourney)
    ensures
        journey_text(region, journey) == "Train "@ + train_number(journey.train_id) + " "@ + (
        "from "@ + stop_name(region, journey.origin_station_id) + " to "@ + stop_name(
            region,
            journey.destination_station_id,
        )) + " for "@ + money_text(journey.operating_cost.cents as int) + "."@,
        train_number(journey.train_id) == decimal(
            display_number(journey.train_id.value) as nat,
        ),
{
}

/// A stop is named after the settlement of its station.
pub proof fn stops_are_named_after_their_settlement(
    region: Region,
    id: RailStationId,
    settlement: SettlementId,
    i: int,
)
    requires
        station_settlement(region.rail_authority.rail_network.rail_stations@, id) == Some(
            settlement,
        ),
        0 <= i < region.settlements@.len(),
        region.settlements@[i].id == settlement,
        forall|j: int| 0 <= j < i ==> (#[trigger] region.settlements@[j]).id != settlement,
    ensures
        stop_name(region, id) == region.settlements@[i].name@,
{
    lemma_place(region.settlements@, settlement, i);
}

proof fn lemma_place(settlements: Seq<Settlement>, id: SettlementId, i: int)
    requires
        0 <= i < settlements.len(),
        settlements[i].id == id,
        forall|j: int| 0 <= j < i ==> (#[trigger] settlements[j]).id != id,
    ensures
        place_name(settlements, id) == settlements[i].name@,
    decreases settlements.len(),
{
    if i > 0 {
        let rest = settlements.skip(1);
        assert(settlements[0].id != id);
        assert(rest[i - 1] == settlements[i]);
        assert forall|j: int| 0 <= j < i - 1 implies (#[trigger] rest[j]).id != id by {
            assert(rest[j] == settlements[j + 1]);
        }
        lemma_place(rest, id, i - 1);
    }
}

/// A receipt's Train reads as its number and model, as far as both are known.
pub proof fn receipts_name_their_train(receipt: JourneyReceipt)
    ensures
        receipt.train_id is Some && receipt.train_model_name is Some ==> journey_train(receipt)
            == "T"@ + train_number(receipt.train_id->0) + " · "@ + receipt.train_model_name->0@,
        receipt.train_id is None && receipt.train_model_name is None ==> journey_train(receipt)
            == "—"@,
{
}

/// The table of receipts lists the newest first, each with its number, route, Train, passengers,
/// age and result.
pub proof fn the_history_lists_each_receipt(state: GameState, row: int)
    requires
        0 <= row < state.financials.recent_journey_receipts@.len(),
    ensures
        ({
            let receipts = state.financials.recent_journey_receipts@;
            let receipt = receipts[receipts.len() - 1 - row];
            let cells = receipt_table(state, true)[row].0;
            let result = receipt.revenue.cents - receipt.infrastructure_access_fee.cents
                - receipt.fuel_cost.cents;
            &&& receipt_table(state, true).len() == receipts.len()
            &&& cells[1].0 == journey_route(state.region, receipt)
            &&& cells[2].0 == journey_train(receipt)
            &&& cells[3].0 == journey_passengers(receipt)
            &&& cells[4].0 == journey_age(state.last_processed_at, receipt)
            &&& cells[5].0 == signed_text(result)
        }),
{
}

/// A Journey that departs adds one to the Journeys under way, its passengers to those on board,
/// and what is booked and not credited to the revenue in transit.
pub proof fn exposure_adds_up(
    journeys: Seq<Journey>,
    journey: Journey,
    before: ActiveJourneyExposure,
    after: ActiveJourneyExposure,
)
    requires
        before.sums(journeys),
        after.sums(journeys.push(journey)),
    ensures
        after.journey_count == before.journey_count + 1,
        after.revenue_in_transit_cents == before.revenue_in_transit_cents
            + journey.operating_revenue.cents - journey.credited_revenue.cents,
        before.onboard_passengers + journey.onboard() < u64::MAX ==> after.onboard_passengers
            == before.onboard_passengers + journey.onboard(),
        journeys.len() == 0 ==> before.onboard_passengers == 0 && before.revenue_in_transit_cents
            == 0,
{
    a_journey_adds_its_exposure(journeys, journey);
    lemma_nobody(journey.passenger_groups@, journey.passenger_groups@.len() as int);
}

proof fn lemma_nobody(groups: Seq<JourneyPassengerGroup>, count: int)
    ensures
        group_passengers(groups, count) >= 0,
    decreases count,
{
    if count > 0 {
        lemma_nobody(groups, count - 1);
    }
}

/// A larger area never gets a smaller layout, and the widest needs a hundred columns and twenty
/// rows.
pub proof fn larger_areas_show_more(area: Rect, larger: Rect)
    requires
        area.width <= larger.width,
        area.height <= larger.height,
    ensures
        layout_of(area) is Wide ==> layout_of(larger) is Wide,
        layout_of(area) is Compact ==> !(layout_of(larger) is Tiny),
        layout_of(area) is Wide <==> area.width >= 100 && area.height >= 20,
        layout_of(area) is Tiny <==> area.width < 76 || area.height < 12,
{
}

/// Every figure stands behind its own label.
pub proof fn figures_stand_behind_their_labels(state: GameState, receipt: JourneyReceipt)
    ensures
        cost_page(state)[1][0].0 == padded_right("Access"@, 14),
        cost_page(state)[2][0].0 == padded_right("Fuel"@, 14),
        fleet_page(state)[2][0].0 == "Fleet value  "@,
        service_page(state)[2][0].0 == "Idle  "@,
        compact_company(state)[1][0].0 == padded_right("VKM"@, 14),
        compact_company(state)[2][0].0 == padded_right("Fleet value"@, 14),
        compact_company(state)[3][0].0 == padded_right("Services"@, 14),
        compact_company(state)[4][0].0 == padded_right("Coverage"@, 14),
        compact_finances(state)[1][0].0 == padded_right("Revenue"@, 14),
        compact_finances(state)[2][0].0 == padded_right("Operating costs"@, 14),
        compact_finances(state)[3][0].0 == padded_right("Operating result"@, 14),
        compact_finances(state)[4][0].0 == padded_right("Margin"@, 14),
        account_lines(receipt)[1][0].0 == padded_right("Revenue"@, 20),
        account_lines(receipt)[2][0].0 == padded_right("Access fees"@, 20),
        account_lines(receipt)[3][0].0 == padded_right("Fuel"@, 20),
        account_lines(receipt)[4][0].0 == padded_right("Result"@, 20),
{
}

/// The list of routes numbers them from one, each in a few words.
pub proof fn routes_are_numbered_from_one(region: Region, outlook: CompanyOutlook, i: int)
    requires
        0 <= i < open_routes(outlook).len(),
    ensures
        route_list(region, outlook).len() == open_routes(outlook).len(),
        route_list(region, outlook)[i][0].0 == padded_left(decimal((i + 1) as nat), 2, ' ') + ". "@
            + route_text(region, outlook.catalogue, open_routes(outlook)[i]),
{
}

/// A selected receipt is followed to its row, and keys move from there.
pub proof fn receipts_are_followed(
    selection: ReceiptSelection,
    receipts: Seq<JourneyReceipt>,
    row: int,
)
    requires
        0 <= row < receipts.len() <= usize::MAX,
        selection.focus == Some(receipts[receipts.len() - 1 - row].journey_id),
        forall|k: int|
            receipts.len() - 1 - row < k < receipts.len() ==> (#[trigger] receipts[k]).journey_id
                != receipts[receipts.len() - 1 - row].journey_id,
    ensures
        receipt_synchronized(selection, receipts).table.selected == Some(row as usize),
        receipt_synchronized(selection, receipts).focus == selection.focus,
{
    lemma_row(receipts, selection.focus->0, 0, row);
}

proof fn lemma_row(receipts: Seq<JourneyReceipt>, id: JourneyId, from: int, row: int)
    requires
        0 <= from <= row < receipts.len(),
        receipts[receipts.len() - 1 - row].journey_id == id,
        forall|k: int|
            receipts.len() - 1 - row < k <= receipts.len() - 1 - from ==> (
            #[trigger] receipts[k]).journey_id != id,
    ensures
        row_of_journey(receipts, id, from) == Some(row),
    decreases row - from,
{
    if from < row {
        assert(receipts[receipts.len() - 1 - from].journey_id != id);
        lemma_row(receipts, id, from + 1, row);
    }
}

} // verus!
