//! The Company's figures.

use vstd::prelude::*;
use vstd::string::StringExecFns;

use crate::model::company::{Financials, Journey, PassengerService, Train};
use crate::model::ids::{RailStationId, SettlementId};
use crate::model::network::RailStation;
use crate::model::state::GameState;
use crate::model::units::Money;
use crate::text::{decimal, decimal_text, wide_decimal_text};
use crate::ui::format::magnitude;
use crate::ui::places::{find_station_settlement, station_settlement};
use crate::ui::style::{strong, Style, Tone};

verus! {

/// What is left of revenue after access fees and fuel.
pub open spec fn result_of(revenue: Money, access: Money, fuel: Money) -> int {
    revenue.cents - access.cents - fuel.cents
}

pub fn result_cents(revenue: Money, access: Money, fuel: Money) -> (result: i128)
    ensures
        result == result_of(revenue, access, fuel),
        -0x2_0000_0000_0000_0000 <= result <= 0x2_0000_0000_0000_0000,
{
    revenue.cents as i128 - access.cents as i128 - fuel.cents as i128
}

/// The Company's result so far.
pub open spec fn operating_result(financials: Financials) -> int {
    result_of(
        financials.operating_revenue,
        financials.infrastructure_access_fees,
        financials.fuel_costs,
    )
}

pub fn operating_result_cents(financials: &Financials) -> (result: i128)
    ensures
        result == operating_result(*financials),
        -0x2_0000_0000_0000_0000 <= result <= 0x2_0000_0000_0000_0000,
{
    result_cents(
        financials.operating_revenue,
        financials.infrastructure_access_fees,
        financials.fuel_costs,
    )
}

/// The Company's costs so far.
pub open spec fn operating_costs(financials: Financials) -> int {
    financials.infrastructure_access_fees.cents + financials.fuel_costs.cents
}

pub fn operating_costs_cents(financials: &Financials) -> (result: i128)
    ensures
        result == operating_costs(*financials),
        -0x2_0000_0000_0000_0000 <= result <= 0x2_0000_0000_0000_0000,
{
    financials.infrastructure_access_fees.cents as i128 + financials.fuel_costs.cents as i128
}

/// The prices of the first `count` Trains.
pub open spec fn purchase_prices(trains: Seq<Train>, count: int) -> int
    decreases count,
{
    if count <= 0 {
        0
    } else {
        purchase_prices(trains, count - 1) + trains[count - 1].original_purchase_price.cents
    }
}

/// What the Fleet cost.
pub open spec fn fleet_value(state: GameState) -> int {
    let trains = state.player_company.fleet.trains@;
    purchase_prices(trains, trains.len() as int)
}

pub fn fleet_value_cents(state: &GameState) -> (result: i128)
    ensures
        result == fleet_value(*state),
        result > i128::MIN,
{
    let trains = &state.player_company.fleet.trains;
    let length: usize = trains.len();
    let mut total: i128 = 0;
    let mut i: usize = 0;
    while i < length
        invariant
            i <= length,
            length == trains@.len(),
            total == purchase_prices(trains@, i as int),
            -0x8000_0000_0000_0000 * i <= total <= 0x8000_0000_0000_0000 * i,
        decreases length - i,
    {
        total = total + trains[i].original_purchase_price.cents as i128;
        i += 1;
    }
    total
}

/// A result in the tone of profit or loss.
pub open spec fn result_tone(result: int) -> Style {
    if result < 0 {
        strong(Tone::Warning)
    } else {
        strong(Tone::Success)
    }
}

pub fn result_style(result: i128) -> (style: Style)
    ensures
        style == result_tone(result as int),
{
    if result < 0 {
        Style::strong(Tone::Warning)
    } else {
        Style::strong(Tone::Success)
    }
}

/// The result as a share of revenue in tenths of a percent, rounded toward zero.
pub open spec fn margin_text(financials: Financials) -> Seq<char> {
    let result = operating_result(financials);
    let revenue = financials.operating_revenue.cents as int;
    let tenths = magnitude(result) * 1_000 / magnitude(revenue);
    let sign = if tenths == 0 {
        ""@
    } else if (result < 0) == (revenue < 0) {
        "+"@
    } else {
        "-"@
    };
    if revenue == 0 {
        "—"@
    } else {
        sign + decimal(tenths / 10) + "."@ + decimal(tenths % 10) + "%"@
    }
}

fn absolute(value: i128) -> (result: u128)
    requires
        value > i128::MIN,
    ensures
        result == magnitude(value as int),
{
    if value < 0 {
        (-value) as u128
    } else {
        value as u128
    }
}

pub fn operating_margin_label(financials: &Financials) -> (result: String)
    ensures
        result@ == margin_text(*financials),
{
    let revenue: i128 = financials.operating_revenue.cents as i128;
    if revenue == 0 {
        return "—".to_owned();
    }
    let earned: i128 = operating_result_cents(financials);
    let tenths: u128 = absolute(earned) * 1_000 / absolute(revenue);
    let sign = if tenths == 0 {
        ""
    } else if (earned < 0) == (revenue < 0) {
        "+"
    } else {
        "-"
    };
    let whole = wide_decimal_text(tenths / 10);
    let rest = wide_decimal_text(tenths % 10);
    sign.to_owned().concat(whole.as_str()).concat(".").concat(rest.as_str()).concat("%")
}

/// Whether one of the Journeys under way runs a service.
pub open spec fn runs(journeys: Seq<Journey>, service: PassengerService) -> bool {
    exists|i: int| 0 <= i < journeys.len() && (#[trigger] journeys[i]).service_id == service.id
}

fn is_running(journeys: &Vec<Journey>, service: &PassengerService) -> (result: bool)
    ensures
        result == runs(journeys@, *service),
{
    let mut i: usize = 0;
    while i < journeys.len()
        invariant
            i <= journeys@.len(),
            forall|j: int| 0 <= j < i ==> (#[trigger] journeys@[j]).service_id != service.id,
        decreases journeys.len() - i,
    {
        if journeys[i].service_id == service.id {
            assert(journeys@[i as int].service_id == service.id);
            return true;
        }
        i += 1;
    }
    false
}

/// How many of the first `count` services run.
pub open spec fn running(
    services: Seq<PassengerService>,
    journeys: Seq<Journey>,
    count: int,
) -> int
    decreases count,
{
    if count <= 0 {
        0
    } else {
        running(services, journeys, count - 1) + if runs(journeys, services[count - 1]) {
            1int
        } else {
            0
        }
    }
}

pub open spec fn active_services(state: GameState) -> int {
    let services = state.player_company.passenger_services@;
    running(services, state.active_journeys@, services.len() as int)
}

pub fn active_service_count(state: &GameState) -> (result: usize)
    ensures
        result == active_services(*state),
        result <= state.player_company.passenger_services@.len(),
{
    let services = &state.player_company.passenger_services;
    let mut count: usize = 0;
    let mut i: usize = 0;
    while i < services.len()
        invariant
            i <= services@.len(),
            services@ == state.player_company.passenger_services@,
            count == running(services@, state.active_journeys@, i as int),
            count <= i,
        decreases services.len() - i,
    {
        if is_running(&state.active_journeys, &services[i]) {
            count += 1;
        }
        i += 1;
    }
    count
}

/// The settlements of stations.
pub open spec fn station_settlements(stations: Seq<RailStation>) -> Seq<SettlementId> {
    Seq::new(stations.len(), |i: int| stations[i].settlement_id)
}

/// The settlements where the first `count` stops are.
pub open spec fn stop_settlements(
    stops: Seq<RailStationId>,
    stations: Seq<RailStation>,
    count: int,
) -> Set<SettlementId>
    decreases count,
{
    if count <= 0 {
        Set::empty()
    } else {
        match station_settlement(stations, stops[count - 1]) {
            Some(settlement) => stop_settlements(stops, stations, count - 1).insert(settlement),
            None => stop_settlements(stops, stations, count - 1),
        }
    }
}

/// The settlements where the first `count` services stop.
pub open spec fn served_settlements(
    services: Seq<PassengerService>,
    stations: Seq<RailStation>,
    count: int,
) -> Set<SettlementId>
    decreases count,
{
    if count <= 0 {
        Set::empty()
    } else {
        let stops = services[count - 1].stop_station_ids@;
        served_settlements(services, stations, count - 1).union(
            stop_settlements(stops, stations, stops.len() as int),
        )
    }
}

/// Adds a settlement to a list unless it is there.
fn insert_settlement(found: &mut Vec<SettlementId>, settlement: SettlementId)
    requires
        old(found)@.no_duplicates(),
    ensures
        final(found)@.no_duplicates(),
        final(found)@.to_set() == old(found)@.to_set().insert(settlement),
{
    let ghost before = found@;
    let mut i: usize = 0;
    while i < found.len()
        invariant
            i <= found@.len(),
            found@ == before,
            before.no_duplicates(),
            forall|j: int| 0 <= j < i ==> #[trigger] before[j] != settlement,
        decreases found.len() - i,
    {
        if found[i] == settlement {
            assert(before.to_set().contains(before[i as int]));
            assert(before.to_set().insert(settlement) =~= before.to_set());
            return;
        }
        i += 1;
    }
    found.push(settlement);
    proof {
        let after = found@;
        assert(after.to_set() =~= before.to_set().insert(settlement)) by {
            assert forall|x: SettlementId| after.to_set().contains(x) == before.to_set().insert(
                settlement,
            ).contains(x) by {
                if after.contains(x) && x != settlement {
                    let k = choose|k: int| 0 <= k < after.len() && after[k] == x;
                    assert(before[k] == x);
                }
                if before.contains(x) {
                    let k = choose|k: int| 0 <= k < before.len() && before[k] == x;
                    assert(after[k] == x);
                }
                if x == settlement {
                    assert(after[after.len() - 1] == x);
                }
            }
        }
    }
}

pub open spec fn connected_settlements(state: GameState) -> Set<SettlementId> {
    station_settlements(state.region.rail_authority.rail_network.rail_stations@).to_set()
}

/// How many settlements the network reaches.
pub fn connected_settlement_count(state: &GameState) -> (result: usize)
    ensures
        result == connected_settlements(*state).len(),
{
    let stations = &state.region.rail_authority.rail_network.rail_stations;
    let ghost all = station_settlements(stations@);
    let mut found: Vec<SettlementId> = Vec::new();
    let mut i: usize = 0;
    assert(found@.to_set() =~= all.take(0).to_set());
    while i < stations.len()
        invariant
            i <= stations@.len(),
            all == station_settlements(stations@),
            found@.no_duplicates(),
            found@.to_set() == all.take(i as int).to_set(),
        decreases stations.len() - i,
    {
        insert_settlement(&mut found, stations[i].settlement_id);
        proof {
            let next = all.take(i + 1);
            assert(next =~= all.take(i as int).push(stations@[i as int].settlement_id));
            assert(next.to_set() =~= all.take(i as int).to_set().insert(
                stations@[i as int].settlement_id,
            )) by {
                assert forall|x: SettlementId| next.to_set().contains(x) == all.take(
                    i as int,
                ).to_set().insert(stations@[i as int].settlement_id).contains(x) by {
                    if next.contains(x) && x != stations@[i as int].settlement_id {
                        let k = choose|k: int| 0 <= k < next.len() && next[k] == x;
                        assert(all.take(i as int)[k] == x);
                    }
                    if all.take(i as int).contains(x) {
                        let k = choose|k: int| 0 <= k < i && all.take(i as int)[k] == x;
                        assert(next[k] == x);
                    }
                    if x == stations@[i as int].settlement_id {
                        assert(next[i as int] == x);
                    }
                }
            }
        }
        i += 1;
    }
    proof {
        assert(all.take(all.len() as int) =~= all);
        found@.unique_seq_to_set();
    }
    found.len()
}

pub open spec fn company_settlements(state: GameState) -> Set<SettlementId> {
    served_settlements(
        state.player_company.passenger_services@,
        state.region.rail_authority.rail_network.rail_stations@,
        state.player_company.passenger_services@.len() as int,
    )
}

/// How many settlements the Company's services stop at.
pub fn served_settlement_count(state: &GameState) -> (result: usize)
    ensures
        result == company_settlements(*state).len(),
{
    let stations = &state.region.rail_authority.rail_network.rail_stations;
    let services = &state.player_company.passenger_services;
    let mut found: Vec<SettlementId> = Vec::new();
    let mut i: usize = 0;
    assert(found@.to_set() =~= Set::<SettlementId>::empty());
    while i < services.len()
        invariant
            i <= services@.len(),
            found@.no_duplicates(),
            found@.to_set() == served_settlements(services@, stations@, i as int),
        decreases services.len() - i,
    {
        let stops = &services[i].stop_station_ids;
        let ghost before = found@.to_set();
        let mut j: usize = 0;
        assert(before.union(Set::<SettlementId>::empty()) =~= before);
        while j < stops.len()
            invariant
                j <= stops@.len(),
                found@.no_duplicates(),
                found@.to_set() == before.union(stop_settlements(stops@, stations@, j as int)),
            decreases stops.len() - j,
        {
            let ghost reached = stop_settlements(stops@, stations@, j as int);
            if let Some(settlement) = find_station_settlement(stations, stops[j]) {
                insert_settlement(&mut found, settlement);
                assert(before.union(reached).insert(settlement) =~= before.union(
                    reached.insert(settlement),
                ));
            }
            j += 1;
        }
        i += 1;
    }
    proof {
        found@.unique_seq_to_set();
    }
    found.len()
}

/// The share of connected settlements that are served.
pub open spec fn coverage_text(served: int, connected: int) -> Seq<char> {
    let percent: int = if served * 100 <= usize::MAX {
        served * 100 / connected
    } else {
        usize::MAX as int / connected
    };
    if connected == 0 {
        "—"@
    } else {
        decimal(served as nat) + " / "@ + decimal(connected as nat) + " · "@ + decimal(
            percent as nat,
        ) + "%"@
    }
}

pub fn settlement_coverage_label(served: usize, connected: usize) -> (result: String)
    ensures
        result@ == coverage_text(served as int, connected as int),
{
    if connected == 0 {
        return "—".to_owned();
    }
    let hundred: usize = if served <= usize::MAX / 100 {
        served * 100
    } else {
        usize::MAX
    };
    let share = decimal_text((hundred / connected) as u64);
    let whole = decimal_text(connected as u64);
    decimal_text(served as u64).concat(" / ").concat(whole.as_str()).concat(" · ").concat(
        share.as_str(),
    ).concat("%")
}

} // verus!
