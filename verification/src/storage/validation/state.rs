//! Validation of a whole game, and what every valid game keeps.

use vstd::prelude::*;

use super::fault::{check_identities, identity_fault, outcome, repeats, SaveValidationError};
use super::journeys::{
    assignments_fault, collect_journey_values, collect_service_values, collect_train_values,
    journey_values, journeys_fault, lemma_no_journey_fault, sequences_fault, service_values,
    train_fault, train_values, trains_fault, validate_journeys, validate_sequences,
    validate_service_assignments, validate_train_statuses,
};
use super::network::{
    finances_fault, lines_fault, registration_fault, rules_fault, settlements_fault,
    stations_fault, validate_lines, validate_rail_authority_finances, validate_registration,
    validate_rules, validate_settlements, validate_stations,
};
use super::projects::{projects_fault, validate_infrastructure_projects};
use super::services::{
    demand_fault, financials_fault, services_fault, validate_demand, validate_financials,
    validate_services,
};
use crate::model::company::{
    has_journey, has_train, is_train_at, the_train, Journey, Train, TrainStatus,
};
use crate::model::facts::SimulationFacts;
use crate::model::state::GameState;

verus! {

/// The first thing that is wrong with the Region and its Rail Network.
pub open spec fn region_fault(state: GameState) -> Option<SaveValidationError> {
    let region = state.region;
    let network = region.rail_authority.rail_network;
    if rules_fault(state) is Some {
        rules_fault(state)
    } else if registration_fault(state) is Some {
        registration_fault(state)
    } else if settlements_fault(region) is Some {
        settlements_fault(region)
    } else if stations_fault(network.rail_stations@, region.settlements@) is Some {
        stations_fault(network.rail_stations@, region.settlements@)
    } else if lines_fault(network.rail_lines@, network.rail_stations@) is Some {
        lines_fault(network.rail_lines@, network.rail_stations@)
    } else if projects_fault(region.rail_authority, region.settlements@) is Some {
        projects_fault(region.rail_authority, region.settlements@)
    } else {
        finances_fault(region.rail_authority)
    }
}

/// The first thing that is wrong with the Company's Services, accounts, Fleet or Journeys.
pub open spec fn company_fault(state: GameState, facts: SimulationFacts) -> Option<
    SaveValidationError,
> {
    let company = state.player_company;
    let network = state.region.rail_authority.rail_network;
    let stations = network.rail_stations@;
    let services = company.passenger_services@;
    let trains = company.fleet.trains@;
    let journeys = state.active_journeys@;
    let demand = state.origin_destination_demand@;
    let assignments = company.fleet.service_assignments@;
    let code = state.region.railway_registration.numeric_code;
    if identity_fault(service_values(services), "Passenger Service") is Some {
        identity_fault(service_values(services), "Passenger Service")
    } else if services_fault(services, network, facts, services.len() as int) is Some {
        services_fault(services, network, facts, services.len() as int)
    } else if demand_fault(demand, stations, facts, demand.len() as int) is Some {
        demand_fault(demand, stations, facts, demand.len() as int)
    } else if financials_fault(company, state.financials, stations) is Some {
        financials_fault(company, state.financials, stations)
    } else if identity_fault(train_values(trains), "Train") is Some {
        identity_fault(train_values(trains), "Train")
    } else if !company.fleet.wf() {
        Some(SaveValidationError::DuplicateId { kind: "Fleet entry" })
    } else if sequences_fault(company.fleet, facts) is Some {
        sequences_fault(company.fleet, facts)
    } else if identity_fault(journey_values(journeys), "Journey") is Some {
        identity_fault(journey_values(journeys), "Journey")
    } else if assignments_fault(
        assignments,
        trains,
        services,
        journeys,
        assignments.len() as int,
    ) is Some {
        assignments_fault(assignments, trains, services, journeys, assignments.len() as int)
    } else if trains_fault(trains, code, stations, journeys, facts, trains.len() as int) is Some {
        trains_fault(trains, code, stations, journeys, facts, trains.len() as int)
    } else {
        journeys_fault(state, facts, journeys.len() as int)
    }
}

/// The first thing that is wrong with a saved game, in the order in which its parts are read.
pub open spec fn state_fault(state: GameState, facts: SimulationFacts) -> Option<
    SaveValidationError,
> {
    if region_fault(state) is Some {
        region_fault(state)
    } else {
        company_fault(state, facts)
    }
}

/// A game that may enter the simulation.
pub open spec fn valid_game(state: GameState, facts: SimulationFacts) -> bool {
    state_fault(state, facts) is None
}

fn validate_region(state: &GameState) -> (result: Result<(), SaveValidationError>)
    ensures
        result == outcome(region_fault(*state)),
{
    let region = &state.region;
    let network = &region.rail_authority.rail_network;
    match validate_rules(state) {
        Ok(()) => {},
        Err(error) => return Err(error),
    }
    match validate_registration(state) {
        Ok(()) => {},
        Err(error) => return Err(error),
    }
    match validate_settlements(region) {
        Ok(()) => {},
        Err(error) => return Err(error),
    }
    match validate_stations(&network.rail_stations, &region.settlements) {
        Ok(()) => {},
        Err(error) => return Err(error),
    }
    match validate_lines(&network.rail_lines, &network.rail_stations) {
        Ok(()) => {},
        Err(error) => return Err(error),
    }
    match validate_infrastructure_projects(&region.rail_authority, &region.settlements) {
        Ok(()) => {},
        Err(error) => return Err(error),
    }
    validate_rail_authority_finances(&region.rail_authority)
}

fn validate_company(state: &GameState, facts: &SimulationFacts) -> (result: Result<
    (),
    SaveValidationError,
>)
    ensures
        result == outcome(company_fault(*state, *facts)),
{
    let company = &state.player_company;
    let network = &state.region.rail_authority.rail_network;
    let services = collect_service_values(&company.passenger_services);
    match check_identities(&services, "Passenger Service") {
        Ok(()) => {},
        Err(error) => return Err(error),
    }
    match validate_services(&company.passenger_services, network, facts) {
        Ok(()) => {},
        Err(error) => return Err(error),
    }
    match validate_demand(&state.origin_destination_demand, &network.rail_stations, facts) {
        Ok(()) => {},
        Err(error) => return Err(error),
    }
    match validate_financials(company, &state.financials, &network.rail_stations) {
        Ok(()) => {},
        Err(error) => return Err(error),
    }
    let trains = collect_train_values(&company.fleet.trains);
    match check_identities(&trains, "Train") {
        Ok(()) => {},
        Err(error) => return Err(error),
    }
    if !company.fleet.is_well_formed() {
        return Err(SaveValidationError::DuplicateId { kind: "Fleet entry" });
    }
    match validate_sequences(&company.fleet, facts) {
        Ok(()) => {},
        Err(error) => return Err(error),
    }
    let journeys = collect_journey_values(&state.active_journeys);
    match check_identities(&journeys, "Journey") {
        Ok(()) => {},
        Err(error) => return Err(error),
    }
    match validate_service_assignments(
        &company.fleet.service_assignments,
        &company.fleet.trains,
        &company.passenger_services,
        &state.active_journeys,
    ) {
        Ok(()) => {},
        Err(error) => return Err(error),
    }
    match validate_train_statuses(
        &company.fleet.trains,
        state.region.railway_registration.numeric_code,
        &network.rail_stations,
        &state.active_journeys,
        facts,
    ) {
        Ok(()) => {},
        Err(error) => return Err(error),
    }
    validate_journeys(state, facts)
}

/// Checks a saved game against the simulation's facts about it: `Ok` exactly for a valid
/// game, otherwise the first fault.
pub fn validate_game_state(state: &GameState, facts: &SimulationFacts) -> (result: Result<
    (),
    SaveValidationError,
>)
    ensures
        result == outcome(state_fault(*state, *facts)),
        result is Ok <==> valid_game(*state, *facts),
{
    match validate_region(state) {
        Ok(()) => {},
        Err(error) => return Err(error),
    }
    validate_company(state, facts)
}

proof fn lemma_no_train_fault(state: GameState, facts: SimulationFacts, count: int, i: int)
    requires
        0 <= i < count,
        trains_fault(
            state.player_company.fleet.trains@,
            state.region.railway_registration.numeric_code,
            state.region.rail_authority.rail_network.rail_stations@,
            state.active_journeys@,
            facts,
            count,
        ) is None,
    ensures
        train_fault(
            state.player_company.fleet.trains@,
            i,
            state.region.railway_registration.numeric_code,
            state.region.rail_authority.rail_network.rail_stations@,
            state.active_journeys@,
            facts,
        ) is None,
    decreases count,
{
    if i < count - 1 {
        lemma_no_train_fault(state, facts, count - 1, i);
    }
}

proof fn lemma_train_positions(trains: Seq<Train>, id: crate::model::ids::TrainId)
    requires
        has_train(trains, id),
    ensures
        exists|i: int| is_train_at(trains, i, id),
    decreases trains.len(),
{
    let k = choose|k: int| 0 <= k < trains.len() && (#[trigger] trains[k]).id == id;
    let shorter = trains.drop_last();
    if has_train(shorter, id) {
        lemma_train_positions(shorter, id);
        let i = choose|i: int| is_train_at(shorter, i, id);
        assert(trains[i] == shorter[i]);
        assert forall|j: int| 0 <= j < i implies (#[trigger] trains[j]).id != id by {
            assert(shorter[j] == trains[j]);
        }
        assert(is_train_at(trains, i, id));
    } else {
        assert forall|j: int| 0 <= j < trains.len() - 1 implies (#[trigger] trains[j]).id != id by {
            if trains[j].id == id {
                assert(shorter[j].id == id);
            }
        }
        assert(k == trains.len() - 1);
        assert(is_train_at(trains, k, id));
    }
}

/// In a valid game every Journey's Train exists and is travelling on that Journey.
pub proof fn journeys_have_their_trains(state: GameState, facts: SimulationFacts, i: int)
    requires
        valid_game(state, facts),
        0 <= i < state.active_journeys@.len(),
    ensures
        has_train(state.player_company.fleet.trains@, state.active_journeys@[i].train_id),
        the_train(state.player_company.fleet.trains@, state.active_journeys@[i].train_id).status
            == (TrainStatus::Travelling { journey_id: state.active_journeys@[i].id }),
{
    lemma_no_journey_fault(state, facts, state.active_journeys@.len() as int, i);
}

/// In a valid game two Journeys never share a Train.
pub proof fn journeys_do_not_share_trains(state: GameState, facts: SimulationFacts, i: int, j: int)
    requires
        valid_game(state, facts),
        0 <= i < j < state.active_journeys@.len(),
    ensures
        state.active_journeys@[i].train_id != state.active_journeys@[j].train_id,
{
    let journeys = state.active_journeys@;
    lemma_no_journey_fault(state, facts, journeys.len() as int, i);
    lemma_no_journey_fault(state, facts, journeys.len() as int, j);
    let values = journey_values(journeys);
    assert(values[i] == journeys[i].id.value && values[j] == journeys[j].id.value);
    assert(!repeats(values));
}

/// In a valid game every travelling Train's Journey is under way, and it is that Train's.
pub proof fn travelling_trains_have_their_journeys(state: GameState, facts: SimulationFacts, i: int)
    requires
        valid_game(state, facts),
        0 <= i < state.player_company.fleet.trains@.len(),
        state.player_company.fleet.trains@[i].status is Travelling,
    ensures
        exists|k: int|
            0 <= k < state.active_journeys@.len() && (#[trigger] state.active_journeys@[k]).id
                == state.player_company.fleet.trains@[i].status->journey_id
                && state.active_journeys@[k].train_id == state.player_company.fleet.trains@[i].id,
{
    let trains = state.player_company.fleet.trains@;
    let journeys = state.active_journeys@;
    let code = state.region.railway_registration.numeric_code;
    let stations = state.region.rail_authority.rail_network.rail_stations@;
    lemma_no_train_fault(state, facts, trains.len() as int, i);
    let id = trains[i].status->journey_id;
    assert(has_journey(journeys, id));
    let k = choose|k: int| 0 <= k < journeys.len() && (#[trigger] journeys[k]).id == id;
    lemma_no_journey_fault(state, facts, journeys.len() as int, k);
    let owner = journeys[k].train_id;
    lemma_train_positions(trains, owner);
    let m = choose|m: int| is_train_at(trains, m, owner);
    assert(the_train(trains, owner).status == (TrainStatus::Travelling { journey_id: id }));
    assert(trains[m].status == trains[i].status);
    lemma_no_train_fault(state, facts, trains.len() as int, m);
    if m < i {
        assert(trains[m].status == trains[i].status);
    } else if i < m {
        assert(trains[i].status == trains[m].status);
    }
    assert(m == i);
}

/// In a valid game the identities within each collection are distinct, and the Fleet's
/// assignments and unit sequences have one entry for each Train and model.
pub proof fn identities_are_distinct(state: GameState, facts: SimulationFacts)
    requires
        valid_game(state, facts),
    ensures
        forall|i: int, j: int|
            0 <= i < j < state.region.settlements@.len() ==> (
            #[trigger] state.region.settlements@[i]).id != (#[trigger] state.region.settlements@[j]).id,
        forall|i: int, j: int|
            0 <= i < j < state.region.rail_authority.rail_network.rail_stations@.len() ==> (
            #[trigger] state.region.rail_authority.rail_network.rail_stations@[i]).id != (
            #[trigger] state.region.rail_authority.rail_network.rail_stations@[j]).id,
        forall|i: int, j: int|
            0 <= i < j < state.region.rail_authority.rail_network.rail_lines@.len() ==> (
            #[trigger] state.region.rail_authority.rail_network.rail_lines@[i]).id != (
            #[trigger] state.region.rail_authority.rail_network.rail_lines@[j]).id,
        forall|i: int, j: int|
            0 <= i < j < state.player_company.fleet.trains@.len() ==> (
            #[trigger] state.player_company.fleet.trains@[i]).id != (
            #[trigger] state.player_company.fleet.trains@[j]).id,
        forall|i: int, j: int|
            0 <= i < j < state.player_company.passenger_services@.len() ==> (
            #[trigger] state.player_company.passenger_services@[i]).id != (
            #[trigger] state.player_company.passenger_services@[j]).id,
        forall|i: int, j: int|
            0 <= i < j < state.active_journeys@.len() ==> (#[trigger] state.active_journeys@[i]).id
                != (#[trigger] state.active_journeys@[j]).id,
        forall|i: int, j: int|
            0 <= i < j < state.region.rail_authority.infrastructure_projects@.len() ==> (
            #[trigger] state.region.rail_authority.infrastructure_projects@[i]).id != (
            #[trigger] state.region.rail_authority.infrastructure_projects@[j]).id,
        state.player_company.fleet.wf(),
{
    let settlements = state.region.settlements@;
    let trains = state.player_company.fleet.trains@;
    let services = state.player_company.passenger_services@;
    let journeys = state.active_journeys@;
    let projects = state.region.rail_authority.infrastructure_projects@;
    let a = super::network::settlement_values(settlements);
    let b = train_values(trains);
    let c = service_values(services);
    let d = journey_values(journeys);
    let e = super::projects::project_values(projects);
    let stations = state.region.rail_authority.rail_network.rail_stations@;
    let lines = state.region.rail_authority.rail_network.rail_lines@;
    let f = super::network::station_values(stations);
    let g = super::network::line_values(lines);
    assert(!repeats(a) && !repeats(b) && !repeats(c) && !repeats(d) && !repeats(e));
    assert(!repeats(f) && !repeats(g));
    assert forall|i: int, j: int| 0 <= i < j < stations.len() implies (#[trigger] stations[i]).id
        != (#[trigger] stations[j]).id by {
        assert(f[i] != f[j]);
    }
    assert forall|i: int, j: int| 0 <= i < j < lines.len() implies (#[trigger] lines[i]).id != (
    #[trigger] lines[j]).id by {
        assert(g[i] != g[j]);
    }
    assert forall|i: int, j: int| 0 <= i < j < settlements.len() implies (
    #[trigger] settlements[i]).id != (#[trigger] settlements[j]).id by {
        assert(a[i] != a[j]);
    }
    assert forall|i: int, j: int| 0 <= i < j < trains.len() implies (#[trigger] trains[i]).id != (
    #[trigger] trains[j]).id by {
        assert(b[i] != b[j]);
    }
    assert forall|i: int, j: int| 0 <= i < j < services.len() implies (#[trigger] services[i]).id
        != (#[trigger] services[j]).id by {
        assert(c[i] != c[j]);
    }
    assert forall|i: int, j: int| 0 <= i < j < journeys.len() implies (#[trigger] journeys[i]).id
        != (#[trigger] journeys[j]).id by {
        assert(d[i] != d[j]);
    }
    assert forall|i: int, j: int| 0 <= i < j < projects.len() implies (#[trigger] projects[i]).id
        != (#[trigger] projects[j]).id by {
        assert(e[i] != e[j]);
    }
}

} // verus!
