//! Games that are the same, value by value, are valid or faulty alike.

use vstd::prelude::*;

use super::journeys::{
    assignments_fault, bad_sequence, booking_fault, display_number_free, group_fault, group_totals,
    is_sequence_at, journey_fault, journey_values, journeys_fault, next_unit, number_repeated,
    positioning_fault, revenue_fault, sequenced, sequences_fault, service_values, status_repeated,
    train_fault, train_values, trains_fault, units_fault, JourneyContext, Progress,
};
use super::network::{
    finances_fault, population_of, settlement_values, settlements_fault, stations_fault,
};
use super::projects::{
    builds_against, commitments, context_of, line_reserved, payload_fault, payloads_fault,
    planned_line_fault, planned_lines_fault, planned_station_fault, planned_stations_fault,
    plans_line, plans_station, project_values, projects_fault, reserves_against, slot_fault,
    slots_fault, station_reserved, PayloadContext,
};
use super::services::{
    financials_fault, number_taken, receipt_fault, receipts_fault, reverse_number_fits,
    service_fault, service_length, services_fault,
};
use super::state::{company_fault, region_fault, state_fault, valid_game};
use crate::model::company::{
    has_journey, has_service, has_train, is_journey_at, is_service_at, is_train_at, the_journey,
    the_service, the_train, Fleet, Journey, JourneyReceipt, ModelUnitSequence, PassengerService,
    ServiceAssignment, Train,
};
use crate::model::facts::SimulationFacts;
use crate::model::ids::{JourneyId, RailLineId, RailStationId, ServiceId, SettlementId, TrainId};
use crate::model::network::{has_settlement, RailLine, RailNetwork, RailStation, Settlement};
use crate::model::project::{
    building, conflict, reserving, touches_line, touches_station, InfrastructureProject,
    InfrastructureProjectKind,
    RailAuthority,
};
use crate::model::state::GameState;
use crate::storage::tables::company::{
    same_service, same_services, same_train, same_trains, same_units,
};
use crate::storage::tables::history::history_ends;
use crate::storage::tables::operations::{
    same_journey, same_journeys, same_receipts, ReceiptRow,
};
use crate::storage::tables::project_laws::same_project;
use crate::storage::tables::state::{
    reread, same_projects, same_state, saved_games_load_back, state_read, state_wf, state_written,
    SaveRows,
};
use crate::storage::tables::world::same_settlements;

verus! {

proof fn lemma_least(holds: spec_fn(int) -> bool, count: int)
    requires
        exists|i: int| 0 <= i < count && #[trigger] holds(i),
    ensures
        exists|i: int|
            0 <= i < count && #[trigger] holds(i) && forall|j: int| 0 <= j < i ==> !#[trigger] holds(j),
    decreases count,
{
    let k = choose|k: int| 0 <= k < count && #[trigger] holds(k);
    if exists|i: int| 0 <= i < k && #[trigger] holds(i) {
        lemma_least(holds, k);
    }
}

/// The first Trains with an identity are the same.
proof fn lemma_the_train(first: Seq<Train>, second: Seq<Train>, id: TrainId)
    requires
        same_trains(first, second),
    ensures
        has_train(first, id) == has_train(second, id),
        has_train(first, id) ==> same_train(the_train(first, id), the_train(second, id)),
{
    assert(forall|i: int| 0 <= i < first.len() ==> same_train(first[i], #[trigger] second[i]));
    assert(forall|i: int| 0 <= i < first.len() ==> same_train(#[trigger] first[i], second[i]));
    if has_train(first, id) {
        let named = |i: int| first[i].id == id;
        let k = choose|k: int| 0 <= k < first.len() && (#[trigger] first[k]).id == id;
        assert(named(k));
        lemma_least(named, first.len() as int);
        let i = choose|i: int|
            0 <= i < first.len() && #[trigger] named(i) && forall|j: int|
                0 <= j < i ==> !#[trigger] named(j);
        assert(forall|j: int| 0 <= j < i ==> !named(j) && (#[trigger] first[j]).id != id);
        assert(is_train_at(first, i, id));
        assert(is_train_at(second, i, id));
        let a = choose|a: int| is_train_at(first, a, id);
        let b = choose|b: int| is_train_at(second, b, id);
        assert(a == i && b == i) by {
            if a < i {
                assert(first[a].id != id);
            }
            if b < i {
                assert(second[b].id != id);
            }
        }
    }
    if has_train(second, id) {
        let k = choose|k: int| 0 <= k < second.len() && (#[trigger] second[k]).id == id;
        assert(first[k].id == id);
    }
}

/// The first Services with an identity are the same.
pub proof fn lemma_the_service(
    first: Seq<PassengerService>,
    second: Seq<PassengerService>,
    id: ServiceId,
)
    requires
        same_services(first, second),
    ensures
        has_service(first, id) == has_service(second, id),
        has_service(first, id) ==> same_service(the_service(first, id), the_service(second, id)),
{
    assert(forall|i: int| 0 <= i < first.len() ==> same_service(first[i], #[trigger] second[i]));
    assert(forall|i: int| 0 <= i < first.len() ==> same_service(#[trigger] first[i], second[i]));
    if has_service(first, id) {
        let named = |i: int| first[i].id == id;
        let k = choose|k: int| 0 <= k < first.len() && (#[trigger] first[k]).id == id;
        assert(named(k));
        lemma_least(named, first.len() as int);
        let i = choose|i: int|
            0 <= i < first.len() && #[trigger] named(i) && forall|j: int|
                0 <= j < i ==> !#[trigger] named(j);
        assert(forall|j: int| 0 <= j < i ==> !named(j) && (#[trigger] first[j]).id != id);
        assert(is_service_at(first, i, id));
        assert(is_service_at(second, i, id));
        let a = choose|a: int| is_service_at(first, a, id);
        let b = choose|b: int| is_service_at(second, b, id);
        assert(a == i && b == i) by {
            if a < i {
                assert(first[a].id != id);
            }
            if b < i {
                assert(second[b].id != id);
            }
        }
    }
    if has_service(second, id) {
        let k = choose|k: int| 0 <= k < second.len() && (#[trigger] second[k]).id == id;
        assert(first[k].id == id);
    }
}

/// The first Journeys with an identity are the same.
proof fn lemma_the_journey(first: Seq<Journey>, second: Seq<Journey>, id: JourneyId)
    requires
        same_journeys(first, second),
    ensures
        has_journey(first, id) == has_journey(second, id),
        has_journey(first, id) ==> same_journey(the_journey(first, id), the_journey(second, id)),
{
    assert(forall|i: int| 0 <= i < first.len() ==> same_journey(first[i], #[trigger] second[i]));
    assert(forall|i: int| 0 <= i < first.len() ==> same_journey(#[trigger] first[i], second[i]));
    if has_journey(first, id) {
        let named = |i: int| first[i].id == id;
        let k = choose|k: int| 0 <= k < first.len() && (#[trigger] first[k]).id == id;
        assert(named(k));
        lemma_least(named, first.len() as int);
        let i = choose|i: int|
            0 <= i < first.len() && #[trigger] named(i) && forall|j: int|
                0 <= j < i ==> !#[trigger] named(j);
        assert(forall|j: int| 0 <= j < i ==> !named(j) && (#[trigger] first[j]).id != id);
        assert(is_journey_at(first, i, id));
        assert(is_journey_at(second, i, id));
        let a = choose|a: int| is_journey_at(first, a, id);
        let b = choose|b: int| is_journey_at(second, b, id);
        assert(a == i && b == i) by {
            if a < i {
                assert(first[a].id != id);
            }
            if b < i {
                assert(second[b].id != id);
            }
        }
    }
    if has_journey(second, id) {
        let k = choose|k: int| 0 <= k < second.len() && (#[trigger] second[k]).id == id;
        assert(first[k].id == id);
    }
}

/// What a Service's path is does not depend on how its texts and lists are held.
proof fn lemma_service_length(
    first: PassengerService,
    second: PassengerService,
    here: RailNetwork,
    there: RailNetwork,
    facts: SimulationFacts,
)
    requires
        same_service(first, second),
        here.rail_lines@ == there.rail_lines@,
    ensures
        service_length(first, here, facts) == service_length(second, there, facts),
{
}

proof fn lemma_services_fault(
    first: Seq<PassengerService>,
    second: Seq<PassengerService>,
    here: RailNetwork,
    there: RailNetwork,
    facts: SimulationFacts,
    count: int,
)
    requires
        same_services(first, second),
        here.rail_lines@ == there.rail_lines@,
        here.rail_stations@ == there.rail_stations@,
        0 <= count <= first.len(),
    ensures
        services_fault(first, here, facts, count) == services_fault(second, there, facts, count),
    decreases count,
{
    if count > 0 {
        lemma_services_fault(first, second, here, there, facts, count - 1);
        let i = count - 1;
        assert(forall|j: int| 0 <= j < first.len() ==> same_service(first[j], #[trigger] second[j]));
        assert(forall|j: int| 0 <= j < first.len() ==> same_service(#[trigger] first[j], second[j]));
        assert forall|number: u32| #[trigger]
            number_taken(first, i, number) == number_taken(second, i, number) by {
            if number_taken(first, i, number) {
                let j = choose|j: int|
                    0 <= j < i && ((#[trigger] first[j]).forward_train_number == number
                        || first[j].reverse_train_number == Some(number));
                assert(second[j].forward_train_number == number || second[j].reverse_train_number
                    == Some(number));
            }
            if number_taken(second, i, number) {
                let j = choose|j: int|
                    0 <= j < i && ((#[trigger] second[j]).forward_train_number == number
                        || second[j].reverse_train_number == Some(number));
                assert(first[j].forward_train_number == number || first[j].reverse_train_number
                    == Some(number));
            }
        }
        assert(same_service(first[i], second[i]));
        assert(reverse_number_fits(first, i) == reverse_number_fits(second, i));
        lemma_service_length(first[i], second[i], here, there, facts);
        assert(service_fault(first, i, here, facts) == service_fault(second, i, there, facts));
    }
}

proof fn lemma_receipts_fault(
    first: Seq<JourneyReceipt>,
    second: Seq<JourneyReceipt>,
    stations: Seq<RailStation>,
    count: int,
)
    requires
        same_receipts(first, second),
        0 <= count <= first.len(),
    ensures
        receipts_fault(first, stations, count) == receipts_fault(second, stations, count),
    decreases count,
{
    if count > 0 {
        lemma_receipts_fault(first, second, stations, count - 1);
        let i = count - 1;
        assert(forall|j: int|
            0 <= j < first.len() ==> first[j].journey_id == (#[trigger] second[j]).journey_id);
        assert(forall|j: int|
            0 <= j < first.len() ==> (#[trigger] first[j]).journey_id == second[j].journey_id);
        assert(receipt_fault(first, i, stations) == receipt_fault(second, i, stations));
    }
}

/// Two Fleets with the same Trains, assignments and unit sequences.
spec fn same_fleet(first: Fleet, second: Fleet) -> bool {
    &&& same_trains(first.trains@, second.trains@)
    &&& first.next_train_display_number == second.next_train_display_number
    &&& same_units(first.next_evn_unit_by_model@, second.next_evn_unit_by_model@)
    &&& first.service_assignments@ == second.service_assignments@
}

proof fn lemma_next_unit(
    first: Seq<ModelUnitSequence>,
    second: Seq<ModelUnitSequence>,
    model: Seq<char>,
)
    requires
        same_units(first, second),
    ensures
        sequenced(first, model) == sequenced(second, model),
        sequenced(first, model) ==> next_unit(first, model) == next_unit(second, model),
{
    assert(forall|i: int|
        0 <= i < first.len() ==> first[i].model_id.name@ == (#[trigger] second[i]).model_id.name@);
    assert(forall|i: int|
        0 <= i < first.len() ==> (#[trigger] first[i]).model_id.name@ == second[i].model_id.name@);
    if sequenced(first, model) {
        let named = |i: int| first[i].model_id.name@ == model;
        let k = choose|k: int| 0 <= k < first.len() && (#[trigger] first[k]).model_id.name@ == model;
        assert(named(k));
        lemma_least(named, first.len() as int);
        let i = choose|i: int|
            0 <= i < first.len() && #[trigger] named(i) && forall|j: int|
                0 <= j < i ==> !#[trigger] named(j);
        assert(forall|j: int|
            0 <= j < i ==> !named(j) && (#[trigger] first[j]).model_id.name@ != model);
        assert(is_sequence_at(first, i, model));
        assert(is_sequence_at(second, i, model));
        let a = choose|a: int| is_sequence_at(first, a, model);
        let b = choose|b: int| is_sequence_at(second, b, model);
        assert(a == i && b == i) by {
            if a < i {
                assert(first[a].model_id.name@ != model);
            }
            if b < i {
                assert(second[b].model_id.name@ != model);
            }
        }
        assert(first[i].next_unit_number == second[i].next_unit_number);
    }
    if sequenced(second, model) {
        let k = choose|k: int|
            0 <= k < second.len() && (#[trigger] second[k]).model_id.name@ == model;
        assert(first[k].model_id.name@ == model);
    }
}

proof fn lemma_units_fault(first: Fleet, second: Fleet, count: int)
    requires
        same_fleet(first, second),
        0 <= count <= first.trains@.len(),
    ensures
        units_fault(first.trains@, first.next_evn_unit_by_model@, count) == units_fault(
            second.trains@,
            second.next_evn_unit_by_model@,
            count,
        ),
    decreases count,
{
    if count > 0 {
        lemma_units_fault(first, second, count - 1);
        let train = first.trains@[count - 1];
        assert(same_train(train, second.trains@[count - 1]));
        lemma_next_unit(
            first.next_evn_unit_by_model@,
            second.next_evn_unit_by_model@,
            train.model_id.name@,
        );
    }
}

proof fn lemma_sequences_fault(first: Fleet, second: Fleet, facts: SimulationFacts)
    requires
        same_fleet(first, second),
    ensures
        first.wf() == second.wf(),
        sequences_fault(first, facts) == sequences_fault(second, facts),
{
    let a = first.next_evn_unit_by_model@;
    let b = second.next_evn_unit_by_model@;
    lemma_units_fault(first, second, first.trains@.len() as int);
    assert(forall|i: int|
        0 <= i < a.len() ==> a[i].model_id.name@ == (#[trigger] b[i]).model_id.name@
            && a[i].next_unit_number == b[i].next_unit_number);
    assert(forall|i: int|
        0 <= i < a.len() ==> (#[trigger] a[i]).model_id.name@ == b[i].model_id.name@
            && a[i].next_unit_number == b[i].next_unit_number);
    assert(forall|i: int|
        0 <= i < first.trains@.len() ==> first.trains@[i].id == (#[trigger] second.trains@[i]).id);
    assert(forall|i: int|
        0 <= i < first.trains@.len() ==> (#[trigger] first.trains@[i]).id == second.trains@[i].id);
    assert(display_number_free(first) == display_number_free(second));
    assert(bad_sequence(a, facts) == bad_sequence(b, facts));
}

proof fn lemma_assignments_fault(
    assignments: Seq<ServiceAssignment>,
    first: GameState,
    second: GameState,
    count: int,
)
    requires
        same_state(first, second),
    ensures
        assignments_fault(
            assignments,
            first.player_company.fleet.trains@,
            first.player_company.passenger_services@,
            first.active_journeys@,
            count,
        ) == assignments_fault(
            assignments,
            second.player_company.fleet.trains@,
            second.player_company.passenger_services@,
            second.active_journeys@,
            count,
        ),
    decreases count,
{
    if count > 0 {
        lemma_assignments_fault(assignments, first, second, count - 1);
        let a = first.player_company;
        let b = second.player_company;
        let assignment = assignments[count - 1];
        lemma_the_train(a.fleet.trains@, b.fleet.trains@, assignment.train_id);
        lemma_the_service(a.passenger_services@, b.passenger_services@, assignment.service_id);
        let train = the_train(a.fleet.trains@, assignment.train_id);
        if train.status is Travelling {
            lemma_the_journey(
                first.active_journeys@,
                second.active_journeys@,
                train.status->journey_id,
            );
        }
    }
}

proof fn lemma_trains_fault(
    first: GameState,
    second: GameState,
    code: u8,
    stations: Seq<RailStation>,
    facts: SimulationFacts,
    count: int,
)
    requires
        same_state(first, second),
        0 <= count <= first.player_company.fleet.trains@.len(),
    ensures
        trains_fault(
            first.player_company.fleet.trains@,
            code,
            stations,
            first.active_journeys@,
            facts,
            count,
        ) == trains_fault(
            second.player_company.fleet.trains@,
            code,
            stations,
            second.active_journeys@,
            facts,
            count,
        ),
    decreases count,
{
    if count > 0 {
        lemma_trains_fault(first, second, code, stations, facts, count - 1);
        let a = first.player_company.fleet.trains@;
        let b = second.player_company.fleet.trains@;
        let i = count - 1;
        assert(forall|j: int| 0 <= j < a.len() ==> same_train(a[j], #[trigger] b[j]));
        assert(forall|j: int| 0 <= j < a.len() ==> same_train(#[trigger] a[j], b[j]));
        assert(number_repeated(a, i) == number_repeated(b, i));
        assert(status_repeated(a, i) == status_repeated(b, i));
        if a[i].status is Travelling {
            lemma_the_journey(
                first.active_journeys@,
                second.active_journeys@,
                a[i].status->journey_id,
            );
        }
        assert(same_train(a[i], b[i]));
        assert(train_fault(a, i, code, stations, first.active_journeys@, facts) == train_fault(
            b,
            i,
            code,
            stations,
            second.active_journeys@,
            facts,
        ));
    }
}

/// Two Journeys that are looked at in the same surroundings.
spec fn same_context(first: JourneyContext, second: JourneyContext) -> bool {
    &&& same_state(first.state, second.state)
    &&& first.facts == second.facts
    &&& same_journey(first.journey, second.journey)
    &&& same_service(first.service, second.service)
}

proof fn lemma_group_totals(
    first: JourneyContext,
    second: JourneyContext,
    progress: Progress,
    count: int,
)
    requires
        same_context(first, second),
    ensures
        group_totals(first, progress, count) == group_totals(second, progress, count),
    decreases count,
{
    if count > 0 {
        lemma_group_totals(first, second, progress, count - 1);
        let group = first.journey.passenger_groups@[count - 1];
        assert(group_fault(first, progress, group) == group_fault(second, progress, group));
    }
}

proof fn lemma_journeys_fault(
    first: GameState,
    second: GameState,
    facts: SimulationFacts,
    count: int,
)
    requires
        same_state(first, second),
        0 <= count <= first.active_journeys@.len(),
    ensures
        journeys_fault(first, facts, count) == journeys_fault(second, facts, count),
    decreases count,
{
    if count > 0 {
        lemma_journeys_fault(first, second, facts, count - 1);
        let a = first.active_journeys@[count - 1];
        let b = second.active_journeys@[count - 1];
        let here = first.player_company;
        let there = second.player_company;
        assert(same_journey(a, b));
        lemma_the_train(here.fleet.trains@, there.fleet.trains@, a.train_id);
        lemma_the_service(here.passenger_services@, there.passenger_services@, a.service_id);
        if has_train(here.fleet.trains@, a.train_id) && has_service(
            here.passenger_services@,
            a.service_id,
        ) {
            let x = JourneyContext {
                state: first,
                facts,
                journey: a,
                service: the_service(here.passenger_services@, a.service_id),
            };
            let y = JourneyContext {
                state: second,
                facts,
                journey: b,
                service: the_service(there.passenger_services@, b.service_id),
            };
            assert(same_context(x, y));
            assert(positioning_fault(x) == positioning_fault(y));
            lemma_service_length(x.service, y.service, x.network(), y.network(), facts);
            let groups = a.passenger_groups@.len() as int;
            assert forall|progress: Progress, capacity: u32| #[trigger]
                booking_fault(x, progress, capacity) == booking_fault(y, progress, capacity) by {
                lemma_group_totals(x, y, progress, groups);
            }
            assert forall|capacity: u32| #[trigger]
                revenue_fault(x, capacity) == revenue_fault(y, capacity) by {}
        }
        assert(journey_fault(first, a, facts) == journey_fault(second, b, facts));
    }
}

proof fn lemma_company_fault(first: GameState, second: GameState, facts: SimulationFacts)
    requires
        same_state(first, second),
    ensures
        company_fault(first, facts) == company_fault(second, facts),
{
    let a = first.player_company;
    let b = second.player_company;
    let here = first.region.rail_authority.rail_network;
    let there = second.region.rail_authority.rail_network;
    let code = first.region.railway_registration.numeric_code;
    let stations = here.rail_stations@;
    let receipts = first.financials.recent_journey_receipts@;
    assert(service_values(a.passenger_services@) =~= service_values(b.passenger_services@));
    assert(train_values(a.fleet.trains@) =~= train_values(b.fleet.trains@));
    assert(journey_values(first.active_journeys@) =~= journey_values(second.active_journeys@));
    lemma_services_fault(
        a.passenger_services@,
        b.passenger_services@,
        here,
        there,
        facts,
        a.passenger_services@.len() as int,
    );
    lemma_receipts_fault(
        receipts,
        second.financials.recent_journey_receipts@,
        stations,
        receipts.len() as int,
    );
    assert(financials_fault(a, first.financials, stations) == financials_fault(
        b,
        second.financials,
        stations,
    ));
    lemma_sequences_fault(a.fleet, b.fleet, facts);
    let assignments = a.fleet.service_assignments@;
    lemma_assignments_fault(assignments, first, second, assignments.len() as int);
    lemma_trains_fault(first, second, code, stations, facts, a.fleet.trains@.len() as int);
    lemma_journeys_fault(first, second, facts, first.active_journeys@.len() as int);
}

proof fn lemma_has_settlement(first: Seq<Settlement>, second: Seq<Settlement>, id: SettlementId)
    requires
        same_settlements(first, second),
    ensures
        has_settlement(first, id) == has_settlement(second, id),
{
    if has_settlement(first, id) {
        let i = choose|i: int| 0 <= i < first.len() && (#[trigger] first[i]).id == id;
        assert(second[i].id == id);
    }
    if has_settlement(second, id) {
        let i = choose|i: int| 0 <= i < second.len() && (#[trigger] second[i]).id == id;
        assert(first[i].id == id);
    }
}

proof fn lemma_population(first: Seq<Settlement>, second: Seq<Settlement>, count: int)
    requires
        same_settlements(first, second),
        0 <= count <= first.len(),
    ensures
        population_of(first, count) == population_of(second, count),
    decreases count,
{
    if count > 0 {
        lemma_population(first, second, count - 1);
        assert(first[count - 1].population == second[count - 1].population);
    }
}

proof fn lemma_commitments(
    first: Seq<InfrastructureProject>,
    second: Seq<InfrastructureProject>,
    count: int,
)
    requires
        same_projects(first, second),
        0 <= count <= first.len(),
    ensures
        commitments(first, count) == commitments(second, count),
        building(first, count) == building(second, count),
        reserving(first, count) == reserving(second, count),
    decreases count,
{
    if count > 0 {
        lemma_commitments(first, second, count - 1);
        assert(same_project(first[count - 1], second[count - 1]));
    }
}

/// Two projects that are looked at in the same surroundings.
spec fn same_payload(first: PayloadContext, second: PayloadContext) -> bool {
    &&& same_projects(first.projects, second.projects)
    &&& first.index == second.index
    &&& 0 <= first.index < first.projects.len()
    &&& same_settlements(first.settlements, second.settlements)
    &&& first.stations == second.stations
    &&& first.lines == second.lines
}

proof fn lemma_reserved(first: PayloadContext, second: PayloadContext)
    requires
        same_payload(first, second),
    ensures
        first.opened() == second.opened(),
        forall|id: RailStationId| #[trigger]
            station_reserved(first.projects, first.index, id) == station_reserved(
                second.projects,
                second.index,
                id,
            ),
        forall|id: RailLineId| #[trigger]
            line_reserved(first.projects, first.index, id) == line_reserved(
                second.projects,
                second.index,
                id,
            ),
{
    let a = first.projects;
    let b = second.projects;
    assert(forall|j: int| 0 <= j < a.len() ==> same_project(a[j], #[trigger] b[j]));
    assert(forall|j: int| 0 <= j < a.len() ==> same_project(#[trigger] a[j], b[j]));
    assert(same_project(a[first.index], b[first.index]));
    assert forall|id: RailStationId| #[trigger]
        station_reserved(a, first.index, id) == station_reserved(b, first.index, id) by {
        assert(forall|j: int|
            0 <= j < a.len() ==> plans_station((#[trigger] a[j]).kind, id) == plans_station(
                b[j].kind,
                id,
            ));
        if station_reserved(a, first.index, id) {
            let j = choose|j: int| 0 <= j < first.index && plans_station((#[trigger] a[j]).kind, id);
            assert(plans_station(b[j].kind, id));
        }
        if station_reserved(b, first.index, id) {
            let j = choose|j: int| 0 <= j < first.index && plans_station((#[trigger] b[j]).kind, id);
            assert(plans_station(a[j].kind, id));
        }
    }
    assert forall|id: RailLineId| #[trigger]
        line_reserved(a, first.index, id) == line_reserved(b, first.index, id) by {
        assert(forall|j: int|
            0 <= j < a.len() ==> plans_line((#[trigger] a[j]).kind, id) == plans_line(
                b[j].kind,
                id,
            ));
        if line_reserved(a, first.index, id) {
            let j = choose|j: int| 0 <= j < first.index && plans_line((#[trigger] a[j]).kind, id);
            assert(plans_line(b[j].kind, id));
        }
        if line_reserved(b, first.index, id) {
            let j = choose|j: int| 0 <= j < first.index && plans_line((#[trigger] b[j]).kind, id);
            assert(plans_line(a[j].kind, id));
        }
    }
}

proof fn lemma_planned_stations_fault(
    first: PayloadContext,
    second: PayloadContext,
    planned: Seq<RailStation>,
    count: int,
)
    requires
        same_payload(first, second),
    ensures
        planned_stations_fault(first, planned, count) == planned_stations_fault(
            second,
            planned,
            count,
        ),
    decreases count,
{
    if count > 0 {
        lemma_planned_stations_fault(first, second, planned, count - 1);
        let station = planned[count - 1];
        lemma_reserved(first, second);
        lemma_has_settlement(first.settlements, second.settlements, station.settlement_id);
        assert(station_reserved(first.projects, first.index, station.id) == station_reserved(
            second.projects,
            second.index,
            station.id,
        ));
        assert(planned_station_fault(first, station) == planned_station_fault(second, station));
    }
}

proof fn lemma_planned_lines_fault(
    first: PayloadContext,
    second: PayloadContext,
    planned: Seq<RailStation>,
    lines: Seq<RailLine>,
    count: int,
)
    requires
        same_payload(first, second),
    ensures
        planned_lines_fault(first, planned, lines, count) == planned_lines_fault(
            second,
            planned,
            lines,
            count,
        ),
    decreases count,
{
    if count > 0 {
        lemma_planned_lines_fault(first, second, planned, lines, count - 1);
        let line = lines[count - 1];
        lemma_reserved(first, second);
        assert(line_reserved(first.projects, first.index, line.id) == line_reserved(
            second.projects,
            second.index,
            line.id,
        ));
        assert(planned_line_fault(first, planned, line) == planned_line_fault(
            second,
            planned,
            line,
        ));
    }
}

proof fn lemma_payload_fault(first: PayloadContext, second: PayloadContext)
    requires
        same_payload(first, second),
    ensures
        payload_fault(first) == payload_fault(second),
{
    let a = first.projects[first.index];
    let b = second.projects[second.index];
    assert(same_project(a, b));
    if let InfrastructureProjectKind::NewLine { planned_stations, planned_lines } = a.kind {
        let stations = planned_stations@;
        let lines = planned_lines@;
        lemma_planned_stations_fault(first, second, stations, stations.len() as int);
        lemma_planned_lines_fault(first, second, stations, lines, lines.len() as int);
    }
}

proof fn lemma_payloads_fault(
    first: RailAuthority,
    second: RailAuthority,
    here: Seq<Settlement>,
    there: Seq<Settlement>,
    count: int,
)
    requires
        same_projects(first.infrastructure_projects@, second.infrastructure_projects@),
        first.rail_network.rail_stations@ == second.rail_network.rail_stations@,
        first.rail_network.rail_lines@ == second.rail_network.rail_lines@,
        same_settlements(here, there),
        0 <= count <= first.infrastructure_projects@.len(),
    ensures
        payloads_fault(first, here, count) == payloads_fault(second, there, count),
    decreases count,
{
    if count > 0 {
        lemma_payloads_fault(first, second, here, there, count - 1);
        lemma_payload_fault(
            context_of(first, here, count - 1),
            context_of(second, there, count - 1),
        );
    }
}

proof fn lemma_conflict(
    first: Seq<InfrastructureProject>,
    second: Seq<InfrastructureProject>,
    i: int,
    j: int,
)
    requires
        same_projects(first, second),
        0 <= i < first.len(),
        0 <= j < first.len(),
    ensures
        conflict(first[i], first[j]) == conflict(second[i], second[j]),
{
    assert(same_project(first[i], second[i]));
    assert(same_project(first[j], second[j]));
    assert(forall|id: RailLineId| #[trigger]
        touches_line(first[i].kind, id) == touches_line(second[i].kind, id));
    assert(forall|id: RailLineId| #[trigger]
        touches_line(first[j].kind, id) == touches_line(second[j].kind, id));
    assert(forall|id: RailStationId| #[trigger]
        touches_station(first[i].kind, id) == touches_station(second[i].kind, id));
    assert(forall|id: RailStationId| #[trigger]
        touches_station(first[j].kind, id) == touches_station(second[j].kind, id));
    if conflict(second[i], second[j]) {
        if exists|id: RailLineId|
            touches_line(second[i].kind, id) && touches_line(second[j].kind, id) {
            let id = choose|id: RailLineId|
                touches_line(second[i].kind, id) && touches_line(second[j].kind, id);
            assert(touches_line(first[i].kind, id) && touches_line(first[j].kind, id));
        } else {
            let id = choose|id: RailStationId|
                touches_station(second[i].kind, id) && touches_station(second[j].kind, id);
            assert(touches_station(first[i].kind, id) && touches_station(first[j].kind, id));
        }
    }
}

proof fn lemma_slots_fault(
    first: Seq<InfrastructureProject>,
    second: Seq<InfrastructureProject>,
    count: int,
)
    requires
        same_projects(first, second),
        0 <= count <= first.len(),
    ensures
        slots_fault(first, count) == slots_fault(second, count),
    decreases count,
{
    if count > 0 {
        lemma_slots_fault(first, second, count - 1);
        let i = count - 1;
        assert(same_project(first[i], second[i]));
        assert forall|j: int| 0 <= j < first.len() implies conflict(first[i], #[trigger] first[j])
            == conflict(second[i], second[j]) && first[j].status == second[j].status by {
            lemma_conflict(first, second, i, j);
            assert(same_project(first[j], second[j]));
        }
        if builds_against(second, i) {
            let j = choose|j: int|
                i < j < second.len() && (#[trigger] second[j]).status is Construction && conflict(
                    second[i],
                    second[j],
                );
            assert(first[j].status is Construction && conflict(first[i], first[j]));
        }
        if reserves_against(second, i) {
            let j = choose|j: int|
                i < j < second.len() && (#[trigger] second[j]).status.reserves() && conflict(
                    second[i],
                    second[j],
                );
            assert(first[j].status.reserves() && conflict(first[i], first[j]));
        }
        if builds_against(first, i) {
            let j = choose|j: int|
                i < j < first.len() && (#[trigger] first[j]).status is Construction && conflict(
                    first[i],
                    first[j],
                );
            assert(second[j].status is Construction && conflict(second[i], second[j]));
        }
        if reserves_against(first, i) {
            let j = choose|j: int|
                i < j < first.len() && (#[trigger] first[j]).status.reserves() && conflict(
                    first[i],
                    first[j],
                );
            assert(second[j].status.reserves() && conflict(second[i], second[j]));
        }
        assert(slot_fault(first, i) == slot_fault(second, i));
    }
}

proof fn lemma_region_fault(first: GameState, second: GameState)
    requires
        same_state(first, second),
    ensures
        region_fault(first) == region_fault(second),
{
    let a = first.region;
    let b = second.region;
    let here = a.rail_authority;
    let there = b.rail_authority;
    let projects = here.infrastructure_projects@;
    let count = projects.len() as int;
    assert(settlement_values(a.settlements@) =~= settlement_values(b.settlements@));
    lemma_population(a.settlements@, b.settlements@, a.settlements@.len() as int);
    assert(settlements_fault(a) == settlements_fault(b));
    assert forall|id: SettlementId| #[trigger]
        has_settlement(a.settlements@, id) == has_settlement(b.settlements@, id) by {
        lemma_has_settlement(a.settlements@, b.settlements@, id);
    }
    let stations = here.rail_network.rail_stations@;
    assert(stations_fault(stations, a.settlements@) == stations_fault(stations, b.settlements@));
    assert(project_values(projects) =~= project_values(there.infrastructure_projects@));
    lemma_commitments(projects, there.infrastructure_projects@, count);
    lemma_payloads_fault(here, there, a.settlements@, b.settlements@, count);
    lemma_slots_fault(projects, there.infrastructure_projects@, count);
    assert(projects_fault(here, a.settlements@) == projects_fault(there, b.settlements@));
    assert(finances_fault(here) == finances_fault(there));
}

/// Games that are the same, value by value, have the same fault, or none: whether a game may
/// enter the simulation is decided by what it holds.
pub proof fn same_games_have_the_same_fault(
    first: GameState,
    second: GameState,
    facts: SimulationFacts,
)
    requires
        same_state(first, second),
    ensures
        state_fault(first, facts) == state_fault(second, facts),
{
    lemma_region_fault(first, second);
    lemma_company_fault(first, second, facts);
}

/// What loads back of a valid game is that game, and is valid again.
pub proof fn valid_games_load_back(
    written: SaveRows,
    kept: Seq<ReceiptRow>,
    read: SaveRows,
    limit: nat,
    state: GameState,
    loaded: GameState,
    facts: SimulationFacts,
)
    requires
        state_written(written, state),
        state_wf(state),
        reread(written, kept, read),
        history_ends(kept, written.receipts@, limit),
        valid_game(state, facts),
        state_read(read, limit, loaded),
    ensures
        same_state(state, loaded),
        valid_game(loaded, facts),
{
    saved_games_load_back(written, kept, read, limit, state);
    same_games_have_the_same_fault(state, loaded, facts);
}

} // verus!
