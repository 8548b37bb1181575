//! Why a game is refused: each check that fails names what is wrong.

use vstd::prelude::*;

use super::fault::{identity_fault, SaveValidationError};
use super::journeys::{
    assignment_fault, journey_fault, progress_of, sequences_fault, train_fault, Progress,
};
use super::network::{
    finances_fault, line_fault, registration_fault, rules_fault, settlements_fault, stations_fault,
};
use super::projects::{
    funding_fault, lifecycle_fault, line_targets_fault, planned_station_fault, slot_fault,
    PayloadContext,
};
use super::services::{pool_fault, receipt_fault, service_fault, service_length};
use super::state::{company_fault, region_fault, state_fault};
use crate::model::company::{
    has_service, has_train, the_train, Fleet, Journey, JourneyReceipt, OriginDestinationDemand,
    PassengerService, ServiceAssignment, Train, TrainStatus,
};
use crate::model::facts::SimulationFacts;
use crate::model::ids::{is_version_four, RailLineId, RailStationId};
use crate::model::network::{
    has_settlement, has_station, RailLine, RailNetwork, RailStation, Settlement,
};
use crate::model::project::{conflict, InfrastructureProject, RailAuthority};
use crate::model::state::{GameState, Region};


verus! {

/// Repeated identities are told before improper ones, with the kind of thing they belong to.
pub proof fn identities_are_told_by_kind(values: Seq<u128>, kind: &'static str)
    ensures
        (exists|i: int, j: int|
            0 <= i < j < values.len() && #[trigger] values[i] == #[trigger] values[j])
            ==> identity_fault(values, kind) == Some(SaveValidationError::DuplicateId { kind }),
        !(exists|i: int, j: int|
            0 <= i < j < values.len() && #[trigger] values[i] == #[trigger] values[j]) && (exists|
            i: int,
        |
            0 <= i < values.len() && !is_version_four(#[trigger] values[i])) ==> identity_fault(
            values,
            kind,
        ) == Some(SaveValidationError::InvalidId { kind }),
{
}

/// Rules are refused for the first of them that is out of its domain.
pub proof fn rules_are_refused_by_name(state: GameState)
    ensures
        state.rules.balance.starting_company_funds.cents < 0 ==> rules_fault(state) == Some(
            SaveValidationError::InvalidValue { field: "starting Company Funds" },
        ),
        state.rules.balance.starting_company_funds.cents >= 0
            && state.rules.demand.cap_duration.seconds == 0 ==> rules_fault(state) == Some(
            SaveValidationError::InvalidValue { field: "demand cap duration" },
        ),
        state.rules.balance.starting_company_funds.cents >= 0
            && state.rules.demand.cap_duration.seconds > 0 ==> {
            let rules = state.rules.authority;
            &&& rules.request_queue_delay.seconds == 0 ==> rules_fault(state) == Some(
                SaveValidationError::InvalidValue { field: "Authority request queue delay" },
            )
            &&& rules.request_queue_delay.seconds > 0 && rules.review_duration.seconds == 0
                ==> rules_fault(state) == Some(
                SaveValidationError::InvalidValue { field: "Authority review duration" },
            )
            &&& rules.request_queue_delay.seconds > 0 && rules.review_duration.seconds > 0
                && rules.proposal_duration.seconds == 0 ==> rules_fault(state) == Some(
                SaveValidationError::InvalidValue { field: "Authority proposal duration" },
            )
        },
{
}

/// A registration is refused by its code, its mark or the Company's mark.
pub proof fn registrations_are_refused_by_name(state: GameState)
    ensures
        ({
            let registration = state.region.railway_registration;
            let code = 10 <= registration.numeric_code <= 99;
            &&& !code ==> registration_fault(state) == Some(
                SaveValidationError::InvalidValue { field: "Region railway registration code" },
            )
            &&& code && registration.mark@.len() != 2 ==> registration_fault(state) == Some(
                SaveValidationError::InvalidValue { field: "Region railway registration mark" },
            )
            &&& code && registration.mark@.len() == 2 && (forall|i: int|
                0 <= i < 2 ==> 'A' <= #[trigger] registration.mark@[i] <= 'Z')
                && state.player_company.vehicle_keeper_mark.mark@.len() < 2 ==> registration_fault(
                state,
            ) == Some(SaveValidationError::InvalidValue { field: "Player Company VKM" })
        }),
{
}

/// A Region's Population, a station without Settlement and a line without station are told.
pub proof fn regions_are_refused_by_name(
    region: Region,
    stations: Seq<RailStation>,
    settlements: Seq<Settlement>,
    line: RailLine,
    i: int,
)
    ensures
        identity_fault(super::network::settlement_values(region.settlements@), "Settlement") is None
            && super::network::population_of(
            region.settlements@,
            region.settlements@.len() as int,
        ) <= u64::MAX && super::network::population_of(
            region.settlements@,
            region.settlements@.len() as int,
        ) != region.population ==> settlements_fault(region) == Some(
            SaveValidationError::ImpossibleState {
                reason: "Region Population does not equal its Settlement Populations",
            },
        ),
        identity_fault(super::network::station_values(stations), "Rail Station") is None && 0 <= i
            < stations.len() && !has_settlement(settlements, stations[i].settlement_id)
            ==> stations_fault(stations, settlements) == Some(
            SaveValidationError::DanglingReference { field: "Rail Station Settlement" },
        ),
        !has_station(stations, line.first_station_id) || !has_station(
            stations,
            line.second_station_id,
        ) ==> line_fault(line, stations) == Some(
            SaveValidationError::DanglingReference { field: "Rail Line endpoint" },
        ),
        has_station(stations, line.first_station_id) && line.first_station_id
            == line.second_station_id ==> line_fault(line, stations) == Some(
            SaveValidationError::ImpossibleState {
                reason: "a Rail Line has the same Rail Station at both endpoints",
            },
        ),
{
}

/// Projects are refused for their money, their plans, their works or a conflict.
pub proof fn projects_are_refused_by_name(
    project: InfrastructureProject,
    projects: Seq<InfrastructureProject>,
    i: int,
    j: int,
)
    requires
        0 <= i < j < projects.len(),
    ensures
        project.funding.estimated_cost.cents < 0 || project.funding.authority_committed.cents < 0
            || project.funding.operator_contributed.cents < 0 ==> funding_fault(project) == Some(
            SaveValidationError::InvalidValue { field: "Infrastructure Project funding amount" },
        ),
        project.status is Scheduled && project.timeline.scheduled_start_at is None
            ==> lifecycle_fault(project) == Some(
            SaveValidationError::ImpossibleState {
                reason: "scheduled Infrastructure Project is not fully funded and scheduled",
            },
        ),
        project.status is Construction && project.timeline.scheduled_start_at is None
            && project.timeline.construction_started_at is Some ==> lifecycle_fault(project)
            == Some(
            SaveValidationError::ImpossibleState {
                reason: "Infrastructure Project under construction is missing construction timestamps",
            },
        ),
        project.status is Construction && project.timeline.scheduled_start_at is Some
            && project.timeline.construction_started_at is Some
            && project.timeline.planned_completion_at is Some
            && project.timeline.planned_completion_at->0.seconds
            <= project.timeline.construction_started_at->0.seconds ==> lifecycle_fault(project)
            == Some(
            SaveValidationError::ImpossibleState {
                reason: "Infrastructure Project has an invalid construction lifecycle",
            },
        ),
        lifecycle_fault(projects[i]) is None && projects[i].status is Construction
            && projects[j].status is Construction && conflict(projects[i], projects[j])
            ==> slot_fault(projects, i) == Some(
            SaveValidationError::ImpossibleState {
                reason: "conflicting Infrastructure Projects are simultaneously under construction",
            },
        ),
        lifecycle_fault(projects[i]) is None && projects[i].status is Scheduled
            && projects[j].status is Construction && conflict(projects[i], projects[j])
            ==> slot_fault(projects, i) == Some(
            SaveValidationError::ImpossibleState {
                reason: "conflicting Infrastructure Projects reserve construction at the same time",
            },
        ),
{
    assert(projects[j] == projects[j]);
    if projects[j].status is Construction {
        assert(projects[j].status.reserves());
    }
}

/// Targets of an upgrade are refused for being absent, repeated or unknown.
pub proof fn targets_are_refused_by_name(
    ids: Seq<RailLineId>,
    lines: Seq<RailLine>,
    context: PayloadContext,
    station: RailStation,
    i: int,
    j: int,
)
    ensures
        ids.len() == 0 ==> line_targets_fault(ids, lines) == Some(
            SaveValidationError::InvalidValue { field: "Infrastructure Project Rail Lines" },
        ),
        0 <= i < j < ids.len() && ids[i] == ids[j] ==> line_targets_fault(ids, lines) == Some(
            SaveValidationError::DuplicateId { kind: "Infrastructure Project Rail Line" },
        ),
        !is_version_four(station.id.value) ==> planned_station_fault(context, station) == Some(
            SaveValidationError::InvalidId { kind: "planned Rail Station" },
        ),
{
    let values = super::projects::line_id_values(ids);
    if 0 <= i < j < ids.len() {
        assert(values[i] == ids[i].value && values[j] == ids[j].value);
    }
}

/// An Authority is refused for its capacity, its works, its amounts or what exceeds its
/// treasury.
pub proof fn finances_are_refused_by_name(authority: RailAuthority)
    ensures
        authority.construction_capacity == 0 ==> finances_fault(authority) == Some(
            SaveValidationError::InvalidValue { field: "Rail Authority construction capacity" },
        ),
        authority.construction_capacity > 0 && authority.active() > authority.construction_capacity
            ==> finances_fault(authority) == Some(
            SaveValidationError::ImpossibleState {
                reason: "Rail Authority active construction exceeds its capacity",
            },
        ),
        authority.construction_capacity > 0 && authority.active()
            <= authority.construction_capacity && authority.reserved()
            > authority.construction_capacity ==> finances_fault(authority) == Some(
            SaveValidationError::ImpossibleState {
                reason: "Rail Authority scheduled and active construction exceeds its capacity",
            },
        ),
        authority.construction_capacity > 0 && authority.active()
            <= authority.construction_capacity && authority.reserved()
            <= authority.construction_capacity && authority.finances.treasury.cents < 0
            ==> finances_fault(authority) == Some(
            SaveValidationError::InvalidValue { field: "Rail Authority financial amount" },
        ),
{
}

/// A Service is refused for its numbers, its names, its stops or its path.
pub proof fn services_are_refused_by_name(
    services: Seq<PassengerService>,
    i: int,
    network: RailNetwork,
    facts: SimulationFacts,
)
    ensures
        services[i].forward_train_number < 100 ==> service_fault(services, i, network, facts)
            == Some(SaveValidationError::InvalidValue { field: "Passenger Service train number" }),
        services[i].forward_train_number >= 100 && !super::services::number_taken(
            services,
            i,
            services[i].forward_train_number,
        ) && services[i].direction_mode is BothDirections && services[i].reverse_train_number
            is None ==> service_fault(services, i, network, facts) == Some(
            SaveValidationError::InvalidValue { field: "Passenger Service reverse train number" },
        ),
        services[i].stop_station_ids@.len() < 2 ==> service_length(services[i], network, facts)
            == Err::<crate::model::units::DistanceMetres, SaveValidationError>(
            SaveValidationError::ImpossibleState {
                reason: "a Passenger Service must have at least two stops and a Rail Line path",
            },
        ),
{
}

/// Demand is refused for its stations, its direction or its numbers.
pub proof fn demand_is_refused_by_name(
    demand: Seq<OriginDestinationDemand>,
    i: int,
    stations: Seq<RailStation>,
    facts: SimulationFacts,
)
    ensures
        ({
            let pool = demand[i];
            let known = has_station(stations, pool.origin_station_id) && has_station(
                stations,
                pool.destination_station_id,
            );
            &&& !known ==> pool_fault(demand, i, stations, facts) == Some(
                SaveValidationError::DanglingReference { field: "origin-destination demand" },
            )
            &&& known && pool.origin_station_id == pool.destination_station_id ==> pool_fault(
                demand,
                i,
                stations,
                facts,
            ) == Some(
                SaveValidationError::ImpossibleState {
                    reason: "origin-destination demand has identical endpoints",
                },
            )
            &&& known && pool.origin_station_id != pool.destination_station_id && i == 0
                && pool.waiting_passengers > facts.waiting_cap(
                pool.origin_station_id,
                pool.destination_station_id,
            ) ==> pool_fault(demand, i, stations, facts) == Some(
                SaveValidationError::InvalidValue { field: "Waiting Passengers above demand cap" },
            )
        }),
{
}

/// A receipt is refused for its identity, its amounts or its context.
pub proof fn receipts_are_refused_by_name(
    receipts: Seq<JourneyReceipt>,
    i: int,
    stations: Seq<RailStation>,
)
    ensures
        !is_version_four(receipts[i].journey_id.value) ==> receipt_fault(receipts, i, stations)
            == Some(SaveValidationError::InvalidValue { field: "Journey receipt ID" }),
        is_version_four(receipts[i].journey_id.value) && i == 0 && receipts[i].revenue.cents < 0
            ==> receipt_fault(receipts, i, stations) == Some(
            SaveValidationError::InvalidValue { field: "Journey receipt amount" },
        ),
{
}

/// Trains, sequences and assignments are refused by what is wrong with them.
pub proof fn fleets_are_refused_by_name(
    fleet: Fleet,
    trains: Seq<Train>,
    i: int,
    code: u8,
    stations: Seq<RailStation>,
    journeys: Seq<Journey>,
    services: Seq<PassengerService>,
    assignment: ServiceAssignment,
    facts: SimulationFacts,
)
    ensures
        fleet.next_train_display_number == 0 ==> sequences_fault(fleet, facts) == Some(
            SaveValidationError::InvalidValue { field: "next Train display number" },
        ),
        !facts.catalogue.lists(trains[i].model_id.name@) ==> train_fault(
            trains,
            i,
            code,
            stations,
            journeys,
            facts,
        ) == Some(SaveValidationError::InvalidValue { field: "Train catalogue model reference" }),
        !has_train(trains, assignment.train_id) ==> assignment_fault(
            assignment,
            trains,
            services,
            journeys,
        ) == Some(
            SaveValidationError::DanglingReference {
                field: "Train Passenger Service assignment Train",
            },
        ),
        has_train(trains, assignment.train_id) && !has_service(services, assignment.service_id)
            ==> assignment_fault(assignment, trains, services, journeys) == Some(
            SaveValidationError::DanglingReference {
                field: "Train Passenger Service assignment Service",
            },
        ),
{
}

/// A Journey is refused for its Train, its Service, its ends or what it carries.
pub proof fn journeys_are_refused_by_name(
    state: GameState,
    journey: Journey,
    facts: SimulationFacts,
)
    ensures
        ({
            let trains = state.player_company.fleet.trains@;
            let services = state.player_company.passenger_services@;
            let stations = state.region.rail_authority.rail_network.rail_stations@;
            let train = has_train(trains, journey.train_id);
            let service = has_service(services, journey.service_id);
            let ends = has_station(stations, journey.origin_station_id) && has_station(
                stations,
                journey.destination_station_id,
            );
            &&& !train ==> journey_fault(state, journey, facts) == Some(
                SaveValidationError::DanglingReference { field: "Journey Train" },
            )
            &&& train && !service ==> journey_fault(state, journey, facts) == Some(
                SaveValidationError::DanglingReference { field: "Journey Passenger Service" },
            )
            &&& train && service && !ends ==> journey_fault(state, journey, facts) == Some(
                SaveValidationError::DanglingReference { field: "Journey endpoint" },
            )
            &&& train && service && ends && the_train(trains, journey.train_id).status != (
            TrainStatus::Travelling { journey_id: journey.id }) ==> journey_fault(
                state,
                journey,
                facts,
            ) == Some(
                SaveValidationError::ImpossibleState {
                    reason: "a Journey's Train is not travelling on that Journey",
                },
            )
        }),
{
}

/// A Journey's place on its Service is refused for a Service without stops, for ends that are
/// not the Service's, and where no stop is ahead.
pub proof fn places_are_refused_by_name(journey: Journey, stops: Seq<RailStationId>)
    ensures
        stops.len() == 0 ==> progress_of(journey, stops) == Err::<Progress, SaveValidationError>(
            SaveValidationError::ImpossibleState {
                reason: "Journey references a Passenger Service without an origin",
            },
        ),
        stops.len() > 0 && journey.origin_station_id == stops[0] && journey.destination_station_id
            == stops.last() && journey.current_stop_index + 1 >= stops.len() ==> progress_of(
            journey,
            stops,
        ) == Err::<Progress, SaveValidationError>(
            SaveValidationError::ImpossibleState {
                reason: "Journey current Service stop cannot advance",
            },
        ),
        stops.len() > 0 && journey.origin_station_id != stops[0] && journey.origin_station_id
            != stops.last() ==> progress_of(journey, stops) == Err::<Progress, SaveValidationError>(
            SaveValidationError::ImpossibleState {
                reason: "Journey endpoints do not match its Passenger Service",
            },
        ),
{
}

/// What is wrong with the Region is told before what is wrong with the Company.
pub proof fn regions_are_judged_before_companies(state: GameState, facts: SimulationFacts)
    ensures
        region_fault(state) is Some ==> state_fault(state, facts) == region_fault(state),
        region_fault(state) is None ==> state_fault(state, facts) == company_fault(state, facts),
        rules_fault(state) is Some ==> region_fault(state) == rules_fault(state),
        rules_fault(state) is None && registration_fault(state) is Some ==> region_fault(state)
            == registration_fault(state),
{
}

} // verus!
