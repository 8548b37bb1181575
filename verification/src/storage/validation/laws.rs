//! Which games are consistent: every part of a game is accepted exactly if what it says holds
//! together.

use vstd::prelude::*;

use super::fault::SaveValidationError;
use super::journeys::{
    assignment_fault, assignments_fault, booking_fault,
    group_fault, group_totals, has_pool, journey_fault, journeys_fault,
    next_unit, progress_of, sequenced, sequences_fault,
    stop_distance, train_fault, trains_fault, unit_fault, units_fault, JourneyContext, Progress,
};
use super::network::{
    endpoint_fault, finances_fault, lines_fault, population_of, registration_fault, rules_fault,
    settlements_fault, stations_fault,
};
use super::projects::{
    commitments, context_of, funding_fault, lifecycle_fault, line_targets_fault, payload_fault,
    payloads_fault, planned_line_fault, planned_lines_fault, planned_station_fault,
    planned_stations_fault, slot_fault, slots_fault, station_targets_fault, PayloadContext,
};
use super::services::{
    demand_fault, path_length, pool_fault, receipt_fault, receipts_fault, service_fault,
    service_length, services_fault,
};
use super::state::valid_game;
use crate::model::company::{
    group_passengers, has_journey, has_service, has_train, the_journey, the_service, the_train,
    Fleet, Journey, JourneyPassengerGroup, JourneyReceipt, ModelUnitSequence,
    OriginDestinationDemand, PassengerService, ServiceAssignment, Train, TrainStatus,
};
use crate::model::facts::SimulationFacts;
use crate::model::identity::{
    is_vehicle_number, vehicle_registration, vehicle_series, vehicle_type, vehicle_unit,
};
use crate::model::ids::{display_number, is_version_four, RailLineId, RailStationId};
use crate::model::network::{
    has_line, has_settlement, has_station, line_index, RailLine, RailNetwork, RailStation,
    Settlement,
};
use crate::model::project::{
    conflict, InfrastructureProject, InfrastructureProjectKind, RailAuthority,
};
use crate::model::state::{GameState, Region};
use crate::model::units::{charge, CalculationError, Money};
use crate::text::{control, trimmed};

verus! {

/// Rules are consistent exactly if the starting funds are not negative and nothing that takes
/// time, distance or a slot is zero.
pub proof fn consistent_rules(state: GameState)
    ensures
        rules_fault(state) is None <==> {
            let rules = state.rules.authority;
            &&& state.rules.balance.starting_company_funds.cents >= 0
            &&& state.rules.demand.cap_duration.seconds > 0
            &&& rules.request_queue_delay.seconds > 0
            &&& rules.review_duration.seconds > 0
            &&& rules.proposal_duration.seconds > 0
            &&& rules.council_request_cooldown.seconds > 0
            &&& rules.deferred_reconsideration_delay.seconds > 0
            &&& rules.construction_mobilisation_delay.seconds > 0
            &&& rules.new_line_base_construction_duration.seconds > 0
            &&& rules.low_difficulty_seconds_per_kilometre > 0
            &&& rules.moderate_difficulty_seconds_per_kilometre > 0
            &&& rules.high_difficulty_seconds_per_kilometre > 0
            &&& rules.max_active_expansion_projects > 0
        },
{
}

/// A registration is consistent exactly if its code has two digits, its mark two capital
/// letters, and the Company's mark two to five.
pub proof fn consistent_registrations(state: GameState)
    ensures
        registration_fault(state) is None <==> {
            let registration = state.region.railway_registration;
            let mark = state.player_company.vehicle_keeper_mark.mark@;
            &&& 10 <= registration.numeric_code <= 99
            &&& registration.mark@.len() == 2
            &&& forall|i: int|
                0 <= i < registration.mark@.len() ==> 'A' <= #[trigger] registration.mark@[i]
                    <= 'Z'
            &&& 2 <= mark.len() <= 5
            &&& forall|i: int| 0 <= i < mark.len() ==> 'A' <= #[trigger] mark[i] <= 'Z'
        },
{
}

/// Settlements are consistent exactly if their identities are proper and differ, and the
/// Region's Population is all of theirs together.
pub proof fn consistent_settlements(region: Region)
    ensures
        settlements_fault(region) is None <==> {
            let settlements = region.settlements@;
            &&& forall|i: int, j: int|
                0 <= i < j < settlements.len() ==> (#[trigger] settlements[i]).id != (
                #[trigger] settlements[j]).id
            &&& forall|i: int|
                0 <= i < settlements.len() ==> is_version_four((#[trigger] settlements[i]).id.value)
            &&& population_of(settlements, settlements.len() as int) == region.population
        },
{
    let settlements = region.settlements@;
    let values = super::network::settlement_values(settlements);
    assert(forall|i: int| 0 <= i < settlements.len() ==> values[i] == (#[trigger] settlements[i]).id.value);
    assert(forall|i: int| 0 <= i < settlements.len() ==> #[trigger] values[i] == settlements[i].id.value);
}

proof fn lemma_population(settlements: Seq<Settlement>, settlement: Settlement, count: int)
    requires
        0 <= count <= settlements.len(),
    ensures
        population_of(settlements.push(settlement), count) == population_of(settlements, count),
    decreases count,
{
    if count > 0 {
        lemma_population(settlements, settlement, count - 1);
        assert(settlements.push(settlement)[count - 1] == settlements[count - 1]);
    }
}

/// Populations add up: a Settlement adds its own.
pub proof fn populations_add_up(settlements: Seq<Settlement>, settlement: Settlement)
    ensures
        population_of(Seq::empty(), 0) == 0,
        population_of(settlements.push(settlement), (settlements.len() + 1) as int)
            == population_of(settlements, settlements.len() as int) + settlement.population,
{
    lemma_population(settlements, settlement, settlements.len() as int);
    assert(settlements.push(settlement)[settlements.len() as int] == settlement);
}

/// Stations are consistent exactly if their identities are proper and differ, and each stands
/// in a Settlement of its own.
pub proof fn consistent_stations(stations: Seq<RailStation>, settlements: Seq<Settlement>)
    ensures
        stations_fault(stations, settlements) is None <==> {
            &&& forall|i: int, j: int|
                0 <= i < j < stations.len() ==> (#[trigger] stations[i]).id != (
                #[trigger] stations[j]).id
            &&& forall|i: int|
                0 <= i < stations.len() ==> is_version_four((#[trigger] stations[i]).id.value)
            &&& forall|i: int|
                0 <= i < stations.len() ==> has_settlement(
                    settlements,
                    (#[trigger] stations[i]).settlement_id,
                )
            &&& forall|i: int, j: int|
                0 <= i < j < stations.len() ==> (#[trigger] stations[i]).settlement_id != (
                #[trigger] stations[j]).settlement_id
        },
{
    let values = super::network::station_values(stations);
    assert(forall|i: int| 0 <= i < stations.len() ==> values[i] == (#[trigger] stations[i]).id.value);
    assert(forall|i: int| 0 <= i < stations.len() ==> #[trigger] values[i] == stations[i].id.value);
}

proof fn lemma_endpoints(lines: Seq<RailLine>, stations: Seq<RailStation>, count: int)
    requires
        0 <= count <= lines.len(),
    ensures
        endpoint_fault(lines, stations, count) is None <==> forall|i: int|
            0 <= i < count ==> {
                &&& has_station(stations, (#[trigger] lines[i]).first_station_id)
                &&& has_station(stations, lines[i].second_station_id)
                &&& lines[i].first_station_id != lines[i].second_station_id
            },
    decreases count,
{
    if count > 0 {
        lemma_endpoints(lines, stations, count - 1);
    }
}

/// Lines are consistent exactly if their identities are proper and differ, and each joins two
/// stations of the network.
pub proof fn consistent_lines(lines: Seq<RailLine>, stations: Seq<RailStation>)
    ensures
        lines_fault(lines, stations) is None <==> {
            &&& forall|i: int, j: int|
                0 <= i < j < lines.len() ==> (#[trigger] lines[i]).id != (#[trigger] lines[j]).id
            &&& forall|i: int|
                0 <= i < lines.len() ==> is_version_four((#[trigger] lines[i]).id.value)
            &&& forall|i: int|
                0 <= i < lines.len() ==> {
                    &&& has_station(stations, (#[trigger] lines[i]).first_station_id)
                    &&& has_station(stations, lines[i].second_station_id)
                    &&& lines[i].first_station_id != lines[i].second_station_id
                }
        },
{
    let values = super::network::line_values(lines);
    assert(forall|i: int| 0 <= i < lines.len() ==> values[i] == (#[trigger] lines[i]).id.value);
    assert(forall|i: int| 0 <= i < lines.len() ==> #[trigger] values[i] == lines[i].id.value);
    lemma_endpoints(lines, stations, lines.len() as int);
}

/// An Authority's finances are consistent exactly if no amount is negative, what is set aside
/// and what is carried over lie in the treasury, and its works fit its capacity.
pub proof fn consistent_finances(authority: RailAuthority)
    ensures
        finances_fault(authority) is None <==> {
            let finances = authority.finances;
            &&& authority.construction_capacity > 0
            &&& authority.active() <= authority.construction_capacity
            &&& authority.reserved() <= authority.construction_capacity
            &&& finances.maintenance_reserve.cents >= 0
            &&& finances.committed_investment.cents >= 0
            &&& finances.carried_over_funds.cents >= 0
            &&& finances.regional_public_allocation.cents >= 0
            &&& finances.infrastructure_access_fee_revenue.cents >= 0
            &&& finances.treasury.cents >= 0
            &&& finances.maintenance_reserve.cents + finances.committed_investment.cents
                <= finances.treasury.cents
            &&& finances.carried_over_funds.cents <= finances.treasury.cents
        },
{
}

/// A project's funding is consistent exactly if no amount is negative, the money raised does
/// not exceed the cost nor the operator's part a fifth of it, and a discount of up to the whole
/// fee goes to a contributor.
pub proof fn consistent_funding(project: InfrastructureProject)
    ensures
        funding_fault(project) is None <==> {
            let funding = project.funding;
            &&& funding.estimated_cost.cents >= 0
            &&& funding.authority_committed.cents >= 0
            &&& funding.operator_contributed.cents >= 0
            &&& funding.authority_committed.cents + funding.operator_contributed.cents
                <= funding.estimated_cost.cents
            &&& 5 * funding.operator_contributed.cents <= funding.estimated_cost.cents
            &&& funding.access_fee_discount is Some ==> {
                &&& 0 < funding.access_fee_discount->0.basis_points <= 10_000
                &&& funding.operator_contributed.cents > 0
            }
        },
{
}

/// A project's lifecycle is consistent exactly if what is scheduled is funded and has a start,
/// and what is under construction is funded and has all of its times in order, or none.
pub proof fn consistent_lifecycles(project: InfrastructureProject)
    requires
        project.funding.authority_committed.cents >= 0,
        project.funding.operator_contributed.cents >= 0,
        project.funding.authority_committed.cents + project.funding.operator_contributed.cents
            <= i64::MAX,
    ensures
        lifecycle_fault(project) is None <==> {
            let timeline = project.timeline;
            let raised = project.funding.authority_committed.cents
                + project.funding.operator_contributed.cents;
            &&& project.status is Scheduled || project.status is Construction ==> raised
                >= project.funding.estimated_cost.cents
            &&& project.status is Scheduled ==> timeline.funding_completed_at is Some
                && timeline.scheduled_start_at is Some
            &&& project.status is Construction ==> {
                ||| timeline.scheduled_start_at is None && timeline.construction_started_at is None
                    && timeline.planned_completion_at is None
                ||| timeline.scheduled_start_at is Some && timeline.construction_started_at is Some
                    && timeline.planned_completion_at is Some && timeline.funding_completed_at
                    is Some && timeline.scheduled_start_at->0.seconds
                    <= timeline.construction_started_at->0.seconds
                    < timeline.planned_completion_at->0.seconds
            }
        },
{
}

proof fn lemma_slots(projects: Seq<InfrastructureProject>, count: int)
    requires
        0 <= count <= projects.len(),
    ensures
        slots_fault(projects, count) is None <==> forall|i: int|
            0 <= i < count ==> slot_fault(projects, i) is None && #[trigger] projects[i]
                == projects[i],
    decreases count,
{
    if count > 0 {
        lemma_slots(projects, count - 1);
        assert(projects[count - 1] == projects[count - 1]);
    }
}

/// Construction is consistent exactly if every lifecycle is and no two projects that are
/// scheduled or under construction conflict.
pub proof fn consistent_construction(projects: Seq<InfrastructureProject>)
    ensures
        slots_fault(projects, projects.len() as int) is None <==> {
            &&& forall|i: int|
                0 <= i < projects.len() ==> lifecycle_fault(#[trigger] projects[i]) is None
            &&& forall|i: int, j: int|
                0 <= i < j < projects.len() && ((#[trigger] projects[i]).status is Scheduled
                    || projects[i].status is Construction) && ((#[trigger] projects[j]).status
                    is Scheduled || projects[j].status is Construction) ==> !conflict(
                    projects[i],
                    projects[j],
                )
        },
{
    lemma_slots(projects, projects.len() as int);
    if slots_fault(projects, projects.len() as int) is None {
        assert forall|i: int| 0 <= i < projects.len() implies lifecycle_fault(#[trigger] projects[i])
            is None by {
            assert(slot_fault(projects, i) is None);
        }
        assert forall|i: int, j: int|
            0 <= i < j < projects.len() && ((#[trigger] projects[i]).status is Scheduled
                || projects[i].status is Construction) && ((#[trigger] projects[j]).status
                is Scheduled || projects[j].status is Construction) implies !conflict(
            projects[i],
            projects[j],
        ) by {
            assert(slot_fault(projects, i) is None);
            assert(projects[j].status.reserves());
        }
    } else {
        let i = choose|i: int| 0 <= i < projects.len() && slot_fault(projects, i) is Some
            && #[trigger] projects[i] == projects[i];
        assert(slot_fault(projects, i) is Some);
    }
}

/// Two projects conflict exactly if some line or some station is the work of both.
pub proof fn conflicts_share_a_work(
    first: InfrastructureProject,
    second: InfrastructureProject,
    line: RailLineId,
    station: RailStationId,
)
    ensures
        crate::model::project::touches_line(first.kind, line)
            && crate::model::project::touches_line(second.kind, line) ==> conflict(first, second),
        crate::model::project::touches_station(first.kind, station)
            && crate::model::project::touches_station(second.kind, station) ==> conflict(
            first,
            second,
        ),
        first.kind matches InfrastructureProjectKind::Renewal { rail_line_ids } ==> (
        crate::model::project::touches_line(first.kind, line) <==> rail_line_ids@.contains(line)),
        first.kind matches InfrastructureProjectKind::Electrification { rail_line_ids } ==> (
        crate::model::project::touches_line(first.kind, line) <==> rail_line_ids@.contains(line)),
        first.kind matches InfrastructureProjectKind::SpeedUpgrade { rail_line_ids, .. } ==> (
        crate::model::project::touches_line(first.kind, line) <==> rail_line_ids@.contains(line)),
        first.kind matches InfrastructureProjectKind::DoubleTracking { rail_line_ids, .. } ==> (
        crate::model::project::touches_line(first.kind, line) <==> rail_line_ids@.contains(line)),
        first.kind matches InfrastructureProjectKind::StationUpgrade { rail_station_ids } ==> (
        crate::model::project::touches_station(first.kind, station)
            <==> rail_station_ids@.contains(station)),
        first.kind matches InfrastructureProjectKind::NewLine { planned_stations, planned_lines }
            ==> (crate::model::project::touches_station(first.kind, station) <==> has_station(
            planned_stations@,
            station,
        )) && (crate::model::project::touches_line(first.kind, line) <==> has_line(
            planned_lines@,
            line,
        )),
{
}

proof fn lemma_commitments(projects: Seq<InfrastructureProject>, count: int)
    requires
        0 <= count <= projects.len(),
    ensures
        commitments(projects, count) is Ok ==> commitments(projects, count)->Ok_0.cents == bound(
            projects,
            count,
        ) && forall|i: int| 0 <= i < count ==> funding_fault(#[trigger] projects[i]) is None,
        (forall|i: int| 0 <= i < count ==> funding_fault(#[trigger] projects[i]) is None) && bound(
            projects,
            count,
        ) <= i64::MAX ==> commitments(projects, count) is Ok,
        (forall|i: int| 0 <= i < count ==> funding_fault(#[trigger] projects[i]) is None) ==> bound(
            projects,
            count,
        ) >= 0,
    decreases count,
{
    if count > 0 {
        lemma_commitments(projects, count - 1);
        if commitments(projects, count) is Ok {
            assert(funding_fault(projects[count - 1]) is None);
        }
    }
}

/// The Authority's money in projects that are not finished, refused or cancelled.
pub open spec fn bound(projects: Seq<InfrastructureProject>, count: int) -> int
    decreases count,
{
    if count <= 0 {
        0
    } else {
        let project = projects[count - 1];
        bound(projects, count - 1) + if project.status is Open || project.status is Rejected
            || project.status is Cancelled {
            0
        } else {
            project.funding.authority_committed.cents as int
        }
    }
}

/// Commitments are consistent exactly if each project's funding is, and the Authority's money
/// in unfinished projects is within what it has committed.
pub proof fn consistent_commitments(projects: Seq<InfrastructureProject>, committed: Money)
    requires
        committed.cents >= 0,
    ensures
        (commitments(projects, projects.len() as int) matches Ok(total) && total.cents
            <= committed.cents) <==> {
            &&& forall|i: int|
                0 <= i < projects.len() ==> funding_fault(#[trigger] projects[i]) is None
            &&& bound(projects, projects.len() as int) <= committed.cents
        },
{
    lemma_commitments(projects, projects.len() as int);
}

/// What an upgrade names is consistent exactly if it names something, nothing twice, and only
/// what the network has.
pub proof fn consistent_targets(
    lines: Seq<RailLineId>,
    network_lines: Seq<RailLine>,
    stations: Seq<RailStationId>,
    network_stations: Seq<RailStation>,
)
    ensures
        line_targets_fault(lines, network_lines) is None <==> lines.len() > 0 && (forall|
            i: int,
            j: int,
        |
            0 <= i < j < lines.len() ==> #[trigger] lines[i] != #[trigger] lines[j]) && (forall|
            i: int,
        |
            0 <= i < lines.len() ==> has_line(network_lines, #[trigger] lines[i])),
        station_targets_fault(stations, network_stations) is None <==> stations.len() > 0 && (
        forall|i: int, j: int|
            0 <= i < j < stations.len() ==> #[trigger] stations[i] != #[trigger] stations[j]) && (
        forall|i: int|
            0 <= i < stations.len() ==> has_station(network_stations, #[trigger] stations[i])),
{
    let a = super::projects::line_id_values(lines);
    let b = super::projects::station_id_values(stations);
    assert(forall|i: int| 0 <= i < lines.len() ==> a[i] == (#[trigger] lines[i]).value);
    assert(forall|i: int| 0 <= i < lines.len() ==> #[trigger] a[i] == lines[i].value);
    assert(forall|i: int| 0 <= i < stations.len() ==> b[i] == (#[trigger] stations[i]).value);
    assert(forall|i: int| 0 <= i < stations.len() ==> #[trigger] b[i] == stations[i].value);
}

proof fn lemma_planned_stations(context: PayloadContext, planned: Seq<RailStation>, count: int)
    requires
        0 <= count <= planned.len(),
    ensures
        planned_stations_fault(context, planned, count) is None <==> forall|i: int|
            0 <= i < count ==> planned_station_fault(context, #[trigger] planned[i]) is None,
    decreases count,
{
    if count > 0 {
        lemma_planned_stations(context, planned, count - 1);
    }
}

proof fn lemma_planned_lines(
    context: PayloadContext,
    planned: Seq<RailStation>,
    lines: Seq<RailLine>,
    count: int,
)
    requires
        0 <= count <= lines.len(),
    ensures
        planned_lines_fault(context, planned, lines, count) is None <==> forall|i: int|
            0 <= i < count ==> planned_line_fault(context, planned, #[trigger] lines[i]) is None,
    decreases count,
{
    if count > 0 {
        lemma_planned_lines(context, planned, lines, count - 1);
    }
}

/// A planned station is consistent exactly if its identity is proper, is not planned by an
/// earlier project, and is in the network only if the project is open, and its Settlement
/// exists; a planned line likewise, and it joins two stations that exist or are planned with it.
pub proof fn consistent_plans(
    context: PayloadContext,
    planned: Seq<RailStation>,
    station: RailStation,
    line: RailLine,
)
    ensures
        planned_station_fault(context, station) is None <==> {
            &&& is_version_four(station.id.value)
            &&& context.projects[context.index].status is Open || !has_station(
                context.stations,
                station.id,
            )
            &&& forall|j: int|
                0 <= j < context.index ==> !((
                #[trigger] context.projects[j]).kind matches InfrastructureProjectKind::NewLine {
                    planned_stations,
                    ..
                } && has_station(planned_stations@, station.id))
            &&& has_settlement(context.settlements, station.settlement_id)
        },
        planned_line_fault(context, planned, line) is None <==> {
            &&& is_version_four(line.id.value)
            &&& context.projects[context.index].status is Open || !has_line(context.lines, line.id)
            &&& forall|j: int|
                0 <= j < context.index ==> !((
                #[trigger] context.projects[j]).kind matches InfrastructureProjectKind::NewLine {
                    planned_lines,
                    ..
                } && has_line(planned_lines@, line.id))
            &&& has_station(context.stations, line.first_station_id) || has_station(
                planned,
                line.first_station_id,
            )
            &&& has_station(context.stations, line.second_station_id) || has_station(
                planned,
                line.second_station_id,
            )
            &&& line.first_station_id != line.second_station_id
        },
{
}

/// What a project builds is consistent exactly if a new line has lines, all of whose plans are
/// consistent and differ, and every upgrade names consistent targets.
pub proof fn consistent_payloads(context: PayloadContext)
    ensures
        context.projects[context.index].kind matches InfrastructureProjectKind::NewLine {
            planned_stations,
            planned_lines,
        } ==> (payload_fault(context) is None <==> {
            let stations = planned_stations@;
            let lines = planned_lines@;
            &&& lines.len() > 0
            &&& forall|i: int, j: int|
                0 <= i < j < stations.len() ==> (#[trigger] stations[i]).id != (
                #[trigger] stations[j]).id
            &&& forall|i: int, j: int|
                0 <= i < j < lines.len() ==> (#[trigger] lines[i]).id != (#[trigger] lines[j]).id
            &&& forall|i: int|
                0 <= i < stations.len() ==> planned_station_fault(context, #[trigger] stations[i])
                    is None
            &&& forall|i: int|
                0 <= i < lines.len() ==> planned_line_fault(context, stations, #[trigger] lines[i])
                    is None
        }),
        context.projects[context.index].kind matches InfrastructureProjectKind::SpeedUpgrade {
            rail_line_ids,
            ..
        } ==> payload_fault(context) == line_targets_fault(rail_line_ids@, context.lines),
        context.projects[context.index].kind matches InfrastructureProjectKind::DoubleTracking {
            rail_line_ids,
            ..
        } ==> payload_fault(context) == line_targets_fault(rail_line_ids@, context.lines),
        context.projects[context.index].kind matches InfrastructureProjectKind::Electrification {
            rail_line_ids,
        } ==> payload_fault(context) == line_targets_fault(rail_line_ids@, context.lines),
        context.projects[context.index].kind matches InfrastructureProjectKind::Renewal {
            rail_line_ids,
        } ==> payload_fault(context) == line_targets_fault(rail_line_ids@, context.lines),
        context.projects[context.index].kind matches InfrastructureProjectKind::StationUpgrade {
            rail_station_ids,
        } ==> payload_fault(context) == station_targets_fault(rail_station_ids@, context.stations),
{
    if let InfrastructureProjectKind::NewLine { planned_stations, planned_lines } =
        context.projects[context.index].kind {
        let stations = planned_stations@;
        let lines = planned_lines@;
        let a = super::network::station_values(stations);
        let b = super::network::line_values(lines);
        assert(forall|i: int| 0 <= i < stations.len() ==> a[i] == (#[trigger] stations[i]).id.value);
        assert(forall|i: int| 0 <= i < stations.len() ==> #[trigger] a[i] == stations[i].id.value);
        assert(forall|i: int| 0 <= i < lines.len() ==> b[i] == (#[trigger] lines[i]).id.value);
        assert(forall|i: int| 0 <= i < lines.len() ==> #[trigger] b[i] == lines[i].id.value);
        lemma_planned_stations(context, stations, stations.len() as int);
        lemma_planned_lines(context, stations, lines, lines.len() as int);
    }
}

/// A Service is consistent exactly if its train numbers are three digits or more and no earlier
/// Service's, it has a return number exactly where it runs both ways, it has a name, its stops
/// exist, and its lines are those between its stops, with a length.
pub proof fn consistent_services(
    services: Seq<PassengerService>,
    i: int,
    network: RailNetwork,
    facts: SimulationFacts,
)
    ensures
        service_fault(services, i, network, facts) is None <==> {
            let service = services[i];
            &&& service.forward_train_number >= 100
            &&& service.direction_mode is BothDirections <==> service.reverse_train_number is Some
            &&& service.reverse_train_number is Some ==> service.reverse_train_number->0 >= 100
                && service.reverse_train_number->0 != service.forward_train_number
            &&& forall|j: int|
                0 <= j < i ==> {
                    &&& (#[trigger] services[j]).forward_train_number
                        != service.forward_train_number
                    &&& services[j].reverse_train_number != Some(service.forward_train_number)
                    &&& Some(services[j].forward_train_number) != service.reverse_train_number
                    &&& service.reverse_train_number is Some ==> services[j].reverse_train_number
                        != service.reverse_train_number
                }
            &&& trimmed(service.name@).len() > 0
            &&& service.custom_name is Some ==> {
                let name = service.custom_name->0@;
                &&& 1 <= name.len() <= 32
                &&& trimmed(name) == name
                &&& forall|k: int| 0 <= k < name.len() ==> !control(#[trigger] name[k])
            }
            &&& forall|k: int|
                0 <= k < service.stop_station_ids@.len() ==> has_station(
                    network.rail_stations@,
                    #[trigger] service.stop_station_ids@[k],
                )
            &&& service_length(service, network, facts) is Ok
        },
{
}

/// A Service has a length exactly if it has two stops and a line, its lines exist and are the
/// path between its stops, and they have a length that fits; the length is theirs together.
pub proof fn consistent_paths(
    service: PassengerService,
    network: RailNetwork,
    facts: SimulationFacts,
)
    ensures
        service_length(service, network, facts) matches Ok(length) ==> {
            let lines = service.rail_line_ids@;
            &&& service.stop_station_ids@.len() >= 2
            &&& lines.len() >= 1
            &&& facts.path(service.stop_station_ids@) == Some(lines)
            &&& forall|i: int|
                0 <= i < lines.len() ==> has_line(network.rail_lines@, #[trigger] lines[i])
            &&& length.metres == metres_of(network.rail_lines@, lines, lines.len() as int)
            &&& 0 < length.metres <= i64::MAX
        },
        service.stop_station_ids@.len() >= 2 && service.rail_line_ids@.len() >= 1 && facts.path(
            service.stop_station_ids@,
        ) == Some(service.rail_line_ids@) && (forall|i: int|
            0 <= i < service.rail_line_ids@.len() ==> has_line(
                network.rail_lines@,
                #[trigger] service.rail_line_ids@[i],
            )) && 0 < metres_of(
            network.rail_lines@,
            service.rail_line_ids@,
            service.rail_line_ids@.len() as int,
        ) <= i64::MAX ==> service_length(service, network, facts) is Ok,
{
    let lines = service.rail_line_ids@;
    lemma_metres(
        network.rail_lines@,
        lines,
        lines.len() as int,
        "Passenger Service path distance",
    );
}

/// The length of the first `count` lines of a path.
pub open spec fn metres_of(lines: Seq<RailLine>, ids: Seq<RailLineId>, count: int) -> int
    decreases count,
{
    if count <= 0 {
        0
    } else {
        metres_of(lines, ids, count - 1) + lines[line_index(lines, ids[count - 1])].distance.metres
    }
}

proof fn lemma_metres(
    lines: Seq<RailLine>,
    ids: Seq<RailLineId>,
    count: int,
    operation: &'static str,
)
    requires
        0 <= count <= ids.len(),
    ensures
        metres_of(lines, ids, count) >= 0,
        path_length(lines, ids, count, operation) matches Ok(total) ==> total == metres_of(
            lines,
            ids,
            count,
        ),
        (forall|i: int| 0 <= i < count ==> has_line(lines, #[trigger] ids[i])) && metres_of(
            lines,
            ids,
            count,
        ) <= u64::MAX ==> path_length(lines, ids, count, operation) is Ok,
    decreases count,
{
    if count > 0 {
        lemma_metres(lines, ids, count - 1, operation);
    }
}

/// Demand is consistent exactly if its stations exist and differ, its direction has no earlier
/// pool, no more wait than may, and part of a passenger is on the way only below that.
pub proof fn consistent_demand(
    demand: Seq<OriginDestinationDemand>,
    i: int,
    stations: Seq<RailStation>,
    facts: SimulationFacts,
)
    ensures
        pool_fault(demand, i, stations, facts) is None <==> {
            let pool = demand[i];
            let cap = facts.waiting_cap(pool.origin_station_id, pool.destination_station_id);
            &&& has_station(stations, pool.origin_station_id)
            &&& has_station(stations, pool.destination_station_id)
            &&& pool.origin_station_id != pool.destination_station_id
            &&& forall|j: int|
                0 <= j < i ==> (#[trigger] demand[j]).origin_station_id != pool.origin_station_id
                    || demand[j].destination_station_id != pool.destination_station_id
            &&& pool.waiting_passengers <= cap
            &&& pool.waiting_passengers == cap ==> pool.fractional_passenger_seconds == 0
            &&& pool.fractional_passenger_seconds < 3_600
        },
{
}

/// A receipt is consistent exactly if its identity is proper and no earlier receipt's, its
/// amounts are not negative and its costs fit, and it tells all of its context or nothing of it.
pub proof fn consistent_receipts(
    receipts: Seq<JourneyReceipt>,
    i: int,
    stations: Seq<RailStation>,
)
    ensures
        receipt_fault(receipts, i, stations) is None <==> {
            let receipt = receipts[i];
            &&& is_version_four(receipt.journey_id.value)
            &&& forall|j: int|
                0 <= j < i ==> (#[trigger] receipts[j]).journey_id != receipt.journey_id
            &&& receipt.revenue.cents >= 0
            &&& receipt.infrastructure_access_fee.cents >= 0
            &&& receipt.fuel_cost.cents >= 0
            &&& receipt.infrastructure_access_fee.cents + receipt.fuel_cost.cents <= i64::MAX
            &&& {
                ||| receipt.train_id is None && receipt.train_model_name is None
                    && receipt.origin_station_id is None && receipt.destination_station_id is None
                    && receipt.passengers_carried is None && receipt.passenger_capacity is None
                    && receipt.completed_at is None
                ||| receipt.train_id is Some && receipt.train_model_name is Some
                    && receipt.origin_station_id is Some && receipt.destination_station_id is Some
                    && receipt.passengers_carried is Some && receipt.passenger_capacity is Some
                    && receipt.completed_at is Some && is_version_four(receipt.train_id->0.value)
                    && trimmed(receipt.train_model_name->0@).len() > 0
                    && receipt.origin_station_id->0 != receipt.destination_station_id->0
                    && has_station(stations, receipt.origin_station_id->0) && has_station(
                    stations,
                    receipt.destination_station_id->0,
                ) && receipt.passenger_capacity->0 > 0
            }
        },
{
}

/// A Train is consistent exactly if its model is in the catalogue, it was paid for, its vehicle
/// number is proper, its own and that of its model and Region, and it stands at a station that
/// exists or travels alone on a Journey that is under way.
pub proof fn consistent_trains(
    trains: Seq<Train>,
    i: int,
    code: u8,
    stations: Seq<RailStation>,
    journeys: Seq<Journey>,
    facts: SimulationFacts,
)
    ensures
        train_fault(trains, i, code, stations, journeys, facts) is None <==> {
            let train = trains[i];
            let number = train.evn.digits@;
            let model = facts.catalogue.model(train.model_id.name@);
            &&& facts.catalogue.lists(train.model_id.name@)
            &&& trimmed(train.model_id.name@).len() > 0
            &&& train.original_purchase_price.cents > 0
            &&& is_vehicle_number(number)
            &&& forall|j: int| 0 <= j < i ==> (#[trigger] trains[j]).evn.digits@ != number
            &&& vehicle_type(number) == model.evn_type_code
            &&& vehicle_registration(number) == code
            &&& vehicle_series(number) == model.evn_series_code
            &&& match train.status {
                TrainStatus::Ready { at } => has_station(stations, at),
                TrainStatus::Travelling { journey_id } => has_journey(journeys, journey_id)
                    && forall|j: int| 0 <= j < i ==> (#[trigger] trains[j]).status != train.status,
            }
        },
{
}

/// A Fleet's numbers are consistent exactly if the next display number is above every Train's,
/// every sequence is of a model in the catalogue and within a thousand, and every Train's unit
/// number was taken from its model's sequence.
pub proof fn consistent_sequences(fleet: Fleet, facts: SimulationFacts)
    ensures
        sequences_fault(fleet, facts) is None <==> {
            let sequences = fleet.next_evn_unit_by_model@;
            &&& fleet.next_train_display_number > 0
            &&& forall|i: int|
                0 <= i < fleet.trains@.len() ==> display_number(
                    (#[trigger] fleet.trains@[i]).id.value,
                ) < fleet.next_train_display_number
            &&& forall|i: int|
                0 <= i < sequences.len() ==> facts.catalogue.lists(
                    (#[trigger] sequences[i]).model_id.name@,
                ) && 1 <= sequences[i].next_unit_number <= 1_000
            &&& forall|i: int|
                0 <= i < fleet.trains@.len() ==> {
                    let train = #[trigger] fleet.trains@[i];
                    &&& sequenced(sequences, train.model_id.name@)
                    &&& is_vehicle_number(train.evn.digits@)
                    &&& vehicle_unit(train.evn.digits@) < next_unit(
                        sequences,
                        train.model_id.name@,
                    )
                }
        },
{
    lemma_units(fleet.trains@, fleet.next_evn_unit_by_model@, fleet.trains@.len() as int);
}

proof fn lemma_units(trains: Seq<Train>, sequences: Seq<ModelUnitSequence>, count: int)
    requires
        0 <= count <= trains.len(),
    ensures
        units_fault(trains, sequences, count) is None <==> forall|i: int|
            0 <= i < count ==> unit_fault(#[trigger] trains[i], sequences) is None,
    decreases count,
{
    if count > 0 {
        lemma_units(trains, sequences, count - 1);
    }
}

/// An assignment is consistent exactly if its Train and its Service exist and the Train, where
/// it travels, does so for that Service.
pub proof fn consistent_assignments(
    assignment: ServiceAssignment,
    trains: Seq<Train>,
    services: Seq<PassengerService>,
    journeys: Seq<Journey>,
)
    ensures
        assignment_fault(assignment, trains, services, journeys) is None <==> {
            &&& has_train(trains, assignment.train_id)
            &&& has_service(services, assignment.service_id)
            &&& the_train(
                trains,
                assignment.train_id,
            ).status matches TrainStatus::Travelling { journey_id } ==> (has_journey(
                journeys,
                journey_id,
            ) ==> the_journey(journeys, journey_id).service_id == assignment.service_id)
        },
{
}

/// The fares of the first `count` groups.
pub open spec fn fares_of(groups: Seq<JourneyPassengerGroup>, count: int) -> int
    decreases count,
{
    if count <= 0 {
        0
    } else {
        fares_of(groups, count - 1) + groups[count - 1].fare.cents * groups[count - 1].passengers
    }
}

proof fn lemma_group_totals(context: JourneyContext, progress: Progress, count: int)
    requires
        0 <= count <= context.journey.passenger_groups@.len(),
    ensures
        group_passengers(context.journey.passenger_groups@, count) >= 0,
        group_totals(context, progress, count) matches Ok((passengers, fares)) ==> {
            &&& passengers == group_passengers(context.journey.passenger_groups@, count)
            &&& fares.cents == fares_of(context.journey.passenger_groups@, count)
            &&& forall|i: int|
                0 <= i < count ==> group_fault(
                    context,
                    progress,
                    #[trigger] context.journey.passenger_groups@[i],
                ) is None
        },
    decreases count,
{
    if count > 0 {
        lemma_group_totals(context, progress, count - 1);
    }
}

/// The passengers and fares of a Journey's groups are all of theirs together, wherever its
/// groups are consistent and the sums fit their units.
pub proof fn groups_add_up(context: JourneyContext, progress: Progress)
    ensures
        ({
            let groups = context.journey.passenger_groups@;
            let count = groups.len() as int;
            group_totals(context, progress, count) matches Ok((passengers, fares)) ==> {
                &&& passengers == group_passengers(groups, count)
                &&& fares.cents == fares_of(groups, count)
                &&& forall|i: int|
                    0 <= i < count ==> group_fault(context, progress, #[trigger] groups[i]) is None
            }
        }),
{
    lemma_group_totals(context, progress, context.journey.passenger_groups@.len() as int);
}

/// A passenger group is consistent exactly if it has passengers, between two stops of the
/// Service in the direction of travel, that boarded by now and did not alight yet, at the fare
/// of the distance.
pub proof fn consistent_groups(
    context: JourneyContext,
    progress: Progress,
    group: JourneyPassengerGroup,
    origin: int,
    destination: int,
)
    requires
        0 <= origin < context.stops().len(),
        0 <= destination < context.stops().len(),
        context.stops()[origin] == group.origin_station_id,
        context.stops()[destination] == group.destination_station_id,
        forall|j: int|
            0 <= j < origin ==> #[trigger] context.stops()[j] != group.origin_station_id,
        forall|j: int|
            0 <= j < destination ==> #[trigger] context.stops()[j]
                != group.destination_station_id,
    ensures
        group_fault(context, progress, group) is None <==> {
            &&& group.passengers > 0
            &&& has_station(context.stations(), group.origin_station_id)
            &&& has_station(context.stations(), group.destination_station_id)
            &&& progress.forward ==> origin <= progress.current && progress.next <= destination
                && origin < destination
            &&& !progress.forward ==> origin >= progress.current && progress.next >= destination
                && origin > destination
            &&& stop_distance(
                context.network(),
                context.service,
                origin,
                destination,
                context.facts,
            ) matches Ok(distance) && charge(
                context.journey.fare_rate.cents_per_kilometre as int,
                distance.metres as int,
            ) == Ok::<Money, CalculationError>(group.fare)
        },
{
    let stops = context.stops();
    lemma_first(stops, group.origin_station_id, origin);
    lemma_first(stops, group.destination_station_id, destination);
}

proof fn lemma_first(stops: Seq<RailStationId>, id: RailStationId, i: int)
    requires
        0 <= i < stops.len(),
        stops[i] == id,
        forall|j: int| 0 <= j < i ==> #[trigger] stops[j] != id,
    ensures
        stops.index_of_first(id) == Some(i),
{
    stops.index_of_first_ensures(id);
    assert(stops.contains(id));
    let k = stops.index_of_first(id)->0;
    if k < i {
        assert(stops[k] != id);
    }
    if i < k {
        assert(stops[i] != id);
    }
}

/// A revenue Journey runs between the ends of its Service, in the order of the stops or against
/// it, and has a stop ahead: the next one, or the one before.
pub proof fn journeys_have_a_stop_ahead(journey: Journey, stops: Seq<RailStationId>)
    requires
        stops.len() <= usize::MAX,
    ensures
        progress_of(journey, stops) matches Ok(progress) ==> {
            &&& progress.current == journey.current_stop_index
            &&& progress.forward ==> {
                &&& journey.origin_station_id == stops[0]
                &&& journey.destination_station_id == stops.last()
                &&& progress.next == journey.current_stop_index + 1
                &&& progress.next < stops.len()
            }
            &&& !progress.forward ==> {
                &&& journey.origin_station_id == stops.last()
                &&& journey.destination_station_id == stops[0]
                &&& progress.next + 1 == journey.current_stop_index
            }
        },
        stops.len() > 0 && journey.origin_station_id == stops[0] && journey.destination_station_id
            == stops.last() && journey.current_stop_index + 1 < stops.len() ==> progress_of(
            journey,
            stops,
        ) is Ok,
        stops.len() > 0 && journey.origin_station_id == stops.last()
            && journey.destination_station_id == stops[0] && stops[0] != stops.last()
            && journey.current_stop_index > 0 ==> progress_of(journey, stops) is Ok,
{
}

/// The passengers of a revenue Journey are refused exactly if more are on board than the Train
/// holds or than ever boarded; those who have alighted still count as carried.
pub proof fn passenger_counts_are_judged_by_who_is_on_board(
    context: JourneyContext,
    progress: Progress,
    capacity: u32,
)
    requires
        group_totals(
            context,
            progress,
            context.journey.passenger_groups@.len() as int,
        ) is Ok,
    ensures
        ({
            let groups = context.journey.passenger_groups@;
            let on_board = group_passengers(groups, groups.len() as int);
            &&& booking_fault(context, progress, capacity) == Some(
                SaveValidationError::ImpossibleState {
                    reason: "Journey passenger counts exceed Train capacity or cumulative boardings",
                },
            ) <==> on_board > capacity || on_board > context.journey.passengers_carried
            &&& booking_fault(context, progress, capacity) is None <==> {
                &&& on_board <= capacity
                &&& on_board <= context.journey.passengers_carried
                &&& context.journey.credited_revenue.cents + fares_of(groups, groups.len() as int)
                    == context.journey.operating_revenue.cents
                &&& forall|i: int|
                    0 <= i < groups.len() ==> has_pool(
                        context.state.origin_destination_demand@,
                        (#[trigger] groups[i]).origin_station_id,
                        groups[i].destination_station_id,
                    )
            }
        }),
{
    lemma_group_totals(context, progress, context.journey.passenger_groups@.len() as int);
}

/// Two Journeys that differ only in how many passengers they have carried so far.
pub open spec fn differ_in_boardings(first: Journey, second: Journey) -> bool {
    second == (Journey { passengers_carried: second.passengers_carried, ..first })
}

proof fn lemma_boardings(
    first: JourneyContext,
    second: JourneyContext,
    progress: Progress,
    count: int,
)
    requires
        second == (JourneyContext { journey: second.journey, ..first }),
        differ_in_boardings(first.journey, second.journey),
    ensures
        group_totals(first, progress, count) == group_totals(second, progress, count),
    decreases count,
{
    if count > 0 {
        lemma_boardings(first, second, progress, count - 1);
        let group = first.journey.passenger_groups@[count - 1];
        assert(group_fault(first, progress, group) == group_fault(second, progress, group));
    }
}

/// A revenue Journey stays valid when it has carried more passengers, and nothing else of it
/// has changed: those who were set down have left the groups, and the count stays.
pub proof fn boardings_only_grow(
    state: GameState,
    before: Journey,
    after: Journey,
    facts: SimulationFacts,
)
    requires
        journey_fault(state, before, facts) is None,
        !(before.purpose is Positioning),
        differ_in_boardings(before, after),
        before.passengers_carried <= after.passengers_carried,
    ensures
        journey_fault(state, after, facts) is None,
{
    let service = the_service(state.player_company.passenger_services@, before.service_id);
    let first = JourneyContext { state, facts, journey: before, service };
    let second = JourneyContext { state, facts, journey: after, service };
    let count = before.passenger_groups@.len() as int;
    assert forall|progress: Progress| #[trigger]
        group_totals(first, progress, count) == group_totals(second, progress, count) by {
        lemma_boardings(first, second, progress, count);
    }
    assert(progress_of(before, first.stops()) == progress_of(after, second.stops()));
}

/// A revenue Journey is consistent exactly if its Train travels on it, its Service and ends
/// exist, it has a stop ahead, its fare is that of its whole way, it ends after it departs,
/// nothing it costs or earned is negative, and its groups, passengers and revenue agree.
pub proof fn consistent_revenue_journeys(
    state: GameState,
    journey: Journey,
    facts: SimulationFacts,
)
    requires
        !(journey.purpose is Positioning),
    ensures
        journey_fault(state, journey, facts) is None <==> {
            let trains = state.player_company.fleet.trains@;
            let services = state.player_company.passenger_services@;
            let network = state.region.rail_authority.rail_network;
            let train = the_train(trains, journey.train_id);
            let service = the_service(services, journey.service_id);
            let capacity = facts.catalogue.model(train.model_id.name@).passenger_capacity;
            let context = JourneyContext { state, facts, journey, service };
            let groups = journey.passenger_groups@;
            &&& has_train(trains, journey.train_id)
            &&& has_service(services, journey.service_id)
            &&& has_station(network.rail_stations@, journey.origin_station_id)
            &&& has_station(network.rail_stations@, journey.destination_station_id)
            &&& train.status == (TrainStatus::Travelling { journey_id: journey.id })
            &&& facts.catalogue.lists(train.model_id.name@)
            &&& service_length(service, network, facts) matches Ok(length) && charge(
                journey.fare_rate.cents_per_kilometre as int,
                length.metres as int,
            ) == Ok::<Money, CalculationError>(journey.fare)
            &&& journey.infrastructure_access_fee.cents >= 0
            &&& journey.fuel_cost.cents > 0
            &&& 0 <= journey.credited_revenue.cents <= journey.operating_revenue.cents
            &&& journey.departed_at.seconds < journey.arrives_at.seconds
            &&& progress_of(journey, service.stop_station_ids@) matches Ok(progress) && {
                &&& group_totals(context, progress, groups.len() as int) is Ok
                &&& group_passengers(groups, groups.len() as int) <= capacity
                &&& group_passengers(groups, groups.len() as int) <= journey.passengers_carried
                &&& journey.credited_revenue.cents + fares_of(groups, groups.len() as int)
                    == journey.operating_revenue.cents
                &&& forall|i: int|
                    0 <= i < groups.len() ==> has_pool(
                        state.origin_destination_demand@,
                        (#[trigger] groups[i]).origin_station_id,
                        groups[i].destination_station_id,
                    )
            }
        },
{
    let service = the_service(state.player_company.passenger_services@, journey.service_id);
    let context = JourneyContext { state, facts, journey, service };
    let train = the_train(state.player_company.fleet.trains@, journey.train_id);
    let capacity = facts.catalogue.model(train.model_id.name@).passenger_capacity;
    if let Ok(progress) = progress_of(journey, service.stop_station_ids@) {
        lemma_group_totals(context, progress, journey.passenger_groups@.len() as int);
    }
}

/// A positioning Journey is consistent exactly if its Train travels on it and is assigned to
/// its Service, it runs over open lines to another station that the Service departs from, and it
/// carries nobody and earns nothing.
pub proof fn consistent_positioning_journeys(
    state: GameState,
    journey: Journey,
    facts: SimulationFacts,
)
    requires
        journey.purpose is Positioning,
    ensures
        journey_fault(state, journey, facts) is None <==> {
            let trains = state.player_company.fleet.trains@;
            let services = state.player_company.passenger_services@;
            let stations = state.region.rail_authority.rail_network.rail_stations@;
            let train = the_train(trains, journey.train_id);
            let service = the_service(services, journey.service_id);
            let stops = service.stop_station_ids@;
            &&& has_train(trains, journey.train_id)
            &&& has_service(services, journey.service_id)
            &&& has_station(stations, journey.origin_station_id)
            &&& has_station(stations, journey.destination_station_id)
            &&& train.status == (TrainStatus::Travelling { journey_id: journey.id })
            &&& facts.catalogue.lists(train.model_id.name@)
            &&& state.player_company.fleet.assigned(journey.train_id) == Some(journey.service_id)
            &&& stops.len() > 0
            &&& journey.destination_station_id == stops[0] || (service.direction_mode
                is BothDirections && journey.destination_station_id == stops.last())
            &&& journey.origin_station_id != journey.destination_station_id
            &&& facts.route(journey.origin_station_id, journey.destination_station_id) is Some
            &&& journey.passengers_carried == 0
            &&& journey.passenger_groups@.len() == 0
            &&& journey.fare.cents == 0
            &&& journey.operating_revenue.cents == 0
            &&& journey.credited_revenue.cents == 0
            &&& journey.infrastructure_access_fee.cents >= 0
            &&& journey.fuel_cost.cents > 0
            &&& journey.current_stop_index == 0
            &&& journey.departed_at.seconds < journey.arrives_at.seconds
        },
{
}

proof fn lemma_services(
    services: Seq<PassengerService>,
    network: RailNetwork,
    facts: SimulationFacts,
    count: int,
)
    requires
        0 <= count <= services.len(),
    ensures
        services_fault(services, network, facts, count) is None <==> forall|i: int|
            0 <= i < count ==> #[trigger] service_fault(services, i, network, facts) is None,
    decreases count,
{
    if count > 0 {
        lemma_services(services, network, facts, count - 1);
    }
}

proof fn lemma_demand(
    demand: Seq<OriginDestinationDemand>,
    stations: Seq<RailStation>,
    facts: SimulationFacts,
    count: int,
)
    requires
        0 <= count <= demand.len(),
    ensures
        demand_fault(demand, stations, facts, count) is None <==> forall|i: int|
            0 <= i < count ==> #[trigger] pool_fault(demand, i, stations, facts) is None,
    decreases count,
{
    if count > 0 {
        lemma_demand(demand, stations, facts, count - 1);
    }
}

proof fn lemma_receipts(receipts: Seq<JourneyReceipt>, stations: Seq<RailStation>, count: int)
    requires
        0 <= count <= receipts.len(),
    ensures
        receipts_fault(receipts, stations, count) is None <==> forall|i: int|
            0 <= i < count ==> #[trigger] receipt_fault(receipts, i, stations) is None,
    decreases count,
{
    if count > 0 {
        lemma_receipts(receipts, stations, count - 1);
    }
}

proof fn lemma_assignments(
    assignments: Seq<ServiceAssignment>,
    trains: Seq<Train>,
    services: Seq<PassengerService>,
    journeys: Seq<Journey>,
    count: int,
)
    requires
        0 <= count <= assignments.len(),
    ensures
        assignments_fault(assignments, trains, services, journeys, count) is None <==> forall|i: int|
            0 <= i < count ==> assignment_fault(
                #[trigger] assignments[i],
                trains,
                services,
                journeys,
            ) is None,
    decreases count,
{
    if count > 0 {
        lemma_assignments(assignments, trains, services, journeys, count - 1);
    }
}

proof fn lemma_trains(
    trains: Seq<Train>,
    code: u8,
    stations: Seq<RailStation>,
    journeys: Seq<Journey>,
    facts: SimulationFacts,
    count: int,
)
    requires
        0 <= count <= trains.len(),
    ensures
        trains_fault(trains, code, stations, journeys, facts, count) is None <==> forall|i: int|
            0 <= i < count ==> #[trigger] train_fault(trains, i, code, stations, journeys, facts)
                is None,
    decreases count,
{
    if count > 0 {
        lemma_trains(trains, code, stations, journeys, facts, count - 1);
    }
}

proof fn lemma_journeys(state: GameState, facts: SimulationFacts, count: int)
    requires
        0 <= count <= state.active_journeys@.len(),
    ensures
        journeys_fault(state, facts, count) is None <==> forall|i: int|
            0 <= i < count ==> journey_fault(state, #[trigger] state.active_journeys@[i], facts)
                is None,
    decreases count,
{
    if count > 0 {
        lemma_journeys(state, facts, count - 1);
    }
}

proof fn lemma_payloads(authority: RailAuthority, settlements: Seq<Settlement>, count: int)
    requires
        0 <= count <= authority.infrastructure_projects@.len(),
    ensures
        payloads_fault(authority, settlements, count) is None <==> forall|i: int|
            0 <= i < count ==> payload_fault(#[trigger] context_of(authority, settlements, i))
                is None,
    decreases count,
{
    if count > 0 {
        lemma_payloads(authority, settlements, count - 1);
    }
}

/// A Region is consistent exactly if each of its parts is: no check covers for another.
pub proof fn consistent_regions(state: GameState)
    ensures
        super::state::region_fault(state) is None <==> {
            let region = state.region;
            let authority = region.rail_authority;
            let network = authority.rail_network;
            let projects = authority.infrastructure_projects@;
            &&& rules_fault(state) is None
            &&& registration_fault(state) is None
            &&& settlements_fault(region) is None
            &&& stations_fault(network.rail_stations@, region.settlements@) is None
            &&& lines_fault(network.rail_lines@, network.rail_stations@) is None
            &&& forall|i: int, j: int|
                0 <= i < j < projects.len() ==> (#[trigger] projects[i]).id != (
                #[trigger] projects[j]).id
            &&& forall|i: int|
                0 <= i < projects.len() ==> is_version_four((#[trigger] projects[i]).id.value)
            &&& commitments(projects, projects.len() as int) matches Ok(total) && total.cents
                <= authority.finances.committed_investment.cents
            &&& forall|i: int|
                0 <= i < projects.len() ==> payload_fault(
                    #[trigger] context_of(authority, region.settlements@, i),
                ) is None
            &&& slots_fault(projects, projects.len() as int) is None
            &&& finances_fault(authority) is None
        },
{
    let authority = state.region.rail_authority;
    let projects = authority.infrastructure_projects@;
    let values = super::projects::project_values(projects);
    assert(forall|i: int| 0 <= i < projects.len() ==> values[i] == (#[trigger] projects[i]).id.value);
    assert(forall|i: int| 0 <= i < projects.len() ==> #[trigger] values[i] == projects[i].id.value);
    lemma_payloads(authority, state.region.settlements@, projects.len() as int);
}

/// A Company is consistent exactly if its identities are proper and differ, its Fleet lists
/// nothing twice, and each of its Services, demand pools, receipts, Trains, assignments and
/// Journeys is consistent.
pub proof fn consistent_companies(state: GameState, facts: SimulationFacts)
    ensures
        super::state::company_fault(state, facts) is None <==> {
            let company = state.player_company;
            let services = company.passenger_services@;
            let trains = company.fleet.trains@;
            let journeys = state.active_journeys@;
            let network = state.region.rail_authority.rail_network;
            let stations = network.rail_stations@;
            let demand = state.origin_destination_demand@;
            let receipts = state.financials.recent_journey_receipts@;
            let assignments = company.fleet.service_assignments@;
            let code = state.region.railway_registration.numeric_code;
            &&& forall|i: int, j: int|
                0 <= i < j < services.len() ==> (#[trigger] services[i]).id != (
                #[trigger] services[j]).id
            &&& forall|i: int|
                0 <= i < services.len() ==> is_version_four((#[trigger] services[i]).id.value)
            &&& forall|i: int|
                0 <= i < services.len() ==> #[trigger] service_fault(services, i, network, facts)
                    is None
            &&& forall|i: int|
                0 <= i < demand.len() ==> #[trigger] pool_fault(demand, i, stations, facts) is None
            &&& company.funds.cents >= 0
            &&& state.financials.operating_revenue.cents >= 0
            &&& state.financials.infrastructure_access_fees.cents >= 0
            &&& state.financials.fuel_costs.cents >= 0
            &&& forall|i: int|
                0 <= i < receipts.len() ==> #[trigger] receipt_fault(receipts, i, stations) is None
            &&& forall|i: int, j: int|
                0 <= i < j < trains.len() ==> (#[trigger] trains[i]).id != (#[trigger] trains[j]).id
            &&& forall|i: int|
                0 <= i < trains.len() ==> is_version_four((#[trigger] trains[i]).id.value)
            &&& company.fleet.wf()
            &&& sequences_fault(company.fleet, facts) is None
            &&& forall|i: int, j: int|
                0 <= i < j < journeys.len() ==> (#[trigger] journeys[i]).id != (
                #[trigger] journeys[j]).id
            &&& forall|i: int|
                0 <= i < journeys.len() ==> is_version_four((#[trigger] journeys[i]).id.value)
            &&& forall|i: int|
                0 <= i < assignments.len() ==> assignment_fault(
                    #[trigger] assignments[i],
                    trains,
                    services,
                    journeys,
                ) is None
            &&& forall|i: int|
                0 <= i < trains.len() ==> #[trigger] train_fault(
                    trains,
                    i,
                    code,
                    stations,
                    journeys,
                    facts,
                ) is None
            &&& forall|i: int|
                0 <= i < journeys.len() ==> journey_fault(state, #[trigger] journeys[i], facts)
                    is None
        },
{
    let company = state.player_company;
    let services = company.passenger_services@;
    let trains = company.fleet.trains@;
    let journeys = state.active_journeys@;
    let network = state.region.rail_authority.rail_network;
    let stations = network.rail_stations@;
    let demand = state.origin_destination_demand@;
    let receipts = state.financials.recent_journey_receipts@;
    let assignments = company.fleet.service_assignments@;
    let code = state.region.railway_registration.numeric_code;
    let a = super::journeys::service_values(services);
    let b = super::journeys::train_values(trains);
    let c = super::journeys::journey_values(journeys);
    assert(forall|i: int| 0 <= i < services.len() ==> a[i] == (#[trigger] services[i]).id.value);
    assert(forall|i: int| 0 <= i < services.len() ==> #[trigger] a[i] == services[i].id.value);
    assert(forall|i: int| 0 <= i < trains.len() ==> b[i] == (#[trigger] trains[i]).id.value);
    assert(forall|i: int| 0 <= i < trains.len() ==> #[trigger] b[i] == trains[i].id.value);
    assert(forall|i: int| 0 <= i < journeys.len() ==> c[i] == (#[trigger] journeys[i]).id.value);
    assert(forall|i: int| 0 <= i < journeys.len() ==> #[trigger] c[i] == journeys[i].id.value);
    lemma_services(services, network, facts, services.len() as int);
    lemma_demand(demand, stations, facts, demand.len() as int);
    lemma_receipts(receipts, stations, receipts.len() as int);
    lemma_assignments(assignments, trains, services, journeys, assignments.len() as int);
    lemma_trains(trains, code, stations, journeys, facts, trains.len() as int);
    lemma_journeys(state, facts, journeys.len() as int);
}

/// A game may enter the simulation exactly if its Region and its Company are consistent.
pub proof fn valid_games_are_consistent(state: GameState, facts: SimulationFacts)
    ensures
        valid_game(state, facts) <==> super::state::region_fault(state) is None
            && super::state::company_fault(state, facts) is None,
{
}

/// A model's sequence is looked up by its name, the first where several had it, and a model
/// without one has none.
pub proof fn sequences_are_found_by_model(
    sequences: Seq<ModelUnitSequence>,
    model: Seq<char>,
    i: int,
)
    requires
        forall|j: int|
            0 <= j < sequences.len() && j < i ==> (#[trigger] sequences[j]).model_id.name@ != model,
    ensures
        0 <= i < sequences.len() && sequences[i].model_id.name@ == model ==> sequenced(
            sequences,
            model,
        ) && next_unit(sequences, model) == sequences[i].next_unit_number,
        i >= sequences.len() ==> !sequenced(sequences, model),
{
    if 0 <= i < sequences.len() && sequences[i].model_id.name@ == model {
        assert(super::journeys::is_sequence_at(sequences, i, model));
        let c = choose|c: int| super::journeys::is_sequence_at(sequences, c, model);
        assert(super::journeys::is_sequence_at(sequences, c, model));
        if c < i {
            assert(sequences[c].model_id.name@ != model);
        }
    }
}

} // verus!
