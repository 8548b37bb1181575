//! What the columns of a save on disk mean, in the words of the database's schema: what is read
//! from a row holds what the row says, and what is written says what it holds.

use vstd::prelude::*;

use super::company::{
    assignment_read, service_read, train_read, unit_read, AssignmentRow, ServiceRow, TrainRow,
    UnitRow,
};
use super::history::latest;
use super::operations::{
    demand_read, group_read, journey_read, receipt_read, rules_stored, DemandRow, GroupRow,
    JourneyRow, ReceiptRow, RulesRow,
};
use super::projects::{project_read, ProjectRow, Targets};
use super::state::{state_read, SaveRows};
use super::targets::items_of;
use super::world::{
    bulletin_read, finances_written, line_read, settlement_read, station_read, BulletinRow,
    FinancesRow, LineRow, SettlementRow, StationRow,
};
use crate::model::company::{
    Journey, JourneyPassengerGroup, JourneyReceipt, ModelUnitSequence, OriginDestinationDemand,
    PassengerService, ServiceAssignment, Train, TrainStatus,
};
use crate::model::ids::{uuid_of_text, InfrastructureProjectId, RailLineId};
use crate::model::network::{RailLine, RailStation, Settlement};
use crate::model::project::{
    InfrastructureProject, InfrastructureProjectKind, RailAuthorityFinances,
};
use crate::model::state::{BulletinEntry, GameRules, GameState};
use crate::storage::codec::digits_value;
use crate::text::trimmed;

verus! {

/// A Bulletin row tells its category by one of four words, and its time and texts as they are.
pub proof fn bulletin_columns(row: BulletinRow, entry: BulletinEntry)
    requires
        bulletin_read(row, entry),
    ensures
        entry.category is Local <==> row.category@ == "local"@,
        entry.category is Authority <==> row.category@ == "authority"@,
        entry.category is Construction <==> row.category@ == "construction"@,
        entry.category is Network <==> row.category@ == "network"@,
        entry.occurred_at.seconds == row.occurred_at,
        entry.headline@ == row.headline@,
        entry.detail@ == row.detail@,
{
    reveal_strlit("local");
    reveal_strlit("authority");
    reveal_strlit("construction");
    reveal_strlit("network");
    assert("local"@.len() == 5 && "authority"@.len() == 9 && "construction"@.len() == 12
        && "network"@.len() == 7);
}

/// A Rail Line row is "low", "moderate" or "high" in difficulty and "none" or "electric" in
/// wiring, and joins the two stations at the distance, speed and tracks of its columns.
pub proof fn line_columns(row: LineRow, line: RailLine)
    requires
        line_read(row, line),
    ensures
        line.construction_difficulty is Low <==> row.construction_difficulty@ == "low"@,
        line.construction_difficulty is Moderate <==> row.construction_difficulty@ == "moderate"@,
        line.construction_difficulty is High <==> row.construction_difficulty@ == "high"@,
        line.electrification is Unelectrified <==> row.electrification@ == "none"@,
        line.electrification is Electric <==> row.electrification@ == "electric"@,
        uuid_of_text(row.id@) == Some(line.id.value),
        uuid_of_text(row.first_station_id@) == Some(line.first_station_id.value),
        uuid_of_text(row.second_station_id@) == Some(line.second_station_id.value),
        line.distance.metres == row.distance_metres,
        line.speed_limit.kilometres_per_hour == row.speed_limit_kmh,
        line.track_count.tracks == row.track_count,
{
    reveal_strlit("low");
    reveal_strlit("moderate");
    reveal_strlit("high");
    reveal_strlit("none");
    reveal_strlit("electric");
    assert("low"@.len() == 3 && "moderate"@.len() == 8 && "high"@.len() == 4);
    assert("none"@.len() == 4 && "electric"@.len() == 8);
}

/// A planned Rail Line row means what a built one does.
pub proof fn planned_line_columns(row: LineRow, line: RailLine)
    requires
        line_read(row, line),
    ensures
        line == super::world::line_of(row),
        super::world::line_of(row).construction_difficulty is Low <==> row.construction_difficulty@
            == "low"@,
        super::world::line_of(row).construction_difficulty is High <==> row.construction_difficulty@
            == "high"@,
        super::world::line_of(row).electrification is Electric <==> row.electrification@
            == "electric"@,
        super::world::line_of(row).distance.metres == row.distance_metres,
        super::world::line_of(row).speed_limit.kilometres_per_hour == row.speed_limit_kmh,
        super::world::line_of(row).track_count.tracks == row.track_count,
{
    super::world::lemma_line_of(row, line);
    line_columns(row, line);
}

/// Rows of Settlements and stations hold what their columns say.
pub proof fn place_columns(
    row: SettlementRow,
    settlement: Settlement,
    station_row: StationRow,
    station: RailStation,
)
    requires
        settlement_read(row, settlement),
        station_read(station_row, station),
    ensures
        uuid_of_text(row.id@) == Some(settlement.id.value),
        settlement.name@ == row.name@,
        settlement.population == row.population,
        settlement.position.x == row.world_x,
        settlement.position.y == row.world_y,
        uuid_of_text(station_row.id@) == Some(station.id.value),
        uuid_of_text(station_row.settlement_id@) == Some(station.settlement_id.value),
{
}

/// The Authority's finances hold what their columns say.
pub proof fn finance_columns(row: FinancesRow, finances: RailAuthorityFinances)
    requires
        finances_written(row, finances),
    ensures
        finances.treasury.cents == row.treasury_cents,
        finances.maintenance_reserve.cents == row.maintenance_reserve_cents,
        finances.committed_investment.cents == row.committed_investment_cents,
        finances.carried_over_funds.cents == row.carried_over_funds_cents,
        finances.regional_public_allocation.cents == row.regional_public_allocation_cents,
        finances.infrastructure_access_fee_revenue.cents
            == row.infrastructure_access_fee_revenue_cents,
        finances.next_fiscal_period_at is Some <==> row.next_fiscal_period_at is Some,
        row.next_fiscal_period_at is Some ==> finances.next_fiscal_period_at->0.seconds
            == row.next_fiscal_period_at->0,
{
}

/// A Train row is "ready" at a station or "travelling" on a Journey, by the reference beside
/// the word, and holds what its other columns say.
pub proof fn train_columns(row: TrainRow, train: Train)
    requires
        train_read(row, train),
    ensures
        train.status is Ready <==> row.status_kind@ == "ready"@,
        train.status is Travelling <==> row.status_kind@ == "travelling"@,
        train.status matches TrainStatus::Ready { at } ==> uuid_of_text(row.status_ref_id@) == Some(
            at.value,
        ),
        train.status matches TrainStatus::Travelling { journey_id } ==> uuid_of_text(
            row.status_ref_id@,
        ) == Some(journey_id.value),
        uuid_of_text(row.id@) == Some(train.id.value),
        train.evn.digits@ == row.evn@,
        train.nickname is Some <==> row.nickname is Some,
        row.nickname is Some ==> train.nickname->0.name@ == trimmed(row.nickname->0@),
        train.model_id.name@ == row.model_id@,
        train.original_purchase_price.cents == row.original_purchase_price_cents,
{
    reveal_strlit("ready");
    reveal_strlit("travelling");
    assert("ready"@.len() == 5 && "travelling"@.len() == 10);
}

/// A Service row runs "both" ways or only "forward", with the numbers, names, stops and lines of
/// its rows, in their order.
pub proof fn service_columns(row: ServiceRow, service: PassengerService, i: int)
    requires
        service_read(row, service),
    ensures
        service.direction_mode is BothDirections <==> row.direction_mode@ == "both"@,
        service.direction_mode is ForwardOnly <==> row.direction_mode@ == "forward"@,
        uuid_of_text(row.id@) == Some(service.id.value),
        service.name@ == row.name@,
        service.custom_name is Some <==> row.custom_name is Some,
        row.custom_name is Some ==> service.custom_name->0@ == row.custom_name->0@,
        service.forward_train_number == row.forward_train_number,
        service.reverse_train_number is Some <==> row.reverse_train_number is Some,
        row.reverse_train_number is Some ==> service.reverse_train_number->0
            == row.reverse_train_number->0,
        service.stop_station_ids@.len() == row.stop_station_ids@.len(),
        service.rail_line_ids@.len() == row.rail_line_ids@.len(),
        0 <= i < row.stop_station_ids@.len() ==> uuid_of_text(row.stop_station_ids@[i]@) == Some(
            service.stop_station_ids@[i].value,
        ),
        0 <= i < row.rail_line_ids@.len() ==> uuid_of_text(row.rail_line_ids@[i]@) == Some(
            service.rail_line_ids@[i].value,
        ),
{
    reveal_strlit("both");
    reveal_strlit("forward");
    assert("both"@.len() == 4 && "forward"@.len() == 7);
}

/// Rows of unit sequences and assignments hold what their columns say.
pub proof fn fleet_columns(
    row: UnitRow,
    sequence: ModelUnitSequence,
    assignment_row: AssignmentRow,
    assignment: ServiceAssignment,
)
    requires
        unit_read(row, sequence),
        assignment_read(assignment_row, assignment),
    ensures
        sequence.model_id.name@ == row.model_id@,
        sequence.next_unit_number == row.next_unit_number,
        uuid_of_text(assignment_row.train_id@) == Some(assignment.train_id.value),
        uuid_of_text(assignment_row.service_id@) == Some(assignment.service_id.value),
{
}

/// A demand row holds what its columns say, in its direction.
pub proof fn demand_columns(row: DemandRow, pool: OriginDestinationDemand)
    requires
        demand_read(row, pool),
    ensures
        uuid_of_text(row.origin_station_id@) == Some(pool.origin_station_id.value),
        uuid_of_text(row.destination_station_id@) == Some(pool.destination_station_id.value),
        pool.waiting_passengers == row.waiting_passengers,
        pool.market_maturity.basis_points == row.market_maturity_basis_points,
        pool.passenger_arrival_rate_per_hour.passengers_per_hour
            == row.passenger_arrival_rate_per_hour,
        pool.fractional_passenger_seconds == row.fractional_passenger_seconds,
{
}

/// A Journey row is for "revenue" or for "positioning", and holds what its other columns say.
pub proof fn journey_columns(row: JourneyRow, journey: Journey, i: int)
    requires
        journey_read(row, journey),
    ensures
        journey.purpose is RevenueService <==> row.purpose@ == "revenue"@,
        journey.purpose is Positioning <==> row.purpose@ == "positioning"@,
        uuid_of_text(row.id@) == Some(journey.id.value),
        uuid_of_text(row.service_id@) == Some(journey.service_id.value),
        uuid_of_text(row.train_id@) == Some(journey.train_id.value),
        uuid_of_text(row.origin_station_id@) == Some(journey.origin_station_id.value),
        uuid_of_text(row.destination_station_id@) == Some(journey.destination_station_id.value),
        journey.passengers_carried == row.passengers_carried,
        journey.fare_rate.cents_per_kilometre == row.fare_rate_cents_per_passenger_km,
        journey.fare.cents == row.fare_cents,
        journey.operating_revenue.cents == row.operating_revenue_cents,
        journey.credited_revenue.cents == row.credited_revenue_cents,
        journey.infrastructure_access_fee.cents == row.infrastructure_access_fee_cents,
        journey.fuel_cost.cents == row.fuel_cost_cents,
        journey.current_stop_index == row.current_stop_index,
        journey.departed_at.seconds == row.departed_at,
        journey.arrives_at.seconds == row.arrives_at,
        journey.started_at is Some <==> row.started_at is Some,
        row.started_at is Some ==> journey.started_at->0.seconds == row.started_at->0,
        journey.passenger_groups@.len() == row.passenger_groups@.len(),
        0 <= i < row.passenger_groups@.len() ==> group_read(
            row.passenger_groups@[i],
            journey.passenger_groups@[i],
        ),
{
    reveal_strlit("revenue");
    reveal_strlit("positioning");
    assert("revenue"@.len() == 7 && "positioning"@.len() == 11);
}

/// A passenger group row holds what its columns say.
pub proof fn group_columns(row: GroupRow, group: JourneyPassengerGroup)
    requires
        group_read(row, group),
    ensures
        uuid_of_text(row.origin_station_id@) == Some(group.origin_station_id.value),
        uuid_of_text(row.destination_station_id@) == Some(group.destination_station_id.value),
        group.passengers == row.passengers,
        group.fare.cents == row.fare_cents,
{
}

/// A receipt row holds what its columns say; an empty column is not known.
pub proof fn receipt_columns(row: ReceiptRow, receipt: JourneyReceipt)
    requires
        receipt_read(row, receipt),
    ensures
        uuid_of_text(row.journey_id@) == Some(receipt.journey_id.value),
        receipt.revenue.cents == row.revenue_cents,
        receipt.infrastructure_access_fee.cents == row.infrastructure_access_fee_cents,
        receipt.fuel_cost.cents == row.fuel_cost_cents,
        receipt.train_id is Some <==> row.train_id is Some,
        row.train_id is Some ==> uuid_of_text(row.train_id->0@) == Some(receipt.train_id->0.value),
        receipt.train_model_name is Some <==> row.train_model_name is Some,
        row.train_model_name is Some ==> receipt.train_model_name->0@ == row.train_model_name->0@,
        receipt.origin_station_id is Some <==> row.origin_station_id is Some,
        row.origin_station_id is Some ==> uuid_of_text(row.origin_station_id->0@) == Some(
            receipt.origin_station_id->0.value,
        ),
        receipt.destination_station_id is Some <==> row.destination_station_id is Some,
        row.destination_station_id is Some ==> uuid_of_text(row.destination_station_id->0@) == Some(
            receipt.destination_station_id->0.value,
        ),
        receipt.passengers_carried is Some <==> row.passengers_carried is Some,
        row.passengers_carried is Some ==> receipt.passengers_carried->0
            == row.passengers_carried->0,
        receipt.passenger_capacity is Some <==> row.passenger_capacity is Some,
        row.passenger_capacity is Some ==> receipt.passenger_capacity->0
            == row.passenger_capacity->0,
        receipt.completed_at is Some <==> row.completed_at is Some,
        row.completed_at is Some ==> receipt.completed_at->0.seconds == row.completed_at->0,
        receipt.departed_at is Some <==> row.departed_at is Some,
        row.departed_at is Some ==> receipt.departed_at->0.seconds == row.departed_at->0,
        receipt.service_id is Some <==> row.service_id is Some,
        row.service_id is Some ==> uuid_of_text(row.service_id->0@) == Some(
            receipt.service_id->0.value,
        ),
        receipt.service_code is Some <==> row.service_code is Some,
        row.service_code is Some ==> receipt.service_code->0@ == row.service_code->0@,
        receipt.purpose is Some <==> row.purpose is Some,
        row.purpose is Some ==> (receipt.purpose->0 is RevenueService <==> row.purpose->0@
            == "revenue"@) && (receipt.purpose->0 is Positioning <==> row.purpose->0@
            == "positioning"@),
{
    reveal_strlit("revenue");
    reveal_strlit("positioning");
    assert("revenue"@.len() == 7 && "positioning"@.len() == 11);
}

/// The rules hold what their columns say.
pub proof fn rule_columns(row: RulesRow, rules: GameRules)
    requires
        rules_stored(row, rules),
    ensures
        rules.balance.fare_per_passenger_kilometre.cents_per_kilometre
            == row.fare_cents_per_passenger_km,
        rules.balance.access_fee_per_train_kilometre.cents_per_kilometre
            == row.access_fee_cents_per_train_km,
        rules.balance.starting_company_funds.cents == row.starting_company_funds_cents,
        rules.demand.cap_duration.seconds == row.demand_cap_seconds,
        rules.authority.request_queue_delay.seconds == row.authority_request_queue_seconds,
        rules.authority.review_duration.seconds == row.authority_review_seconds,
        rules.authority.proposal_duration.seconds == row.authority_proposal_seconds,
        rules.authority.council_request_cooldown.seconds == row.authority_request_cooldown_seconds,
        rules.authority.deferred_reconsideration_delay.seconds
            == row.authority_deferred_reconsideration_seconds,
        rules.authority.construction_mobilisation_delay.seconds
            == row.authority_mobilisation_seconds,
        rules.authority.new_line_base_construction_duration.seconds
            == row.authority_new_line_base_construction_seconds,
        rules.authority.low_difficulty_seconds_per_kilometre
            == row.authority_low_difficulty_seconds_per_km,
        rules.authority.moderate_difficulty_seconds_per_kilometre
            == row.authority_moderate_difficulty_seconds_per_km,
        rules.authority.high_difficulty_seconds_per_kilometre
            == row.authority_high_difficulty_seconds_per_km,
        rules.authority.max_active_expansion_projects
            == row.authority_max_active_expansion_projects,
{
}

proof fn lemma_status_words()
    ensures
        "requested"@.len() == 9 && "requested"@[0] == 'r',
        "under_review"@.len() == 12 && "under_review"@[0] == 'u',
        "proposed"@.len() == 8 && "proposed"@[0] == 'p',
        "approved"@.len() == 8 && "approved"@[0] == 'a',
        "deferred"@.len() == 8 && "deferred"@[0] == 'd',
        "rejected"@.len() == 8 && "rejected"@[0] == 'r',
        "funding"@.len() == 7,
        "scheduled"@.len() == 9 && "scheduled"@[0] == 's',
        "construction"@.len() == 12 && "construction"@[0] == 'c',
        "open"@.len() == 4,
        "cancelled"@.len() == 9 && "cancelled"@[0] == 'c',
{
    reveal_strlit("requested");
    reveal_strlit("under_review");
    reveal_strlit("proposed");
    reveal_strlit("approved");
    reveal_strlit("deferred");
    reveal_strlit("rejected");
    reveal_strlit("funding");
    reveal_strlit("scheduled");
    reveal_strlit("construction");
    reveal_strlit("open");
    reveal_strlit("cancelled");
}

/// A project row tells its status by one of eleven words.
pub proof fn project_status_columns(
    row: ProjectRow,
    targets: Targets,
    project: InfrastructureProject,
)
    requires
        project_read(row, targets, project),
    ensures
        project.status is Requested <==> row.status@ == "requested"@,
        project.status is UnderReview <==> row.status@ == "under_review"@,
        project.status is Proposed <==> row.status@ == "proposed"@,
        project.status is Approved <==> row.status@ == "approved"@,
        project.status is Deferred <==> row.status@ == "deferred"@,
        project.status is Rejected <==> row.status@ == "rejected"@,
        project.status is Funding <==> row.status@ == "funding"@,
        project.status is Scheduled <==> row.status@ == "scheduled"@,
        project.status is Construction <==> row.status@ == "construction"@,
        project.status is Open <==> row.status@ == "open"@,
        project.status is Cancelled <==> row.status@ == "cancelled"@,
{
    lemma_status_words();
}

/// A project row tells its kind by one of six words, and the entries of its own in the tables
/// beside it are what it builds or improves.
pub proof fn project_kind_columns(
    row: ProjectRow,
    targets: Targets,
    project: InfrastructureProject,
    id: InfrastructureProjectId,
)
    requires
        project_read(row, targets, project),
        uuid_of_text(row.id@) == Some(id.value),
    ensures
        project.id == id,
        project.kind is NewLine <==> row.kind@ == "new_line"@,
        project.kind is SpeedUpgrade <==> row.kind@ == "speed_upgrade"@,
        project.kind is DoubleTracking <==> row.kind@ == "double_tracking"@,
        project.kind is Electrification <==> row.kind@ == "electrification"@,
        project.kind is Renewal <==> row.kind@ == "renewal"@,
        project.kind is StationUpgrade <==> row.kind@ == "station_upgrade"@,
        project.kind matches InfrastructureProjectKind::NewLine { planned_stations, planned_lines }
            ==> planned_stations@ == items_of(targets.planned_stations, id) && planned_lines@
            == items_of(targets.planned_lines, id),
        project.kind matches InfrastructureProjectKind::SpeedUpgrade {
            rail_line_ids,
            target_speed_limit,
        } ==> rail_line_ids@ == items_of(targets.lines, id) && row.target_speed_limit_kmh is Some
            && target_speed_limit.kilometres_per_hour == row.target_speed_limit_kmh->0,
        project.kind matches InfrastructureProjectKind::DoubleTracking {
            rail_line_ids,
            target_track_count,
        } ==> rail_line_ids@ == items_of(targets.lines, id) && row.target_track_count is Some
            && target_track_count.tracks == row.target_track_count->0,
        project.kind matches InfrastructureProjectKind::Electrification { rail_line_ids }
            ==> rail_line_ids@ == items_of(targets.lines, id),
        project.kind matches InfrastructureProjectKind::Renewal { rail_line_ids }
            ==> rail_line_ids@ == items_of(targets.lines, id),
        project.kind matches InfrastructureProjectKind::StationUpgrade { rail_station_ids }
            ==> rail_station_ids@ == items_of(targets.stations, id),
{
    reveal_strlit("new_line");
    reveal_strlit("speed_upgrade");
    reveal_strlit("double_tracking");
    reveal_strlit("electrification");
    reveal_strlit("renewal");
    reveal_strlit("station_upgrade");
    assert("new_line"@.len() == 8 && "speed_upgrade"@.len() == 13 && "renewal"@.len() == 7);
    assert("double_tracking"@.len() == 15 && "double_tracking"@[0] == 'd');
    assert("electrification"@.len() == 15 && "electrification"@[0] == 'e');
    assert("station_upgrade"@.len() == 15 && "station_upgrade"@[0] == 's');
}

/// A project's own entries are those under its identity, in the order of the table.
pub proof fn entries_go_to_their_project(
    entries: Seq<(InfrastructureProjectId, RailLineId)>,
    entry: (InfrastructureProjectId, RailLineId),
    id: InfrastructureProjectId,
)
    ensures
        items_of(Seq::<(InfrastructureProjectId, RailLineId)>::empty(), id) == Seq::<
            RailLineId,
        >::empty(),
        entry.0 == id ==> items_of(entries.push(entry), id) == items_of(entries, id).push(entry.1),
        entry.0 != id ==> items_of(entries.push(entry), id) == items_of(entries, id),
{
    assert(entries.push(entry).drop_last() =~= entries);
}

/// A project row holds the money of its columns.
pub proof fn project_funding_columns(
    row: ProjectRow,
    targets: Targets,
    project: InfrastructureProject,
)
    requires
        project_read(row, targets, project),
    ensures
        project.funding.estimated_cost.cents == row.estimated_cost_cents,
        project.funding.authority_committed.cents == row.authority_committed_cents,
        project.funding.operator_contributed.cents == row.operator_contributed_cents,
        project.funding.access_fee_discount is Some <==> row.access_fee_discount_expires_at is Some,
        row.access_fee_discount_expires_at is Some ==> {
            &&& project.funding.access_fee_discount->0.basis_points
                == row.access_fee_discount_basis_points
            &&& project.funding.access_fee_discount->0.expires_at.seconds
                == row.access_fee_discount_expires_at->0
        },
{
}

/// A project row holds the times of its columns; an empty one has not come.
pub proof fn project_time_columns(
    row: ProjectRow,
    targets: Targets,
    project: InfrastructureProject,
)
    requires
        project_read(row, targets, project),
    ensures
        ({
            let timeline = project.timeline;
            &&& timeline.requested_at.seconds == row.requested_at
            &&& timeline.reconsideration_count == row.reconsideration_count
            &&& timeline.review_started_at is Some <==> row.review_started_at is Some
            &&& row.review_started_at is Some ==> timeline.review_started_at->0.seconds
                == row.review_started_at->0
            &&& timeline.proposed_at is Some <==> row.proposed_at is Some
            &&& row.proposed_at is Some ==> timeline.proposed_at->0.seconds == row.proposed_at->0
            &&& timeline.approved_at is Some <==> row.approved_at is Some
            &&& row.approved_at is Some ==> timeline.approved_at->0.seconds == row.approved_at->0
            &&& timeline.funding_completed_at is Some <==> row.funding_completed_at is Some
            &&& row.funding_completed_at is Some ==> timeline.funding_completed_at->0.seconds
                == row.funding_completed_at->0
            &&& timeline.scheduled_start_at is Some <==> row.scheduled_start_at is Some
            &&& row.scheduled_start_at is Some ==> timeline.scheduled_start_at->0.seconds
                == row.scheduled_start_at->0
            &&& timeline.construction_started_at is Some <==> row.construction_started_at is Some
            &&& row.construction_started_at is Some ==> timeline.construction_started_at->0.seconds
                == row.construction_started_at->0
            &&& timeline.planned_completion_at is Some <==> row.planned_completion_at is Some
            &&& row.planned_completion_at is Some ==> timeline.planned_completion_at->0.seconds
                == row.planned_completion_at->0
            &&& timeline.completed_at is Some <==> row.completed_at is Some
            &&& row.completed_at is Some ==> timeline.completed_at->0.seconds == row.completed_at->0
            &&& timeline.deferred_at is Some <==> row.deferred_at is Some
            &&& row.deferred_at is Some ==> timeline.deferred_at->0.seconds == row.deferred_at->0
            &&& timeline.cancelled_at is Some <==> row.cancelled_at is Some
            &&& row.cancelled_at is Some ==> timeline.cancelled_at->0.seconds == row.cancelled_at->0
        }),
{
}

/// The single rows of a save hold what their columns say.
pub proof fn single_columns(rows: SaveRows, limit: nat, state: GameState)
    requires
        state_read(rows, limit, state),
    ensures
        rows.meta.world_seed@.len() > 0 && rows.meta.world_seed@[0] != '+' ==> state.world_seed
            == digits_value(rows.meta.world_seed@),
        state.last_processed_at.seconds == rows.meta.last_processed_at,
        state.bulletin_seen_count == rows.meta.bulletin_seen_count,
        state.region.name@ == rows.region.name@,
        state.region.railway_registration.numeric_code == rows.region.registration_code,
        state.region.railway_registration.mark@ == rows.region.registration_mark@,
        state.region.population == rows.region.population,
        state.region.rail_authority.name@ == rows.region.rail_authority_name@,
        state.region.rail_authority.construction_capacity
            == rows.region.rail_authority_construction_capacity,
        state.player_company.name@ == rows.company.name@,
        state.player_company.vehicle_keeper_mark.mark@ == rows.company.vkm@,
        state.player_company.funds.cents == rows.company.funds_cents,
        state.player_company.fleet.next_train_display_number
            == rows.company.next_train_display_number,
        state.financials.operating_revenue.cents == rows.financials.operating_revenue_cents,
        state.financials.infrastructure_access_fees.cents
            == rows.financials.infrastructure_access_fees_cents,
        state.financials.fuel_costs.cents == rows.financials.fuel_costs_cents,
        finances_written(rows.finances, state.region.rail_authority.finances),
        rules_stored(rows.rules, state.rules),
{
}

/// A game is loaded row by row: each list holds one value for each row, in the order of the
/// rows.
pub proof fn games_are_loaded_row_by_row(rows: SaveRows, limit: nat, state: GameState, i: int)
    requires
        state_read(rows, limit, state),
        0 <= i,
    ensures
        ({
            let region = state.region;
            let network = region.rail_authority.rail_network;
            let company = state.player_company;
            let receipts = latest(rows.receipts@, limit);
            &&& region.bulletin@.len() == rows.bulletin@.len()
            &&& i < rows.bulletin@.len() ==> bulletin_read(rows.bulletin@[i], region.bulletin@[i])
            &&& region.settlements@.len() == rows.settlements@.len()
            &&& i < rows.settlements@.len() ==> settlement_read(
                rows.settlements@[i],
                region.settlements@[i],
            )
            &&& network.rail_stations@.len() == rows.stations@.len()
            &&& i < rows.stations@.len() ==> station_read(
                rows.stations@[i],
                network.rail_stations@[i],
            )
            &&& network.rail_lines@.len() == rows.lines@.len()
            &&& i < rows.lines@.len() ==> line_read(rows.lines@[i], network.rail_lines@[i])
            &&& region.rail_authority.infrastructure_projects@.len() == rows.projects.projects@.len()
            &&& company.fleet.next_evn_unit_by_model@.len() == rows.units@.len()
            &&& i < rows.units@.len() ==> unit_read(
                rows.units@[i],
                company.fleet.next_evn_unit_by_model@[i],
            )
            &&& company.fleet.trains@.len() == rows.trains@.len()
            &&& i < rows.trains@.len() ==> train_read(rows.trains@[i], company.fleet.trains@[i])
            &&& company.passenger_services@.len() == rows.services@.len()
            &&& i < rows.services@.len() ==> service_read(
                rows.services@[i],
                company.passenger_services@[i],
            )
            &&& company.fleet.service_assignments@.len() == rows.assignments@.len()
            &&& i < rows.assignments@.len() ==> assignment_read(
                rows.assignments@[i],
                company.fleet.service_assignments@[i],
            )
            &&& state.origin_destination_demand@.len() == rows.demand@.len()
            &&& i < rows.demand@.len() ==> demand_read(
                rows.demand@[i],
                state.origin_destination_demand@[i],
            )
            &&& state.active_journeys@.len() == rows.journeys@.len()
            &&& i < rows.journeys@.len() ==> journey_read(
                rows.journeys@[i],
                state.active_journeys@[i],
            )
            &&& state.financials.recent_journey_receipts@.len() == receipts.len()
            &&& i < receipts.len() ==> receipt_read(
                receipts[i],
                state.financials.recent_journey_receipts@[i],
            )
        }),
{
}

} // verus!
