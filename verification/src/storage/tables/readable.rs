//! Which saves on disk can be loaded: a row is read exactly if its identities are identities,
//! its words are the schema's, and its numbers lie in their domains.

use vstd::prelude::*;

use super::company::{
    assignment_fault, assignments_fault, route_fault, service_fault, services_failure, train_fault,
    trains_fault, unit_fault, units_fault, AssignmentRow, ServiceRow, TrainRow, UnitRow,
};
use super::history::{
    comes_first, is_recent, latest, older, recent_receipts_are_determined, text_before,
};
use super::operations::{
    demand_fault, demands_fault, group_fault, journey_fault, journeys_failure, receipt_fault,
    receipts_fault, rules_fault, DemandRow, GroupRow, JourneyRow, ReceiptRow, RulesRow,
};
use super::projects::{
    body_fault, head_fault, is_status, left_over, projects_failure, row_id, targets_of, ProjectRow,
    ProjectRows, Targets,
};
use super::state::{load_failure, SaveRows};
use super::targets::{items_of, lemma_items_of_others};
use super::world::{
    bulletin_fault, bulletins_fault, line_fault, lines_fault, settlement_fault, settlements_fault,
    station_fault, stations_fault, BulletinRow, LineFields, LineRow, SettlementRow, StationRow,
};
use crate::model::identity::is_vehicle_number;
use crate::model::ids::{uuid_of_text, InfrastructureProjectId};
use crate::model::state::BulletinCategory;
use crate::storage::codec::{digits_value, is_number, LoadError, DECODE_ROW};
use crate::text::trimmed;

verus! {

/// Rows of the Region are read exactly if they hold what the schema allows.
pub proof fn readable_places(
    bulletin: BulletinRow,
    settlement: SettlementRow,
    station: StationRow,
    field: &'static str,
)
    ensures
        bulletin_fault(bulletin) is None <==> bulletin.category@ == "local"@ || bulletin.category@
            == "authority"@ || bulletin.category@ == "construction"@ || bulletin.category@
            == "network"@,
        settlement_fault(settlement) is None <==> uuid_of_text(settlement.id@) is Some
            && settlement.population >= 0,
        station_fault(station, field) is None <==> uuid_of_text(station.id@) is Some
            && uuid_of_text(station.settlement_id@) is Some,
{
    assert(super::world::category_text(BulletinCategory::Local) == "local"@);
    assert(super::world::category_text(BulletinCategory::Authority) == "authority"@);
    assert(super::world::category_text(BulletinCategory::Construction) == "construction"@);
    assert(super::world::category_text(BulletinCategory::Network) == "network"@);
}

/// A Rail Line row is read exactly if its words are the schema's, its identities are
/// identities, and its length, speed and tracks are positive.
pub proof fn readable_lines(row: LineRow, fields: LineFields)
    ensures
        line_fault(row, fields) is None <==> {
            &&& row.electrification@ == "none"@ || row.electrification@ == "electric"@
            &&& row.construction_difficulty@ == "low"@ || row.construction_difficulty@
                == "moderate"@ || row.construction_difficulty@ == "high"@
            &&& uuid_of_text(row.id@) is Some
            &&& uuid_of_text(row.first_station_id@) is Some
            &&& uuid_of_text(row.second_station_id@) is Some
            &&& row.distance_metres >= 1
            &&& 1 <= row.speed_limit_kmh <= u32::MAX
            &&& 1 <= row.track_count <= u32::MAX
        },
{
}

/// Rows of the Fleet are read exactly if they hold what the schema allows.
pub proof fn readable_fleets(train: TrainRow, unit: UnitRow, assignment: AssignmentRow)
    ensures
        train_fault(train) is None <==> {
            &&& uuid_of_text(train.id@) is Some
            &&& is_vehicle_number(train.evn@)
            &&& train.nickname is Some ==> 1 <= trimmed(train.nickname->0@).len() <= 32
            &&& train.status_kind@ == "ready"@ || train.status_kind@ == "travelling"@
            &&& uuid_of_text(train.status_ref_id@) is Some
        },
        unit_fault(unit) is None <==> 0 <= unit.next_unit_number <= 65_535,
        assignment_fault(assignment) is None <==> uuid_of_text(assignment.train_id@) is Some
            && uuid_of_text(assignment.service_id@) is Some,
{
}

/// A Service is read exactly if its row, its stops and its lines hold what the schema allows.
pub proof fn readable_services(row: ServiceRow)
    ensures
        service_fault(row) is None <==> {
            &&& uuid_of_text(row.id@) is Some
            &&& row.direction_mode@ == "both"@ || row.direction_mode@ == "forward"@
            &&& 0 <= row.forward_train_number <= u32::MAX
            &&& row.reverse_train_number is Some ==> 0 <= row.reverse_train_number->0 <= u32::MAX
        },
        route_fault(row) is None <==> (forall|i: int|
            0 <= i < row.stop_station_ids@.len() ==> uuid_of_text(
                (#[trigger] row.stop_station_ids@[i])@,
            ) is Some) && (forall|i: int|
            0 <= i < row.rail_line_ids@.len() ==> uuid_of_text((#[trigger] row.rail_line_ids@[i])@)
                is Some),
{
}

/// Rows of demand, Journeys, groups and receipts are read exactly if they hold what the schema
/// allows.
pub proof fn readable_operations(
    demand: DemandRow,
    journey: JourneyRow,
    group: GroupRow,
    receipt: ReceiptRow,
)
    ensures
        demand_fault(demand) is None <==> {
            &&& uuid_of_text(demand.origin_station_id@) is Some
            &&& uuid_of_text(demand.destination_station_id@) is Some
            &&& 0 <= demand.waiting_passengers <= u32::MAX
            &&& 0 <= demand.market_maturity_basis_points <= 10_000
            &&& 0 <= demand.passenger_arrival_rate_per_hour <= u32::MAX
            &&& demand.fractional_passenger_seconds >= 0
        },
        journey_fault(journey) is None <==> {
            &&& uuid_of_text(journey.id@) is Some
            &&& journey.purpose@ == "revenue"@ || journey.purpose@ == "positioning"@
            &&& uuid_of_text(journey.service_id@) is Some
            &&& uuid_of_text(journey.train_id@) is Some
            &&& uuid_of_text(journey.origin_station_id@) is Some
            &&& uuid_of_text(journey.destination_station_id@) is Some
            &&& 0 <= journey.passengers_carried <= u32::MAX
            &&& journey.fare_rate_cents_per_passenger_km > 0
            &&& 0 <= journey.current_stop_index <= usize::MAX
        },
        group_fault(group) is None <==> {
            &&& uuid_of_text(group.origin_station_id@) is Some
            &&& uuid_of_text(group.destination_station_id@) is Some
            &&& 0 <= group.passengers <= u32::MAX
        },
        receipt_fault(receipt) is None <==> {
            &&& uuid_of_text(receipt.journey_id@) is Some
            &&& receipt.train_id is Some ==> uuid_of_text(receipt.train_id->0@) is Some
            &&& receipt.origin_station_id is Some ==> uuid_of_text(receipt.origin_station_id->0@)
                is Some
            &&& receipt.destination_station_id is Some ==> uuid_of_text(
                receipt.destination_station_id->0@,
            ) is Some
            &&& receipt.service_id is Some ==> uuid_of_text(receipt.service_id->0@) is Some
            &&& receipt.passengers_carried is Some ==> 0 <= receipt.passengers_carried->0
                <= u32::MAX
            &&& receipt.passenger_capacity is Some ==> 0 <= receipt.passenger_capacity->0
                <= u32::MAX
            &&& receipt.purpose is Some ==> receipt.purpose->0@ == "revenue"@ || receipt.purpose->0@
                == "positioning"@
        },
{
}

/// A project row on its own is read exactly if it has an identity, a small count and a discount
/// that is whole or absent.
pub proof fn readable_project_rows(row: ProjectRow)
    ensures
        head_fault(row) is None <==> {
            &&& uuid_of_text(row.id@) is Some
            &&& 0 <= row.reconsideration_count <= 255
            &&& row.access_fee_discount_expires_at is None ==> row.access_fee_discount_basis_points
                == 0
            &&& row.access_fee_discount_expires_at is Some ==> 1
                <= row.access_fee_discount_basis_points <= 65_535
        },
{
}

/// The rules are read exactly if both rates are positive and nothing else is negative.
pub proof fn readable_rules(row: RulesRow)
    ensures
        rules_fault(row) is None <==> {
            &&& row.fare_cents_per_passenger_km > 0
            &&& row.access_fee_cents_per_train_km > 0
            &&& row.demand_cap_seconds >= 0
            &&& row.authority_request_queue_seconds >= 0
            &&& row.authority_review_seconds >= 0
            &&& row.authority_proposal_seconds >= 0
            &&& row.authority_request_cooldown_seconds >= 0
            &&& row.authority_deferred_reconsideration_seconds >= 0
            &&& row.authority_mobilisation_seconds >= 0
            &&& row.authority_new_line_base_construction_seconds >= 0
            &&& row.authority_low_difficulty_seconds_per_km >= 0
            &&& row.authority_moderate_difficulty_seconds_per_km >= 0
            &&& row.authority_high_difficulty_seconds_per_km >= 0
            &&& 0 <= row.authority_max_active_expansion_projects <= u32::MAX
        },
{
}

/// A save is loaded exactly if each of its tables can be read.
pub proof fn saves_load_if_their_tables_are_read(rows: SaveRows, limit: nat)
    ensures
        load_failure(rows, limit) is None <==> {
            let receipts = latest(rows.receipts@, limit);
            &&& is_number(rows.meta.world_seed@)
            &&& bulletins_fault(rows.bulletin@, rows.bulletin@.len() as int) is None
            &&& settlements_fault(rows.settlements@, rows.settlements@.len() as int) is None
            &&& stations_fault(rows.stations@, rows.stations@.len() as int) is None
            &&& lines_fault(rows.lines@, rows.lines@.len() as int) is None
            &&& projects_failure(rows.projects) is None
            &&& 2 <= rows.company.vkm@.len() <= 5
            &&& forall|i: int|
                0 <= i < rows.company.vkm@.len() ==> 'A' <= #[trigger] rows.company.vkm@[i] <= 'Z'
            &&& units_fault(rows.units@, rows.units@.len() as int) is None
            &&& trains_fault(rows.trains@, rows.trains@.len() as int) is None
            &&& services_failure(rows.services@) is None
            &&& assignments_fault(rows.assignments@, rows.assignments@.len() as int) is None
            &&& demands_fault(rows.demand@, rows.demand@.len() as int) is None
            &&& journeys_failure(rows.journeys@) is None
            &&& receipts_fault(receipts, receipts.len() as int) is None
            &&& 0 <= rows.region.registration_code <= 255
            &&& rows.region.population >= 0
            &&& 0 <= rows.region.rail_authority_construction_capacity <= u32::MAX
            &&& rows.company.next_train_display_number >= 0
            &&& rules_fault(rows.rules) is None
            &&& rows.meta.bulletin_seen_count >= 0
        },
{
}

/// A row that cannot be decoded is a failure of the database, never of the save: where a save
/// fails for what it says, all of its rows up to there were decoded.
pub proof fn undecodable_rows_fail_the_database(rows: SaveRows, limit: nat)
    requires
        is_number(rows.meta.world_seed@),
    ensures
        bulletins_fault(rows.bulletin@, rows.bulletin@.len() as int) is Some ==> load_failure(
            rows,
            limit,
        ) is Some && load_failure(rows, limit)->0 is Row,
        bulletins_fault(rows.bulletin@, rows.bulletin@.len() as int) is None && settlements_fault(
            rows.settlements@,
            rows.settlements@.len() as int,
        ) is Some ==> load_failure(rows, limit) is Some && load_failure(rows, limit)->0 is Row,
        bulletins_fault(rows.bulletin@, rows.bulletin@.len() as int) is None && settlements_fault(
            rows.settlements@,
            rows.settlements@.len() as int,
        ) is None && stations_fault(rows.stations@, rows.stations@.len() as int) is None
            && lines_fault(rows.lines@, rows.lines@.len() as int) is Some ==> load_failure(
            rows,
            limit,
        ) == Some(
            LoadError::Row {
                action: DECODE_ROW,
                field: lines_fault(rows.lines@, rows.lines@.len() as int)->0,
            },
        ),
{
}

/// Digits spell a number from the left, each ten times the next.
pub proof fn digits_spell_numbers(digits: Seq<char>, digit: char)
    ensures
        digits_value(Seq::empty()) == 0,
        digits_value(digits.push(digit)) == 10 * digits_value(digits) + (digit as u32
            - '0' as u32),
{
    assert(digits.push(digit).drop_last() =~= digits);
}

/// A project's row suits its entries exactly if it has a status and a kind, and for that kind
/// the targets and entries that it needs and no others.
pub proof fn readable_projects(row: ProjectRow, targets: Targets, id: InfrastructureProjectId)
    requires
        uuid_of_text(row.id@) == Some(id.value),
    ensures
        ({
            let lines = items_of(targets.lines, id).len();
            let stations = items_of(targets.stations, id).len();
            let planned = items_of(targets.planned_stations, id).len() + items_of(
                targets.planned_lines,
                id,
            ).len();
            let speed = row.target_speed_limit_kmh;
            let tracks = row.target_track_count;
            body_fault(row, targets) is None <==> is_status(row.status@) && {
                ||| row.kind@ == "new_line"@ && speed is None && tracks is None && lines == 0
                    && stations == 0
                ||| row.kind@ == "speed_upgrade"@ && tracks is None && planned == 0 && stations == 0
                    && speed is Some && 1 <= speed->0 <= u32::MAX
                ||| row.kind@ == "double_tracking"@ && speed is None && planned == 0 && stations
                    == 0 && tracks is Some && 1 <= tracks->0 <= u32::MAX
                ||| (row.kind@ == "electrification"@ || row.kind@ == "renewal"@) && speed is None
                    && tracks is None && planned == 0 && stations == 0
                ||| row.kind@ == "station_upgrade"@ && speed is None && tracks is None && planned
                    == 0 && lines == 0
            }
        }),
{
    reveal_strlit("new_line");
    reveal_strlit("speed_upgrade");
    reveal_strlit("double_tracking");
    reveal_strlit("electrification");
    reveal_strlit("renewal");
    reveal_strlit("station_upgrade");
    assert("new_line"@.len() == 8 && "speed_upgrade"@.len() == 13 && "renewal"@.len() == 7);
    assert("double_tracking"@.len() == 15 && "double_tracking"@[0] == 'd');
    assert("electrification"@.len() == 15 && "electrification"@[0] == 'e');
    assert("station_upgrade"@.len() == 15 && "station_upgrade"@[0] == 's');
}

proof fn lemma_left(
    rows: Seq<ProjectRow>,
    targets: Targets,
    count: int,
    id: InfrastructureProjectId,
)
    requires
        0 <= count <= rows.len(),
        forall|i: int| 0 <= i < count ==> row_id(#[trigger] rows[i]) != id,
    ensures
        items_of(targets.lines, id).len() > 0 ==> items_of(
            left_over(rows, targets, count).lines,
            id,
        ).len() > 0,
        items_of(targets.stations, id).len() > 0 ==> items_of(
            left_over(rows, targets, count).stations,
            id,
        ).len() > 0,
        items_of(targets.planned_stations, id).len() > 0 ==> items_of(
            left_over(rows, targets, count).planned_stations,
            id,
        ).len() > 0,
        items_of(targets.planned_lines, id).len() > 0 ==> items_of(
            left_over(rows, targets, count).planned_lines,
            id,
        ).len() > 0,
    decreases count,
{
    if count > 0 {
        lemma_left(rows, targets, count - 1, id);
        let before = left_over(rows, targets, count - 1);
        let taken = row_id(rows[count - 1]);
        lemma_items_of_others(before.lines, taken, id);
        lemma_items_of_others(before.stations, taken, id);
        lemma_items_of_others(before.planned_stations, taken, id);
        lemma_items_of_others(before.planned_lines, taken, id);
    }
}

/// An entry that belongs to no project is refused: no stored work is lost in silence.
pub proof fn orphans_are_refused(rows: ProjectRows, id: InfrastructureProjectId)
    requires
        forall|i: int| 0 <= i < rows.projects@.len() ==> row_id(#[trigger] rows.projects@[i]) != id,
        items_of(targets_of(rows).lines, id).len() > 0 || items_of(
            targets_of(rows).stations,
            id,
        ).len() > 0 || items_of(targets_of(rows).planned_stations, id).len() > 0 || items_of(
            targets_of(rows).planned_lines,
            id,
        ).len() > 0,
    ensures
        projects_failure(rows) is Some,
{
    let count = rows.projects@.len() as int;
    lemma_left(rows.projects@, targets_of(rows), count, id);
}

/// Entries are told apart by the identity of their project and name what they stand for.
pub proof fn entries_name_their_project(rows: ProjectRows, i: int)
    ensures
        0 <= i < rows.rail_lines@.len() ==> ({
            let entry = targets_of(rows).lines[i];
            &&& uuid_of_text(rows.rail_lines@[i].project_id@) is Some ==> uuid_of_text(
                rows.rail_lines@[i].project_id@,
            ) == Some(entry.0.value)
            &&& uuid_of_text(rows.rail_lines@[i].rail_line_id@) is Some ==> uuid_of_text(
                rows.rail_lines@[i].rail_line_id@,
            ) == Some(entry.1.value)
        }),
        0 <= i < rows.rail_stations@.len() ==> ({
            let entry = targets_of(rows).stations[i];
            &&& uuid_of_text(rows.rail_stations@[i].project_id@) is Some ==> uuid_of_text(
                rows.rail_stations@[i].project_id@,
            ) == Some(entry.0.value)
            &&& uuid_of_text(rows.rail_stations@[i].rail_station_id@) is Some ==> uuid_of_text(
                rows.rail_stations@[i].rail_station_id@,
            ) == Some(entry.1.value)
        }),
        0 <= i < rows.planned_stations@.len() && station_fault(
            rows.planned_stations@[i].station,
            "planned Rail Station ID",
        ) is None ==> super::world::station_read(
            rows.planned_stations@[i].station,
            targets_of(rows).planned_stations[i].1,
        ),
        0 <= i < rows.planned_lines@.len() ==> targets_of(rows).planned_lines[i].1
            == super::world::line_of(rows.planned_lines@[i].line),
{
}

/// A receipt is older than another if it was completed before it; one without a time is older
/// than any with one; at one time the identities decide.
pub proof fn older_receipts_come_first(first: ReceiptRow, second: ReceiptRow, at: int)
    ensures
        first.completed_at is Some && second.completed_at is Some && first.completed_at->0
            < second.completed_at->0 ==> older(first, second) && !older(second, first),
        first.completed_at is None && second.completed_at is Some ==> older(first, second)
            && !older(second, first),
        first.completed_at == second.completed_at && 0 <= at < first.journey_id@.len() && at
            < second.journey_id@.len() && first.journey_id@.take(at)
            == second.journey_id@.take(at) && first.journey_id@[at] < second.journey_id@[at]
            ==> older(first, second) && !older(second, first),
        first.completed_at == second.completed_at && first.journey_id@ == second.journey_id@
            ==> !older(first, second),
{
    if first.completed_at == second.completed_at && 0 <= at < first.journey_id@.len() && at
        < second.journey_id@.len() && first.journey_id@.take(at) == second.journey_id@.take(at) {
        lemma_before(first.journey_id@, second.journey_id@, at, at);
        lemma_before(second.journey_id@, first.journey_id@, at, at);
    }
    if first.journey_id@ == second.journey_id@ {
        lemma_same(first.journey_id@, 0);
    }
}

proof fn lemma_before(first: Seq<char>, second: Seq<char>, at: int, back: int)
    requires
        0 <= back <= at,
        at < first.len(),
        at < second.len(),
        first.take(at) == second.take(at),
    ensures
        text_before(first, second, at - back) == text_before(first, second, at),
    decreases back,
{
    if back > 0 {
        lemma_before(first, second, at, back - 1);
        let i = at - back;
        assert(first.take(at)[i] == first[i]);
        assert(second.take(at)[i] == second[i]);
        assert(first[i] == second[i]);
        assert(i + 1 == at - (back - 1));
        assert(text_before(first, second, i) == text_before(first, second, i + 1));
    }
}

proof fn lemma_same(text: Seq<char>, from: int)
    requires
        0 <= from,
    ensures
        !text_before(text, text, from),
    decreases text.len() - from,
{
    if from < text.len() {
        lemma_same(text, from + 1);
    }
}

/// A game is loaded with as many receipts as it may hold, or with all, in the order of time, and
/// none that is left out is newer.
pub proof fn the_latest_receipts_are_loaded(
    history: Seq<ReceiptRow>,
    limit: nat,
    places: Seq<usize>,
    i: int,
    j: int,
    left: usize,
)
    requires
        is_recent(history, limit, places),
        0 <= i <= j < places.len(),
    ensures
        latest(history, limit).len() == if history.len() <= limit {
            history.len()
        } else {
            limit
        },
        latest(history, limit)[i] == history[places[i] as int],
        !older(latest(history, limit)[j], latest(history, limit)[i]),
        left < history.len() && !places.contains(left) ==> !older(
            latest(history, limit)[i],
            history[left as int],
        ),
{
    let found = choose|found: Seq<usize>| is_recent(history, limit, found);
    recent_receipts_are_determined(history, limit, places, found);
    if i < j {
        assert(comes_first(history, places[i] as int, places[j] as int));
        older_is_one_way(history[places[i] as int], history[places[j] as int]);
    } else {
        older_is_one_way(history[places[i] as int], history[places[j] as int]);
    }
    if left < history.len() && !places.contains(left) {
        assert(comes_first(history, left as int, places[i] as int));
        older_is_one_way(history[left as int], history[places[i] as int]);
    }
}

/// Of two receipts at most one is older than the other.
pub proof fn older_is_one_way(first: ReceiptRow, second: ReceiptRow)
    ensures
        !(older(first, second) && older(second, first)),
{
    lemma_one_way(first.journey_id@, second.journey_id@, 0);
}

proof fn lemma_one_way(first: Seq<char>, second: Seq<char>, from: int)
    requires
        0 <= from,
    ensures
        !(text_before(first, second, from) && text_before(second, first, from)),
    decreases first.len() + second.len() - from,
{
    if from < first.len() || from < second.len() {
        lemma_one_way(first, second, from + 1);
    }
}

proof fn lemma_bulletins(rows: Seq<BulletinRow>, count: int)
    requires
        0 <= count <= rows.len(),
    ensures
        super::world::bulletins_fault(rows, count) is None <==> forall|i: int|
            0 <= i < count ==> super::world::bulletin_fault(#[trigger] rows[i]) is None,
    decreases count,
{
    if count > 0 {
        lemma_bulletins(rows, count - 1);
    }
}

proof fn lemma_settlements(rows: Seq<SettlementRow>, count: int)
    requires
        0 <= count <= rows.len(),
    ensures
        super::world::settlements_fault(rows, count) is None <==> forall|i: int|
            0 <= i < count ==> super::world::settlement_fault(#[trigger] rows[i]) is None,
    decreases count,
{
    if count > 0 {
        lemma_settlements(rows, count - 1);
    }
}

proof fn lemma_units(rows: Seq<UnitRow>, count: int)
    requires
        0 <= count <= rows.len(),
    ensures
        super::company::units_fault(rows, count) is None <==> forall|i: int|
            0 <= i < count ==> super::company::unit_fault(#[trigger] rows[i]) is None,
    decreases count,
{
    if count > 0 {
        lemma_units(rows, count - 1);
    }
}

proof fn lemma_trains(rows: Seq<TrainRow>, count: int)
    requires
        0 <= count <= rows.len(),
    ensures
        super::company::trains_fault(rows, count) is None <==> forall|i: int|
            0 <= i < count ==> super::company::train_fault(#[trigger] rows[i]) is None,
    decreases count,
{
    if count > 0 {
        lemma_trains(rows, count - 1);
    }
}

proof fn lemma_assignments(rows: Seq<AssignmentRow>, count: int)
    requires
        0 <= count <= rows.len(),
    ensures
        super::company::assignments_fault(rows, count) is None <==> forall|i: int|
            0 <= i < count ==> super::company::assignment_fault(#[trigger] rows[i]) is None,
    decreases count,
{
    if count > 0 {
        lemma_assignments(rows, count - 1);
    }
}

proof fn lemma_demands(rows: Seq<DemandRow>, count: int)
    requires
        0 <= count <= rows.len(),
    ensures
        super::operations::demands_fault(rows, count) is None <==> forall|i: int|
            0 <= i < count ==> super::operations::demand_fault(#[trigger] rows[i]) is None,
    decreases count,
{
    if count > 0 {
        lemma_demands(rows, count - 1);
    }
}

proof fn lemma_groups(rows: Seq<GroupRow>, count: int)
    requires
        0 <= count <= rows.len(),
    ensures
        super::operations::groups_fault(rows, count) is None <==> forall|i: int|
            0 <= i < count ==> super::operations::group_fault(#[trigger] rows[i]) is None,
    decreases count,
{
    if count > 0 {
        lemma_groups(rows, count - 1);
    }
}

proof fn lemma_receipts(rows: Seq<ReceiptRow>, count: int)
    requires
        0 <= count <= rows.len(),
    ensures
        super::operations::receipts_fault(rows, count) is None <==> forall|i: int|
            0 <= i < count ==> super::operations::receipt_fault(#[trigger] rows[i]) is None,
    decreases count,
{
    if count > 0 {
        lemma_receipts(rows, count - 1);
    }
}

proof fn lemma_services(rows: Seq<ServiceRow>, count: int)
    requires
        0 <= count <= rows.len(),
    ensures
        super::company::services_fault(rows, count) is None <==> forall|i: int|
            0 <= i < count ==> super::company::service_fault(#[trigger] rows[i]) is None,
    decreases count,
{
    if count > 0 {
        lemma_services(rows, count - 1);
    }
}

proof fn lemma_routes(rows: Seq<ServiceRow>, count: int)
    requires
        0 <= count <= rows.len(),
    ensures
        super::company::routes_fault(rows, count) is None <==> forall|i: int|
            0 <= i < count ==> super::company::route_fault(#[trigger] rows[i]) is None,
    decreases count,
{
    if count > 0 {
        lemma_routes(rows, count - 1);
    }
}

proof fn lemma_journeys(rows: Seq<JourneyRow>, count: int)
    requires
        0 <= count <= rows.len(),
    ensures
        super::operations::journeys_fault(rows, count) is None <==> forall|i: int|
            0 <= i < count ==> super::operations::journey_fault(#[trigger] rows[i]) is None,
    decreases count,
{
    if count > 0 {
        lemma_journeys(rows, count - 1);
    }
}

proof fn lemma_stations(rows: Seq<StationRow>, count: int)
    requires
        0 <= count <= rows.len(),
    ensures
        stations_fault(rows, count) is None <==> forall|i: int|
            0 <= i < count ==> station_fault(#[trigger] rows[i], "Rail Station ID") is None,
    decreases count,
{
    if count > 0 {
        lemma_stations(rows, count - 1);
    }
}

proof fn lemma_lines(rows: Seq<LineRow>, count: int)
    requires
        0 <= count <= rows.len(),
    ensures
        lines_fault(rows, count) is None <==> forall|i: int|
            0 <= i < count ==> line_fault(#[trigger] rows[i], super::world::rail_line_fields())
                is None,
    decreases count,
{
    if count > 0 {
        lemma_lines(rows, count - 1);
    }
}

proof fn lemma_carried(rows: Seq<JourneyRow>, count: int)
    requires
        0 <= count <= rows.len(),
    ensures
        super::operations::carried_fault(rows, count) is None <==> forall|i: int|
            0 <= i < count ==> super::operations::groups_fault(
                (#[trigger] rows[i]).passenger_groups@,
                rows[i].passenger_groups@.len() as int,
            ) is None,
    decreases count,
{
    if count > 0 {
        lemma_carried(rows, count - 1);
    }
}

/// A table is read exactly if each of its rows is.
pub proof fn tables_are_read_row_by_row(rows: SaveRows, receipts: Seq<ReceiptRow>)
    ensures
        bulletins_fault(rows.bulletin@, rows.bulletin@.len() as int) is None <==> forall|i: int|
            0 <= i < rows.bulletin@.len() ==> bulletin_fault(#[trigger] rows.bulletin@[i]) is None,
        settlements_fault(rows.settlements@, rows.settlements@.len() as int) is None <==> forall|
            i: int,
        |
            0 <= i < rows.settlements@.len() ==> settlement_fault(#[trigger] rows.settlements@[i])
                is None,
        stations_fault(rows.stations@, rows.stations@.len() as int) is None <==> forall|i: int|
            0 <= i < rows.stations@.len() ==> station_fault(
                #[trigger] rows.stations@[i],
                "Rail Station ID",
            ) is None,
        lines_fault(rows.lines@, rows.lines@.len() as int) is None <==> forall|i: int|
            0 <= i < rows.lines@.len() ==> line_fault(
                #[trigger] rows.lines@[i],
                super::world::rail_line_fields(),
            ) is None,
        units_fault(rows.units@, rows.units@.len() as int) is None <==> forall|i: int|
            0 <= i < rows.units@.len() ==> unit_fault(#[trigger] rows.units@[i]) is None,
        trains_fault(rows.trains@, rows.trains@.len() as int) is None <==> forall|i: int|
            0 <= i < rows.trains@.len() ==> train_fault(#[trigger] rows.trains@[i]) is None,
        assignments_fault(rows.assignments@, rows.assignments@.len() as int) is None <==> forall|
            i: int,
        |
            0 <= i < rows.assignments@.len() ==> assignment_fault(#[trigger] rows.assignments@[i])
                is None,
        demands_fault(rows.demand@, rows.demand@.len() as int) is None <==> forall|i: int|
            0 <= i < rows.demand@.len() ==> demand_fault(#[trigger] rows.demand@[i]) is None,
        receipts_fault(receipts, receipts.len() as int) is None <==> forall|i: int|
            0 <= i < receipts.len() ==> receipt_fault(#[trigger] receipts[i]) is None,
{
    lemma_bulletins(rows.bulletin@, rows.bulletin@.len() as int);
    lemma_settlements(rows.settlements@, rows.settlements@.len() as int);
    lemma_stations(rows.stations@, rows.stations@.len() as int);
    lemma_lines(rows.lines@, rows.lines@.len() as int);
    lemma_units(rows.units@, rows.units@.len() as int);
    lemma_trains(rows.trains@, rows.trains@.len() as int);
    lemma_assignments(rows.assignments@, rows.assignments@.len() as int);
    lemma_demands(rows.demand@, rows.demand@.len() as int);
    lemma_receipts(receipts, receipts.len() as int);
}

/// Services are read exactly if each of their rows and routes is, and a row that cannot be
/// decoded fails the database before any route fails the save.
pub proof fn services_are_read_before_their_routes(rows: Seq<ServiceRow>, i: int)
    ensures
        services_failure(rows) is None <==> forall|j: int|
            0 <= j < rows.len() ==> service_fault(#[trigger] rows[j]) is None && route_fault(rows[j])
                is None,
        0 <= i < rows.len() && service_fault(rows[i]) is Some ==> services_failure(rows) is Some
            && services_failure(rows)->0 is Row,
        (forall|j: int| 0 <= j < rows.len() ==> service_fault(#[trigger] rows[j]) is None) && 0 <= i
            < rows.len() && route_fault(rows[i]) is Some ==> services_failure(rows) is Some
            && services_failure(rows)->0 is Save,
{
    lemma_services(rows, rows.len() as int);
    lemma_routes(rows, rows.len() as int);
}

/// Journeys are read exactly if each of their rows and each of their groups is, and every
/// failure is the database's.
pub proof fn journeys_are_read_before_their_groups(rows: Seq<JourneyRow>)
    ensures
        journeys_failure(rows) is None <==> forall|j: int|
            0 <= j < rows.len() ==> journey_fault(#[trigger] rows[j]) is None && (forall|k: int|
                0 <= k < rows[j].passenger_groups@.len() ==> group_fault(
                    #[trigger] rows[j].passenger_groups@[k],
                ) is None),
        journeys_failure(rows) is Some ==> journeys_failure(rows)->0 is Row,
{
    lemma_journeys(rows, rows.len() as int);
    lemma_carried(rows, rows.len() as int);
    assert forall|j: int| 0 <= j < rows.len() implies (super::operations::groups_fault(
        (#[trigger] rows[j]).passenger_groups@,
        rows[j].passenger_groups@.len() as int,
    ) is None <==> forall|k: int|
        0 <= k < rows[j].passenger_groups@.len() ==> group_fault(
            #[trigger] rows[j].passenger_groups@[k],
        ) is None) by {
        lemma_groups(rows[j].passenger_groups@, rows[j].passenger_groups@.len() as int);
    }
}

} // verus!
