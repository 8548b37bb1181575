//! Tables of operation: Passenger Demand, Journeys, receipts and the game's rules.

use vstd::prelude::*;

use super::company::{optional_number, same_name};
use crate::model::company::{
    Journey, JourneyPassengerGroup, JourneyPurpose, JourneyReceipt, OriginDestinationDemand,
};
use crate::model::ids::{
    spells, uuid_of_text, JourneyId, RailStationId, ServiceId, TrainId,
};
use crate::model::state::{AuthorityRules, BalanceConfig, DemandRules, GameRules};
use crate::model::units::{
    DurationSeconds, MarketMaturity, Money, MoneyPerKilometre, PassengerArrivalRate, UtcSeconds,
};
use crate::storage::codec::{
    failed_row, first_fault, fits_u32, from_db_u64, optional_seconds, read_time, refused, row_fault,
    row_u32, row_u64, store_position, store_time, stored_position, to_db_u64, undecoded, unloaded,
    LoadError, RowError, SaveCodecError, DECODE_ROW,
};
use crate::text::same_text;

verus! {

/// A row of `origin_destination_demand`.
#[derive(Clone, Debug, PartialEq, Eq)]
pub struct DemandRow {
    pub origin_station_id: String,
    pub destination_station_id: String,
    pub sequence: i64,
    pub waiting_passengers: i64,
    pub market_maturity_basis_points: i64,
    pub passenger_arrival_rate_per_hour: i64,
    pub fractional_passenger_seconds: i64,
}

pub open spec fn demand_unstorable(pool: OriginDestinationDemand) -> bool {
    pool.fractional_passenger_seconds > i64::MAX
}

pub open spec fn demand_written(row: DemandRow, index: int, pool: OriginDestinationDemand) -> bool {
    &&& spells(row.origin_station_id@, pool.origin_station_id.value)
    &&& spells(row.destination_station_id@, pool.destination_station_id.value)
    &&& row.sequence == stored_position(index)
    &&& row.waiting_passengers == pool.waiting_passengers
    &&& row.market_maturity_basis_points == pool.market_maturity.basis_points
    &&& row.passenger_arrival_rate_per_hour
        == pool.passenger_arrival_rate_per_hour.passengers_per_hour
    &&& row.fractional_passenger_seconds == pool.fractional_passenger_seconds
}

pub open spec fn demand_fault(row: DemandRow) -> Option<&'static str> {
    if uuid_of_text(row.origin_station_id@) is None {
        Some("Demand origin")
    } else if uuid_of_text(row.destination_station_id@) is None {
        Some("Demand destination")
    } else if !fits_u32(row.waiting_passengers) {
        Some("Demand Waiting Passengers")
    } else if !(0 <= row.market_maturity_basis_points <= 10_000) {
        Some("Demand market maturity")
    } else if !fits_u32(row.passenger_arrival_rate_per_hour) {
        Some("Demand arrival rate")
    } else if row.fractional_passenger_seconds < 0 {
        Some("Demand fractional passenger seconds")
    } else {
        None
    }
}

pub open spec fn demand_read(row: DemandRow, pool: OriginDestinationDemand) -> bool {
    &&& uuid_of_text(row.origin_station_id@) == Some(pool.origin_station_id.value)
    &&& uuid_of_text(row.destination_station_id@) == Some(pool.destination_station_id.value)
    &&& row.waiting_passengers == pool.waiting_passengers
    &&& row.market_maturity_basis_points == pool.market_maturity.basis_points
    &&& row.passenger_arrival_rate_per_hour
        == pool.passenger_arrival_rate_per_hour.passengers_per_hour
    &&& row.fractional_passenger_seconds == pool.fractional_passenger_seconds
}

pub open spec fn same_demand(
    first: OriginDestinationDemand,
    second: OriginDestinationDemand,
) -> bool {
    first == second
}

pub fn write_demand(index: usize, pool: &OriginDestinationDemand) -> (result: Result<
    DemandRow,
    SaveCodecError,
>)
    ensures
        refused(
            result,
            if demand_unstorable(*pool) {
                Some("Demand fractional passenger seconds")
            } else {
                None
            },
        ),
        result matches Ok(row) ==> demand_written(row, index as int, *pool),
{
    let fractional_passenger_seconds: i64 = match to_db_u64(
        pool.fractional_passenger_seconds,
        "Demand fractional passenger seconds",
    ) {
        Ok(seconds) => seconds,
        Err(error) => return Err(error),
    };
    Ok(
        DemandRow {
            origin_station_id: pool.origin_station_id.text(),
            destination_station_id: pool.destination_station_id.text(),
            sequence: store_position(index),
            waiting_passengers: pool.waiting_passengers as i64,
            market_maturity_basis_points: pool.market_maturity.basis_points as i64,
            passenger_arrival_rate_per_hour:
                pool.passenger_arrival_rate_per_hour.passengers_per_hour as i64,
            fractional_passenger_seconds,
        },
    )
}

pub fn read_demand(row: &DemandRow) -> (result: Result<OriginDestinationDemand, RowError>)
    ensures
        undecoded(result, demand_fault(*row)),
        result matches Ok(pool) ==> demand_read(*row, pool),
{
    let origin_station_id = match RailStationId::parse(row.origin_station_id.as_str()) {
        Some(id) => id,
        None => return Err(RowError { field: "Demand origin" }),
    };
    let destination_station_id = match RailStationId::parse(row.destination_station_id.as_str()) {
        Some(id) => id,
        None => return Err(RowError { field: "Demand destination" }),
    };
    let waiting_passengers: u32 = match row_u32(
        row.waiting_passengers,
        "Demand Waiting Passengers",
    ) {
        Ok(count) => count,
        Err(error) => return Err(error),
    };
    let market_maturity = match MarketMaturity::from_basis_points(
        row.market_maturity_basis_points,
    ) {
        Ok(maturity) => maturity,
        Err(_) => return Err(RowError { field: "Demand market maturity" }),
    };
    let passenger_arrival_rate_per_hour = match PassengerArrivalRate::new(
        row.passenger_arrival_rate_per_hour,
    ) {
        Ok(rate) => rate,
        Err(_) => return Err(RowError { field: "Demand arrival rate" }),
    };
    let fractional_passenger_seconds: u64 = match row_u64(
        row.fractional_passenger_seconds,
        "Demand fractional passenger seconds",
    ) {
        Ok(seconds) => seconds,
        Err(error) => return Err(error),
    };
    Ok(
        OriginDestinationDemand {
            origin_station_id,
            destination_station_id,
            waiting_passengers,
            market_maturity,
            passenger_arrival_rate_per_hour,
            fractional_passenger_seconds,
        },
    )
}

/// A written direction of demand reads back as itself.
pub proof fn demand_round_trip(row: DemandRow, index: int, pool: OriginDestinationDemand)
    requires
        demand_written(row, index, pool),
        pool.market_maturity.wf(),
    ensures
        demand_fault(row) is None,
        forall|other: OriginDestinationDemand| #[trigger]
            demand_read(row, other) ==> same_demand(pool, other),
{
}

/// A row of `journey_passenger_groups`.
#[derive(Clone, Debug, PartialEq, Eq)]
pub struct GroupRow {
    pub sequence: i64,
    pub origin_station_id: String,
    pub destination_station_id: String,
    pub passengers: i64,
    pub fare_cents: i64,
}

pub open spec fn group_written(row: GroupRow, index: int, group: JourneyPassengerGroup) -> bool {
    &&& row.sequence == stored_position(index)
    &&& spells(row.origin_station_id@, group.origin_station_id.value)
    &&& spells(row.destination_station_id@, group.destination_station_id.value)
    &&& row.passengers == group.passengers
    &&& row.fare_cents == group.fare.cents
}

pub open spec fn group_fault(row: GroupRow) -> Option<&'static str> {
    if uuid_of_text(row.origin_station_id@) is None {
        Some("Journey passenger origin")
    } else if uuid_of_text(row.destination_station_id@) is None {
        Some("Journey passenger destination")
    } else if !fits_u32(row.passengers) {
        Some("Journey passenger group")
    } else {
        None
    }
}

pub open spec fn group_read(row: GroupRow, group: JourneyPassengerGroup) -> bool {
    &&& uuid_of_text(row.origin_station_id@) == Some(group.origin_station_id.value)
    &&& uuid_of_text(row.destination_station_id@) == Some(group.destination_station_id.value)
    &&& row.passengers == group.passengers
    &&& row.fare_cents == group.fare.cents
}

pub open spec fn same_group(first: JourneyPassengerGroup, second: JourneyPassengerGroup) -> bool {
    first == second
}

pub fn write_group(index: usize, group: &JourneyPassengerGroup) -> (row: GroupRow)
    ensures
        group_written(row, index as int, *group),
{
    GroupRow {
        sequence: store_position(index),
        origin_station_id: group.origin_station_id.text(),
        destination_station_id: group.destination_station_id.text(),
        passengers: group.passengers as i64,
        fare_cents: group.fare.cents,
    }
}

pub fn read_group(row: &GroupRow) -> (result: Result<JourneyPassengerGroup, RowError>)
    ensures
        undecoded(result, group_fault(*row)),
        result matches Ok(group) ==> group_read(*row, group),
{
    let origin_station_id = match RailStationId::parse(row.origin_station_id.as_str()) {
        Some(id) => id,
        None => return Err(RowError { field: "Journey passenger origin" }),
    };
    let destination_station_id = match RailStationId::parse(row.destination_station_id.as_str()) {
        Some(id) => id,
        None => return Err(RowError { field: "Journey passenger destination" }),
    };
    let passengers: u32 = match row_u32(row.passengers, "Journey passenger group") {
        Ok(count) => count,
        Err(error) => return Err(error),
    };
    Ok(
        JourneyPassengerGroup {
            origin_station_id,
            destination_station_id,
            passengers,
            fare: Money { cents: row.fare_cents },
        },
    )
}

/// A written passenger group reads back as itself.
pub proof fn group_round_trip(row: GroupRow, index: int, group: JourneyPassengerGroup)
    requires
        group_written(row, index, group),
    ensures
        group_fault(row) is None,
        forall|other: JourneyPassengerGroup| #[trigger]
            group_read(row, other) ==> same_group(group, other),
{
}

pub open spec fn purpose_text(purpose: JourneyPurpose) -> Seq<char> {
    match purpose {
        JourneyPurpose::RevenueService => "revenue"@,
        JourneyPurpose::Positioning => "positioning"@,
    }
}

pub open spec fn is_purpose(text: Seq<char>) -> bool {
    text == "revenue"@ || text == "positioning"@
}

proof fn lemma_purpose_texts()
    ensures
        forall|a: JourneyPurpose, b: JourneyPurpose|
            #[trigger] purpose_text(a) == #[trigger] purpose_text(b) ==> a == b,
{
    reveal_strlit("revenue");
    reveal_strlit("positioning");
    assert("revenue"@.len() == 7 && "positioning"@.len() == 11);
}

fn write_purpose(purpose: JourneyPurpose) -> (text: String)
    ensures
        text@ == purpose_text(purpose),
{
    match purpose {
        JourneyPurpose::RevenueService => "revenue".to_owned(),
        JourneyPurpose::Positioning => "positioning".to_owned(),
    }
}

fn read_purpose(text: &str) -> (result: Option<JourneyPurpose>)
    ensures
        match result {
            Some(purpose) => text@ == purpose_text(purpose) && is_purpose(text@),
            None => !is_purpose(text@),
        },
{
    if same_text(text, "revenue") {
        Some(JourneyPurpose::RevenueService)
    } else if same_text(text, "positioning") {
        Some(JourneyPurpose::Positioning)
    } else {
        None
    }
}

/// A row of `active_journeys` with the Journey's passenger groups in order.
#[derive(Clone, Debug, PartialEq, Eq)]
pub struct JourneyRow {
    pub id: String,
    pub sequence: i64,
    pub purpose: String,
    pub service_id: String,
    pub train_id: String,
    pub origin_station_id: String,
    pub destination_station_id: String,
    pub passengers_carried: i64,
    pub fare_rate_cents_per_passenger_km: i64,
    pub fare_cents: i64,
    pub operating_revenue_cents: i64,
    pub credited_revenue_cents: i64,
    pub infrastructure_access_fee_cents: i64,
    pub fuel_cost_cents: i64,
    pub current_stop_index: i64,
    pub started_at: Option<i64>,
    pub departed_at: i64,
    pub arrives_at: i64,
    pub passenger_groups: Vec<GroupRow>,
}

/// Whether rows were written for a list of values.
pub open spec fn demands_written(rows: Seq<DemandRow>, values: Seq<OriginDestinationDemand>) -> bool {
    &&& rows.len() == values.len()
    &&& forall|i: int| 0 <= i < values.len() ==> demand_written(#[trigger] rows[i], i, values[i])
}

/// The first field that makes the first `count` rows unreadable.
pub open spec fn demands_fault(rows: Seq<DemandRow>, count: int) -> Option<&'static str>
    decreases count,
{
    if count <= 0 {
        None
    } else if demands_fault(rows, count - 1) is Some {
        demands_fault(rows, count - 1)
    } else {
        demand_fault(rows[count - 1])
    }
}

proof fn lemma_demands_fault(rows: Seq<DemandRow>, low: int, high: int)
    requires
        low <= high,
        demands_fault(rows, low) is Some,
    ensures
        demands_fault(rows, high) == demands_fault(rows, low),
    decreases high - low,
{
    if low < high {
        lemma_demands_fault(rows, low, high - 1);
    }
}

/// Whether a list of values is what the rows describe.
pub open spec fn demands_read(rows: Seq<DemandRow>, values: Seq<OriginDestinationDemand>) -> bool {
    &&& rows.len() == values.len()
    &&& forall|i: int| 0 <= i < values.len() ==> demand_read(rows[i], #[trigger] values[i])
}

/// Whether two lists hold the same values.
pub open spec fn same_demands(first: Seq<OriginDestinationDemand>, second: Seq<OriginDestinationDemand>) -> bool {
    &&& first.len() == second.len()
    &&& forall|i: int| 0 <= i < first.len() ==> same_demand(first[i], #[trigger] second[i])
}

pub fn read_demands(rows: &Vec<DemandRow>) -> (result: Result<Vec<OriginDestinationDemand>, RowError>)
    ensures
        undecoded(result, demands_fault(rows@, rows@.len() as int)),
        result matches Ok(values) ==> demands_read(rows@, values@),
{
    let mut values: Vec<OriginDestinationDemand> = Vec::new();
    let mut i: usize = 0;
    while i < rows.len()
        invariant
            i <= rows@.len(),
            demands_fault(rows@, i as int) is None,
            values@.len() == i,
            forall|j: int| 0 <= j < i ==> demand_read(rows@[j], #[trigger] values@[j]),
        decreases rows.len() - i,
    {
        match read_demand(&rows[i]) {
            Ok(value) => {
                values.push(value);
            },
            Err(error) => {
                proof {
                    lemma_demands_fault(rows@, i + 1, rows@.len() as int);
                }
                return Err(error);
            },
        }
        i += 1;
    }
    Ok(values)
}

/// Whether some value does not fit the database.
pub open spec fn demands_unstorable(values: Seq<OriginDestinationDemand>) -> bool {
    exists|i: int| 0 <= i < values.len() && demand_unstorable(#[trigger] values[i])
}

pub fn write_demands(values: &Vec<OriginDestinationDemand>) -> (result: Result<Vec<DemandRow>, SaveCodecError>)
    ensures
        refused(
            result,
            if demands_unstorable(values@) {
                Some("Demand fractional passenger seconds")
            } else {
                None
            },
        ),
        result matches Ok(rows) ==> demands_written(rows@, values@),
{
    let mut rows: Vec<DemandRow> = Vec::new();
    let mut i: usize = 0;
    while i < values.len()
        invariant
            i <= values@.len(),
            rows@.len() == i,
            forall|j: int| 0 <= j < i ==> demand_written(#[trigger] rows@[j], j, values@[j]),
            forall|j: int| 0 <= j < i ==> !demand_unstorable(#[trigger] values@[j]),
        decreases values.len() - i,
    {
        match write_demand(i, &values[i]) {
            Ok(row) => {
                rows.push(row);
            },
            Err(error) => {
                assert(demand_unstorable(values@[i as int]));
                return Err(error);
            },
        }
        i += 1;
    }
    Ok(rows)
}

proof fn lemma_demands_readable(rows: Seq<DemandRow>, values: Seq<OriginDestinationDemand>, count: int)
    requires
        demands_written(rows, values),
        0 <= count <= rows.len(),
        forall|i: int| 0 <= i < values.len() ==> (#[trigger] values[i]).market_maturity.wf(),
    ensures
        demands_fault(rows, count) is None,
    decreases count,
{
    if count > 0 {
        lemma_demands_readable(rows, values, count - 1);
        assert(demand_written(rows[count - 1], count - 1, values[count - 1]));
        assert(values[count - 1].market_maturity.wf());
        demand_round_trip(rows[count - 1], count - 1, values[count - 1]);
        assert(demand_fault(rows[count - 1]) is None);
    }
}

/// Written rows read back as the values they were written for.
pub proof fn demands_round_trip(rows: Seq<DemandRow>, values: Seq<OriginDestinationDemand>)
    requires
        demands_written(rows, values),
        forall|i: int| 0 <= i < values.len() ==> (#[trigger] values[i]).market_maturity.wf(),
    ensures
        demands_fault(rows, rows.len() as int) is None,
        forall|others: Seq<OriginDestinationDemand>| #[trigger] demands_read(rows, others) ==> same_demands(values, others),
{
    lemma_demands_readable(rows, values, rows.len() as int);
    assert forall|others: Seq<OriginDestinationDemand>| #[trigger] demands_read(rows, others) implies same_demands(
        values,
        others,
    ) by {
        assert forall|i: int| 0 <= i < values.len() implies same_demand(values[i], #[trigger] others[i]) by {
            assert(demand_written(rows[i], i, values[i]));
            assert(values[i].market_maturity.wf());
            demand_round_trip(rows[i], i, values[i]);
            assert(demand_read(rows[i], others[i]));
        }
    }
}

/// Whether rows were written for a list of values.
pub open spec fn groups_written(rows: Seq<GroupRow>, values: Seq<JourneyPassengerGroup>) -> bool {
    &&& rows.len() == values.len()
    &&& forall|i: int| 0 <= i < values.len() ==> group_written(#[trigger] rows[i], i, values[i])
}

/// The first field that makes the first `count` rows unreadable.
pub open spec fn groups_fault(rows: Seq<GroupRow>, count: int) -> Option<&'static str>
    decreases count,
{
    if count <= 0 {
        None
    } else if groups_fault(rows, count - 1) is Some {
        groups_fault(rows, count - 1)
    } else {
        group_fault(rows[count - 1])
    }
}

proof fn lemma_groups_fault(rows: Seq<GroupRow>, low: int, high: int)
    requires
        low <= high,
        groups_fault(rows, low) is Some,
    ensures
        groups_fault(rows, high) == groups_fault(rows, low),
    decreases high - low,
{
    if low < high {
        lemma_groups_fault(rows, low, high - 1);
    }
}

/// Whether a list of values is what the rows describe.
pub open spec fn groups_read(rows: Seq<GroupRow>, values: Seq<JourneyPassengerGroup>) -> bool {
    &&& rows.len() == values.len()
    &&& forall|i: int| 0 <= i < values.len() ==> group_read(rows[i], #[trigger] values[i])
}

/// Whether two lists hold the same values.
pub open spec fn same_groups(first: Seq<JourneyPassengerGroup>, second: Seq<JourneyPassengerGroup>) -> bool {
    &&& first.len() == second.len()
    &&& forall|i: int| 0 <= i < first.len() ==> same_group(first[i], #[trigger] second[i])
}

pub fn read_groups(rows: &Vec<GroupRow>) -> (result: Result<Vec<JourneyPassengerGroup>, RowError>)
    ensures
        undecoded(result, groups_fault(rows@, rows@.len() as int)),
        result matches Ok(values) ==> groups_read(rows@, values@),
{
    let mut values: Vec<JourneyPassengerGroup> = Vec::new();
    let mut i: usize = 0;
    while i < rows.len()
        invariant
            i <= rows@.len(),
            groups_fault(rows@, i as int) is None,
            values@.len() == i,
            forall|j: int| 0 <= j < i ==> group_read(rows@[j], #[trigger] values@[j]),
        decreases rows.len() - i,
    {
        match read_group(&rows[i]) {
            Ok(value) => {
                values.push(value);
            },
            Err(error) => {
                proof {
                    lemma_groups_fault(rows@, i + 1, rows@.len() as int);
                }
                return Err(error);
            },
        }
        i += 1;
    }
    Ok(values)
}

pub fn write_groups(values: &Vec<JourneyPassengerGroup>) -> (rows: Vec<GroupRow>)
    ensures
        groups_written(rows@, values@),
{
    let mut rows: Vec<GroupRow> = Vec::new();
    let mut i: usize = 0;
    while i < values.len()
        invariant
            i <= values@.len(),
            rows@.len() == i,
            forall|j: int| 0 <= j < i ==> group_written(#[trigger] rows@[j], j, values@[j]),
        decreases values.len() - i,
    {
        rows.push(write_group(i, &values[i]));
        i += 1;
    }
    rows
}

proof fn lemma_groups_readable(rows: Seq<GroupRow>, values: Seq<JourneyPassengerGroup>, count: int)
    requires
        groups_written(rows, values),
        0 <= count <= rows.len(),
    ensures
        groups_fault(rows, count) is None,
    decreases count,
{
    if count > 0 {
        lemma_groups_readable(rows, values, count - 1);
        assert(group_written(rows[count - 1], count - 1, values[count - 1]));
        group_round_trip(rows[count - 1], count - 1, values[count - 1]);
        assert(group_fault(rows[count - 1]) is None);
    }
}

/// Written rows read back as the values they were written for.
pub proof fn groups_round_trip(rows: Seq<GroupRow>, values: Seq<JourneyPassengerGroup>)
    requires
        groups_written(rows, values),
    ensures
        groups_fault(rows, rows.len() as int) is None,
        forall|others: Seq<JourneyPassengerGroup>| #[trigger] groups_read(rows, others) ==> same_groups(values, others),
{
    lemma_groups_readable(rows, values, rows.len() as int);
    assert forall|others: Seq<JourneyPassengerGroup>| #[trigger] groups_read(rows, others) implies same_groups(
        values,
        others,
    ) by {
        assert forall|i: int| 0 <= i < values.len() implies same_group(values[i], #[trigger] others[i]) by {
            assert(group_written(rows[i], i, values[i]));
            group_round_trip(rows[i], i, values[i]);
            assert(group_read(rows[i], others[i]));
        }
    }
}

/// The field of a Journey that does not fit the database, if any.
pub open spec fn journey_overflow(journey: Journey) -> Option<&'static str> {
    if journey.fare_rate.cents_per_kilometre > i64::MAX {
        Some("Journey fare rate")
    } else if journey.current_stop_index > i64::MAX {
        Some("Journey current stop index")
    } else {
        None
    }
}

pub open spec fn journey_written(row: JourneyRow, index: int, journey: Journey) -> bool {
    &&& spells(row.id@, journey.id.value)
    &&& row.sequence == stored_position(index)
    &&& row.purpose@ == purpose_text(journey.purpose)
    &&& spells(row.service_id@, journey.service_id.value)
    &&& spells(row.train_id@, journey.train_id.value)
    &&& spells(row.origin_station_id@, journey.origin_station_id.value)
    &&& spells(row.destination_station_id@, journey.destination_station_id.value)
    &&& journey_numbers(row, journey)
    &&& groups_written(row.passenger_groups@, journey.passenger_groups@)
}

/// Whether a row holds a Journey's amounts, counts and times.
pub open spec fn journey_numbers(row: JourneyRow, journey: Journey) -> bool {
    &&& row.passengers_carried == journey.passengers_carried
    &&& row.fare_rate_cents_per_passenger_km == journey.fare_rate.cents_per_kilometre
    &&& row.fare_cents == journey.fare.cents
    &&& row.operating_revenue_cents == journey.operating_revenue.cents
    &&& row.credited_revenue_cents == journey.credited_revenue.cents
    &&& row.infrastructure_access_fee_cents == journey.infrastructure_access_fee.cents
    &&& row.fuel_cost_cents == journey.fuel_cost.cents
    &&& row.current_stop_index == journey.current_stop_index
    &&& row.started_at == optional_seconds(journey.started_at)
    &&& row.departed_at == journey.departed_at.seconds
    &&& row.arrives_at == journey.arrives_at.seconds
}

/// What is wrong with a Journey's row of `active_journeys`.
pub open spec fn journey_fault(row: JourneyRow) -> Option<&'static str> {
    if uuid_of_text(row.id@) is None {
        Some("Journey ID")
    } else if !is_purpose(row.purpose@) {
        Some("Journey purpose")
    } else if uuid_of_text(row.service_id@) is None {
        Some("Passenger Service ID")
    } else if uuid_of_text(row.train_id@) is None {
        Some("Train ID")
    } else if uuid_of_text(row.origin_station_id@) is None {
        Some("Journey origin")
    } else if uuid_of_text(row.destination_station_id@) is None {
        Some("Journey destination")
    } else if !fits_u32(row.passengers_carried) {
        Some("Journey passengers carried")
    } else if row.fare_rate_cents_per_passenger_km <= 0 {
        Some("Journey fare rate")
    } else if !(0 <= row.current_stop_index <= usize::MAX) {
        Some("Journey current stop index")
    } else {
        None
    }
}

/// Whether a Journey is what its row of `active_journeys` describes.
pub open spec fn journey_row_read(row: JourneyRow, journey: Journey) -> bool {
    &&& uuid_of_text(row.id@) == Some(journey.id.value)
    &&& row.purpose@ == purpose_text(journey.purpose)
    &&& uuid_of_text(row.service_id@) == Some(journey.service_id.value)
    &&& uuid_of_text(row.train_id@) == Some(journey.train_id.value)
    &&& uuid_of_text(row.origin_station_id@) == Some(journey.origin_station_id.value)
    &&& uuid_of_text(row.destination_station_id@) == Some(journey.destination_station_id.value)
    &&& journey_numbers(row, journey)
}

pub open spec fn journey_read(row: JourneyRow, journey: Journey) -> bool {
    &&& journey_row_read(row, journey)
    &&& groups_read(row.passenger_groups@, journey.passenger_groups@)
}

pub open spec fn same_journey(first: Journey, second: Journey) -> bool {
    &&& first.id == second.id
    &&& first.purpose == second.purpose
    &&& first.service_id == second.service_id
    &&& first.train_id == second.train_id
    &&& first.origin_station_id == second.origin_station_id
    &&& first.destination_station_id == second.destination_station_id
    &&& first.passengers_carried == second.passengers_carried
    &&& first.fare_rate == second.fare_rate
    &&& first.fare == second.fare
    &&& first.operating_revenue == second.operating_revenue
    &&& first.credited_revenue == second.credited_revenue
    &&& first.infrastructure_access_fee == second.infrastructure_access_fee
    &&& first.fuel_cost == second.fuel_cost
    &&& first.current_stop_index == second.current_stop_index
    &&& first.passenger_groups@ == second.passenger_groups@
    &&& first.started_at == second.started_at
    &&& first.departed_at == second.departed_at
    &&& first.arrives_at == second.arrives_at
}

pub fn write_journey(index: usize, journey: &Journey) -> (result: Result<JourneyRow, SaveCodecError>)
    ensures
        refused(result, journey_overflow(*journey)),
        result matches Ok(row) ==> journey_written(row, index as int, *journey),
{
    let fare_rate: i64 = match to_db_u64(
        journey.fare_rate.cents_per_kilometre,
        "Journey fare rate",
    ) {
        Ok(rate) => rate,
        Err(error) => return Err(error),
    };
    let current_stop_index: i64 = match to_db_u64(
        journey.current_stop_index as u64,
        "Journey current stop index",
    ) {
        Ok(stop) => stop,
        Err(error) => return Err(error),
    };
    Ok(
        JourneyRow {
            id: journey.id.text(),
            sequence: store_position(index),
            purpose: write_purpose(journey.purpose),
            service_id: journey.service_id.text(),
            train_id: journey.train_id.text(),
            origin_station_id: journey.origin_station_id.text(),
            destination_station_id: journey.destination_station_id.text(),
            passengers_carried: journey.passengers_carried as i64,
            fare_rate_cents_per_passenger_km: fare_rate,
            fare_cents: journey.fare.cents,
            operating_revenue_cents: journey.operating_revenue.cents,
            credited_revenue_cents: journey.credited_revenue.cents,
            infrastructure_access_fee_cents: journey.infrastructure_access_fee.cents,
            fuel_cost_cents: journey.fuel_cost.cents,
            current_stop_index,
            started_at: store_time(journey.started_at),
            departed_at: journey.departed_at.seconds,
            arrives_at: journey.arrives_at.seconds,
            passenger_groups: write_groups(&journey.passenger_groups),
        },
    )
}

/// Decodes a Journey's own row. Its passenger groups are read when all Journeys are decoded.
pub fn read_journey(row: &JourneyRow) -> (result: Result<Journey, RowError>)
    ensures
        undecoded(result, journey_fault(*row)),
        result matches Ok(journey) ==> {
            &&& journey_row_read(*row, journey)
            &&& journey.passenger_groups@.len() == 0
        },
{
    let id = match JourneyId::parse(row.id.as_str()) {
        Some(id) => id,
        None => return Err(RowError { field: "Journey ID" }),
    };
    let purpose = match read_purpose(row.purpose.as_str()) {
        Some(purpose) => purpose,
        None => return Err(RowError { field: "Journey purpose" }),
    };
    let service_id = match ServiceId::parse(row.service_id.as_str()) {
        Some(id) => id,
        None => return Err(RowError { field: "Passenger Service ID" }),
    };
    let train_id = match TrainId::parse(row.train_id.as_str()) {
        Some(id) => id,
        None => return Err(RowError { field: "Train ID" }),
    };
    let origin_station_id = match RailStationId::parse(row.origin_station_id.as_str()) {
        Some(id) => id,
        None => return Err(RowError { field: "Journey origin" }),
    };
    let destination_station_id = match RailStationId::parse(row.destination_station_id.as_str()) {
        Some(id) => id,
        None => return Err(RowError { field: "Journey destination" }),
    };
    let passengers_carried: u32 = match row_u32(
        row.passengers_carried,
        "Journey passengers carried",
    ) {
        Ok(count) => count,
        Err(error) => return Err(error),
    };
    let fare_rate = match MoneyPerKilometre::new(row.fare_rate_cents_per_passenger_km) {
        Ok(rate) => rate,
        Err(_) => return Err(RowError { field: "Journey fare rate" }),
    };
    if row.current_stop_index < 0 || row.current_stop_index as u64 > usize::MAX as u64 {
        return Err(RowError { field: "Journey current stop index" });
    }
    Ok(
        Journey {
            id,
            purpose,
            service_id,
            train_id,
            origin_station_id,
            destination_station_id,
            passengers_carried,
            fare_rate,
            fare: Money { cents: row.fare_cents },
            operating_revenue: Money { cents: row.operating_revenue_cents },
            credited_revenue: Money { cents: row.credited_revenue_cents },
            infrastructure_access_fee: Money { cents: row.infrastructure_access_fee_cents },
            fuel_cost: Money { cents: row.fuel_cost_cents },
            current_stop_index: row.current_stop_index as usize,
            passenger_groups: Vec::new(),
            started_at: read_time(row.started_at),
            departed_at: UtcSeconds { seconds: row.departed_at },
            arrives_at: UtcSeconds { seconds: row.arrives_at },
        },
    )
}

/// A written Journey reads back as itself.
pub proof fn journey_round_trip(row: JourneyRow, index: int, journey: Journey)
    requires
        journey_written(row, index, journey),
        journey.fare_rate.wf(),
    ensures
        journey_fault(row) is None,
        groups_fault(row.passenger_groups@, row.passenger_groups@.len() as int) is None,
        forall|other: Journey| #[trigger] journey_read(row, other) ==> same_journey(journey, other),
{
    lemma_purpose_texts();
    groups_round_trip(row.passenger_groups@, journey.passenger_groups@);
    assert(is_purpose(purpose_text(journey.purpose)));
    assert forall|other: Journey| #[trigger] journey_read(row, other) implies same_journey(
        journey,
        other,
    ) by {
        assert(groups_read(row.passenger_groups@, other.passenger_groups@));
        assert(same_groups(journey.passenger_groups@, other.passenger_groups@));
        assert(journey.passenger_groups@ =~= other.passenger_groups@);
        assert(journey.started_at == other.started_at);
    }
}

/// A row of `journey_receipts`.
#[derive(Clone, Debug, PartialEq, Eq)]
pub struct ReceiptRow {
    pub journey_id: String,
    pub revenue_cents: i64,
    pub infrastructure_access_fee_cents: i64,
    pub fuel_cost_cents: i64,
    pub train_id: Option<String>,
    pub train_model_name: Option<String>,
    pub origin_station_id: Option<String>,
    pub destination_station_id: Option<String>,
    pub passengers_carried: Option<i64>,
    pub passenger_capacity: Option<i64>,
    pub completed_at: Option<i64>,
    pub service_id: Option<String>,
    pub service_code: Option<String>,
    pub purpose: Option<String>,
    pub departed_at: Option<i64>,
}

/// Whether an optional text spells an optional identity.
pub open spec fn spells_optional(text: Option<String>, value: Option<u128>) -> bool {
    match (text, value) {
        (Some(text), Some(value)) => spells(text@, value),
        (None, None) => true,
        _ => false,
    }
}

/// Whether an optional text reads as an optional identity.
pub open spec fn reads_optional(text: Option<String>, value: Option<u128>) -> bool {
    match (text, value) {
        (Some(text), Some(value)) => uuid_of_text(text@) == Some(value),
        (None, None) => true,
        _ => false,
    }
}

pub open spec fn bad_identity(text: Option<String>) -> bool {
    text is Some && uuid_of_text(text->0@) is None
}

pub open spec fn bad_count(count: Option<i64>) -> bool {
    count is Some && !fits_u32(count->0)
}

pub open spec fn train_value(id: Option<TrainId>) -> Option<u128> {
    match id {
        Some(id) => Some(id.value),
        None => None,
    }
}

pub open spec fn station_value(id: Option<RailStationId>) -> Option<u128> {
    match id {
        Some(id) => Some(id.value),
        None => None,
    }
}

pub open spec fn service_value(id: Option<ServiceId>) -> Option<u128> {
    match id {
        Some(id) => Some(id.value),
        None => None,
    }
}

pub open spec fn optional_purpose(text: Option<String>, purpose: Option<JourneyPurpose>) -> bool {
    match (text, purpose) {
        (Some(text), Some(purpose)) => text@ == purpose_text(purpose),
        (None, None) => true,
        _ => false,
    }
}

/// Whether a row holds a receipt's amounts, names, counts and times.
pub open spec fn receipt_details(row: ReceiptRow, receipt: JourneyReceipt) -> bool {
    &&& row.revenue_cents == receipt.revenue.cents
    &&& row.infrastructure_access_fee_cents == receipt.infrastructure_access_fee.cents
    &&& row.fuel_cost_cents == receipt.fuel_cost.cents
    &&& same_name(row.train_model_name, receipt.train_model_name)
    &&& row.passengers_carried == optional_number(receipt.passengers_carried)
    &&& row.passenger_capacity == optional_number(receipt.passenger_capacity)
    &&& row.completed_at == optional_seconds(receipt.completed_at)
    &&& same_name(row.service_code, receipt.service_code)
    &&& optional_purpose(row.purpose, receipt.purpose)
    &&& row.departed_at == optional_seconds(receipt.departed_at)
}

pub open spec fn receipt_written(row: ReceiptRow, index: int, receipt: JourneyReceipt) -> bool {
    &&& spells(row.journey_id@, receipt.journey_id.value)
    &&& spells_optional(row.train_id, train_value(receipt.train_id))
    &&& spells_optional(row.origin_station_id, station_value(receipt.origin_station_id))
    &&& spells_optional(row.destination_station_id, station_value(receipt.destination_station_id))
    &&& spells_optional(row.service_id, service_value(receipt.service_id))
    &&& receipt_details(row, receipt)
}

pub open spec fn receipt_fault(row: ReceiptRow) -> Option<&'static str> {
    if uuid_of_text(row.journey_id@) is None {
        Some("Journey receipt ID")
    } else if bad_identity(row.train_id) {
        Some("Journey receipt Train ID")
    } else if bad_identity(row.origin_station_id) {
        Some("Journey receipt origin")
    } else if bad_identity(row.destination_station_id) {
        Some("Journey receipt destination")
    } else if bad_count(row.passengers_carried) {
        Some("Journey receipt passengers")
    } else if bad_count(row.passenger_capacity) {
        Some("Journey receipt passenger capacity")
    } else if bad_identity(row.service_id) {
        Some("Journey receipt Passenger Service ID")
    } else if row.purpose is Some && !is_purpose(row.purpose->0@) {
        Some("Journey receipt purpose")
    } else {
        None
    }
}

pub open spec fn receipt_read(row: ReceiptRow, receipt: JourneyReceipt) -> bool {
    &&& uuid_of_text(row.journey_id@) == Some(receipt.journey_id.value)
    &&& reads_optional(row.train_id, train_value(receipt.train_id))
    &&& reads_optional(row.origin_station_id, station_value(receipt.origin_station_id))
    &&& reads_optional(row.destination_station_id, station_value(receipt.destination_station_id))
    &&& reads_optional(row.service_id, service_value(receipt.service_id))
    &&& receipt_details(row, receipt)
}

pub open spec fn same_receipt(first: JourneyReceipt, second: JourneyReceipt) -> bool {
    &&& first.journey_id == second.journey_id
    &&& first.revenue == second.revenue
    &&& first.infrastructure_access_fee == second.infrastructure_access_fee
    &&& first.fuel_cost == second.fuel_cost
    &&& first.train_id == second.train_id
    &&& same_name(first.train_model_name, second.train_model_name)
    &&& first.origin_station_id == second.origin_station_id
    &&& first.destination_station_id == second.destination_station_id
    &&& first.passengers_carried == second.passengers_carried
    &&& first.passenger_capacity == second.passenger_capacity
    &&& first.completed_at == second.completed_at
    &&& first.service_id == second.service_id
    &&& same_name(first.service_code, second.service_code)
    &&& first.purpose == second.purpose
    &&& first.departed_at == second.departed_at
}

fn copy_name(name: &Option<String>) -> (result: Option<String>)
    ensures
        same_name(*name, result),
        same_name(result, *name),
{
    match name {
        Some(name) => Some(name.clone()),
        None => None,
    }
}

fn store_count(count: Option<u32>) -> (result: Option<i64>)
    ensures
        result == optional_number(count),
{
    match count {
        Some(count) => Some(count as i64),
        None => None,
    }
}

fn read_count(count: Option<i64>, field: &'static str) -> (result: Result<
    Option<u32>,
    RowError,
>)
    ensures
        undecoded(
            result,
            if bad_count(count) {
                Some(field)
            } else {
                None
            },
        ),
        result matches Ok(value) ==> count == optional_number(value),
{
    match count {
        Some(count) => match row_u32(count, field) {
            Ok(count) => Ok(Some(count)),
            Err(error) => Err(error),
        },
        None => Ok(None),
    }
}

pub fn write_receipt(index: usize, receipt: &JourneyReceipt) -> (row: ReceiptRow)
    ensures
        receipt_written(row, index as int, *receipt),
{
    let train_id = match receipt.train_id {
        Some(id) => Some(id.text()),
        None => None,
    };
    let origin_station_id = match receipt.origin_station_id {
        Some(id) => Some(id.text()),
        None => None,
    };
    let destination_station_id = match receipt.destination_station_id {
        Some(id) => Some(id.text()),
        None => None,
    };
    let service_id = match receipt.service_id {
        Some(id) => Some(id.text()),
        None => None,
    };
    let purpose = match receipt.purpose {
        Some(purpose) => Some(write_purpose(purpose)),
        None => None,
    };
    ReceiptRow {
        journey_id: receipt.journey_id.text(),
        revenue_cents: receipt.revenue.cents,
        infrastructure_access_fee_cents: receipt.infrastructure_access_fee.cents,
        fuel_cost_cents: receipt.fuel_cost.cents,
        train_id,
        train_model_name: copy_name(&receipt.train_model_name),
        origin_station_id,
        destination_station_id,
        passengers_carried: store_count(receipt.passengers_carried),
        passenger_capacity: store_count(receipt.passenger_capacity),
        completed_at: store_time(receipt.completed_at),
        service_id,
        service_code: copy_name(&receipt.service_code),
        purpose,
        departed_at: store_time(receipt.departed_at),
    }
}

fn read_station_id(text: &Option<String>, field: &'static str) -> (result: Result<
    Option<RailStationId>,
    RowError,
>)
    ensures
        undecoded(
            result,
            if bad_identity(*text) {
                Some(field)
            } else {
                None
            },
        ),
        result matches Ok(id) ==> reads_optional(*text, station_value(id)),
{
    match text {
        Some(text) => match RailStationId::parse(text.as_str()) {
            Some(id) => Ok(Some(id)),
            None => Err(RowError { field }),
        },
        None => Ok(None),
    }
}

pub fn read_receipt(row: &ReceiptRow) -> (result: Result<JourneyReceipt, RowError>)
    ensures
        undecoded(result, receipt_fault(*row)),
        result matches Ok(receipt) ==> receipt_read(*row, receipt),
{
    let journey_id = match JourneyId::parse(row.journey_id.as_str()) {
        Some(id) => id,
        None => return Err(RowError { field: "Journey receipt ID" }),
    };
    let train_id = match &row.train_id {
        Some(text) => match TrainId::parse(text.as_str()) {
            Some(id) => Some(id),
            None => return Err(RowError { field: "Journey receipt Train ID" }),
        },
        None => None,
    };
    let origin_station_id = match read_station_id(
        &row.origin_station_id,
        "Journey receipt origin",
    ) {
        Ok(id) => id,
        Err(error) => return Err(error),
    };
    let destination_station_id = match read_station_id(
        &row.destination_station_id,
        "Journey receipt destination",
    ) {
        Ok(id) => id,
        Err(error) => return Err(error),
    };
    let passengers_carried = match read_count(
        row.passengers_carried,
        "Journey receipt passengers",
    ) {
        Ok(count) => count,
        Err(error) => return Err(error),
    };
    let passenger_capacity = match read_count(
        row.passenger_capacity,
        "Journey receipt passenger capacity",
    ) {
        Ok(count) => count,
        Err(error) => return Err(error),
    };
    let service_id = match &row.service_id {
        Some(text) => match ServiceId::parse(text.as_str()) {
            Some(id) => Some(id),
            None => {
                return Err(
                    RowError { field: "Journey receipt Passenger Service ID" },
                );
            },
        },
        None => None,
    };
    let purpose = match &row.purpose {
        Some(text) => match read_purpose(text.as_str()) {
            Some(purpose) => Some(purpose),
            None => return Err(RowError { field: "Journey receipt purpose" }),
        },
        None => None,
    };
    Ok(
        JourneyReceipt {
            journey_id,
            revenue: Money { cents: row.revenue_cents },
            infrastructure_access_fee: Money { cents: row.infrastructure_access_fee_cents },
            fuel_cost: Money { cents: row.fuel_cost_cents },
            train_id,
            train_model_name: copy_name(&row.train_model_name),
            origin_station_id,
            destination_station_id,
            passengers_carried,
            passenger_capacity,
            completed_at: read_time(row.completed_at),
            service_id,
            service_code: copy_name(&row.service_code),
            purpose,
            departed_at: read_time(row.departed_at),
        },
    )
}

/// A written receipt reads back as itself.
pub proof fn receipt_round_trip(row: ReceiptRow, index: int, receipt: JourneyReceipt)
    requires
        receipt_written(row, index, receipt),
    ensures
        receipt_fault(row) is None,
        forall|other: JourneyReceipt| #[trigger]
            receipt_read(row, other) ==> same_receipt(receipt, other),
{
    lemma_purpose_texts();
    if receipt.purpose is Some {
        assert(is_purpose(purpose_text(receipt.purpose->0)));
    }
    assert forall|other: JourneyReceipt| #[trigger] receipt_read(row, other) implies same_receipt(
        receipt,
        other,
    ) by {
        assert(receipt.train_id == other.train_id);
        assert(receipt.origin_station_id == other.origin_station_id);
        assert(receipt.destination_station_id == other.destination_station_id);
        assert(receipt.service_id == other.service_id);
        assert(receipt.passengers_carried == other.passengers_carried);
        assert(receipt.passenger_capacity == other.passenger_capacity);
        assert(receipt.completed_at == other.completed_at);
        assert(receipt.departed_at == other.departed_at);
    }
}

/// The row of `game_rules`.
#[derive(Clone, Debug, PartialEq, Eq)]
pub struct RulesRow {
    pub fare_cents_per_passenger_km: i64,
    pub access_fee_cents_per_train_km: i64,
    pub starting_company_funds_cents: i64,
    pub demand_cap_seconds: i64,
    pub authority_request_queue_seconds: i64,
    pub authority_review_seconds: i64,
    pub authority_proposal_seconds: i64,
    pub authority_request_cooldown_seconds: i64,
    pub authority_deferred_reconsideration_seconds: i64,
    pub authority_mobilisation_seconds: i64,
    pub authority_new_line_base_construction_seconds: i64,
    pub authority_low_difficulty_seconds_per_km: i64,
    pub authority_moderate_difficulty_seconds_per_km: i64,
    pub authority_high_difficulty_seconds_per_km: i64,
    pub authority_max_active_expansion_projects: i64,
}

/// Whether a row holds the rules.
pub open spec fn rules_stored(row: RulesRow, rules: GameRules) -> bool {
    let authority = rules.authority;
    &&& row.fare_cents_per_passenger_km
        == rules.balance.fare_per_passenger_kilometre.cents_per_kilometre
    &&& row.access_fee_cents_per_train_km
        == rules.balance.access_fee_per_train_kilometre.cents_per_kilometre
    &&& row.starting_company_funds_cents == rules.balance.starting_company_funds.cents
    &&& row.demand_cap_seconds == rules.demand.cap_duration.seconds
    &&& row.authority_request_queue_seconds == authority.request_queue_delay.seconds
    &&& row.authority_review_seconds == authority.review_duration.seconds
    &&& row.authority_proposal_seconds == authority.proposal_duration.seconds
    &&& row.authority_request_cooldown_seconds == authority.council_request_cooldown.seconds
    &&& row.authority_deferred_reconsideration_seconds
        == authority.deferred_reconsideration_delay.seconds
    &&& row.authority_mobilisation_seconds == authority.construction_mobilisation_delay.seconds
    &&& row.authority_new_line_base_construction_seconds
        == authority.new_line_base_construction_duration.seconds
    &&& row.authority_low_difficulty_seconds_per_km
        == authority.low_difficulty_seconds_per_kilometre
    &&& row.authority_moderate_difficulty_seconds_per_km
        == authority.moderate_difficulty_seconds_per_kilometre
    &&& row.authority_high_difficulty_seconds_per_km
        == authority.high_difficulty_seconds_per_kilometre
    &&& row.authority_max_active_expansion_projects == authority.max_active_expansion_projects
}

/// Whether one of the Authority's durations does not fit the database.
pub open spec fn authority_overflow(authority: AuthorityRules) -> bool {
    ||| authority.request_queue_delay.seconds > i64::MAX
    ||| authority.review_duration.seconds > i64::MAX
    ||| authority.proposal_duration.seconds > i64::MAX
    ||| authority.council_request_cooldown.seconds > i64::MAX
    ||| authority.deferred_reconsideration_delay.seconds > i64::MAX
    ||| authority.construction_mobilisation_delay.seconds > i64::MAX
    ||| authority.new_line_base_construction_duration.seconds > i64::MAX
    ||| authority.low_difficulty_seconds_per_kilometre > i64::MAX
    ||| authority.moderate_difficulty_seconds_per_kilometre > i64::MAX
    ||| authority.high_difficulty_seconds_per_kilometre > i64::MAX
}

/// The field of the rules that does not fit the database, if any.
pub open spec fn rules_overflow(rules: GameRules) -> Option<&'static str> {
    if rules.balance.fare_per_passenger_kilometre.cents_per_kilometre > i64::MAX {
        Some("fare rate")
    } else if rules.balance.access_fee_per_train_kilometre.cents_per_kilometre > i64::MAX {
        Some("access fee rate")
    } else if rules.demand.cap_duration.seconds > i64::MAX {
        Some("demand cap duration")
    } else if authority_overflow(rules.authority) {
        Some("Authority rules")
    } else {
        None
    }
}

pub fn write_rules(rules: &GameRules) -> (result: Result<RulesRow, SaveCodecError>)
    ensures
        refused(result, rules_overflow(*rules)),
        result matches Ok(row) ==> rules_stored(row, *rules),
{
    let balance = &rules.balance;
    let authority = &rules.authority;
    let fare_cents_per_passenger_km: i64 = match to_db_u64(
        balance.fare_per_passenger_kilometre.cents_per_kilometre,
        "fare rate",
    ) {
        Ok(value) => value,
        Err(error) => return Err(error),
    };
    let access_fee_cents_per_train_km: i64 = match to_db_u64(
        balance.access_fee_per_train_kilometre.cents_per_kilometre,
        "access fee rate",
    ) {
        Ok(value) => value,
        Err(error) => return Err(error),
    };
    let demand_cap_seconds: i64 = match to_db_u64(
        rules.demand.cap_duration.seconds,
        "demand cap duration",
    ) {
        Ok(value) => value,
        Err(error) => return Err(error),
    };
    let limit: u64 = i64::MAX as u64;
    if authority.request_queue_delay.seconds > limit || authority.review_duration.seconds > limit
        || authority.proposal_duration.seconds > limit
        || authority.council_request_cooldown.seconds > limit
        || authority.deferred_reconsideration_delay.seconds > limit
        || authority.construction_mobilisation_delay.seconds > limit
        || authority.new_line_base_construction_duration.seconds > limit
        || authority.low_difficulty_seconds_per_kilometre > limit
        || authority.moderate_difficulty_seconds_per_kilometre > limit
        || authority.high_difficulty_seconds_per_kilometre > limit {
        return Err(SaveCodecError::InvalidValue { field: "Authority rules" });
    }
    Ok(
        RulesRow {
            fare_cents_per_passenger_km,
            access_fee_cents_per_train_km,
            starting_company_funds_cents: balance.starting_company_funds.cents,
            demand_cap_seconds,
            authority_request_queue_seconds: authority.request_queue_delay.seconds as i64,
            authority_review_seconds: authority.review_duration.seconds as i64,
            authority_proposal_seconds: authority.proposal_duration.seconds as i64,
            authority_request_cooldown_seconds: authority.council_request_cooldown.seconds as i64,
            authority_deferred_reconsideration_seconds:
                authority.deferred_reconsideration_delay.seconds as i64,
            authority_mobilisation_seconds: authority.construction_mobilisation_delay.seconds as i64,
            authority_new_line_base_construction_seconds:
                authority.new_line_base_construction_duration.seconds as i64,
            authority_low_difficulty_seconds_per_km:
                authority.low_difficulty_seconds_per_kilometre as i64,
            authority_moderate_difficulty_seconds_per_km:
                authority.moderate_difficulty_seconds_per_kilometre as i64,
            authority_high_difficulty_seconds_per_km:
                authority.high_difficulty_seconds_per_kilometre as i64,
            authority_max_active_expansion_projects: authority.max_active_expansion_projects as i64,
        },
    )
}

pub open spec fn rules_fault(row: RulesRow) -> Option<&'static str> {
    if row.fare_cents_per_passenger_km <= 0 {
        Some("fare rate")
    } else if row.access_fee_cents_per_train_km <= 0 {
        Some("access fee rate")
    } else if row.demand_cap_seconds < 0 {
        Some("demand cap duration")
    } else if row.authority_request_queue_seconds < 0 || row.authority_review_seconds < 0
        || row.authority_proposal_seconds < 0 || row.authority_request_cooldown_seconds < 0
        || row.authority_deferred_reconsideration_seconds < 0 || row.authority_mobilisation_seconds
        < 0 || row.authority_new_line_base_construction_seconds < 0
        || row.authority_low_difficulty_seconds_per_km < 0
        || row.authority_moderate_difficulty_seconds_per_km < 0
        || row.authority_high_difficulty_seconds_per_km < 0 || !fits_u32(
        row.authority_max_active_expansion_projects,
    ) {
        Some("Authority rules")
    } else {
        None
    }
}

pub fn read_rules(row: &RulesRow) -> (result: Result<GameRules, SaveCodecError>)
    ensures
        refused(result, rules_fault(*row)),
        result matches Ok(rules) ==> rules_stored(*row, rules),
{
    let fare = match MoneyPerKilometre::new(row.fare_cents_per_passenger_km) {
        Ok(rate) => rate,
        Err(_) => return Err(SaveCodecError::InvalidValue { field: "fare rate" }),
    };
    let access = match MoneyPerKilometre::new(row.access_fee_cents_per_train_km) {
        Ok(rate) => rate,
        Err(_) => return Err(SaveCodecError::InvalidValue { field: "access fee rate" }),
    };
    let cap: u64 = match from_db_u64(row.demand_cap_seconds, "demand cap duration") {
        Ok(seconds) => seconds,
        Err(error) => return Err(error),
    };
    if row.authority_request_queue_seconds < 0 || row.authority_review_seconds < 0
        || row.authority_proposal_seconds < 0 || row.authority_request_cooldown_seconds < 0
        || row.authority_deferred_reconsideration_seconds < 0 || row.authority_mobilisation_seconds
        < 0 || row.authority_new_line_base_construction_seconds < 0
        || row.authority_low_difficulty_seconds_per_km < 0
        || row.authority_moderate_difficulty_seconds_per_km < 0
        || row.authority_high_difficulty_seconds_per_km < 0
        || row.authority_max_active_expansion_projects < 0
        || row.authority_max_active_expansion_projects > u32::MAX as i64 {
        return Err(SaveCodecError::InvalidValue { field: "Authority rules" });
    }
    Ok(
        GameRules {
            balance: BalanceConfig {
                fare_per_passenger_kilometre: fare,
                access_fee_per_train_kilometre: access,
                starting_company_funds: Money { cents: row.starting_company_funds_cents },
            },
            demand: DemandRules { cap_duration: DurationSeconds { seconds: cap } },
            authority: AuthorityRules {
                request_queue_delay: DurationSeconds {
                    seconds: row.authority_request_queue_seconds as u64,
                },
                review_duration: DurationSeconds { seconds: row.authority_review_seconds as u64 },
                proposal_duration: DurationSeconds {
                    seconds: row.authority_proposal_seconds as u64,
                },
                council_request_cooldown: DurationSeconds {
                    seconds: row.authority_request_cooldown_seconds as u64,
                },
                deferred_reconsideration_delay: DurationSeconds {
                    seconds: row.authority_deferred_reconsideration_seconds as u64,
                },
                construction_mobilisation_delay: DurationSeconds {
                    seconds: row.authority_mobilisation_seconds as u64,
                },
                new_line_base_construction_duration: DurationSeconds {
                    seconds: row.authority_new_line_base_construction_seconds as u64,
                },
                low_difficulty_seconds_per_kilometre:
                    row.authority_low_difficulty_seconds_per_km as u64,
                moderate_difficulty_seconds_per_kilometre:
                    row.authority_moderate_difficulty_seconds_per_km as u64,
                high_difficulty_seconds_per_kilometre:
                    row.authority_high_difficulty_seconds_per_km as u64,
                max_active_expansion_projects: row.authority_max_active_expansion_projects as u32,
            },
        },
    )
}

/// Written rules read back as themselves.
pub proof fn rules_round_trip(row: RulesRow, rules: GameRules)
    requires
        rules_stored(row, rules),
        rules.balance.fare_per_passenger_kilometre.wf(),
        rules.balance.access_fee_per_train_kilometre.wf(),
    ensures
        rules_fault(row) is None,
        forall|other: GameRules| #[trigger] rules_stored(row, other) ==> rules == other,
{
}

/// Whether rows were written for a list of values.
pub open spec fn journeys_written(rows: Seq<JourneyRow>, values: Seq<Journey>) -> bool {
    &&& rows.len() == values.len()
    &&& forall|i: int| 0 <= i < values.len() ==> journey_written(#[trigger] rows[i], i, values[i])
}

/// The first field that makes the first `count` rows undecodable, passenger groups aside.
pub open spec fn journeys_fault(rows: Seq<JourneyRow>, count: int) -> Option<&'static str>
    decreases count,
{
    if count <= 0 {
        None
    } else if journeys_fault(rows, count - 1) is Some {
        journeys_fault(rows, count - 1)
    } else {
        journey_fault(rows[count - 1])
    }
}

proof fn lemma_journeys_fault(rows: Seq<JourneyRow>, low: int, high: int)
    requires
        low <= high,
        journeys_fault(rows, low) is Some,
    ensures
        journeys_fault(rows, high) == journeys_fault(rows, low),
    decreases high - low,
{
    if low < high {
        lemma_journeys_fault(rows, low, high - 1);
    }
}

proof fn lemma_no_journey_fault(rows: Seq<JourneyRow>, count: int, i: int)
    requires
        0 <= i < count,
        journeys_fault(rows, count) is None,
    ensures
        journey_fault(rows[i]) is None,
    decreases count,
{
    if i < count - 1 {
        lemma_no_journey_fault(rows, count - 1, i);
    }
}

/// The first fault among the passenger groups of the first `count` Journeys.
pub open spec fn carried_fault(rows: Seq<JourneyRow>, count: int) -> Option<&'static str>
    decreases count,
{
    if count <= 0 {
        None
    } else if carried_fault(rows, count - 1) is Some {
        carried_fault(rows, count - 1)
    } else {
        groups_fault(
            rows[count - 1].passenger_groups@,
            rows[count - 1].passenger_groups@.len() as int,
        )
    }
}

proof fn lemma_carried_fault(rows: Seq<JourneyRow>, low: int, high: int)
    requires
        low <= high,
        carried_fault(rows, low) is Some,
    ensures
        carried_fault(rows, high) == carried_fault(rows, low),
    decreases high - low,
{
    if low < high {
        lemma_carried_fault(rows, low, high - 1);
    }
}

/// What is being done when a passenger group of a Journey is decoded.
pub const READ_GROUP: &'static str = "read Journey passenger group from";

/// Why no Journeys can be read, if so: a row of `active_journeys` that cannot be decoded comes
/// before any passenger group.
pub open spec fn journeys_failure(rows: Seq<JourneyRow>) -> Option<LoadError> {
    first_fault(
        row_fault(DECODE_ROW, journeys_fault(rows, rows.len() as int)),
        row_fault(READ_GROUP, carried_fault(rows, rows.len() as int)),
    )
}

/// Whether a list of values is what the rows describe.
pub open spec fn journeys_read(rows: Seq<JourneyRow>, values: Seq<Journey>) -> bool {
    &&& rows.len() == values.len()
    &&& forall|i: int| 0 <= i < values.len() ==> journey_read(rows[i], #[trigger] values[i])
}

/// Whether two lists hold the same values.
pub open spec fn same_journeys(first: Seq<Journey>, second: Seq<Journey>) -> bool {
    &&& first.len() == second.len()
    &&& forall|i: int| 0 <= i < first.len() ==> same_journey(first[i], #[trigger] second[i])
}

fn check_journeys(rows: &Vec<JourneyRow>) -> (result: Result<(), RowError>)
    ensures
        undecoded(result, journeys_fault(rows@, rows@.len() as int)),
{
    let mut i: usize = 0;
    while i < rows.len()
        invariant
            i <= rows@.len(),
            journeys_fault(rows@, i as int) is None,
        decreases rows.len() - i,
    {
        match read_journey(&rows[i]) {
            Ok(_) => {},
            Err(error) => {
                proof {
                    lemma_journeys_fault(rows@, i + 1, rows@.len() as int);
                }
                return Err(error);
            },
        }
        i += 1;
    }
    Ok(())
}

pub fn read_journeys(rows: &Vec<JourneyRow>) -> (result: Result<Vec<Journey>, LoadError>)
    ensures
        unloaded(result, journeys_failure(rows@)),
        result matches Ok(values) ==> journeys_read(rows@, values@),
{
    match check_journeys(rows) {
        Ok(()) => {},
        Err(error) => return Err(failed_row(DECODE_ROW, error)),
    }
    let mut values: Vec<Journey> = Vec::new();
    let mut i: usize = 0;
    while i < rows.len()
        invariant
            i <= rows@.len(),
            journeys_fault(rows@, rows@.len() as int) is None,
            carried_fault(rows@, i as int) is None,
            values@.len() == i,
            forall|j: int| 0 <= j < i ==> journey_read(rows@[j], #[trigger] values@[j]),
        decreases rows.len() - i,
    {
        proof {
            lemma_no_journey_fault(rows@, rows@.len() as int, i as int);
        }
        let mut journey = match read_journey(&rows[i]) {
            Ok(journey) => journey,
            Err(error) => return Err(failed_row(DECODE_ROW, error)),
        };
        journey.passenger_groups = match read_groups(&rows[i].passenger_groups) {
            Ok(groups) => groups,
            Err(error) => {
                proof {
                    lemma_carried_fault(rows@, i + 1, rows@.len() as int);
                }
                return Err(failed_row(READ_GROUP, error));
            },
        };
        values.push(journey);
        i += 1;
    }
    Ok(values)
}

/// The field of the first of `count` Journeys that does not fit the database, if any.
pub open spec fn journeys_overflow(values: Seq<Journey>, count: int) -> Option<&'static str>
    decreases count,
{
    if count <= 0 {
        None
    } else if journeys_overflow(values, count - 1) is Some {
        journeys_overflow(values, count - 1)
    } else {
        journey_overflow(values[count - 1])
    }
}

proof fn lemma_journeys_overflow(values: Seq<Journey>, low: int, high: int)
    requires
        low <= high,
        journeys_overflow(values, low) is Some,
    ensures
        journeys_overflow(values, high) == journeys_overflow(values, low),
    decreases high - low,
{
    if low < high {
        lemma_journeys_overflow(values, low, high - 1);
    }
}

pub fn write_journeys(values: &Vec<Journey>) -> (result: Result<Vec<JourneyRow>, SaveCodecError>)
    ensures
        refused(
            result,
            journeys_overflow(values@, values@.len() as int),
        ),
        result matches Ok(rows) ==> journeys_written(rows@, values@),
{
    let mut rows: Vec<JourneyRow> = Vec::new();
    let mut i: usize = 0;
    while i < values.len()
        invariant
            i <= values@.len(),
            rows@.len() == i,
            forall|j: int| 0 <= j < i ==> journey_written(#[trigger] rows@[j], j, values@[j]),
            journeys_overflow(values@, i as int) is None,
        decreases values.len() - i,
    {
        match write_journey(i, &values[i]) {
            Ok(row) => {
                rows.push(row);
            },
            Err(error) => {
                proof {
                    lemma_journeys_overflow(values@, i + 1, values@.len() as int);
                }
                return Err(error);
            },
        }
        i += 1;
    }
    Ok(rows)
}

proof fn lemma_journeys_readable(rows: Seq<JourneyRow>, values: Seq<Journey>, count: int)
    requires
        journeys_written(rows, values),
        0 <= count <= rows.len(),
        forall|i: int| 0 <= i < values.len() ==> (#[trigger] values[i]).fare_rate.wf(),
    ensures
        journeys_fault(rows, count) is None,
        carried_fault(rows, count) is None,
    decreases count,
{
    if count > 0 {
        lemma_journeys_readable(rows, values, count - 1);
        assert(journey_written(rows[count - 1], count - 1, values[count - 1]));
        assert(values[count - 1].fare_rate.wf());
        journey_round_trip(rows[count - 1], count - 1, values[count - 1]);
        assert(journey_fault(rows[count - 1]) is None);
    }
}

/// Written rows read back as the values they were written for.
pub proof fn journeys_round_trip(rows: Seq<JourneyRow>, values: Seq<Journey>)
    requires
        journeys_written(rows, values),
        forall|i: int| 0 <= i < values.len() ==> (#[trigger] values[i]).fare_rate.wf(),
    ensures
        journeys_failure(rows) is None,
        forall|others: Seq<Journey>| #[trigger] journeys_read(rows, others) ==> same_journeys(values, others),
{
    lemma_journeys_readable(rows, values, rows.len() as int);
    assert forall|others: Seq<Journey>| #[trigger] journeys_read(rows, others) implies same_journeys(
        values,
        others,
    ) by {
        assert forall|i: int| 0 <= i < values.len() implies same_journey(values[i], #[trigger] others[i]) by {
            assert(journey_written(rows[i], i, values[i]));
            assert(values[i].fare_rate.wf());
            journey_round_trip(rows[i], i, values[i]);
            assert(journey_read(rows[i], others[i]));
        }
    }
}

/// Whether rows were written for a list of values.
pub open spec fn receipts_written(rows: Seq<ReceiptRow>, values: Seq<JourneyReceipt>) -> bool {
    &&& rows.len() == values.len()
    &&& forall|i: int| 0 <= i < values.len() ==> receipt_written(#[trigger] rows[i], i, values[i])
}

/// The first field that makes the first `count` rows unreadable.
pub open spec fn receipts_fault(rows: Seq<ReceiptRow>, count: int) -> Option<&'static str>
    decreases count,
{
    if count <= 0 {
        None
    } else if receipts_fault(rows, count - 1) is Some {
        receipts_fault(rows, count - 1)
    } else {
        receipt_fault(rows[count - 1])
    }
}

pub proof fn lemma_receipts_fault(rows: Seq<ReceiptRow>, low: int, high: int)
    requires
        low <= high,
        receipts_fault(rows, low) is Some,
    ensures
        receipts_fault(rows, high) == receipts_fault(rows, low),
    decreases high - low,
{
    if low < high {
        lemma_receipts_fault(rows, low, high - 1);
    }
}

/// Whether a list of values is what the rows describe.
pub open spec fn receipts_read(rows: Seq<ReceiptRow>, values: Seq<JourneyReceipt>) -> bool {
    &&& rows.len() == values.len()
    &&& forall|i: int| 0 <= i < values.len() ==> receipt_read(rows[i], #[trigger] values[i])
}

/// Whether two lists hold the same values.
pub open spec fn same_receipts(first: Seq<JourneyReceipt>, second: Seq<JourneyReceipt>) -> bool {
    &&& first.len() == second.len()
    &&& forall|i: int| 0 <= i < first.len() ==> same_receipt(first[i], #[trigger] second[i])
}

pub fn write_receipts(values: &Vec<JourneyReceipt>) -> (rows: Vec<ReceiptRow>)
    ensures
        receipts_written(rows@, values@),
{
    let mut rows: Vec<ReceiptRow> = Vec::new();
    let mut i: usize = 0;
    while i < values.len()
        invariant
            i <= values@.len(),
            rows@.len() == i,
            forall|j: int| 0 <= j < i ==> receipt_written(#[trigger] rows@[j], j, values@[j]),
        decreases values.len() - i,
    {
        rows.push(write_receipt(i, &values[i]));
        i += 1;
    }
    rows
}

proof fn lemma_receipts_readable(rows: Seq<ReceiptRow>, values: Seq<JourneyReceipt>, count: int)
    requires
        receipts_written(rows, values),
        0 <= count <= rows.len(),
    ensures
        receipts_fault(rows, count) is None,
    decreases count,
{
    if count > 0 {
        lemma_receipts_readable(rows, values, count - 1);
        assert(receipt_written(rows[count - 1], count - 1, values[count - 1]));
        receipt_round_trip(rows[count - 1], count - 1, values[count - 1]);
        assert(receipt_fault(rows[count - 1]) is None);
    }
}

/// Written rows read back as the values they were written for.
pub proof fn receipts_round_trip(rows: Seq<ReceiptRow>, values: Seq<JourneyReceipt>)
    requires
        receipts_written(rows, values),
    ensures
        receipts_fault(rows, rows.len() as int) is None,
        forall|others: Seq<JourneyReceipt>| #[trigger] receipts_read(rows, others) ==> same_receipts(values, others),
{
    lemma_receipts_readable(rows, values, rows.len() as int);
    assert forall|others: Seq<JourneyReceipt>| #[trigger] receipts_read(rows, others) implies same_receipts(
        values,
        others,
    ) by {
        assert forall|i: int| 0 <= i < values.len() implies same_receipt(values[i], #[trigger] others[i]) by {
            assert(receipt_written(rows[i], i, values[i]));
            receipt_round_trip(rows[i], i, values[i]);
            assert(receipt_read(rows[i], others[i]));
        }
    }
}

} // verus!
