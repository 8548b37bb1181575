//! Tables of the Region: its registration, bulletin, finances, Settlements and Rail Network.

use vstd::prelude::*;

use crate::model::ids::{spells, uuid_of_text, RailLineId, RailStationId, SettlementId};
use crate::model::network::{
    ConstructionDifficulty, Electrification, RailLine, RailStation, Settlement, WorldPosition,
};
use crate::model::project::RailAuthorityFinances;
use crate::model::state::{BulletinCategory, BulletinEntry};
use crate::model::units::{
    DistanceMetres, Money, SpeedKilometresPerHour, TrackCount, UtcSeconds,
};
use crate::storage::codec::{
    optional_seconds, read_time, refused, row_u64, store_position, store_time, stored_position,
    to_db_u64, undecoded, RowError, SaveCodecError,
};
use crate::text::same_text;

verus! {

/// A row of `bulletin_entries`.
#[derive(Clone, Debug, PartialEq, Eq)]
pub struct BulletinRow {
    pub sequence: i64,
    pub occurred_at: i64,
    pub category: String,
    pub headline: String,
    pub detail: String,
}

pub open spec fn category_text(category: BulletinCategory) -> Seq<char> {
    match category {
        BulletinCategory::Local => "local"@,
        BulletinCategory::Authority => "authority"@,
        BulletinCategory::Construction => "construction"@,
        BulletinCategory::Network => "network"@,
    }
}

proof fn lemma_category_texts()
    ensures
        forall|a: BulletinCategory, b: BulletinCategory|
            #[trigger] category_text(a) == #[trigger] category_text(b) ==> a == b,
{
    reveal_strlit("local");
    reveal_strlit("authority");
    reveal_strlit("construction");
    reveal_strlit("network");
    assert("local"@.len() == 5 && "authority"@.len() == 9 && "construction"@.len() == 12
        && "network"@.len() == 7);
}

pub open spec fn is_category(text: Seq<char>) -> bool {
    exists|category: BulletinCategory| text == #[trigger] category_text(category)
}

pub open spec fn bulletin_written(row: BulletinRow, index: int, entry: BulletinEntry) -> bool {
    &&& row.sequence == stored_position(index)
    &&& bulletin_read(row, entry)
}

pub open spec fn bulletin_fault(row: BulletinRow) -> Option<&'static str> {
    if !is_category(row.category@) {
        Some("Bulletin category")
    } else {
        None
    }
}

pub open spec fn bulletin_read(row: BulletinRow, entry: BulletinEntry) -> bool {
    &&& row.occurred_at == entry.occurred_at.seconds
    &&& row.category@ == category_text(entry.category)
    &&& row.headline@ == entry.headline@
    &&& row.detail@ == entry.detail@
}

pub open spec fn same_entry(first: BulletinEntry, second: BulletinEntry) -> bool {
    &&& first.occurred_at == second.occurred_at
    &&& first.category == second.category
    &&& first.headline@ == second.headline@
    &&& first.detail@ == second.detail@
}

pub fn write_bulletin(index: usize, entry: &BulletinEntry) -> (row: BulletinRow)
    ensures
        bulletin_written(row, index as int, *entry),
{
    let category = match entry.category {
        BulletinCategory::Local => "local",
        BulletinCategory::Authority => "authority",
        BulletinCategory::Construction => "construction",
        BulletinCategory::Network => "network",
    };
    BulletinRow {
        sequence: store_position(index),
        occurred_at: entry.occurred_at.seconds,
        category: category.to_owned(),
        headline: entry.headline.clone(),
        detail: entry.detail.clone(),
    }
}

pub fn read_bulletin(row: &BulletinRow) -> (result: Result<BulletinEntry, RowError>)
    ensures
        undecoded(result, bulletin_fault(*row)),
        result matches Ok(entry) ==> bulletin_read(*row, entry),
{
    let text = row.category.as_str();
    let category = if same_text(text, "local") {
        BulletinCategory::Local
    } else if same_text(text, "authority") {
        BulletinCategory::Authority
    } else if same_text(text, "construction") {
        BulletinCategory::Construction
    } else if same_text(text, "network") {
        BulletinCategory::Network
    } else {
        proof {
            assert forall|category: BulletinCategory| text@ != #[trigger] category_text(
                category,
            ) by {
                match category {
                    BulletinCategory::Local => {},
                    BulletinCategory::Authority => {},
                    BulletinCategory::Construction => {},
                    BulletinCategory::Network => {},
                }
            }
        }
        return Err(RowError { field: "Bulletin category" });
    };
    assert(text@ == category_text(category));
    Ok(
        BulletinEntry {
            occurred_at: UtcSeconds { seconds: row.occurred_at },
            category,
            headline: row.headline.clone(),
            detail: row.detail.clone(),
        },
    )
}

/// A written Bulletin entry reads back as itself.
pub proof fn bulletin_round_trip(row: BulletinRow, index: int, entry: BulletinEntry)
    requires
        bulletin_written(row, index, entry),
    ensures
        bulletin_fault(row) is None,
        forall|other: BulletinEntry| #[trigger]
            bulletin_read(row, other) ==> same_entry(entry, other),
{
    lemma_category_texts();
    assert(row.category@ == category_text(entry.category));
}

/// The row of `rail_authority_finances`.
#[derive(Clone, Debug, PartialEq, Eq)]
pub struct FinancesRow {
    pub treasury_cents: i64,
    pub maintenance_reserve_cents: i64,
    pub committed_investment_cents: i64,
    pub carried_over_funds_cents: i64,
    pub regional_public_allocation_cents: i64,
    pub infrastructure_access_fee_revenue_cents: i64,
    pub next_fiscal_period_at: Option<i64>,
}

pub open spec fn finances_written(row: FinancesRow, finances: RailAuthorityFinances) -> bool {
    &&& row.treasury_cents == finances.treasury.cents
    &&& row.maintenance_reserve_cents == finances.maintenance_reserve.cents
    &&& row.committed_investment_cents == finances.committed_investment.cents
    &&& row.carried_over_funds_cents == finances.carried_over_funds.cents
    &&& row.regional_public_allocation_cents == finances.regional_public_allocation.cents
    &&& row.infrastructure_access_fee_revenue_cents
        == finances.infrastructure_access_fee_revenue.cents
    &&& row.next_fiscal_period_at == optional_seconds(finances.next_fiscal_period_at)
}

pub fn write_finances(finances: &RailAuthorityFinances) -> (row: FinancesRow)
    ensures
        finances_written(row, *finances),
{
    FinancesRow {
        treasury_cents: finances.treasury.cents,
        maintenance_reserve_cents: finances.maintenance_reserve.cents,
        committed_investment_cents: finances.committed_investment.cents,
        carried_over_funds_cents: finances.carried_over_funds.cents,
        regional_public_allocation_cents: finances.regional_public_allocation.cents,
        infrastructure_access_fee_revenue_cents: finances.infrastructure_access_fee_revenue.cents,
        next_fiscal_period_at: store_time(finances.next_fiscal_period_at),
    }
}

pub fn read_finances(row: &FinancesRow) -> (finances: RailAuthorityFinances)
    ensures
        finances_written(*row, finances),
{
    RailAuthorityFinances {
        treasury: Money { cents: row.treasury_cents },
        maintenance_reserve: Money { cents: row.maintenance_reserve_cents },
        committed_investment: Money { cents: row.committed_investment_cents },
        carried_over_funds: Money { cents: row.carried_over_funds_cents },
        regional_public_allocation: Money { cents: row.regional_public_allocation_cents },
        infrastructure_access_fee_revenue: Money {
            cents: row.infrastructure_access_fee_revenue_cents,
        },
        next_fiscal_period_at: read_time(row.next_fiscal_period_at),
    }
}

/// A row of `settlements`.
#[derive(Clone, Debug, PartialEq, Eq)]
pub struct SettlementRow {
    pub id: String,
    pub sequence: i64,
    pub name: String,
    pub population: i64,
    pub world_x: i64,
    pub world_y: i64,
}

pub open spec fn settlement_written(row: SettlementRow, index: int, settlement: Settlement) -> bool {
    &&& spells(row.id@, settlement.id.value)
    &&& row.sequence == stored_position(index)
    &&& row.name@ == settlement.name@
    &&& row.population == settlement.population
    &&& row.world_x == settlement.position.x
    &&& row.world_y == settlement.position.y
}

pub open spec fn settlement_fault(row: SettlementRow) -> Option<&'static str> {
    if uuid_of_text(row.id@) is None {
        Some("Settlement ID")
    } else if row.population < 0 {
        Some("Settlement Population")
    } else {
        None
    }
}

pub open spec fn settlement_read(row: SettlementRow, settlement: Settlement) -> bool {
    &&& uuid_of_text(row.id@) == Some(settlement.id.value)
    &&& row.name@ == settlement.name@
    &&& row.population == settlement.population
    &&& row.world_x == settlement.position.x
    &&& row.world_y == settlement.position.y
}

pub open spec fn same_settlement(first: Settlement, second: Settlement) -> bool {
    &&& first.id == second.id
    &&& first.name@ == second.name@
    &&& first.population == second.population
    &&& first.position == second.position
}

pub fn write_settlement(index: usize, settlement: &Settlement) -> (result: Result<
    SettlementRow,
    SaveCodecError,
>)
    ensures
        refused(
            result,
            if settlement.population > i64::MAX {
                Some("Settlement Population")
            } else {
                None
            },
        ),
        result matches Ok(row) ==> settlement_written(row, index as int, *settlement),
{
    let population: i64 = match to_db_u64(settlement.population, "Settlement Population") {
        Ok(population) => population,
        Err(error) => return Err(error),
    };
    Ok(
        SettlementRow {
            id: settlement.id.text(),
            sequence: store_position(index),
            name: settlement.name.clone(),
            population,
            world_x: settlement.position.x,
            world_y: settlement.position.y,
        },
    )
}

pub fn read_settlement(row: &SettlementRow) -> (result: Result<Settlement, RowError>)
    ensures
        undecoded(result, settlement_fault(*row)),
        result matches Ok(settlement) ==> settlement_read(*row, settlement),
{
    let id = match SettlementId::parse(row.id.as_str()) {
        Some(id) => id,
        None => return Err(RowError { field: "Settlement ID" }),
    };
    let population: u64 = match row_u64(row.population, "Settlement Population") {
        Ok(population) => population,
        Err(error) => return Err(error),
    };
    Ok(
        Settlement {
            id,
            name: row.name.clone(),
            population,
            position: WorldPosition { x: row.world_x, y: row.world_y },
        },
    )
}

/// A written Settlement reads back as itself.
pub proof fn settlement_round_trip(row: SettlementRow, index: int, settlement: Settlement)
    requires
        settlement_written(row, index, settlement),
    ensures
        settlement_fault(row) is None,
        forall|other: Settlement| #[trigger]
            settlement_read(row, other) ==> same_settlement(settlement, other),
{
}

/// A row of `rail_stations`, or of a project's planned Rail Stations.
#[derive(Clone, Debug, PartialEq, Eq)]
pub struct StationRow {
    pub id: String,
    pub sequence: i64,
    pub settlement_id: String,
}

pub open spec fn station_written(row: StationRow, index: int, station: RailStation) -> bool {
    &&& spells(row.id@, station.id.value)
    &&& row.sequence == stored_position(index)
    &&& spells(row.settlement_id@, station.settlement_id.value)
}

pub open spec fn station_fault(row: StationRow, id_field: &'static str) -> Option<&'static str> {
    if uuid_of_text(row.id@) is None {
        Some(id_field)
    } else if uuid_of_text(row.settlement_id@) is None {
        Some("Settlement ID")
    } else {
        None
    }
}

pub open spec fn station_read(row: StationRow, station: RailStation) -> bool {
    &&& uuid_of_text(row.id@) == Some(station.id.value)
    &&& uuid_of_text(row.settlement_id@) == Some(station.settlement_id.value)
}

pub fn write_station(index: usize, station: &RailStation) -> (row: StationRow)
    ensures
        station_written(row, index as int, *station),
{
    StationRow {
        id: station.id.text(),
        sequence: store_position(index),
        settlement_id: station.settlement_id.text(),
    }
}

pub fn read_station(row: &StationRow, id_field: &'static str) -> (result: Result<
    RailStation,
    RowError,
>)
    ensures
        undecoded(result, station_fault(*row, id_field)),
        result matches Ok(station) ==> station_read(*row, station),
{
    let id = match RailStationId::parse(row.id.as_str()) {
        Some(id) => id,
        None => return Err(RowError { field: id_field }),
    };
    let settlement_id = match SettlementId::parse(row.settlement_id.as_str()) {
        Some(id) => id,
        None => return Err(RowError { field: "Settlement ID" }),
    };
    Ok(RailStation { id, settlement_id })
}

/// A written Rail Station reads back as itself.
pub proof fn station_round_trip(row: StationRow, index: int, station: RailStation)
    requires
        station_written(row, index, station),
    ensures
        forall|id_field: &'static str| #[trigger] station_fault(row, id_field) is None,
        forall|other: RailStation| #[trigger] station_read(row, other) ==> station == other,
{
}

/// A row of `rail_lines`, or of a project's planned Rail Lines.
#[derive(Clone, Debug, PartialEq, Eq)]
pub struct LineRow {
    pub id: String,
    pub sequence: i64,
    pub first_station_id: String,
    pub second_station_id: String,
    pub distance_metres: i64,
    pub speed_limit_kmh: i64,
    pub track_count: i64,
    pub electrification: String,
    pub construction_difficulty: String,
}

pub open spec fn electrification_text(electrification: Electrification) -> Seq<char> {
    match electrification {
        Electrification::Unelectrified => "none"@,
        Electrification::Electric => "electric"@,
    }
}

pub open spec fn difficulty_text(difficulty: ConstructionDifficulty) -> Seq<char> {
    match difficulty {
        ConstructionDifficulty::Low => "low"@,
        ConstructionDifficulty::Moderate => "moderate"@,
        ConstructionDifficulty::High => "high"@,
    }
}

proof fn lemma_line_texts()
    ensures
        forall|a: Electrification, b: Electrification|
            #[trigger] electrification_text(a) == #[trigger] electrification_text(b) ==> a == b,
        forall|a: ConstructionDifficulty, b: ConstructionDifficulty|
            #[trigger] difficulty_text(a) == #[trigger] difficulty_text(b) ==> a == b,
{
    reveal_strlit("none");
    reveal_strlit("electric");
    reveal_strlit("low");
    reveal_strlit("moderate");
    reveal_strlit("high");
    assert("none"@.len() == 4 && "electric"@.len() == 8);
    assert("low"@.len() == 3 && "moderate"@.len() == 8 && "high"@.len() == 4);
}

pub open spec fn is_electrification(text: Seq<char>) -> bool {
    text == "none"@ || text == "electric"@
}

pub open spec fn is_difficulty(text: Seq<char>) -> bool {
    text == "low"@ || text == "moderate"@ || text == "high"@
}

pub open spec fn line_written(row: LineRow, index: int, line: RailLine) -> bool {
    &&& spells(row.id@, line.id.value)
    &&& row.sequence == stored_position(index)
    &&& spells(row.first_station_id@, line.first_station_id.value)
    &&& spells(row.second_station_id@, line.second_station_id.value)
    &&& row.distance_metres == line.distance.metres
    &&& row.speed_limit_kmh == line.speed_limit.kilometres_per_hour
    &&& row.track_count == line.track_count.tracks
    &&& row.electrification@ == electrification_text(line.electrification)
    &&& row.construction_difficulty@ == difficulty_text(line.construction_difficulty)
}

/// The names under which a Rail Line row's identities appear in messages.
pub struct LineFields {
    pub id: &'static str,
    pub endpoint: &'static str,
}

/// What is wrong with the words of a Rail Line row.
pub open spec fn line_text_fault(row: LineRow) -> Option<&'static str> {
    if !is_electrification(row.electrification@) {
        Some("Rail Line electrification")
    } else if !is_difficulty(row.construction_difficulty@) {
        Some("Rail Line construction difficulty")
    } else {
        None
    }
}

/// What is wrong with a Rail Line row: its words are decoded before its identities.
pub open spec fn line_fault(row: LineRow, fields: LineFields) -> Option<&'static str> {
    if line_text_fault(row) is Some {
        line_text_fault(row)
    } else if uuid_of_text(row.id@) is None {
        Some(fields.id)
    } else if uuid_of_text(row.first_station_id@) is None || uuid_of_text(row.second_station_id@)
        is None {
        Some(fields.endpoint)
    } else if row.distance_metres <= 0 {
        Some("Rail Line distance")
    } else if !(0 < row.speed_limit_kmh <= u32::MAX) {
        Some("Rail Line speed limit")
    } else if !(0 < row.track_count <= u32::MAX) {
        Some("Rail Line track count")
    } else {
        None
    }
}

pub open spec fn line_read(row: LineRow, line: RailLine) -> bool {
    &&& uuid_of_text(row.id@) == Some(line.id.value)
    &&& uuid_of_text(row.first_station_id@) == Some(line.first_station_id.value)
    &&& uuid_of_text(row.second_station_id@) == Some(line.second_station_id.value)
    &&& row.distance_metres == line.distance.metres
    &&& row.speed_limit_kmh == line.speed_limit.kilometres_per_hour
    &&& row.track_count == line.track_count.tracks
    &&& row.electrification@ == electrification_text(line.electrification)
    &&& row.construction_difficulty@ == difficulty_text(line.construction_difficulty)
}

pub fn write_line(index: usize, line: &RailLine, distance_field: &'static str) -> (result: Result<
    LineRow,
    SaveCodecError,
>)
    ensures
        refused(
            result,
            if line.distance.metres > i64::MAX {
                Some(distance_field)
            } else {
                None
            },
        ),
        result matches Ok(row) ==> line_written(row, index as int, *line),
{
    let distance_metres: i64 = match to_db_u64(line.distance.metres, distance_field) {
        Ok(metres) => metres,
        Err(error) => return Err(error),
    };
    let electrification = match line.electrification {
        Electrification::Unelectrified => "none",
        Electrification::Electric => "electric",
    };
    let construction_difficulty = match line.construction_difficulty {
        ConstructionDifficulty::Low => "low",
        ConstructionDifficulty::Moderate => "moderate",
        ConstructionDifficulty::High => "high",
    };
    Ok(
        LineRow {
            id: line.id.text(),
            sequence: store_position(index),
            first_station_id: line.first_station_id.text(),
            second_station_id: line.second_station_id.text(),
            distance_metres,
            speed_limit_kmh: line.speed_limit.kilometres_per_hour as i64,
            track_count: line.track_count.tracks as i64,
            electrification: electrification.to_owned(),
            construction_difficulty: construction_difficulty.to_owned(),
        },
    )
}

/// Decodes the words of a Rail Line row.
pub fn read_line_words(row: &LineRow) -> (result: Result<
    (Electrification, ConstructionDifficulty),
    RowError,
>)
    ensures
        undecoded(result, line_text_fault(*row)),
        result matches Ok((electrification, difficulty)) ==> {
            &&& row.electrification@ == electrification_text(electrification)
            &&& row.construction_difficulty@ == difficulty_text(difficulty)
        },
{
    let electrification = if same_text(row.electrification.as_str(), "none") {
        Electrification::Unelectrified
    } else if same_text(row.electrification.as_str(), "electric") {
        Electrification::Electric
    } else {
        return Err(RowError { field: "Rail Line electrification" });
    };
    let construction_difficulty = if same_text(row.construction_difficulty.as_str(), "low") {
        ConstructionDifficulty::Low
    } else if same_text(row.construction_difficulty.as_str(), "moderate") {
        ConstructionDifficulty::Moderate
    } else if same_text(row.construction_difficulty.as_str(), "high") {
        ConstructionDifficulty::High
    } else {
        return Err(RowError { field: "Rail Line construction difficulty" });
    };
    Ok((electrification, construction_difficulty))
}

pub fn read_line(row: &LineRow, fields: LineFields) -> (result: Result<RailLine, RowError>)
    ensures
        undecoded(result, line_fault(*row, fields)),
        result matches Ok(line) ==> line_read(*row, line),
{
    let (electrification, construction_difficulty) = match read_line_words(row) {
        Ok(words) => words,
        Err(error) => return Err(error),
    };
    let id = match RailLineId::parse(row.id.as_str()) {
        Some(id) => id,
        None => return Err(RowError { field: fields.id }),
    };
    let first_station_id = match RailStationId::parse(row.first_station_id.as_str()) {
        Some(id) => id,
        None => return Err(RowError { field: fields.endpoint }),
    };
    let second_station_id = match RailStationId::parse(row.second_station_id.as_str()) {
        Some(id) => id,
        None => return Err(RowError { field: fields.endpoint }),
    };
    let distance = match DistanceMetres::new(row.distance_metres) {
        Ok(distance) => distance,
        Err(_) => return Err(RowError { field: "Rail Line distance" }),
    };
    let speed_limit = match SpeedKilometresPerHour::new(row.speed_limit_kmh) {
        Ok(speed) => speed,
        Err(_) => return Err(RowError { field: "Rail Line speed limit" }),
    };
    let track_count = match TrackCount::new(row.track_count) {
        Ok(tracks) => tracks,
        Err(_) => return Err(RowError { field: "Rail Line track count" }),
    };
    Ok(
        RailLine {
            id,
            first_station_id,
            second_station_id,
            distance,
            speed_limit,
            track_count,
            electrification,
            construction_difficulty,
        },
    )
}

/// A written Rail Line reads back as itself.
pub proof fn line_round_trip(row: LineRow, index: int, line: RailLine)
    requires
        line_written(row, index, line),
        line.wf(),
    ensures
        forall|fields: LineFields| #[trigger] line_fault(row, fields) is None,
        forall|other: RailLine| #[trigger] line_read(row, other) ==> line == other,
{
    lemma_line_texts();
    assert(is_electrification(electrification_text(line.electrification)));
    assert(is_difficulty(difficulty_text(line.construction_difficulty)));
}

/// The Rail Station that a readable row describes.
pub open spec fn station_of(row: StationRow) -> RailStation {
    RailStation {
        id: RailStationId { value: uuid_of_text(row.id@)->0 },
        settlement_id: SettlementId { value: uuid_of_text(row.settlement_id@)->0 },
    }
}

/// The Rail Line that a readable row describes.
pub open spec fn line_of(row: LineRow) -> RailLine {
    RailLine {
        id: RailLineId { value: uuid_of_text(row.id@)->0 },
        first_station_id: RailStationId { value: uuid_of_text(row.first_station_id@)->0 },
        second_station_id: RailStationId { value: uuid_of_text(row.second_station_id@)->0 },
        distance: DistanceMetres { metres: row.distance_metres as u64 },
        speed_limit: SpeedKilometresPerHour { kilometres_per_hour: row.speed_limit_kmh as u32 },
        track_count: TrackCount { tracks: row.track_count as u32 },
        electrification: if row.electrification@ == "none"@ {
            Electrification::Unelectrified
        } else {
            Electrification::Electric
        },
        construction_difficulty: if row.construction_difficulty@ == "low"@ {
            ConstructionDifficulty::Low
        } else if row.construction_difficulty@ == "moderate"@ {
            ConstructionDifficulty::Moderate
        } else {
            ConstructionDifficulty::High
        },
    }
}

/// A row describes one Rail Line.
pub proof fn lemma_line_of(row: LineRow, line: RailLine)
    requires
        line_read(row, line),
    ensures
        line == line_of(row),
{
    lemma_line_texts();
    let named = electrification_text(Electrification::Unelectrified);
    let low = difficulty_text(ConstructionDifficulty::Low);
    let moderate = difficulty_text(ConstructionDifficulty::Moderate);
}

/// Whether rows were written for a list of values.
pub open spec fn bulletins_written(rows: Seq<BulletinRow>, values: Seq<BulletinEntry>) -> bool {
    &&& rows.len() == values.len()
    &&& forall|i: int| 0 <= i < values.len() ==> bulletin_written(#[trigger] rows[i], i, values[i])
}

/// The first field that makes the first `count` rows unreadable.
pub open spec fn bulletins_fault(rows: Seq<BulletinRow>, count: int) -> Option<&'static str>
    decreases count,
{
    if count <= 0 {
        None
    } else if bulletins_fault(rows, count - 1) is Some {
        bulletins_fault(rows, count - 1)
    } else {
        bulletin_fault(rows[count - 1])
    }
}

proof fn lemma_bulletins_fault(rows: Seq<BulletinRow>, low: int, high: int)
    requires
        low <= high,
        bulletins_fault(rows, low) is Some,
    ensures
        bulletins_fault(rows, high) == bulletins_fault(rows, low),
    decreases high - low,
{
    if low < high {
        lemma_bulletins_fault(rows, low, high - 1);
    }
}

/// Whether a list of values is what the rows describe.
pub open spec fn bulletins_read(rows: Seq<BulletinRow>, values: Seq<BulletinEntry>) -> bool {
    &&& rows.len() == values.len()
    &&& forall|i: int| 0 <= i < values.len() ==> bulletin_read(rows[i], #[trigger] values[i])
}

/// Whether two lists hold the same values.
pub open spec fn same_bulletins(first: Seq<BulletinEntry>, second: Seq<BulletinEntry>) -> bool {
    &&& first.len() == second.len()
    &&& forall|i: int| 0 <= i < first.len() ==> same_entry(first[i], #[trigger] second[i])
}

pub fn read_bulletins(rows: &Vec<BulletinRow>) -> (result: Result<Vec<BulletinEntry>, RowError>)
    ensures
        undecoded(result, bulletins_fault(rows@, rows@.len() as int)),
        result matches Ok(values) ==> bulletins_read(rows@, values@),
{
    let mut values: Vec<BulletinEntry> = Vec::new();
    let mut i: usize = 0;
    while i < rows.len()
        invariant
            i <= rows@.len(),
            bulletins_fault(rows@, i as int) is None,
            values@.len() == i,
            forall|j: int| 0 <= j < i ==> bulletin_read(rows@[j], #[trigger] values@[j]),
        decreases rows.len() - i,
    {
        match read_bulletin(&rows[i]) {
            Ok(value) => {
                values.push(value);
            },
            Err(error) => {
                proof {
                    lemma_bulletins_fault(rows@, i + 1, rows@.len() as int);
                }
                return Err(error);
            },
        }
        i += 1;
    }
    Ok(values)
}

pub fn write_bulletins(values: &Vec<BulletinEntry>) -> (rows: Vec<BulletinRow>)
    ensures
        bulletins_written(rows@, values@),
{
    let mut rows: Vec<BulletinRow> = Vec::new();
    let mut i: usize = 0;
    while i < values.len()
        invariant
            i <= values@.len(),
            rows@.len() == i,
            forall|j: int| 0 <= j < i ==> bulletin_written(#[trigger] rows@[j], j, values@[j]),
        decreases values.len() - i,
    {
        rows.push(write_bulletin(i, &values[i]));
        i += 1;
    }
    rows
}

proof fn lemma_bulletins_readable(rows: Seq<BulletinRow>, values: Seq<BulletinEntry>, count: int)
    requires
        bulletins_written(rows, values),
        0 <= count <= rows.len(),
    ensures
        bulletins_fault(rows, count) is None,
    decreases count,
{
    if count > 0 {
        lemma_bulletins_readable(rows, values, count - 1);
        assert(bulletin_written(rows[count - 1], count - 1, values[count - 1]));
        bulletin_round_trip(rows[count - 1], count - 1, values[count - 1]);
        assert(bulletin_fault(rows[count - 1]) is None);
    }
}

/// Written rows read back as the values they were written for.
pub proof fn bulletins_round_trip(rows: Seq<BulletinRow>, values: Seq<BulletinEntry>)
    requires
        bulletins_written(rows, values),
    ensures
        bulletins_fault(rows, rows.len() as int) is None,
        forall|others: Seq<BulletinEntry>| #[trigger] bulletins_read(rows, others) ==> same_bulletins(values, others),
{
    lemma_bulletins_readable(rows, values, rows.len() as int);
    assert forall|others: Seq<BulletinEntry>| #[trigger] bulletins_read(rows, others) implies same_bulletins(
        values,
        others,
    ) by {
        assert forall|i: int| 0 <= i < values.len() implies same_entry(values[i], #[trigger] others[i]) by {
            assert(bulletin_written(rows[i], i, values[i]));
            bulletin_round_trip(rows[i], i, values[i]);
            assert(bulletin_read(rows[i], others[i]));
        }
    }
}

pub open spec fn settlement_unstorable(settlement: Settlement) -> bool {
    settlement.population > i64::MAX
}

/// Whether rows were written for a list of values.
pub open spec fn settlements_written(rows: Seq<SettlementRow>, values: Seq<Settlement>) -> bool {
    &&& rows.len() == values.len()
    &&& forall|i: int| 0 <= i < values.len() ==> settlement_written(#[trigger] rows[i], i, values[i])
}

/// The first field that makes the first `count` rows unreadable.
pub open spec fn settlements_fault(rows: Seq<SettlementRow>, count: int) -> Option<&'static str>
    decreases count,
{
    if count <= 0 {
        None
    } else if settlements_fault(rows, count - 1) is Some {
        settlements_fault(rows, count - 1)
    } else {
        settlement_fault(rows[count - 1])
    }
}

proof fn lemma_settlements_fault(rows: Seq<SettlementRow>, low: int, high: int)
    requires
        low <= high,
        settlements_fault(rows, low) is Some,
    ensures
        settlements_fault(rows, high) == settlements_fault(rows, low),
    decreases high - low,
{
    if low < high {
        lemma_settlements_fault(rows, low, high - 1);
    }
}

/// Whether a list of values is what the rows describe.
pub open spec fn settlements_read(rows: Seq<SettlementRow>, values: Seq<Settlement>) -> bool {
    &&& rows.len() == values.len()
    &&& forall|i: int| 0 <= i < values.len() ==> settlement_read(rows[i], #[trigger] values[i])
}

/// Whether two lists hold the same values.
pub open spec fn same_settlements(first: Seq<Settlement>, second: Seq<Settlement>) -> bool {
    &&& first.len() == second.len()
    &&& forall|i: int| 0 <= i < first.len() ==> same_settlement(first[i], #[trigger] second[i])
}

pub fn read_settlements(rows: &Vec<SettlementRow>) -> (result: Result<Vec<Settlement>, RowError>)
    ensures
        undecoded(result, settlements_fault(rows@, rows@.len() as int)),
        result matches Ok(values) ==> settlements_read(rows@, values@),
{
    let mut values: Vec<Settlement> = Vec::new();
    let mut i: usize = 0;
    while i < rows.len()
        invariant
            i <= rows@.len(),
            settlements_fault(rows@, i as int) is None,
            values@.len() == i,
            forall|j: int| 0 <= j < i ==> settlement_read(rows@[j], #[trigger] values@[j]),
        decreases rows.len() - i,
    {
        match read_settlement(&rows[i]) {
            Ok(value) => {
                values.push(value);
            },
            Err(error) => {
                proof {
                    lemma_settlements_fault(rows@, i + 1, rows@.len() as int);
                }
                return Err(error);
            },
        }
        i += 1;
    }
    Ok(values)
}

/// Whether some value does not fit the database.
pub open spec fn settlements_unstorable(values: Seq<Settlement>) -> bool {
    exists|i: int| 0 <= i < values.len() && settlement_unstorable(#[trigger] values[i])
}

pub fn write_settlements(values: &Vec<Settlement>) -> (result: Result<Vec<SettlementRow>, SaveCodecError>)
    ensures
        refused(
            result,
            if settlements_unstorable(values@) {
                Some("Settlement Population")
            } else {
                None
            },
        ),
        result matches Ok(rows) ==> settlements_written(rows@, values@),
{
    let mut rows: Vec<SettlementRow> = Vec::new();
    let mut i: usize = 0;
    while i < values.len()
        invariant
            i <= values@.len(),
            rows@.len() == i,
            forall|j: int| 0 <= j < i ==> settlement_written(#[trigger] rows@[j], j, values@[j]),
            forall|j: int| 0 <= j < i ==> !settlement_unstorable(#[trigger] values@[j]),
        decreases values.len() - i,
    {
        match write_settlement(i, &values[i]) {
            Ok(row) => {
                rows.push(row);
            },
            Err(error) => {
                assert(settlement_unstorable(values@[i as int]));
                return Err(error);
            },
        }
        i += 1;
    }
    Ok(rows)
}

proof fn lemma_settlements_readable(rows: Seq<SettlementRow>, values: Seq<Settlement>, count: int)
    requires
        settlements_written(rows, values),
        0 <= count <= rows.len(),
    ensures
        settlements_fault(rows, count) is None,
    decreases count,
{
    if count > 0 {
        lemma_settlements_readable(rows, values, count - 1);
        assert(settlement_written(rows[count - 1], count - 1, values[count - 1]));
        settlement_round_trip(rows[count - 1], count - 1, values[count - 1]);
        assert(settlement_fault(rows[count - 1]) is None);
    }
}

/// Written rows read back as the values they were written for.
pub proof fn settlements_round_trip(rows: Seq<SettlementRow>, values: Seq<Settlement>)
    requires
        settlements_written(rows, values),
    ensures
        settlements_fault(rows, rows.len() as int) is None,
        forall|others: Seq<Settlement>| #[trigger] settlements_read(rows, others) ==> same_settlements(values, others),
{
    lemma_settlements_readable(rows, values, rows.len() as int);
    assert forall|others: Seq<Settlement>| #[trigger] settlements_read(rows, others) implies same_settlements(
        values,
        others,
    ) by {
        assert forall|i: int| 0 <= i < values.len() implies same_settlement(values[i], #[trigger] others[i]) by {
            assert(settlement_written(rows[i], i, values[i]));
            settlement_round_trip(rows[i], i, values[i]);
            assert(settlement_read(rows[i], others[i]));
        }
    }
}

pub open spec fn same_station(first: RailStation, second: RailStation) -> bool {
    first == second
}

/// Whether rows were written for a list of values.
pub open spec fn stations_written(rows: Seq<StationRow>, values: Seq<RailStation>) -> bool {
    &&& rows.len() == values.len()
    &&& forall|i: int| 0 <= i < values.len() ==> station_written(#[trigger] rows[i], i, values[i])
}

/// The first field that makes the first `count` rows unreadable.
pub open spec fn stations_fault(rows: Seq<StationRow>, count: int) -> Option<&'static str>
    decreases count,
{
    if count <= 0 {
        None
    } else if stations_fault(rows, count - 1) is Some {
        stations_fault(rows, count - 1)
    } else {
        station_fault(rows[count - 1], "Rail Station ID")
    }
}

proof fn lemma_stations_fault(rows: Seq<StationRow>, low: int, high: int)
    requires
        low <= high,
        stations_fault(rows, low) is Some,
    ensures
        stations_fault(rows, high) == stations_fault(rows, low),
    decreases high - low,
{
    if low < high {
        lemma_stations_fault(rows, low, high - 1);
    }
}

/// Whether a list of values is what the rows describe.
pub open spec fn stations_read(rows: Seq<StationRow>, values: Seq<RailStation>) -> bool {
    &&& rows.len() == values.len()
    &&& forall|i: int| 0 <= i < values.len() ==> station_read(rows[i], #[trigger] values[i])
}

/// Whether two lists hold the same values.
pub open spec fn same_stations(first: Seq<RailStation>, second: Seq<RailStation>) -> bool {
    &&& first.len() == second.len()
    &&& forall|i: int| 0 <= i < first.len() ==> same_station(first[i], #[trigger] second[i])
}

pub fn read_stations(rows: &Vec<StationRow>) -> (result: Result<Vec<RailStation>, RowError>)
    ensures
        undecoded(result, stations_fault(rows@, rows@.len() as int)),
        result matches Ok(values) ==> stations_read(rows@, values@),
{
    let mut values: Vec<RailStation> = Vec::new();
    let mut i: usize = 0;
    while i < rows.len()
        invariant
            i <= rows@.len(),
            stations_fault(rows@, i as int) is None,
            values@.len() == i,
            forall|j: int| 0 <= j < i ==> station_read(rows@[j], #[trigger] values@[j]),
        decreases rows.len() - i,
    {
        match read_station(&rows[i], "Rail Station ID") {
            Ok(value) => {
                values.push(value);
            },
            Err(error) => {
                proof {
                    lemma_stations_fault(rows@, i + 1, rows@.len() as int);
                }
                return Err(error);
            },
        }
        i += 1;
    }
    Ok(values)
}

pub fn write_stations(values: &Vec<RailStation>) -> (rows: Vec<StationRow>)
    ensures
        stations_written(rows@, values@),
{
    let mut rows: Vec<StationRow> = Vec::new();
    let mut i: usize = 0;
    while i < values.len()
        invariant
            i <= values@.len(),
            rows@.len() == i,
            forall|j: int| 0 <= j < i ==> station_written(#[trigger] rows@[j], j, values@[j]),
        decreases values.len() - i,
    {
        rows.push(write_station(i, &values[i]));
        i += 1;
    }
    rows
}

proof fn lemma_stations_readable(rows: Seq<StationRow>, values: Seq<RailStation>, count: int)
    requires
        stations_written(rows, values),
        0 <= count <= rows.len(),
    ensures
        stations_fault(rows, count) is None,
    decreases count,
{
    if count > 0 {
        lemma_stations_readable(rows, values, count - 1);
        assert(station_written(rows[count - 1], count - 1, values[count - 1]));
        station_round_trip(rows[count - 1], count - 1, values[count - 1]);
        assert(station_fault(rows[count - 1], "Rail Station ID") is None);
    }
}

/// Written rows read back as the values they were written for.
pub proof fn stations_round_trip(rows: Seq<StationRow>, values: Seq<RailStation>)
    requires
        stations_written(rows, values),
    ensures
        stations_fault(rows, rows.len() as int) is None,
        forall|others: Seq<RailStation>| #[trigger] stations_read(rows, others) ==> same_stations(values, others),
{
    lemma_stations_readable(rows, values, rows.len() as int);
    assert forall|others: Seq<RailStation>| #[trigger] stations_read(rows, others) implies same_stations(
        values,
        others,
    ) by {
        assert forall|i: int| 0 <= i < values.len() implies same_station(values[i], #[trigger] others[i]) by {
            assert(station_written(rows[i], i, values[i]));
            station_round_trip(rows[i], i, values[i]);
            assert(station_read(rows[i], others[i]));
        }
    }
}

pub open spec fn same_line(first: RailLine, second: RailLine) -> bool {
    first == second
}

pub open spec fn line_unstorable(line: RailLine) -> bool {
    line.distance.metres > i64::MAX
}

pub open spec fn rail_line_fields() -> LineFields {
    LineFields { id: "Rail Line ID", endpoint: "Rail Station ID" }
}

/// Whether rows were written for a list of values.
pub open spec fn lines_written(rows: Seq<LineRow>, values: Seq<RailLine>) -> bool {
    &&& rows.len() == values.len()
    &&& forall|i: int| 0 <= i < values.len() ==> line_written(#[trigger] rows[i], i, values[i])
}

/// The first field that makes the first `count` rows unreadable.
pub open spec fn lines_fault(rows: Seq<LineRow>, count: int) -> Option<&'static str>
    decreases count,
{
    if count <= 0 {
        None
    } else if lines_fault(rows, count - 1) is Some {
        lines_fault(rows, count - 1)
    } else {
        line_fault(rows[count - 1], rail_line_fields())
    }
}

proof fn lemma_lines_fault(rows: Seq<LineRow>, low: int, high: int)
    requires
        low <= high,
        lines_fault(rows, low) is Some,
    ensures
        lines_fault(rows, high) == lines_fault(rows, low),
    decreases high - low,
{
    if low < high {
        lemma_lines_fault(rows, low, high - 1);
    }
}

/// Whether a list of values is what the rows describe.
pub open spec fn lines_read(rows: Seq<LineRow>, values: Seq<RailLine>) -> bool {
    &&& rows.len() == values.len()
    &&& forall|i: int| 0 <= i < values.len() ==> line_read(rows[i], #[trigger] values[i])
}

/// Whether two lists hold the same values.
pub open spec fn same_lines(first: Seq<RailLine>, second: Seq<RailLine>) -> bool {
    &&& first.len() == second.len()
    &&& forall|i: int| 0 <= i < first.len() ==> same_line(first[i], #[trigger] second[i])
}

pub fn read_lines(rows: &Vec<LineRow>) -> (result: Result<Vec<RailLine>, RowError>)
    ensures
        undecoded(result, lines_fault(rows@, rows@.len() as int)),
        result matches Ok(values) ==> lines_read(rows@, values@),
{
    let mut values: Vec<RailLine> = Vec::new();
    let mut i: usize = 0;
    while i < rows.len()
        invariant
            i <= rows@.len(),
            lines_fault(rows@, i as int) is None,
            values@.len() == i,
            forall|j: int| 0 <= j < i ==> line_read(rows@[j], #[trigger] values@[j]),
        decreases rows.len() - i,
    {
        match read_line(&rows[i], LineFields { id: "Rail Line ID", endpoint: "Rail Station ID" }) {
            Ok(value) => {
                values.push(value);
            },
            Err(error) => {
                proof {
                    lemma_lines_fault(rows@, i + 1, rows@.len() as int);
                }
                return Err(error);
            },
        }
        i += 1;
    }
    Ok(values)
}

/// Whether some value does not fit the database.
pub open spec fn lines_unstorable(values: Seq<RailLine>) -> bool {
    exists|i: int| 0 <= i < values.len() && line_unstorable(#[trigger] values[i])
}

pub fn write_lines(values: &Vec<RailLine>) -> (result: Result<Vec<LineRow>, SaveCodecError>)
    ensures
        refused(
            result,
            if lines_unstorable(values@) {
                Some("Rail Line distance")
            } else {
                None
            },
        ),
        result matches Ok(rows) ==> lines_written(rows@, values@),
{
    let mut rows: Vec<LineRow> = Vec::new();
    let mut i: usize = 0;
    while i < values.len()
        invariant
            i <= values@.len(),
            rows@.len() == i,
            forall|j: int| 0 <= j < i ==> line_written(#[trigger] rows@[j], j, values@[j]),
            forall|j: int| 0 <= j < i ==> !line_unstorable(#[trigger] values@[j]),
        decreases values.len() - i,
    {
        match write_line(i, &values[i], "Rail Line distance") {
            Ok(row) => {
                rows.push(row);
            },
            Err(error) => {
                assert(line_unstorable(values@[i as int]));
                return Err(error);
            },
        }
        i += 1;
    }
    Ok(rows)
}

proof fn lemma_lines_readable(rows: Seq<LineRow>, values: Seq<RailLine>, count: int)
    requires
        lines_written(rows, values),
        0 <= count <= rows.len(),
        forall|i: int| 0 <= i < values.len() ==> (#[trigger] values[i]).wf(),
    ensures
        lines_fault(rows, count) is None,
    decreases count,
{
    if count > 0 {
        lemma_lines_readable(rows, values, count - 1);
        assert(line_written(rows[count - 1], count - 1, values[count - 1]));
        assert(values[count - 1].wf());
        line_round_trip(rows[count - 1], count - 1, values[count - 1]);
        assert(line_fault(rows[count - 1], rail_line_fields()) is None);
    }
}

/// Written rows read back as the values they were written for.
pub proof fn lines_round_trip(rows: Seq<LineRow>, values: Seq<RailLine>)
    requires
        lines_written(rows, values),
        forall|i: int| 0 <= i < values.len() ==> (#[trigger] values[i]).wf(),
    ensures
        lines_fault(rows, rows.len() as int) is None,
        forall|others: Seq<RailLine>| #[trigger] lines_read(rows, others) ==> same_lines(values, others),
{
    lemma_lines_readable(rows, values, rows.len() as int);
    assert forall|others: Seq<RailLine>| #[trigger] lines_read(rows, others) implies same_lines(
        values,
        others,
    ) by {
        assert forall|i: int| 0 <= i < values.len() implies same_line(values[i], #[trigger] others[i]) by {
            assert(line_written(rows[i], i, values[i]));
            assert(values[i].wf());
            line_round_trip(rows[i], i, values[i]);
            assert(line_read(rows[i], others[i]));
        }
    }
}

} // verus!
