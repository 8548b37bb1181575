//! All stored tables of one game, and the conversion between them and the game's state.

use vstd::prelude::*;

use super::company::{
    assignments_fault, assignments_read, assignments_round_trip, assignments_written,
    read_assignments, read_services, read_trains, read_units, same_assignments, same_services,
    same_trains, same_units, services_failure, services_read, services_round_trip, services_written,
    train_wf, trains_fault, trains_read, trains_round_trip, trains_written, units_fault,
    units_read, units_round_trip, units_written, write_assignments, write_services, write_trains,
    write_units, AssignmentRow, ServiceRow, TrainRow, UnitRow,
};
use super::history::{history_ends, latest, read_latest_receipts, recent_receipts_load_back};
use super::operations::{
    demands_fault, demands_read, demands_round_trip, demands_unstorable, demands_written,
    journeys_failure, journeys_overflow, journeys_read, journeys_round_trip, journeys_written,
    read_demands, read_journeys, read_rules, receipts_fault, receipts_read,
    receipts_round_trip, receipts_written, rules_fault, rules_overflow, rules_round_trip,
    rules_stored, same_demands, same_journeys, same_receipts, write_demands, write_journeys,
    write_receipts, write_rules, DemandRow, JourneyRow, ReceiptRow, RulesRow,
};
use super::project_laws::{project_wf, projects_round_trip, regrouped, same_project};
use super::projects::{
    any_overlong, load_infrastructure_projects, projects_failure, projects_read, projects_written,
    write_projects, ProjectRows,
};
use super::world::{
    bulletins_fault, bulletins_read, bulletins_round_trip, bulletins_written, finances_written,
    lines_fault, lines_read, lines_round_trip, lines_unstorable, lines_written, read_bulletins,
    read_finances, read_lines, read_settlements, read_stations, same_bulletins, same_lines,
    same_settlements, same_stations, settlements_fault, settlements_read, settlements_round_trip,
    settlements_unstorable, settlements_written, stations_fault, stations_read,
    stations_round_trip, stations_written, write_bulletins, write_finances, write_lines,
    write_settlements, write_stations, BulletinRow, FinancesRow, LineRow, SettlementRow,
    StationRow,
};
use crate::model::company::{Financials, Fleet, PlayerCompany};
use crate::model::identity::{is_keeper_mark, VehicleKeeperMark};
use crate::model::network::RailNetwork;
use crate::model::project::{InfrastructureProject, RailAuthority};
use crate::model::state::{GameState, RailwayRegistration, Region};
use crate::model::units::{Money, UtcSeconds};
use crate::storage::codec::{
    decimal_reads_back, digits_value, failed_row, fits_u32, from_db_u32, from_db_u64,
    invalid_value, is_number, number_digits, parse_u64, refused, row_fault, to_db_u64, unloaded,
    value_fault, LoadError, SaveCodecError, DECODE_ROW,
};
use crate::text::{decimal, decimal_text};

verus! {

/// The row of `game_meta`.
#[derive(Clone, Debug, PartialEq, Eq)]
pub struct MetaRow {
    pub world_seed: String,
    pub last_processed_at: i64,
    pub bulletin_seen_count: i64,
}

/// The row of `region`.
#[derive(Clone, Debug, PartialEq, Eq)]
pub struct RegionRow {
    pub name: String,
    pub registration_code: i64,
    pub registration_mark: String,
    pub population: i64,
    pub rail_authority_name: String,
    pub rail_authority_construction_capacity: i64,
}

/// The row of `company`.
#[derive(Clone, Debug, PartialEq, Eq)]
pub struct CompanyRow {
    pub name: String,
    pub vkm: String,
    pub funds_cents: i64,
    pub next_train_display_number: i64,
}

/// The row of `financials`.
#[derive(Clone, Debug, PartialEq, Eq)]
pub struct FinancialsRow {
    pub operating_revenue_cents: i64,
    pub infrastructure_access_fees_cents: i64,
    pub fuel_costs_cents: i64,
}

/// The stored tables of one game. In a save the receipts are the whole history that it keeps;
/// for writing they are those of the game.
#[derive(Clone, Debug, PartialEq, Eq)]
pub struct SaveRows {
    pub meta: MetaRow,
    pub region: RegionRow,
    pub bulletin: Vec<BulletinRow>,
    pub finances: FinancesRow,
    pub settlements: Vec<SettlementRow>,
    pub stations: Vec<StationRow>,
    pub lines: Vec<LineRow>,
    pub projects: ProjectRows,
    pub company: CompanyRow,
    pub units: Vec<UnitRow>,
    pub trains: Vec<TrainRow>,
    pub services: Vec<ServiceRow>,
    pub assignments: Vec<AssignmentRow>,
    pub demand: Vec<DemandRow>,
    pub journeys: Vec<JourneyRow>,
    pub financials: FinancialsRow,
    pub receipts: Vec<ReceiptRow>,
    pub rules: RulesRow,
}

/// Whether the single-row tables were written for a game.
pub open spec fn singles_written(rows: SaveRows, state: GameState) -> bool {
    let region = state.region;
    let company = state.player_company;
    &&& rows.meta.world_seed@ == decimal(state.world_seed as nat)
    &&& rows.meta.last_processed_at == state.last_processed_at.seconds
    &&& rows.meta.bulletin_seen_count == state.bulletin_seen_count
    &&& rows.region.name@ == region.name@
    &&& rows.region.registration_code == region.railway_registration.numeric_code
    &&& rows.region.registration_mark@ == region.railway_registration.mark@
    &&& rows.region.population == region.population
    &&& rows.region.rail_authority_name@ == region.rail_authority.name@
    &&& rows.region.rail_authority_construction_capacity
        == region.rail_authority.construction_capacity
    &&& finances_written(rows.finances, region.rail_authority.finances)
    &&& rows.company.name@ == company.name@
    &&& rows.company.vkm@ == company.vehicle_keeper_mark.mark@
    &&& rows.company.funds_cents == company.funds.cents
    &&& rows.company.next_train_display_number == company.fleet.next_train_display_number
    &&& rows.financials.operating_revenue_cents == state.financials.operating_revenue.cents
    &&& rows.financials.infrastructure_access_fees_cents
        == state.financials.infrastructure_access_fees.cents
    &&& rows.financials.fuel_costs_cents == state.financials.fuel_costs.cents
    &&& rules_stored(rows.rules, state.rules)
}

/// Whether the stored tables were written for a game.
pub open spec fn state_written(rows: SaveRows, state: GameState) -> bool {
    let network = state.region.rail_authority.rail_network;
    let company = state.player_company;
    &&& singles_written(rows, state)
    &&& bulletins_written(rows.bulletin@, state.region.bulletin@)
    &&& settlements_written(rows.settlements@, state.region.settlements@)
    &&& stations_written(rows.stations@, network.rail_stations@)
    &&& lines_written(rows.lines@, network.rail_lines@)
    &&& projects_written(
        rows.projects,
        state.region.rail_authority.infrastructure_projects@,
    )
    &&& units_written(rows.units@, company.fleet.next_evn_unit_by_model@)
    &&& trains_written(rows.trains@, company.fleet.trains@)
    &&& services_written(rows.services@, company.passenger_services@)
    &&& assignments_written(rows.assignments@, company.fleet.service_assignments@)
    &&& demands_written(rows.demand@, state.origin_destination_demand@)
    &&& journeys_written(rows.journeys@, state.active_journeys@)
    &&& receipts_written(rows.receipts@, state.financials.recent_journey_receipts@)
}

/// The first field of a game that does not fit the database, if any.
pub open spec fn state_overflow(state: GameState) -> Option<&'static str> {
    let network = state.region.rail_authority.rail_network;
    let journeys = journeys_overflow(state.active_journeys@, state.active_journeys@.len() as int);
    if state.bulletin_seen_count > i64::MAX {
        Some("Bulletin seen count")
    } else if state.region.population > i64::MAX {
        Some("Region Population")
    } else if settlements_unstorable(state.region.settlements@) {
        Some("Settlement Population")
    } else if lines_unstorable(network.rail_lines@) {
        Some("Rail Line distance")
    } else if any_overlong(state.region.rail_authority.infrastructure_projects@) {
        Some("planned Rail Line distance")
    } else if state.player_company.fleet.next_train_display_number > i64::MAX {
        Some("next Train display number")
    } else if demands_unstorable(state.origin_destination_demand@) {
        Some("Demand fractional passenger seconds")
    } else if journeys is Some {
        journeys
    } else {
        rules_overflow(state.rules)
    }
}

/// The tables that store a game.
pub fn insert_state(state: &GameState) -> (result: Result<SaveRows, SaveCodecError>)
    ensures
        refused(result, state_overflow(*state)),
        result matches Ok(rows) ==> state_written(rows, *state),
{
    let region = &state.region;
    let authority = &region.rail_authority;
    let company = &state.player_company;
    let bulletin_seen_count: i64 = match to_db_u64(
        state.bulletin_seen_count,
        "Bulletin seen count",
    ) {
        Ok(count) => count,
        Err(error) => return Err(error),
    };
    let population: i64 = match to_db_u64(region.population, "Region Population") {
        Ok(population) => population,
        Err(error) => return Err(error),
    };
    let settlements = match write_settlements(&region.settlements) {
        Ok(rows) => rows,
        Err(error) => return Err(error),
    };
    let lines = match write_lines(&authority.rail_network.rail_lines) {
        Ok(rows) => rows,
        Err(error) => return Err(error),
    };
    let projects = match write_projects(&authority.infrastructure_projects) {
        Ok(rows) => rows,
        Err(error) => return Err(error),
    };
    let next_train_display_number: i64 = match to_db_u64(
        company.fleet.next_train_display_number,
        "next Train display number",
    ) {
        Ok(number) => number,
        Err(error) => return Err(error),
    };
    let demand = match write_demands(&state.origin_destination_demand) {
        Ok(rows) => rows,
        Err(error) => return Err(error),
    };
    let journeys = match write_journeys(&state.active_journeys) {
        Ok(rows) => rows,
        Err(error) => return Err(error),
    };
    let rules = match write_rules(&state.rules) {
        Ok(row) => row,
        Err(error) => return Err(error),
    };
    Ok(
        SaveRows {
            meta: MetaRow {
                world_seed: decimal_text(state.world_seed),
                last_processed_at: state.last_processed_at.seconds,
                bulletin_seen_count,
            },
            region: RegionRow {
                name: region.name.clone(),
                registration_code: region.railway_registration.numeric_code as i64,
                registration_mark: region.railway_registration.mark.clone(),
                population,
                rail_authority_name: authority.name.clone(),
                rail_authority_construction_capacity: authority.construction_capacity as i64,
            },
            bulletin: write_bulletins(&region.bulletin),
            finances: write_finances(&authority.finances),
            settlements,
            stations: write_stations(&authority.rail_network.rail_stations),
            lines,
            projects,
            company: CompanyRow {
                name: company.name.clone(),
                vkm: company.vehicle_keeper_mark.mark.clone(),
                funds_cents: company.funds.cents,
                next_train_display_number,
            },
            units: write_units(&company.fleet.next_evn_unit_by_model),
            trains: write_trains(&company.fleet.trains),
            services: write_services(&company.passenger_services),
            assignments: write_assignments(&company.fleet.service_assignments),
            demand,
            journeys,
            financials: FinancialsRow {
                operating_revenue_cents: state.financials.operating_revenue.cents,
                infrastructure_access_fees_cents: state.financials.infrastructure_access_fees.cents,
                fuel_costs_cents: state.financials.fuel_costs.cents,
            },
            receipts: write_receipts(&state.financials.recent_journey_receipts),
            rules,
        },
    )
}

/// Why the Region's tables cannot be read, if so.
pub open spec fn world_failure(rows: SaveRows) -> Option<LoadError> {
    let bulletin = bulletins_fault(rows.bulletin@, rows.bulletin@.len() as int);
    let settlements = settlements_fault(rows.settlements@, rows.settlements@.len() as int);
    let stations = stations_fault(rows.stations@, rows.stations@.len() as int);
    let lines = lines_fault(rows.lines@, rows.lines@.len() as int);
    if !is_number(rows.meta.world_seed@) {
        value_fault(Some("world seed"))
    } else if bulletin is Some {
        row_fault(DECODE_ROW, bulletin)
    } else if settlements is Some {
        row_fault(DECODE_ROW, settlements)
    } else if stations is Some {
        row_fault(DECODE_ROW, stations)
    } else if lines is Some {
        row_fault(DECODE_ROW, lines)
    } else {
        projects_failure(rows.projects)
    }
}

/// Why the Company's tables cannot be read, if so; `history` is the part of its receipts that
/// is loaded.
pub open spec fn company_failure(rows: SaveRows, history: Seq<ReceiptRow>) -> Option<LoadError> {
    let units = units_fault(rows.units@, rows.units@.len() as int);
    let trains = trains_fault(rows.trains@, rows.trains@.len() as int);
    let assignments = assignments_fault(rows.assignments@, rows.assignments@.len() as int);
    let demand = demands_fault(rows.demand@, rows.demand@.len() as int);
    let receipts = receipts_fault(history, history.len() as int);
    if !is_keeper_mark(rows.company.vkm@) {
        value_fault(Some("Player Company VKM"))
    } else if units is Some {
        row_fault(DECODE_ROW, units)
    } else if trains is Some {
        row_fault(DECODE_ROW, trains)
    } else if services_failure(rows.services@) is Some {
        services_failure(rows.services@)
    } else if assignments is Some {
        row_fault(DECODE_ROW, assignments)
    } else if demand is Some {
        row_fault(DECODE_ROW, demand)
    } else if journeys_failure(rows.journeys@) is Some {
        journeys_failure(rows.journeys@)
    } else {
        row_fault(DECODE_ROW, receipts)
    }
}

/// The first number of the single-row tables that is outside its domain.
pub open spec fn singles_fault(rows: SaveRows) -> Option<&'static str> {
    if !(0 <= rows.region.registration_code <= 255) {
        Some("Region railway registration code")
    } else if rows.region.population < 0 {
        Some("Region Population")
    } else if !fits_u32(rows.region.rail_authority_construction_capacity) {
        Some("Rail Authority construction capacity")
    } else if rows.company.next_train_display_number < 0 {
        Some("next Train display number")
    } else if rules_fault(rows.rules) is Some {
        rules_fault(rows.rules)
    } else if rows.meta.bulletin_seen_count < 0 {
        Some("Bulletin seen count")
    } else {
        None
    }
}

/// Why the stored tables hold no game, if so. A row that cannot be decoded is a failure of the
/// database; a value of a single-row table, a Service's route or a project that its entries do
/// not suit makes the save invalid.
pub open spec fn load_failure(rows: SaveRows, limit: nat) -> Option<LoadError> {
    let history = latest(rows.receipts@, limit);
    if world_failure(rows) is Some {
        world_failure(rows)
    } else if company_failure(rows, history) is Some {
        company_failure(rows, history)
    } else {
        value_fault(singles_fault(rows))
    }
}

/// Whether the single-row tables describe a game.
pub open spec fn singles_read(rows: SaveRows, state: GameState) -> bool {
    let region = state.region;
    let company = state.player_company;
    &&& state.world_seed == digits_value(number_digits(rows.meta.world_seed@))
    &&& rows.meta.last_processed_at == state.last_processed_at.seconds
    &&& rows.meta.bulletin_seen_count == state.bulletin_seen_count
    &&& rows.region.name@ == region.name@
    &&& rows.region.registration_code == region.railway_registration.numeric_code
    &&& rows.region.registration_mark@ == region.railway_registration.mark@
    &&& rows.region.population == region.population
    &&& rows.region.rail_authority_name@ == region.rail_authority.name@
    &&& rows.region.rail_authority_construction_capacity
        == region.rail_authority.construction_capacity
    &&& finances_written(rows.finances, region.rail_authority.finances)
    &&& rows.company.name@ == company.name@
    &&& rows.company.vkm@ == company.vehicle_keeper_mark.mark@
    &&& rows.company.funds_cents == company.funds.cents
    &&& rows.company.next_train_display_number == company.fleet.next_train_display_number
    &&& rows.financials.operating_revenue_cents == state.financials.operating_revenue.cents
    &&& rows.financials.infrastructure_access_fees_cents
        == state.financials.infrastructure_access_fees.cents
    &&& rows.financials.fuel_costs_cents == state.financials.fuel_costs.cents
    &&& rules_stored(rows.rules, state.rules)
}

/// Whether the stored tables describe a game, which holds the latest receipts, at most `limit`.
pub open spec fn state_read(rows: SaveRows, limit: nat, state: GameState) -> bool {
    let network = state.region.rail_authority.rail_network;
    let company = state.player_company;
    &&& singles_read(rows, state)
    &&& bulletins_read(rows.bulletin@, state.region.bulletin@)
    &&& settlements_read(rows.settlements@, state.region.settlements@)
    &&& stations_read(rows.stations@, network.rail_stations@)
    &&& lines_read(rows.lines@, network.rail_lines@)
    &&& projects_read(rows.projects, state.region.rail_authority.infrastructure_projects@)
    &&& units_read(rows.units@, company.fleet.next_evn_unit_by_model@)
    &&& trains_read(rows.trains@, company.fleet.trains@)
    &&& services_read(rows.services@, company.passenger_services@)
    &&& assignments_read(rows.assignments@, company.fleet.service_assignments@)
    &&& demands_read(rows.demand@, state.origin_destination_demand@)
    &&& journeys_read(rows.journeys@, state.active_journeys@)
    &&& receipts_read(latest(rows.receipts@, limit), state.financials.recent_journey_receipts@)
}

fn read_region(rows: &SaveRows) -> (result: Result<(u64, Region), LoadError>)
    ensures
        match result {
            Err(error) => world_failure(*rows) == Some(error),
            Ok((seed, region)) => {
                let network = region.rail_authority.rail_network;
                &&& world_failure(*rows) is None
                &&& seed == digits_value(number_digits(rows.meta.world_seed@))
                &&& region.name@ == rows.region.name@
                &&& region.railway_registration.mark@ == rows.region.registration_mark@
                &&& region.rail_authority.name@ == rows.region.rail_authority_name@
                &&& finances_written(rows.finances, region.rail_authority.finances)
                &&& bulletins_read(rows.bulletin@, region.bulletin@)
                &&& settlements_read(rows.settlements@, region.settlements@)
                &&& stations_read(rows.stations@, network.rail_stations@)
                &&& lines_read(rows.lines@, network.rail_lines@)
                &&& projects_read(rows.projects, region.rail_authority.infrastructure_projects@)
            },
        },
{
    let seed: u64 = match parse_u64(rows.meta.world_seed.as_str()) {
        Some(seed) => seed,
        None => return Err(invalid_value("world seed")),
    };
    let bulletin = match read_bulletins(&rows.bulletin) {
        Ok(values) => values,
        Err(error) => return Err(failed_row(DECODE_ROW, error)),
    };
    let settlements = match read_settlements(&rows.settlements) {
        Ok(values) => values,
        Err(error) => return Err(failed_row(DECODE_ROW, error)),
    };
    let rail_stations = match read_stations(&rows.stations) {
        Ok(values) => values,
        Err(error) => return Err(failed_row(DECODE_ROW, error)),
    };
    let rail_lines = match read_lines(&rows.lines) {
        Ok(values) => values,
        Err(error) => return Err(failed_row(DECODE_ROW, error)),
    };
    let infrastructure_projects = match load_infrastructure_projects(&rows.projects) {
        Ok(values) => values,
        Err(error) => return Err(error),
    };
    Ok(
        (
            seed,
            Region {
                name: rows.region.name.clone(),
                railway_registration: RailwayRegistration {
                    numeric_code: 0,
                    mark: rows.region.registration_mark.clone(),
                },
                population: 0,
                settlements,
                bulletin,
                rail_authority: RailAuthority {
                    name: rows.region.rail_authority_name.clone(),
                    rail_network: RailNetwork { rail_stations, rail_lines },
                    finances: read_finances(&rows.finances),
                    construction_capacity: 0,
                    infrastructure_projects,
                },
            },
        ),
    )
}

/// Reads a game from its stored tables, with the latest receipts of its history; a save that
/// holds no game gives none.
pub fn load_state(rows: &Option<SaveRows>, limit: usize) -> (result: Result<
    Option<GameState>,
    LoadError,
>)
    ensures
        unloaded(
            result,
            if rows is Some {
                load_failure(rows->0, limit as nat)
            } else {
                None
            },
        ),
        result matches Ok(state) ==> {
            &&& (state is Some) == (rows is Some)
            &&& state is Some ==> state_read(rows->0, limit as nat, state->0)
        },
{
    let rows = match rows {
        Some(rows) => rows,
        None => return Ok(None),
    };
    let (world_seed, mut region) = match read_region(rows) {
        Ok(world) => world,
        Err(error) => return Err(error),
    };
    let vehicle_keeper_mark = match VehicleKeeperMark::parse(rows.company.vkm.as_str()) {
        Ok(mark) => mark,
        Err(_) => return Err(invalid_value("Player Company VKM")),
    };
    let next_evn_unit_by_model = match read_units(&rows.units) {
        Ok(values) => values,
        Err(error) => return Err(failed_row(DECODE_ROW, error)),
    };
    let trains = match read_trains(&rows.trains) {
        Ok(values) => values,
        Err(error) => return Err(failed_row(DECODE_ROW, error)),
    };
    let passenger_services = match read_services(&rows.services) {
        Ok(values) => values,
        Err(error) => return Err(error),
    };
    let service_assignments = match read_assignments(&rows.assignments) {
        Ok(values) => values,
        Err(error) => return Err(failed_row(DECODE_ROW, error)),
    };
    let origin_destination_demand = match read_demands(&rows.demand) {
        Ok(values) => values,
        Err(error) => return Err(failed_row(DECODE_ROW, error)),
    };
    let active_journeys = match read_journeys(&rows.journeys) {
        Ok(values) => values,
        Err(error) => return Err(error),
    };
    let recent_journey_receipts = match read_latest_receipts(&rows.receipts, limit) {
        Ok(values) => values,
        Err(error) => return Err(failed_row(DECODE_ROW, error)),
    };
    if rows.region.registration_code < 0 || rows.region.registration_code > 255 {
        return Err(invalid_value("Region railway registration code"));
    }
    region.railway_registration.numeric_code = rows.region.registration_code as u8;
    region.population = match from_db_u64(rows.region.population, "Region Population") {
        Ok(population) => population,
        Err(error) => return Err(LoadError::Save(error)),
    };
    region.rail_authority.construction_capacity = match from_db_u32(
        rows.region.rail_authority_construction_capacity,
        "Rail Authority construction capacity",
    ) {
        Ok(capacity) => capacity,
        Err(error) => return Err(LoadError::Save(error)),
    };
    let next_train_display_number: u64 = match from_db_u64(
        rows.company.next_train_display_number,
        "next Train display number",
    ) {
        Ok(number) => number,
        Err(error) => return Err(LoadError::Save(error)),
    };
    let rules = match read_rules(&rows.rules) {
        Ok(rules) => rules,
        Err(error) => return Err(LoadError::Save(error)),
    };
    let bulletin_seen_count: u64 = match from_db_u64(
        rows.meta.bulletin_seen_count,
        "Bulletin seen count",
    ) {
        Ok(count) => count,
        Err(error) => return Err(LoadError::Save(error)),
    };
    let state = GameState {
        world_seed,
        region,
        player_company: PlayerCompany {
            name: rows.company.name.clone(),
            vehicle_keeper_mark,
            funds: Money { cents: rows.company.funds_cents },
            fleet: Fleet {
                trains,
                next_train_display_number,
                next_evn_unit_by_model,
                service_assignments,
            },
            passenger_services,
        },
        origin_destination_demand,
        active_journeys,
        financials: Financials {
            operating_revenue: Money { cents: rows.financials.operating_revenue_cents },
            infrastructure_access_fees: Money {
                cents: rows.financials.infrastructure_access_fees_cents,
            },
            fuel_costs: Money { cents: rows.financials.fuel_costs_cents },
            recent_journey_receipts,
        },
        rules,
        last_processed_at: UtcSeconds { seconds: rows.meta.last_processed_at },
        bulletin_seen_count,
    };
    Ok(Some(state))
}

/// A game whose values lie in the domains of their units, with distinct projects.
pub open spec fn state_wf(state: GameState) -> bool {
    let projects = state.region.rail_authority.infrastructure_projects@;
    let lines = state.region.rail_authority.rail_network.rail_lines@;
    let trains = state.player_company.fleet.trains@;
    let demand = state.origin_destination_demand@;
    let journeys = state.active_journeys@;
    &&& is_keeper_mark(state.player_company.vehicle_keeper_mark.mark@)
    &&& forall|i: int, j: int|
        0 <= i < j < projects.len() ==> (#[trigger] projects[i]).id != (#[trigger] projects[j]).id
    &&& forall|i: int| 0 <= i < projects.len() ==> project_wf(#[trigger] projects[i])
    &&& forall|i: int| 0 <= i < lines.len() ==> (#[trigger] lines[i]).wf()
    &&& forall|i: int| 0 <= i < trains.len() ==> train_wf(#[trigger] trains[i])
    &&& forall|i: int| 0 <= i < demand.len() ==> (#[trigger] demand[i]).market_maturity.wf()
    &&& forall|i: int| 0 <= i < journeys.len() ==> (#[trigger] journeys[i]).fare_rate.wf()
    &&& state.rules.balance.fare_per_passenger_kilometre.wf()
    &&& state.rules.balance.access_fee_per_train_kilometre.wf()
}

/// Whether two lists hold the same projects.
pub open spec fn same_projects(
    first: Seq<InfrastructureProject>,
    second: Seq<InfrastructureProject>,
) -> bool {
    &&& first.len() == second.len()
    &&& forall|i: int| 0 <= i < first.len() ==> same_project(first[i], #[trigger] second[i])
}

/// Whether two games are the same, value by value.
pub open spec fn same_state(first: GameState, second: GameState) -> bool {
    let a = first.region;
    let b = second.region;
    let c = first.player_company;
    let d = second.player_company;
    &&& first.world_seed == second.world_seed
    &&& first.last_processed_at == second.last_processed_at
    &&& first.bulletin_seen_count == second.bulletin_seen_count
    &&& first.rules == second.rules
    &&& a.name@ == b.name@
    &&& a.railway_registration.numeric_code == b.railway_registration.numeric_code
    &&& a.railway_registration.mark@ == b.railway_registration.mark@
    &&& a.population == b.population
    &&& same_settlements(a.settlements@, b.settlements@)
    &&& same_bulletins(a.bulletin@, b.bulletin@)
    &&& a.rail_authority.name@ == b.rail_authority.name@
    &&& a.rail_authority.finances == b.rail_authority.finances
    &&& a.rail_authority.construction_capacity == b.rail_authority.construction_capacity
    &&& a.rail_authority.rail_network.rail_stations@ == b.rail_authority.rail_network.rail_stations@
    &&& a.rail_authority.rail_network.rail_lines@ == b.rail_authority.rail_network.rail_lines@
    &&& same_projects(
        a.rail_authority.infrastructure_projects@,
        b.rail_authority.infrastructure_projects@,
    )
    &&& c.name@ == d.name@
    &&& c.vehicle_keeper_mark.mark@ == d.vehicle_keeper_mark.mark@
    &&& c.funds == d.funds
    &&& c.fleet.next_train_display_number == d.fleet.next_train_display_number
    &&& same_units(c.fleet.next_evn_unit_by_model@, d.fleet.next_evn_unit_by_model@)
    &&& same_trains(c.fleet.trains@, d.fleet.trains@)
    &&& c.fleet.service_assignments@ == d.fleet.service_assignments@
    &&& same_services(c.passenger_services@, d.passenger_services@)
    &&& first.origin_destination_demand@ == second.origin_destination_demand@
    &&& same_journeys(first.active_journeys@, second.active_journeys@)
    &&& first.financials.operating_revenue == second.financials.operating_revenue
    &&& first.financials.infrastructure_access_fees
        == second.financials.infrastructure_access_fees
    &&& first.financials.fuel_costs == second.financials.fuel_costs
    &&& same_receipts(
        first.financials.recent_journey_receipts@,
        second.financials.recent_journey_receipts@,
    )
}

/// The same rows, with the entries of different projects in any order, and with the receipts
/// that the save had kept before those that were written.
pub open spec fn reread(written: SaveRows, kept: Seq<ReceiptRow>, read: SaveRows) -> bool {
    &&& regrouped(written.projects, read.projects)
    &&& read.receipts@ == kept + written.receipts@
    &&& written == (SaveRows { projects: written.projects, receipts: written.receipts, ..read })
}

/// Whatever is saved loads back as the same game: tables written for a game are readable, and
/// every game that they describe is the one that was written.
pub proof fn saved_games_load_back(
    written: SaveRows,
    kept: Seq<ReceiptRow>,
    read: SaveRows,
    limit: nat,
    state: GameState,
)
    requires
        state_written(written, state),
        state_wf(state),
        reread(written, kept, read),
        history_ends(kept, written.receipts@, limit),
    ensures
        load_failure(read, limit) is None,
        forall|loaded: GameState| #[trigger]
            state_read(read, limit, loaded) ==> same_state(state, loaded),
{
    let network = state.region.rail_authority.rail_network;
    let company = state.player_company;
    let projects = state.region.rail_authority.infrastructure_projects@;
    decimal_reads_back(state.world_seed as nat);
    bulletins_round_trip(read.bulletin@, state.region.bulletin@);
    settlements_round_trip(read.settlements@, state.region.settlements@);
    stations_round_trip(read.stations@, network.rail_stations@);
    lines_round_trip(read.lines@, network.rail_lines@);
    projects_round_trip(written.projects, read.projects, projects);
    units_round_trip(read.units@, company.fleet.next_evn_unit_by_model@);
    trains_round_trip(read.trains@, company.fleet.trains@);
    services_round_trip(read.services@, company.passenger_services@);
    assignments_round_trip(read.assignments@, company.fleet.service_assignments@);
    demands_round_trip(read.demand@, state.origin_destination_demand@);
    journeys_round_trip(read.journeys@, state.active_journeys@);
    recent_receipts_load_back(kept, written.receipts@, limit);
    receipts_round_trip(written.receipts@, state.financials.recent_journey_receipts@);
    rules_round_trip(read.rules, state.rules);
    assert forall|loaded: GameState| #[trigger] state_read(read, limit, loaded) implies same_state(
        state,
        loaded,
    ) by {
        let other = loaded.region.rail_authority.rail_network;
        let fleet = loaded.player_company.fleet;
        assert(same_stations(network.rail_stations@, other.rail_stations@));
        assert(network.rail_stations@ =~= other.rail_stations@);
        assert(same_lines(network.rail_lines@, other.rail_lines@));
        assert(network.rail_lines@ =~= other.rail_lines@);
        assert(same_assignments(
            company.fleet.service_assignments@,
            fleet.service_assignments@,
        ));
        assert(company.fleet.service_assignments@ =~= fleet.service_assignments@);
        assert(same_demands(
            state.origin_destination_demand@,
            loaded.origin_destination_demand@,
        ));
        assert(state.origin_destination_demand@ =~= loaded.origin_destination_demand@);
        assert(projects_read(
            read.projects,
            loaded.region.rail_authority.infrastructure_projects@,
        ));
        assert(state.region.rail_authority.finances == loaded.region.rail_authority.finances);
    }
}

} // verus!
