//! Checks of the saved rules, the Region, the Rail Network and the Rail
//! Authority's finances.

use vstd::prelude::*;
use vstd::string::StrSliceExecFns;

use super::fault::{
    check_identities, dangling, identity_fault, impossible, invalid_value, outcome,
    SaveValidationError,
};
use crate::model::identity::{all_upper_letters, is_keeper_mark, upper_letter, VehicleKeeperMark};
use crate::model::network::{
    find_settlement, find_station, has_settlement, has_station, RailLine, RailStation, Settlement,
};
use crate::model::project::RailAuthority;
use crate::model::state::{AuthorityRules, GameState, Region};
use crate::model::units::money_sum;

verus! {

/// The first of the Authority's durations that is zero, by its name in messages.
pub open spec fn zero_duration(rules: AuthorityRules) -> Option<&'static str> {
    if rules.request_queue_delay.seconds == 0 {
        Some("Authority request queue delay")
    } else if rules.review_duration.seconds == 0 {
        Some("Authority review duration")
    } else if rules.proposal_duration.seconds == 0 {
        Some("Authority proposal duration")
    } else if rules.council_request_cooldown.seconds == 0 {
        Some("Authority request cooldown")
    } else if rules.deferred_reconsideration_delay.seconds == 0 {
        Some("Authority deferred reconsideration delay")
    } else if rules.construction_mobilisation_delay.seconds == 0 {
        Some("Authority mobilisation delay")
    } else if rules.new_line_base_construction_duration.seconds == 0 {
        Some("Authority base construction duration")
    } else {
        None
    }
}

/// What is wrong with the saved rules.
pub open spec fn rules_fault(state: GameState) -> Option<SaveValidationError> {
    let rules = state.rules.authority;
    if state.rules.balance.starting_company_funds.cents < 0 {
        invalid_value("starting Company Funds")
    } else if state.rules.demand.cap_duration.seconds == 0 {
        invalid_value("demand cap duration")
    } else if zero_duration(rules) is Some {
        invalid_value(zero_duration(rules)->0)
    } else if rules.low_difficulty_seconds_per_kilometre == 0
        || rules.moderate_difficulty_seconds_per_kilometre == 0
        || rules.high_difficulty_seconds_per_kilometre == 0 {
        invalid_value("Authority construction rate")
    } else if rules.max_active_expansion_projects == 0 {
        invalid_value("Authority active expansion project limit")
    } else {
        None
    }
}

pub fn validate_rules(state: &GameState) -> (result: Result<(), SaveValidationError>)
    ensures
        result == outcome(rules_fault(*state)),
{
    if state.rules.balance.starting_company_funds.cents < 0 {
        return Err(SaveValidationError::InvalidValue { field: "starting Company Funds" });
    }
    if state.rules.demand.cap_duration.seconds == 0 {
        return Err(SaveValidationError::InvalidValue { field: "demand cap duration" });
    }
    let rules = &state.rules.authority;
    if rules.request_queue_delay.seconds == 0 {
        return Err(SaveValidationError::InvalidValue { field: "Authority request queue delay" });
    }
    if rules.review_duration.seconds == 0 {
        return Err(SaveValidationError::InvalidValue { field: "Authority review duration" });
    }
    if rules.proposal_duration.seconds == 0 {
        return Err(SaveValidationError::InvalidValue { field: "Authority proposal duration" });
    }
    if rules.council_request_cooldown.seconds == 0 {
        return Err(SaveValidationError::InvalidValue { field: "Authority request cooldown" });
    }
    if rules.deferred_reconsideration_delay.seconds == 0 {
        return Err(
            SaveValidationError::InvalidValue { field: "Authority deferred reconsideration delay" },
        );
    }
    if rules.construction_mobilisation_delay.seconds == 0 {
        return Err(SaveValidationError::InvalidValue { field: "Authority mobilisation delay" });
    }
    if rules.new_line_base_construction_duration.seconds == 0 {
        return Err(
            SaveValidationError::InvalidValue { field: "Authority base construction duration" },
        );
    }
    if rules.low_difficulty_seconds_per_kilometre == 0
        || rules.moderate_difficulty_seconds_per_kilometre == 0
        || rules.high_difficulty_seconds_per_kilometre == 0 {
        return Err(SaveValidationError::InvalidValue { field: "Authority construction rate" });
    }
    if rules.max_active_expansion_projects == 0 {
        return Err(
            SaveValidationError::InvalidValue { field: "Authority active expansion project limit" },
        );
    }
    Ok(())
}

/// What is wrong with the Region's registration or the Company's mark.
pub open spec fn registration_fault(state: GameState) -> Option<SaveValidationError> {
    let registration = state.region.railway_registration;
    if !(10 <= registration.numeric_code <= 99) {
        invalid_value("Region railway registration code")
    } else if registration.mark@.len() != 2 || exists|i: int|
        0 <= i < registration.mark@.len() && !upper_letter(#[trigger] registration.mark@[i]) {
        invalid_value("Region railway registration mark")
    } else if !is_keeper_mark(state.player_company.vehicle_keeper_mark.mark@) {
        invalid_value("Player Company VKM")
    } else {
        None
    }
}

pub fn validate_registration(state: &GameState) -> (result: Result<(), SaveValidationError>)
    ensures
        result == outcome(registration_fault(*state)),
{
    let registration = &state.region.railway_registration;
    if registration.numeric_code < 10 || registration.numeric_code > 99 {
        return Err(SaveValidationError::InvalidValue { field: "Region railway registration code" });
    }
    if registration.mark.as_str().unicode_len() != 2 || !all_upper_letters(
        registration.mark.as_str(),
    ) {
        return Err(SaveValidationError::InvalidValue { field: "Region railway registration mark" });
    }
    if VehicleKeeperMark::parse(state.player_company.vehicle_keeper_mark.as_str()).is_err() {
        return Err(SaveValidationError::InvalidValue { field: "Player Company VKM" });
    }
    Ok(())
}

pub open spec fn settlement_values(settlements: Seq<Settlement>) -> Seq<u128> {
    Seq::new(settlements.len(), |i: int| settlements[i].id.value)
}

pub open spec fn station_values(stations: Seq<RailStation>) -> Seq<u128> {
    Seq::new(stations.len(), |i: int| stations[i].id.value)
}

pub open spec fn line_values(lines: Seq<RailLine>) -> Seq<u128> {
    Seq::new(lines.len(), |i: int| lines[i].id.value)
}

pub fn collect_settlement_values(settlements: &Vec<Settlement>) -> (result: Vec<u128>)
    ensures
        result@ == settlement_values(settlements@),
{
    let mut result: Vec<u128> = Vec::new();
    let mut i: usize = 0;
    while i < settlements.len()
        invariant
            i <= settlements.len(),
            result@.len() == i,
            forall|j: int| 0 <= j < i ==> #[trigger] result@[j] == settlements@[j].id.value,
        decreases settlements.len() - i,
    {
        result.push(settlements[i].id.value);
        i += 1;
    }
    assert(result@ =~= settlement_values(settlements@));
    result
}

pub fn collect_station_values(stations: &Vec<RailStation>) -> (result: Vec<u128>)
    ensures
        result@ == station_values(stations@),
{
    let mut result: Vec<u128> = Vec::new();
    let mut i: usize = 0;
    while i < stations.len()
        invariant
            i <= stations.len(),
            result@.len() == i,
            forall|j: int| 0 <= j < i ==> #[trigger] result@[j] == stations@[j].id.value,
        decreases stations.len() - i,
    {
        result.push(stations[i].id.value);
        i += 1;
    }
    assert(result@ =~= station_values(stations@));
    result
}

pub fn collect_line_values(lines: &Vec<RailLine>) -> (result: Vec<u128>)
    ensures
        result@ == line_values(lines@),
{
    let mut result: Vec<u128> = Vec::new();
    let mut i: usize = 0;
    while i < lines.len()
        invariant
            i <= lines.len(),
            result@.len() == i,
            forall|j: int| 0 <= j < i ==> #[trigger] result@[j] == lines@[j].id.value,
        decreases lines.len() - i,
    {
        result.push(lines[i].id.value);
        i += 1;
    }
    assert(result@ =~= line_values(lines@));
    result
}

/// The Population of the first `count` Settlements.
pub open spec fn population_of(settlements: Seq<Settlement>, count: int) -> int
    decreases count,
{
    if count <= 0 {
        0
    } else {
        population_of(settlements, count - 1) + settlements[count - 1].population
    }
}

/// What is wrong with the Settlements.
pub open spec fn settlements_fault(region: Region) -> Option<SaveValidationError> {
    let settlements = region.settlements@;
    let total = population_of(settlements, settlements.len() as int);
    if identity_fault(settlement_values(settlements), "Settlement") is Some {
        identity_fault(settlement_values(settlements), "Settlement")
    } else if total > u64::MAX {
        impossible("Region Population overflows its saved unit")
    } else if region.population != total {
        impossible("Region Population does not equal its Settlement Populations")
    } else {
        None
    }
}

proof fn lemma_population_grows(settlements: Seq<Settlement>, low: int, high: int)
    requires
        0 <= low <= high <= settlements.len(),
    ensures
        0 <= population_of(settlements, low) <= population_of(settlements, high),
    decreases high,
{
    if low < high {
        lemma_population_grows(settlements, low, high - 1);
    } else if low > 0 {
        lemma_population_grows(settlements, low - 1, low - 1);
    }
}

pub fn validate_settlements(region: &Region) -> (result: Result<(), SaveValidationError>)
    ensures
        result == outcome(settlements_fault(*region)),
{
    let values = collect_settlement_values(&region.settlements);
    match check_identities(&values, "Settlement") {
        Ok(()) => {},
        Err(error) => return Err(error),
    }
    let mut total: u64 = 0;
    let mut i: usize = 0;
    while i < region.settlements.len()
        invariant
            i <= region.settlements@.len(),
            total == population_of(region.settlements@, i as int),
            identity_fault(settlement_values(region.settlements@), "Settlement") is None,
        decreases region.settlements.len() - i,
    {
        match total.checked_add(region.settlements[i].population) {
            Some(sum) => {
                total = sum;
            },
            None => {
                proof {
                    lemma_population_grows(
                        region.settlements@,
                        i + 1,
                        region.settlements@.len() as int,
                    );
                }
                return Err(
                    SaveValidationError::ImpossibleState {
                        reason: "Region Population overflows its saved unit",
                    },
                );
            },
        }
        i += 1;
    }
    if region.population != total {
        return Err(
            SaveValidationError::ImpossibleState {
                reason: "Region Population does not equal its Settlement Populations",
            },
        );
    }
    Ok(())
}

/// What is wrong with the Rail Stations.
pub open spec fn stations_fault(
    stations: Seq<RailStation>,
    settlements: Seq<Settlement>,
) -> Option<SaveValidationError> {
    if identity_fault(station_values(stations), "Rail Station") is Some {
        identity_fault(station_values(stations), "Rail Station")
    } else if exists|i: int|
        0 <= i < stations.len() && !has_settlement(
            settlements,
            (#[trigger] stations[i]).settlement_id,
        ) {
        dangling("Rail Station Settlement")
    } else if exists|i: int, j: int|
        0 <= i < j < stations.len() && (#[trigger] stations[i]).settlement_id == (
        #[trigger] stations[j]).settlement_id {
        impossible("a Settlement has more than one Rail Station")
    } else {
        None
    }
}

pub fn validate_stations(stations: &Vec<RailStation>, settlements: &Vec<Settlement>) -> (result:
    Result<(), SaveValidationError>)
    ensures
        result == outcome(stations_fault(stations@, settlements@)),
{
    let values = collect_station_values(stations);
    match check_identities(&values, "Rail Station") {
        Ok(()) => {},
        Err(error) => return Err(error),
    }
    let mut i: usize = 0;
    while i < stations.len()
        invariant
            i <= stations.len(),
            identity_fault(station_values(stations@), "Rail Station") is None,
            forall|j: int|
                0 <= j < i ==> has_settlement(settlements@, (#[trigger] stations@[j]).settlement_id),
        decreases stations.len() - i,
    {
        if find_settlement(settlements, stations[i].settlement_id).is_none() {
            assert(!has_settlement(settlements@, stations@[i as int].settlement_id));
            return Err(
                SaveValidationError::DanglingReference { field: "Rail Station Settlement" },
            );
        }
        i += 1;
    }
    let mut i: usize = 0;
    while i < stations.len()
        invariant
            i <= stations.len(),
            identity_fault(station_values(stations@), "Rail Station") is None,
            forall|j: int|
                0 <= j < stations@.len() ==> has_settlement(
                    settlements@,
                    (#[trigger] stations@[j]).settlement_id,
                ),
            forall|a: int, b: int|
                0 <= a < b < i ==> (#[trigger] stations@[a]).settlement_id != (
                #[trigger] stations@[b]).settlement_id,
        decreases stations.len() - i,
    {
        let mut j: usize = 0;
        while j < i
            invariant
                j <= i < stations.len(),
                identity_fault(station_values(stations@), "Rail Station") is None,
                forall|k: int|
                    0 <= k < stations@.len() ==> has_settlement(
                        settlements@,
                        (#[trigger] stations@[k]).settlement_id,
                    ),
                forall|a: int|
                    0 <= a < j ==> (#[trigger] stations@[a]).settlement_id
                        != stations@[i as int].settlement_id,
            decreases i - j,
        {
            if stations[j].settlement_id == stations[i].settlement_id {
                assert(stations@[j as int].settlement_id == stations@[i as int].settlement_id);
                return Err(
                    SaveValidationError::ImpossibleState {
                        reason: "a Settlement has more than one Rail Station",
                    },
                );
            }
            j += 1;
        }
        i += 1;
    }
    Ok(())
}

/// What is wrong with the endpoints of one Rail Line.
pub open spec fn line_fault(line: RailLine, stations: Seq<RailStation>) -> Option<
    SaveValidationError,
> {
    if !has_station(stations, line.first_station_id) || !has_station(
        stations,
        line.second_station_id,
    ) {
        dangling("Rail Line endpoint")
    } else if line.first_station_id == line.second_station_id {
        impossible("a Rail Line has the same Rail Station at both endpoints")
    } else {
        None
    }
}

/// The first fault among the first `count` Rail Lines.
pub open spec fn endpoint_fault(
    lines: Seq<RailLine>,
    stations: Seq<RailStation>,
    count: int,
) -> Option<SaveValidationError>
    decreases count,
{
    if count <= 0 {
        None
    } else if endpoint_fault(lines, stations, count - 1) is Some {
        endpoint_fault(lines, stations, count - 1)
    } else {
        line_fault(lines[count - 1], stations)
    }
}

/// What is wrong with the Rail Lines.
pub open spec fn lines_fault(lines: Seq<RailLine>, stations: Seq<RailStation>) -> Option<
    SaveValidationError,
> {
    if identity_fault(line_values(lines), "Rail Line") is Some {
        identity_fault(line_values(lines), "Rail Line")
    } else {
        endpoint_fault(lines, stations, lines.len() as int)
    }
}

proof fn lemma_endpoint_fault(
    lines: Seq<RailLine>,
    stations: Seq<RailStation>,
    low: int,
    high: int,
)
    requires
        low <= high,
        endpoint_fault(lines, stations, low) is Some,
    ensures
        endpoint_fault(lines, stations, high) == endpoint_fault(lines, stations, low),
    decreases high - low,
{
    if low < high {
        lemma_endpoint_fault(lines, stations, low, high - 1);
    }
}

pub fn validate_lines(lines: &Vec<RailLine>, stations: &Vec<RailStation>) -> (result: Result<
    (),
    SaveValidationError,
>)
    ensures
        result == outcome(lines_fault(lines@, stations@)),
{
    let values = collect_line_values(lines);
    match check_identities(&values, "Rail Line") {
        Ok(()) => {},
        Err(error) => return Err(error),
    }
    let mut i: usize = 0;
    while i < lines.len()
        invariant
            i <= lines.len(),
            identity_fault(line_values(lines@), "Rail Line") is None,
            endpoint_fault(lines@, stations@, i as int) is None,
        decreases lines.len() - i,
    {
        let line = lines[i];
        if find_station(stations, line.first_station_id).is_none() || find_station(
            stations,
            line.second_station_id,
        ).is_none() {
            proof {
                lemma_endpoint_fault(lines@, stations@, i + 1, lines@.len() as int);
            }
            return Err(SaveValidationError::DanglingReference { field: "Rail Line endpoint" });
        }
        if line.first_station_id == line.second_station_id {
            proof {
                lemma_endpoint_fault(lines@, stations@, i + 1, lines@.len() as int);
            }
            return Err(
                SaveValidationError::ImpossibleState {
                    reason: "a Rail Line has the same Rail Station at both endpoints",
                },
            );
        }
        i += 1;
    }
    Ok(())
}

/// What is wrong with the Rail Authority's capacity and finances.
pub open spec fn finances_fault(authority: RailAuthority) -> Option<SaveValidationError> {
    let finances = authority.finances;
    let earmarked = money_sum(
        finances.maintenance_reserve.cents as int,
        finances.committed_investment.cents as int,
    );
    if authority.construction_capacity == 0 {
        invalid_value("Rail Authority construction capacity")
    } else if authority.active() > authority.construction_capacity {
        impossible("Rail Authority active construction exceeds its capacity")
    } else if authority.reserved() > authority.construction_capacity {
        impossible("Rail Authority scheduled and active construction exceeds its capacity")
    } else if finances.treasury.cents < 0 || finances.maintenance_reserve.cents < 0
        || finances.committed_investment.cents < 0 || finances.carried_over_funds.cents < 0
        || finances.regional_public_allocation.cents < 0
        || finances.infrastructure_access_fee_revenue.cents < 0 {
        invalid_value("Rail Authority financial amount")
    } else if earmarked is Err {
        Some(SaveValidationError::Calculation(earmarked->Err_0))
    } else if earmarked->Ok_0.cents > finances.treasury.cents {
        impossible("Rail Authority earmarks exceed its treasury")
    } else if finances.carried_over_funds.cents > finances.treasury.cents {
        impossible("Rail Authority carry-over exceeds its treasury")
    } else {
        None
    }
}

pub fn validate_rail_authority_finances(authority: &RailAuthority) -> (result: Result<
    (),
    SaveValidationError,
>)
    ensures
        result == outcome(finances_fault(*authority)),
{
    if authority.construction_capacity == 0 {
        return Err(
            SaveValidationError::InvalidValue { field: "Rail Authority construction capacity" },
        );
    }
    if authority.active_construction_count() as u64 > authority.construction_capacity as u64 {
        return Err(
            SaveValidationError::ImpossibleState {
                reason: "Rail Authority active construction exceeds its capacity",
            },
        );
    }
    if authority.reserved_construction_count() as u64 > authority.construction_capacity as u64 {
        return Err(
            SaveValidationError::ImpossibleState {
                reason: "Rail Authority scheduled and active construction exceeds its capacity",
            },
        );
    }
    let finances = &authority.finances;
    if finances.treasury.cents < 0 || finances.maintenance_reserve.cents < 0
        || finances.committed_investment.cents < 0 || finances.carried_over_funds.cents < 0
        || finances.regional_public_allocation.cents < 0
        || finances.infrastructure_access_fee_revenue.cents < 0 {
        return Err(SaveValidationError::InvalidValue { field: "Rail Authority financial amount" });
    }
    let earmarked = match finances.maintenance_reserve.checked_add(finances.committed_investment) {
        Ok(sum) => sum,
        Err(error) => return Err(SaveValidationError::Calculation(error)),
    };
    if earmarked.cents > finances.treasury.cents {
        return Err(
            SaveValidationError::ImpossibleState {
                reason: "Rail Authority earmarks exceed its treasury",
            },
        );
    }
    if finances.carried_over_funds.cents > finances.treasury.cents {
        return Err(
            SaveValidationError::ImpossibleState {
                reason: "Rail Authority carry-over exceeds its treasury",
            },
        );
    }
    Ok(())
}

} // verus!
