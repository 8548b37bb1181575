//! Checks of Passenger Services, Passenger Demand and the Company's accounts.

use vstd::prelude::*;
use vstd::string::StrSliceExecFns;

use super::fault::{dangling, impossible, invalid_value, outcome, SaveValidationError};
use crate::model::company::{
    Financials, JourneyReceipt, OriginDestinationDemand, PassengerService, PlayerCompany,
    ServiceDirectionMode,
};
use crate::model::facts::{same_lines, SimulationFacts};
use crate::model::ids::{is_version_four, RailLineId};
use crate::model::network::{
    find_line, find_station, has_line, has_station, lemma_line_index, line_index, RailLine,
    RailNetwork, RailStation,
};
use crate::model::units::{money_sum, CalculationError, DistanceMetres};
use crate::text::{control, has_control, is_blank, trim, trimmed};

verus! {

/// The length of the first `count` Rail Lines of a path, or why it has none: a Rail Line
/// that does not exist, or a sum beyond the unit.
pub open spec fn path_length(
    lines: Seq<RailLine>,
    ids: Seq<RailLineId>,
    count: int,
    operation: &'static str,
) -> Result<int, SaveValidationError>
    decreases count,
{
    if count <= 0 {
        Ok(0)
    } else {
        match path_length(lines, ids, count - 1, operation) {
            Err(error) => Err(error),
            Ok(total) => if !has_line(lines, ids[count - 1]) {
                Err(SaveValidationError::DanglingReference { field: "Passenger Service Rail Line" })
            } else {
                let sum = total + lines[line_index(lines, ids[count - 1])].distance.metres;
                if sum > u64::MAX {
                    Err(
                        SaveValidationError::Calculation(CalculationError::Overflow { operation }),
                    )
                } else {
                    Ok(sum)
                }
            },
        }
    }
}

proof fn lemma_path_length_fails(
    lines: Seq<RailLine>,
    ids: Seq<RailLineId>,
    low: int,
    high: int,
    operation: &'static str,
)
    requires
        low <= high,
        path_length(lines, ids, low, operation) is Err,
    ensures
        path_length(lines, ids, high, operation) == path_length(lines, ids, low, operation),
    decreases high - low,
{
    if low < high {
        lemma_path_length_fails(lines, ids, low, high - 1, operation);
    }
}

/// The distance of a whole path, which must fit the saved unit and be positive.
pub open spec fn path_distance(
    lines: Seq<RailLine>,
    ids: Seq<RailLineId>,
    operation: &'static str,
) -> Result<DistanceMetres, SaveValidationError> {
    match path_length(lines, ids, ids.len() as int, operation) {
        Err(error) => Err(error),
        Ok(total) => if total > i64::MAX {
            Err(SaveValidationError::Calculation(CalculationError::Overflow { operation }))
        } else if total <= 0 {
            Err(SaveValidationError::InvalidValue { field: operation })
        } else {
            Ok(DistanceMetres { metres: total as u64 })
        },
    }
}

pub fn measure_path(
    lines: &Vec<RailLine>,
    ids: &Vec<RailLineId>,
    operation: &'static str,
) -> (result: Result<DistanceMetres, SaveValidationError>)
    ensures
        result == path_distance(lines@, ids@, operation),
{
    let mut total: u64 = 0;
    let mut i: usize = 0;
    while i < ids.len()
        invariant
            i <= ids.len(),
            path_length(lines@, ids@, i as int, operation) == Ok::<int, SaveValidationError>(
                total as int,
            ),
        decreases ids.len() - i,
    {
        let position = match find_line(lines, ids[i]) {
            Some(position) => position,
            None => {
                proof {
                    lemma_path_length_fails(lines@, ids@, i + 1, ids@.len() as int, operation);
                }
                return Err(
                    SaveValidationError::DanglingReference { field: "Passenger Service Rail Line" },
                );
            },
        };
        proof {
            assert(lines@[position as int].id == ids@[i as int]);
            lemma_line_index(lines@, ids@[i as int], position as int);
        }
        match total.checked_add(lines[position].distance.metres) {
            Some(sum) => {
                total = sum;
            },
            None => {
                proof {
                    lemma_path_length_fails(lines@, ids@, i + 1, ids@.len() as int, operation);
                }
                return Err(
                    SaveValidationError::Calculation(CalculationError::Overflow { operation }),
                );
            },
        }
        i += 1;
    }
    if total > i64::MAX as u64 {
        return Err(SaveValidationError::Calculation(CalculationError::Overflow { operation }));
    }
    match DistanceMetres::new(total as i64) {
        Ok(distance) => Ok(distance),
        Err(_) => Err(SaveValidationError::InvalidValue { field: operation }),
    }
}

/// The distance of a Service's path, or why its path is not valid.
pub open spec fn service_length(
    service: PassengerService,
    network: RailNetwork,
    facts: SimulationFacts,
) -> Result<DistanceMetres, SaveValidationError> {
    let ids = service.rail_line_ids@;
    if service.stop_station_ids@.len() < 2 || ids.len() == 0 {
        Err(
            SaveValidationError::ImpossibleState {
                reason: "a Passenger Service must have at least two stops and a Rail Line path",
            },
        )
    } else if exists|i: int| 0 <= i < ids.len() && !has_line(network.rail_lines@, #[trigger] ids[i]) {
        Err(SaveValidationError::DanglingReference { field: "Passenger Service Rail Line" })
    } else if facts.path(service.stop_station_ids@) is None {
        Err(
            SaveValidationError::ImpossibleState {
                reason: "Passenger Service stops do not form a simple continuous Rail Line path",
            },
        )
    } else if facts.path(service.stop_station_ids@) != Some(ids) {
        Err(
            SaveValidationError::ImpossibleState {
                reason: "Passenger Service Rail Lines do not match its ordered stops",
            },
        )
    } else {
        path_distance(network.rail_lines@, ids, "Passenger Service path distance")
    }
}

pub fn service_distance(
    service: &PassengerService,
    network: &RailNetwork,
    facts: &SimulationFacts,
) -> (result: Result<DistanceMetres, SaveValidationError>)
    ensures
        result == service_length(*service, *network, *facts),
{
    let ids = &service.rail_line_ids;
    if service.stop_station_ids.len() < 2 || ids.len() == 0 {
        return Err(
            SaveValidationError::ImpossibleState {
                reason: "a Passenger Service must have at least two stops and a Rail Line path",
            },
        );
    }
    let mut i: usize = 0;
    while i < ids.len()
        invariant
            i <= ids.len(),
            ids == service.rail_line_ids,
            service.stop_station_ids@.len() >= 2,
            ids@.len() > 0,
            forall|j: int| 0 <= j < i ==> has_line(network.rail_lines@, #[trigger] ids@[j]),
        decreases ids.len() - i,
    {
        if find_line(&network.rail_lines, ids[i]).is_none() {
            assert(!has_line(network.rail_lines@, ids@[i as int]));
            return Err(
                SaveValidationError::DanglingReference { field: "Passenger Service Rail Line" },
            );
        }
        i += 1;
    }
    let expected = match facts.service_path_for_stops(&service.stop_station_ids) {
        Some(path) => path,
        None => {
            return Err(
                SaveValidationError::ImpossibleState {
                    reason:
                        "Passenger Service stops do not form a simple continuous Rail Line path",
                },
            );
        },
    };
    if !same_lines(expected, ids) {
        return Err(
            SaveValidationError::ImpossibleState {
                reason: "Passenger Service Rail Lines do not match its ordered stops",
            },
        );
    }
    measure_path(&network.rail_lines, ids, "Passenger Service path distance")
}

/// Whether one of the first `count` Services runs under this train number.
pub open spec fn number_taken(services: Seq<PassengerService>, count: int, number: u32) -> bool {
    exists|j: int|
        0 <= j < count && ((#[trigger] services[j]).forward_train_number == number
            || services[j].reverse_train_number == Some(number))
}

fn is_number_taken(services: &Vec<PassengerService>, count: usize, number: u32) -> (result: bool)
    requires
        count <= services@.len(),
    ensures
        result == number_taken(services@, count as int, number),
{
    let mut j: usize = 0;
    while j < count
        invariant
            j <= count <= services@.len(),
            forall|k: int|
                0 <= k < j ==> (#[trigger] services@[k]).forward_train_number != number
                    && services@[k].reverse_train_number != Some(number),
        decreases count - j,
    {
        let reverse = match services[j].reverse_train_number {
            Some(reverse) => reverse == number,
            None => false,
        };
        if services[j].forward_train_number == number || reverse {
            assert(services@[j as int].forward_train_number == number
                || services@[j as int].reverse_train_number == Some(number));
            return true;
        }
        j += 1;
    }
    false
}

/// Whether a Service's reverse train number fits its direction mode.
pub open spec fn reverse_number_fits(services: Seq<PassengerService>, index: int) -> bool {
    let service = services[index];
    match (service.direction_mode, service.reverse_train_number) {
        (ServiceDirectionMode::BothDirections, Some(reverse)) => reverse >= 100 && !number_taken(
            services,
            index,
            reverse,
        ) && reverse != service.forward_train_number,
        (ServiceDirectionMode::ForwardOnly, None) => true,
        _ => false,
    }
}

/// A commercial name: not blank, trimmed, at most thirty-two characters, none of them control.
pub open spec fn commercial_name(name: Seq<char>) -> bool {
    &&& trimmed(name).len() > 0
    &&& trimmed(name) == name
    &&& name.len() <= 32
    &&& forall|i: int| 0 <= i < name.len() ==> !control(#[trigger] name[i])
}

fn is_commercial_name(name: &str) -> (result: bool)
    ensures
        result == commercial_name(name@),
{
    let trimmed_name = trim(name);
    if trimmed_name.as_str().unicode_len() == 0 || !crate::text::same_text(
        trimmed_name.as_str(),
        name,
    ) || name.unicode_len() > PassengerService::MAX_CUSTOM_NAME_CHARACTERS {
        return false;
    }
    let controls = has_control(name);
    assert(controls == !(forall|i: int| 0 <= i < name@.len() ==> !control(#[trigger] name@[i])));
    !controls
}

/// What is wrong with one Passenger Service.
pub open spec fn service_fault(
    services: Seq<PassengerService>,
    index: int,
    network: RailNetwork,
    facts: SimulationFacts,
) -> Option<SaveValidationError> {
    let service = services[index];
    if service.forward_train_number < 100 || number_taken(
        services,
        index,
        service.forward_train_number,
    ) {
        invalid_value("Passenger Service train number")
    } else if !reverse_number_fits(services, index) {
        invalid_value("Passenger Service reverse train number")
    } else if trimmed(service.name@).len() == 0 {
        invalid_value("Passenger Service name")
    } else if service.custom_name is Some && !commercial_name(service.custom_name->0@) {
        invalid_value("Passenger Service commercial name")
    } else if exists|i: int|
        0 <= i < service.stop_station_ids@.len() && !has_station(
            network.rail_stations@,
            #[trigger] service.stop_station_ids@[i],
        ) {
        dangling("Passenger Service stop")
    } else {
        match service_length(service, network, facts) {
            Ok(_) => None,
            Err(error) => Some(error),
        }
    }
}

fn validate_service(
    services: &Vec<PassengerService>,
    index: usize,
    network: &RailNetwork,
    facts: &SimulationFacts,
) -> (result: Result<(), SaveValidationError>)
    requires
        index < services@.len(),
    ensures
        result == outcome(service_fault(services@, index as int, *network, *facts)),
{
    let service = &services[index];
    if service.forward_train_number < 100 || is_number_taken(
        services,
        index,
        service.forward_train_number,
    ) {
        return Err(SaveValidationError::InvalidValue { field: "Passenger Service train number" });
    }
    let fits = match (service.direction_mode, service.reverse_train_number) {
        (ServiceDirectionMode::BothDirections, Some(reverse)) => reverse >= 100
            && !is_number_taken(services, index, reverse) && reverse
            != service.forward_train_number,
        (ServiceDirectionMode::ForwardOnly, None) => true,
        _ => false,
    };
    if !fits {
        return Err(
            SaveValidationError::InvalidValue { field: "Passenger Service reverse train number" },
        );
    }
    if is_blank(service.name.as_str()) {
        return Err(SaveValidationError::InvalidValue { field: "Passenger Service name" });
    }
    if let Some(custom_name) = &service.custom_name {
        if !is_commercial_name(custom_name.as_str()) {
            return Err(
                SaveValidationError::InvalidValue { field: "Passenger Service commercial name" },
            );
        }
    }
    let mut i: usize = 0;
    while i < service.stop_station_ids.len()
        invariant
            i <= service.stop_station_ids@.len(),
            service == services@[index as int],
            index < services@.len(),
            service.forward_train_number >= 100,
            !number_taken(services@, index as int, service.forward_train_number),
            reverse_number_fits(services@, index as int),
            trimmed(service.name@).len() > 0,
            service.custom_name is Some ==> commercial_name(service.custom_name->0@),
            forall|j: int|
                0 <= j < i ==> has_station(
                    network.rail_stations@,
                    #[trigger] service.stop_station_ids@[j],
                ),
        decreases service.stop_station_ids.len() - i,
    {
        if find_station(&network.rail_stations, service.stop_station_ids[i]).is_none() {
            assert(!has_station(network.rail_stations@, service.stop_station_ids@[i as int]));
            return Err(SaveValidationError::DanglingReference { field: "Passenger Service stop" });
        }
        i += 1;
    }
    match service_distance(service, network, facts) {
        Ok(_) => Ok(()),
        Err(error) => Err(error),
    }
}

/// The first fault among the first `count` Passenger Services.
pub open spec fn services_fault(
    services: Seq<PassengerService>,
    network: RailNetwork,
    facts: SimulationFacts,
    count: int,
) -> Option<SaveValidationError>
    decreases count,
{
    if count <= 0 {
        None
    } else if services_fault(services, network, facts, count - 1) is Some {
        services_fault(services, network, facts, count - 1)
    } else {
        service_fault(services, count - 1, network, facts)
    }
}

proof fn lemma_services_fault(
    services: Seq<PassengerService>,
    network: RailNetwork,
    facts: SimulationFacts,
    low: int,
    high: int,
)
    requires
        low <= high,
        services_fault(services, network, facts, low) is Some,
    ensures
        services_fault(services, network, facts, high) == services_fault(
            services,
            network,
            facts,
            low,
        ),
    decreases high - low,
{
    if low < high {
        lemma_services_fault(services, network, facts, low, high - 1);
    }
}

pub proof fn lemma_no_service_fault(
    services: Seq<PassengerService>,
    network: RailNetwork,
    facts: SimulationFacts,
    count: int,
    i: int,
)
    requires
        0 <= i < count,
        services_fault(services, network, facts, count) is None,
    ensures
        service_fault(services, i, network, facts) is None,
    decreases count,
{
    if i < count - 1 {
        lemma_no_service_fault(services, network, facts, count - 1, i);
    }
}

pub fn validate_services(
    services: &Vec<PassengerService>,
    network: &RailNetwork,
    facts: &SimulationFacts,
) -> (result: Result<(), SaveValidationError>)
    ensures
        result == outcome(services_fault(services@, *network, *facts, services@.len() as int)),
{
    let mut i: usize = 0;
    while i < services.len()
        invariant
            i <= services@.len(),
            services_fault(services@, *network, *facts, i as int) is None,
        decreases services.len() - i,
    {
        match validate_service(services, i, network, facts) {
            Ok(()) => {},
            Err(error) => {
                proof {
                    lemma_services_fault(
                        services@,
                        *network,
                        *facts,
                        i + 1,
                        services@.len() as int,
                    );
                }
                return Err(error);
            },
        }
        i += 1;
    }
    Ok(())
}

/// What is wrong with one direction of Passenger Demand.
pub open spec fn pool_fault(
    demand: Seq<OriginDestinationDemand>,
    index: int,
    stations: Seq<RailStation>,
    facts: SimulationFacts,
) -> Option<SaveValidationError> {
    let pool = demand[index];
    let cap = facts.waiting_cap(pool.origin_station_id, pool.destination_station_id);
    if !has_station(stations, pool.origin_station_id) || !has_station(
        stations,
        pool.destination_station_id,
    ) {
        dangling("origin-destination demand")
    } else if pool.origin_station_id == pool.destination_station_id {
        impossible("origin-destination demand has identical endpoints")
    } else if exists|j: int|
        0 <= j < index && (#[trigger] demand[j]).origin_station_id == pool.origin_station_id
            && demand[j].destination_station_id == pool.destination_station_id {
        impossible("duplicate directional Passenger Demand pool")
    } else if pool.waiting_passengers > cap {
        invalid_value("Waiting Passengers above demand cap")
    } else if (pool.waiting_passengers == cap && pool.fractional_passenger_seconds != 0) || (
    pool.waiting_passengers < cap && pool.fractional_passenger_seconds >= 3_600) {
        invalid_value("fractional Passenger Demand remainder")
    } else {
        None
    }
}

fn validate_pool(
    demand: &Vec<OriginDestinationDemand>,
    index: usize,
    stations: &Vec<RailStation>,
    facts: &SimulationFacts,
) -> (result: Result<(), SaveValidationError>)
    requires
        index < demand@.len(),
    ensures
        result == outcome(pool_fault(demand@, index as int, stations@, *facts)),
{
    let pool = demand[index];
    if find_station(stations, pool.origin_station_id).is_none() || find_station(
        stations,
        pool.destination_station_id,
    ).is_none() {
        return Err(SaveValidationError::DanglingReference { field: "origin-destination demand" });
    }
    if pool.origin_station_id == pool.destination_station_id {
        return Err(
            SaveValidationError::ImpossibleState {
                reason: "origin-destination demand has identical endpoints",
            },
        );
    }
    let mut j: usize = 0;
    while j < index
        invariant
            j <= index < demand@.len(),
            pool == demand@[index as int],
            has_station(stations@, pool.origin_station_id),
            has_station(stations@, pool.destination_station_id),
            pool.origin_station_id != pool.destination_station_id,
            forall|k: int|
                0 <= k < j ==> (#[trigger] demand@[k]).origin_station_id != pool.origin_station_id
                    || demand@[k].destination_station_id != pool.destination_station_id,
        decreases index - j,
    {
        if demand[j].origin_station_id == pool.origin_station_id
            && demand[j].destination_station_id == pool.destination_station_id {
            assert(demand@[j as int].origin_station_id == pool.origin_station_id);
            return Err(
                SaveValidationError::ImpossibleState {
                    reason: "duplicate directional Passenger Demand pool",
                },
            );
        }
        j += 1;
    }
    let cap: u32 = facts.waiting_passenger_cap(pool.origin_station_id, pool.destination_station_id);
    if pool.waiting_passengers > cap {
        return Err(
            SaveValidationError::InvalidValue { field: "Waiting Passengers above demand cap" },
        );
    }
    if (pool.waiting_passengers == cap && pool.fractional_passenger_seconds != 0) || (
    pool.waiting_passengers < cap && pool.fractional_passenger_seconds >= 3_600) {
        return Err(
            SaveValidationError::InvalidValue { field: "fractional Passenger Demand remainder" },
        );
    }
    Ok(())
}

/// The first fault among the first `count` directions of demand.
pub open spec fn demand_fault(
    demand: Seq<OriginDestinationDemand>,
    stations: Seq<RailStation>,
    facts: SimulationFacts,
    count: int,
) -> Option<SaveValidationError>
    decreases count,
{
    if count <= 0 {
        None
    } else if demand_fault(demand, stations, facts, count - 1) is Some {
        demand_fault(demand, stations, facts, count - 1)
    } else {
        pool_fault(demand, count - 1, stations, facts)
    }
}

proof fn lemma_demand_fault(
    demand: Seq<OriginDestinationDemand>,
    stations: Seq<RailStation>,
    facts: SimulationFacts,
    low: int,
    high: int,
)
    requires
        low <= high,
        demand_fault(demand, stations, facts, low) is Some,
    ensures
        demand_fault(demand, stations, facts, high) == demand_fault(demand, stations, facts, low),
    decreases high - low,
{
    if low < high {
        lemma_demand_fault(demand, stations, facts, low, high - 1);
    }
}

pub fn validate_demand(
    demand: &Vec<OriginDestinationDemand>,
    stations: &Vec<RailStation>,
    facts: &SimulationFacts,
) -> (result: Result<(), SaveValidationError>)
    ensures
        result == outcome(demand_fault(demand@, stations@, *facts, demand@.len() as int)),
{
    let mut i: usize = 0;
    while i < demand.len()
        invariant
            i <= demand@.len(),
            demand_fault(demand@, stations@, *facts, i as int) is None,
        decreases demand.len() - i,
    {
        match validate_pool(demand, i, stations, facts) {
            Ok(()) => {},
            Err(error) => {
                proof {
                    lemma_demand_fault(demand@, stations@, *facts, i + 1, demand@.len() as int);
                }
                return Err(error);
            },
        }
        i += 1;
    }
    Ok(())
}

/// A receipt with none of its operating context.
pub open spec fn without_context(receipt: JourneyReceipt) -> bool {
    &&& receipt.train_id is None
    &&& receipt.train_model_name is None
    &&& receipt.origin_station_id is None
    &&& receipt.destination_station_id is None
    &&& receipt.passengers_carried is None
    &&& receipt.passenger_capacity is None
    &&& receipt.completed_at is None
}

/// A receipt with all of its operating context, in order.
pub open spec fn with_context(receipt: JourneyReceipt, stations: Seq<RailStation>) -> bool {
    &&& receipt.train_id is Some
    &&& receipt.train_model_name is Some
    &&& receipt.origin_station_id is Some
    &&& receipt.destination_station_id is Some
    &&& receipt.passengers_carried is Some
    &&& receipt.passenger_capacity is Some
    &&& receipt.completed_at is Some
    &&& is_version_four(receipt.train_id->0.value)
    &&& trimmed(receipt.train_model_name->0@).len() > 0
    &&& receipt.origin_station_id->0 != receipt.destination_station_id->0
    &&& has_station(stations, receipt.origin_station_id->0)
    &&& has_station(stations, receipt.destination_station_id->0)
    &&& receipt.passenger_capacity->0 != 0
}

/// What is wrong with one receipt.
pub open spec fn receipt_fault(
    receipts: Seq<JourneyReceipt>,
    index: int,
    stations: Seq<RailStation>,
) -> Option<SaveValidationError> {
    let receipt = receipts[index];
    let costs = money_sum(
        receipt.infrastructure_access_fee.cents as int,
        receipt.fuel_cost.cents as int,
    );
    if !is_version_four(receipt.journey_id.value) || exists|j: int|
        0 <= j < index && (#[trigger] receipts[j]).journey_id == receipt.journey_id {
        invalid_value("Journey receipt ID")
    } else if receipt.revenue.cents < 0 || receipt.infrastructure_access_fee.cents < 0
        || receipt.fuel_cost.cents < 0 {
        invalid_value("Journey receipt amount")
    } else if costs is Err {
        Some(SaveValidationError::Calculation(costs->Err_0))
    } else if !without_context(receipt) && !with_context(receipt, stations) {
        invalid_value("Journey receipt operating context")
    } else {
        None
    }
}

fn receipt_context_holds(receipt: &JourneyReceipt, stations: &Vec<RailStation>) -> (result: bool)
    ensures
        result == (without_context(*receipt) || with_context(*receipt, stations@)),
{
    if receipt.train_id.is_none() && receipt.train_model_name.is_none()
        && receipt.origin_station_id.is_none() && receipt.destination_station_id.is_none()
        && receipt.passengers_carried.is_none() && receipt.passenger_capacity.is_none()
        && receipt.completed_at.is_none() {
        return true;
    }
    if receipt.passengers_carried.is_none() || receipt.completed_at.is_none() {
        return false;
    }
    match (
        receipt.train_id,
        &receipt.train_model_name,
        receipt.origin_station_id,
        receipt.destination_station_id,
        receipt.passenger_capacity,
    ) {
        (
            Some(train_id),
            Some(train_model_name),
            Some(origin),
            Some(destination),
            Some(capacity),
        ) => train_id.is_v4() && !is_blank(train_model_name.as_str()) && origin != destination
            && find_station(stations, origin).is_some() && find_station(
            stations,
            destination,
        ).is_some() && capacity != 0,
        _ => false,
    }
}

fn validate_receipt(
    receipts: &Vec<JourneyReceipt>,
    index: usize,
    stations: &Vec<RailStation>,
) -> (result: Result<(), SaveValidationError>)
    requires
        index < receipts@.len(),
    ensures
        result == outcome(receipt_fault(receipts@, index as int, stations@)),
{
    let receipt = &receipts[index];
    if !receipt.journey_id.is_v4() {
        return Err(SaveValidationError::InvalidValue { field: "Journey receipt ID" });
    }
    let mut j: usize = 0;
    while j < index
        invariant
            j <= index < receipts@.len(),
            receipt == receipts@[index as int],
            is_version_four(receipt.journey_id.value),
            forall|k: int| 0 <= k < j ==> (#[trigger] receipts@[k]).journey_id != receipt.journey_id,
        decreases index - j,
    {
        if receipts[j].journey_id == receipt.journey_id {
            assert(receipts@[j as int].journey_id == receipt.journey_id);
            return Err(SaveValidationError::InvalidValue { field: "Journey receipt ID" });
        }
        j += 1;
    }
    if receipt.revenue.cents < 0 || receipt.infrastructure_access_fee.cents < 0
        || receipt.fuel_cost.cents < 0 {
        return Err(SaveValidationError::InvalidValue { field: "Journey receipt amount" });
    }
    match receipt.infrastructure_access_fee.checked_add(receipt.fuel_cost) {
        Ok(_) => {},
        Err(error) => return Err(SaveValidationError::Calculation(error)),
    }
    if !receipt_context_holds(receipt, stations) {
        return Err(
            SaveValidationError::InvalidValue { field: "Journey receipt operating context" },
        );
    }
    Ok(())
}

/// The first fault among the first `count` receipts.
pub open spec fn receipts_fault(
    receipts: Seq<JourneyReceipt>,
    stations: Seq<RailStation>,
    count: int,
) -> Option<SaveValidationError>
    decreases count,
{
    if count <= 0 {
        None
    } else if receipts_fault(receipts, stations, count - 1) is Some {
        receipts_fault(receipts, stations, count - 1)
    } else {
        receipt_fault(receipts, count - 1, stations)
    }
}

proof fn lemma_receipts_fault(
    receipts: Seq<JourneyReceipt>,
    stations: Seq<RailStation>,
    low: int,
    high: int,
)
    requires
        low <= high,
        receipts_fault(receipts, stations, low) is Some,
    ensures
        receipts_fault(receipts, stations, high) == receipts_fault(receipts, stations, low),
    decreases high - low,
{
    if low < high {
        lemma_receipts_fault(receipts, stations, low, high - 1);
    }
}

/// What is wrong with the Company's accounts.
pub open spec fn financials_fault(
    company: PlayerCompany,
    financials: Financials,
    stations: Seq<RailStation>,
) -> Option<SaveValidationError> {
    let receipts = financials.recent_journey_receipts@;
    if company.funds.cents < 0 || financials.operating_revenue.cents < 0
        || financials.infrastructure_access_fees.cents < 0 || financials.fuel_costs.cents < 0 {
        invalid_value("Company Funds or financial total")
    } else {
        receipts_fault(receipts, stations, receipts.len() as int)
    }
}

pub fn validate_financials(
    company: &PlayerCompany,
    financials: &Financials,
    stations: &Vec<RailStation>,
) -> (result: Result<(), SaveValidationError>)
    ensures
        result == outcome(financials_fault(*company, *financials, stations@)),
{
    if company.funds.cents < 0 || financials.operating_revenue.cents < 0
        || financials.infrastructure_access_fees.cents < 0 || financials.fuel_costs.cents < 0 {
        return Err(SaveValidationError::InvalidValue { field: "Company Funds or financial total" });
    }
    let receipts = &financials.recent_journey_receipts;
    let mut i: usize = 0;
    while i < receipts.len()
        invariant
            i <= receipts@.len(),
            receipts == financials.recent_journey_receipts,
            !(company.funds.cents < 0 || financials.operating_revenue.cents < 0
                || financials.infrastructure_access_fees.cents < 0 || financials.fuel_costs.cents
                < 0),
            receipts_fault(receipts@, stations@, i as int) is None,
        decreases receipts.len() - i,
    {
        match validate_receipt(receipts, i, stations) {
            Ok(()) => {},
            Err(error) => {
                proof {
                    lemma_receipts_fault(receipts@, stations@, i + 1, receipts@.len() as int);
                }
                return Err(error);
            },
        }
        i += 1;
    }
    Ok(())
}

} // verus!
