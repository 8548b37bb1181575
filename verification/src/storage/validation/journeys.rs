//! Checks of the Fleet, its assignments and the Journeys under way.

use vstd::prelude::*;

use super::fault::{dangling, impossible, invalid_value, outcome, SaveValidationError};
use super::services::{measure_path, path_distance, service_distance, service_length};
use crate::model::company::{
    find_journey, find_service, find_train, has_journey, has_service, has_train, the_journey,
    the_service, the_train, Fleet, Journey, JourneyPassengerGroup, JourneyPurpose,
    ModelUnitSequence, OriginDestinationDemand, PassengerService, ServiceAssignment, Train,
    TrainStatus,
};
use crate::model::facts::SimulationFacts;
use crate::model::identity::{
    is_vehicle_number, vehicle_registration, vehicle_series, vehicle_type, vehicle_unit,
    EuropeanVehicleNumber,
};
use crate::model::ids::{display_number, RailStationId};
use crate::model::network::{find_station, has_station, RailNetwork, RailStation};
use crate::model::state::GameState;
use crate::model::units::{charge, money_product, money_sum, CalculationError, DistanceMetres, Money};
use crate::text::{is_blank, same_text, trimmed};

verus! {

pub open spec fn train_values(trains: Seq<Train>) -> Seq<u128> {
    Seq::new(trains.len(), |i: int| trains[i].id.value)
}

pub open spec fn service_values(services: Seq<PassengerService>) -> Seq<u128> {
    Seq::new(services.len(), |i: int| services[i].id.value)
}

pub open spec fn journey_values(journeys: Seq<Journey>) -> Seq<u128> {
    Seq::new(journeys.len(), |i: int| journeys[i].id.value)
}

pub fn collect_train_values(trains: &Vec<Train>) -> (result: Vec<u128>)
    ensures
        result@ == train_values(trains@),
{
    let mut result: Vec<u128> = Vec::new();
    let mut i: usize = 0;
    while i < trains.len()
        invariant
            i <= trains.len(),
            result@.len() == i,
            forall|j: int| 0 <= j < i ==> #[trigger] result@[j] == trains@[j].id.value,
        decreases trains.len() - i,
    {
        result.push(trains[i].id.value);
        i += 1;
    }
    assert(result@ =~= train_values(trains@));
    result
}

pub fn collect_service_values(services: &Vec<PassengerService>) -> (result: Vec<u128>)
    ensures
        result@ == service_values(services@),
{
    let mut result: Vec<u128> = Vec::new();
    let mut i: usize = 0;
    while i < services.len()
        invariant
            i <= services.len(),
            result@.len() == i,
            forall|j: int| 0 <= j < i ==> #[trigger] result@[j] == services@[j].id.value,
        decreases services.len() - i,
    {
        result.push(services[i].id.value);
        i += 1;
    }
    assert(result@ =~= service_values(services@));
    result
}

pub fn collect_journey_values(journeys: &Vec<Journey>) -> (result: Vec<u128>)
    ensures
        result@ == journey_values(journeys@),
{
    let mut result: Vec<u128> = Vec::new();
    let mut i: usize = 0;
    while i < journeys.len()
        invariant
            i <= journeys.len(),
            result@.len() == i,
            forall|j: int| 0 <= j < i ==> #[trigger] result@[j] == journeys@[j].id.value,
        decreases journeys.len() - i,
    {
        result.push(journeys[i].id.value);
        i += 1;
    }
    assert(result@ =~= journey_values(journeys@));
    result
}

/// Whether the next display number lies above every Train's number.
pub open spec fn display_number_free(fleet: Fleet) -> bool {
    &&& fleet.next_train_display_number > 0
    &&& forall|i: int|
        0 <= i < fleet.trains@.len() ==> display_number((#[trigger] fleet.trains@[i]).id.value)
            < fleet.next_train_display_number
}

/// Whether a model's unit sequence is listed.
pub open spec fn sequenced(sequences: Seq<ModelUnitSequence>, model: Seq<char>) -> bool {
    exists|i: int| 0 <= i < sequences.len() && (#[trigger] sequences[i]).model_id.name@ == model
}

pub open spec fn is_sequence_at(
    sequences: Seq<ModelUnitSequence>,
    i: int,
    model: Seq<char>,
) -> bool {
    &&& 0 <= i < sequences.len()
    &&& sequences[i].model_id.name@ == model
    &&& forall|j: int| 0 <= j < i ==> (#[trigger] sequences[j]).model_id.name@ != model
}

/// The next unit number of a model whose sequence is listed.
pub open spec fn next_unit(sequences: Seq<ModelUnitSequence>, model: Seq<char>) -> u16 {
    sequences[choose|i: int| is_sequence_at(sequences, i, model)].next_unit_number
}

pub fn find_next_unit(sequences: &Vec<ModelUnitSequence>, model: &str) -> (result: Option<u16>)
    ensures
        match result {
            Some(next) => sequenced(sequences@, model@) && next == next_unit(sequences@, model@),
            None => !sequenced(sequences@, model@),
        },
{
    let mut i: usize = 0;
    while i < sequences.len()
        invariant
            i <= sequences.len(),
            forall|j: int| 0 <= j < i ==> (#[trigger] sequences@[j]).model_id.name@ != model@,
        decreases sequences.len() - i,
    {
        if same_text(sequences[i].model_id.as_str(), model) {
            proof {
                assert(is_sequence_at(sequences@, i as int, model@));
                let c = choose|c: int| is_sequence_at(sequences@, c, model@);
                if c < i {
                    assert(sequences@[c].model_id.name@ != model@);
                }
                if i < c {
                    assert(sequences@[i as int].model_id.name@ != model@);
                }
            }
            return Some(sequences[i].next_unit_number);
        }
        i += 1;
    }
    None
}

/// Whether some unit sequence is of no catalogue model or out of range.
pub open spec fn bad_sequence(sequences: Seq<ModelUnitSequence>, facts: SimulationFacts) -> bool {
    exists|i: int|
        0 <= i < sequences.len() && (!facts.catalogue.lists(
            (#[trigger] sequences[i]).model_id.name@,
        ) || sequences[i].next_unit_number == 0 || sequences[i].next_unit_number > 1000)
}

/// What is wrong with one Train's unit number.
pub open spec fn unit_fault(train: Train, sequences: Seq<ModelUnitSequence>) -> Option<
    SaveValidationError,
> {
    if !sequenced(sequences, train.model_id.name@) {
        invalid_value("next EVN unit number")
    } else if !is_vehicle_number(train.evn.digits@) {
        invalid_value("European Vehicle Number")
    } else if vehicle_unit(train.evn.digits@) >= next_unit(sequences, train.model_id.name@) {
        impossible("Train EVN unit number has not been consumed by its model sequence")
    } else {
        None
    }
}

/// The first fault among the unit numbers of the first `count` Trains.
pub open spec fn units_fault(
    trains: Seq<Train>,
    sequences: Seq<ModelUnitSequence>,
    count: int,
) -> Option<SaveValidationError>
    decreases count,
{
    if count <= 0 {
        None
    } else if units_fault(trains, sequences, count - 1) is Some {
        units_fault(trains, sequences, count - 1)
    } else {
        unit_fault(trains[count - 1], sequences)
    }
}

proof fn lemma_units_fault(
    trains: Seq<Train>,
    sequences: Seq<ModelUnitSequence>,
    low: int,
    high: int,
)
    requires
        low <= high,
        units_fault(trains, sequences, low) is Some,
    ensures
        units_fault(trains, sequences, high) == units_fault(trains, sequences, low),
    decreases high - low,
{
    if low < high {
        lemma_units_fault(trains, sequences, low, high - 1);
    }
}

/// What is wrong with the Fleet's number sequences.
pub open spec fn sequences_fault(fleet: Fleet, facts: SimulationFacts) -> Option<
    SaveValidationError,
> {
    if !display_number_free(fleet) {
        invalid_value("next Train display number")
    } else if bad_sequence(fleet.next_evn_unit_by_model@, facts) {
        invalid_value("next EVN unit number")
    } else {
        units_fault(fleet.trains@, fleet.next_evn_unit_by_model@, fleet.trains@.len() as int)
    }
}

pub fn validate_sequences(fleet: &Fleet, facts: &SimulationFacts) -> (result: Result<
    (),
    SaveValidationError,
>)
    ensures
        result == outcome(sequences_fault(*fleet, *facts)),
{
    if fleet.next_train_display_number == 0 {
        return Err(SaveValidationError::InvalidValue { field: "next Train display number" });
    }
    let mut i: usize = 0;
    while i < fleet.trains.len()
        invariant
            i <= fleet.trains@.len(),
            fleet.next_train_display_number > 0,
            forall|j: int|
                0 <= j < i ==> display_number((#[trigger] fleet.trains@[j]).id.value)
                    < fleet.next_train_display_number,
        decreases fleet.trains.len() - i,
    {
        if fleet.trains[i].id.get() >= fleet.next_train_display_number {
            assert(display_number(fleet.trains@[i as int].id.value)
                >= fleet.next_train_display_number);
            return Err(SaveValidationError::InvalidValue { field: "next Train display number" });
        }
        i += 1;
    }
    let sequences = &fleet.next_evn_unit_by_model;
    let mut i: usize = 0;
    while i < sequences.len()
        invariant
            i <= sequences@.len(),
            sequences == fleet.next_evn_unit_by_model,
            display_number_free(*fleet),
            forall|j: int|
                0 <= j < i ==> facts.catalogue.lists((#[trigger] sequences@[j]).model_id.name@)
                    && sequences@[j].next_unit_number != 0 && sequences@[j].next_unit_number
                    <= 1000,
        decreases sequences.len() - i,
    {
        let next: u16 = sequences[i].next_unit_number;
        if facts.catalogue.by_id(&sequences[i].model_id).is_none() || next == 0 || next
            > EuropeanVehicleNumber::MAX_UNIT_NUMBER + 1 {
            assert(!facts.catalogue.lists(sequences@[i as int].model_id.name@)
                || sequences@[i as int].next_unit_number == 0
                || sequences@[i as int].next_unit_number > 1000);
            return Err(SaveValidationError::InvalidValue { field: "next EVN unit number" });
        }
        i += 1;
    }
    let mut i: usize = 0;
    while i < fleet.trains.len()
        invariant
            i <= fleet.trains@.len(),
            sequences == fleet.next_evn_unit_by_model,
            display_number_free(*fleet),
            !bad_sequence(sequences@, *facts),
            units_fault(fleet.trains@, sequences@, i as int) is None,
        decreases fleet.trains.len() - i,
    {
        let train = &fleet.trains[i];
        let next: u16 = match find_next_unit(sequences, train.model_id.as_str()) {
            Some(next) => next,
            None => {
                proof {
                    lemma_units_fault(
                        fleet.trains@,
                        sequences@,
                        i + 1,
                        fleet.trains@.len() as int,
                    );
                }
                return Err(SaveValidationError::InvalidValue { field: "next EVN unit number" });
            },
        };
        if EuropeanVehicleNumber::parse(train.evn.as_str()).is_err() {
            proof {
                lemma_units_fault(fleet.trains@, sequences@, i + 1, fleet.trains@.len() as int);
            }
            return Err(SaveValidationError::InvalidValue { field: "European Vehicle Number" });
        }
        if train.evn.unit_number() >= next {
            proof {
                lemma_units_fault(fleet.trains@, sequences@, i + 1, fleet.trains@.len() as int);
            }
            return Err(
                SaveValidationError::ImpossibleState {
                    reason: "Train EVN unit number has not been consumed by its model sequence",
                },
            );
        }
        i += 1;
    }
    Ok(())
}

/// What is wrong with one assignment of a Train to a Passenger Service.
pub open spec fn assignment_fault(
    assignment: ServiceAssignment,
    trains: Seq<Train>,
    services: Seq<PassengerService>,
    journeys: Seq<Journey>,
) -> Option<SaveValidationError> {
    if !has_train(trains, assignment.train_id) {
        dangling("Train Passenger Service assignment Train")
    } else if !has_service(services, assignment.service_id) {
        dangling("Train Passenger Service assignment Service")
    } else {
        match the_train(trains, assignment.train_id).status {
            TrainStatus::Travelling { journey_id } => if has_journey(journeys, journey_id)
                && the_journey(journeys, journey_id).service_id != assignment.service_id {
                impossible(
                    "a travelling Train is assigned to a different Passenger Service than its Journey",
                )
            } else {
                None
            },
            _ => None,
        }
    }
}

fn validate_assignment(
    assignment: ServiceAssignment,
    trains: &Vec<Train>,
    services: &Vec<PassengerService>,
    journeys: &Vec<Journey>,
) -> (result: Result<(), SaveValidationError>)
    ensures
        result == outcome(assignment_fault(assignment, trains@, services@, journeys@)),
{
    let train = match find_train(trains, assignment.train_id) {
        Some(train) => train,
        None => {
            return Err(
                SaveValidationError::DanglingReference {
                    field: "Train Passenger Service assignment Train",
                },
            );
        },
    };
    if find_service(services, assignment.service_id).is_none() {
        return Err(
            SaveValidationError::DanglingReference {
                field: "Train Passenger Service assignment Service",
            },
        );
    }
    if let TrainStatus::Travelling { journey_id } = train.status {
        if let Some(journey) = find_journey(journeys, journey_id) {
            if journey.service_id != assignment.service_id {
                return Err(
                    SaveValidationError::ImpossibleState {
                        reason:
                            "a travelling Train is assigned to a different Passenger Service than its Journey",
                    },
                );
            }
        }
    }
    Ok(())
}

/// The first fault among the first `count` assignments.
pub open spec fn assignments_fault(
    assignments: Seq<ServiceAssignment>,
    trains: Seq<Train>,
    services: Seq<PassengerService>,
    journeys: Seq<Journey>,
    count: int,
) -> Option<SaveValidationError>
    decreases count,
{
    if count <= 0 {
        None
    } else if assignments_fault(assignments, trains, services, journeys, count - 1) is Some {
        assignments_fault(assignments, trains, services, journeys, count - 1)
    } else {
        assignment_fault(assignments[count - 1], trains, services, journeys)
    }
}

proof fn lemma_assignments_fault(
    assignments: Seq<ServiceAssignment>,
    trains: Seq<Train>,
    services: Seq<PassengerService>,
    journeys: Seq<Journey>,
    low: int,
    high: int,
)
    requires
        low <= high,
        assignments_fault(assignments, trains, services, journeys, low) is Some,
    ensures
        assignments_fault(assignments, trains, services, journeys, high) == assignments_fault(
            assignments,
            trains,
            services,
            journeys,
            low,
        ),
    decreases high - low,
{
    if low < high {
        lemma_assignments_fault(assignments, trains, services, journeys, low, high - 1);
    }
}

pub fn validate_service_assignments(
    assignments: &Vec<ServiceAssignment>,
    trains: &Vec<Train>,
    services: &Vec<PassengerService>,
    journeys: &Vec<Journey>,
) -> (result: Result<(), SaveValidationError>)
    ensures
        result == outcome(
            assignments_fault(
                assignments@,
                trains@,
                services@,
                journeys@,
                assignments@.len() as int,
            ),
        ),
{
    let mut i: usize = 0;
    while i < assignments.len()
        invariant
            i <= assignments@.len(),
            assignments_fault(assignments@, trains@, services@, journeys@, i as int) is None,
        decreases assignments.len() - i,
    {
        match validate_assignment(assignments[i], trains, services, journeys) {
            Ok(()) => {},
            Err(error) => {
                proof {
                    lemma_assignments_fault(
                        assignments@,
                        trains@,
                        services@,
                        journeys@,
                        i + 1,
                        assignments@.len() as int,
                    );
                }
                return Err(error);
            },
        }
        i += 1;
    }
    Ok(())
}

/// Whether an earlier Train carries the same vehicle number.
pub open spec fn number_repeated(trains: Seq<Train>, index: int) -> bool {
    exists|j: int|
        0 <= j < index && (#[trigger] trains[j]).evn.digits@ == trains[index].evn.digits@
}

/// Whether an earlier Train has the same status.
pub open spec fn status_repeated(trains: Seq<Train>, index: int) -> bool {
    exists|j: int| 0 <= j < index && (#[trigger] trains[j]).status == trains[index].status
}

/// What is wrong with one Train.
pub open spec fn train_fault(
    trains: Seq<Train>,
    index: int,
    registration_code: u8,
    stations: Seq<RailStation>,
    journeys: Seq<Journey>,
    facts: SimulationFacts,
) -> Option<SaveValidationError> {
    let train = trains[index];
    let digits = train.evn.digits@;
    let model = facts.catalogue.model(train.model_id.name@);
    if !facts.catalogue.lists(train.model_id.name@) || trimmed(train.model_id.name@).len() == 0
        || train.original_purchase_price.cents <= 0 {
        invalid_value("Train catalogue model reference")
    } else if !is_vehicle_number(digits) {
        invalid_value("European Vehicle Number")
    } else if number_repeated(trains, index) {
        Some(SaveValidationError::DuplicateId { kind: "European Vehicle Number" })
    } else if vehicle_type(digits) != model.evn_type_code || vehicle_registration(digits)
        != registration_code || vehicle_series(digits) != model.evn_series_code {
        impossible("Train European Vehicle Number does not match its model and Region")
    } else {
        match train.status {
            TrainStatus::Ready { at } => if !has_station(stations, at) {
                dangling("READY Train location")
            } else {
                None
            },
            TrainStatus::Travelling { journey_id } => if !has_journey(journeys, journey_id) {
                dangling("travelling Train Journey")
            } else if status_repeated(trains, index) {
                impossible("more than one Train is travelling on one Journey")
            } else {
                None
            },
        }
    }
}

fn is_number_repeated(trains: &Vec<Train>, index: usize) -> (result: bool)
    requires
        index < trains@.len(),
    ensures
        result == number_repeated(trains@, index as int),
{
    let mut j: usize = 0;
    while j < index
        invariant
            j <= index < trains@.len(),
            forall|k: int|
                0 <= k < j ==> (#[trigger] trains@[k]).evn.digits@
                    != trains@[index as int].evn.digits@,
        decreases index - j,
    {
        if same_text(trains[j].evn.as_str(), trains[index].evn.as_str()) {
            assert(trains@[j as int].evn.digits@ == trains@[index as int].evn.digits@);
            return true;
        }
        j += 1;
    }
    false
}

fn is_status_repeated(trains: &Vec<Train>, index: usize) -> (result: bool)
    requires
        index < trains@.len(),
    ensures
        result == status_repeated(trains@, index as int),
{
    let mut j: usize = 0;
    while j < index
        invariant
            j <= index < trains@.len(),
            forall|k: int|
                0 <= k < j ==> (#[trigger] trains@[k]).status != trains@[index as int].status,
        decreases index - j,
    {
        if trains[j].status == trains[index].status {
            assert(trains@[j as int].status == trains@[index as int].status);
            return true;
        }
        j += 1;
    }
    false
}

fn validate_train(
    trains: &Vec<Train>,
    index: usize,
    registration_code: u8,
    stations: &Vec<RailStation>,
    journeys: &Vec<Journey>,
    facts: &SimulationFacts,
) -> (result: Result<(), SaveValidationError>)
    requires
        index < trains@.len(),
    ensures
        result == outcome(
            train_fault(
                trains@,
                index as int,
                registration_code,
                stations@,
                journeys@,
                *facts,
            ),
        ),
{
    let train = &trains[index];
    let model = match facts.catalogue.by_id(&train.model_id) {
        Some(model) => model,
        None => {
            return Err(
                SaveValidationError::InvalidValue { field: "Train catalogue model reference" },
            );
        },
    };
    if is_blank(train.model_id.as_str()) || train.original_purchase_price.cents <= 0 {
        return Err(SaveValidationError::InvalidValue { field: "Train catalogue model reference" });
    }
    if EuropeanVehicleNumber::parse(train.evn.as_str()).is_err() {
        return Err(SaveValidationError::InvalidValue { field: "European Vehicle Number" });
    }
    if is_number_repeated(trains, index) {
        return Err(SaveValidationError::DuplicateId { kind: "European Vehicle Number" });
    }
    if train.evn.vehicle_type_code() != model.evn_type_code || train.evn.registration_code()
        != registration_code || train.evn.series_code() != model.evn_series_code {
        return Err(
            SaveValidationError::ImpossibleState {
                reason: "Train European Vehicle Number does not match its model and Region",
            },
        );
    }
    match train.status {
        TrainStatus::Ready { at } => {
            if find_station(stations, at).is_none() {
                return Err(SaveValidationError::DanglingReference { field: "READY Train location" });
            }
        },
        TrainStatus::Travelling { journey_id } => {
            if find_journey(journeys, journey_id).is_none() {
                return Err(
                    SaveValidationError::DanglingReference { field: "travelling Train Journey" },
                );
            }
            if is_status_repeated(trains, index) {
                return Err(
                    SaveValidationError::ImpossibleState {
                        reason: "more than one Train is travelling on one Journey",
                    },
                );
            }
        },
    }
    Ok(())
}

/// The first fault among the first `count` Trains.
pub open spec fn trains_fault(
    trains: Seq<Train>,
    registration_code: u8,
    stations: Seq<RailStation>,
    journeys: Seq<Journey>,
    facts: SimulationFacts,
    count: int,
) -> Option<SaveValidationError>
    decreases count,
{
    if count <= 0 {
        None
    } else if trains_fault(trains, registration_code, stations, journeys, facts, count - 1)
        is Some {
        trains_fault(trains, registration_code, stations, journeys, facts, count - 1)
    } else {
        train_fault(trains, count - 1, registration_code, stations, journeys, facts)
    }
}

proof fn lemma_trains_fault(
    trains: Seq<Train>,
    registration_code: u8,
    stations: Seq<RailStation>,
    journeys: Seq<Journey>,
    facts: SimulationFacts,
    low: int,
    high: int,
)
    requires
        low <= high,
        trains_fault(trains, registration_code, stations, journeys, facts, low) is Some,
    ensures
        trains_fault(trains, registration_code, stations, journeys, facts, high) == trains_fault(
            trains,
            registration_code,
            stations,
            journeys,
            facts,
            low,
        ),
    decreases high - low,
{
    if low < high {
        lemma_trains_fault(trains, registration_code, stations, journeys, facts, low, high - 1);
    }
}

pub fn validate_train_statuses(
    trains: &Vec<Train>,
    registration_code: u8,
    stations: &Vec<RailStation>,
    journeys: &Vec<Journey>,
    facts: &SimulationFacts,
) -> (result: Result<(), SaveValidationError>)
    ensures
        result == outcome(
            trains_fault(
                trains@,
                registration_code,
                stations@,
                journeys@,
                *facts,
                trains@.len() as int,
            ),
        ),
{
    let mut i: usize = 0;
    while i < trains.len()
        invariant
            i <= trains@.len(),
            trains_fault(trains@, registration_code, stations@, journeys@, *facts, i as int)
                is None,
        decreases trains.len() - i,
    {
        match validate_train(trains, i, registration_code, stations, journeys, facts) {
            Ok(()) => {},
            Err(error) => {
                proof {
                    lemma_trains_fault(
                        trains@,
                        registration_code,
                        stations@,
                        journeys@,
                        *facts,
                        i + 1,
                        trains@.len() as int,
                    );
                }
                return Err(error);
            },
        }
        i += 1;
    }
    Ok(())
}

/// The distance along the open path between two stops of a Service.
pub open spec fn stop_distance(
    network: RailNetwork,
    service: PassengerService,
    first: int,
    second: int,
    facts: SimulationFacts,
) -> Result<DistanceMetres, SaveValidationError> {
    match facts.route(service.stop_station_ids@[first], service.stop_station_ids@[second]) {
        None => Err(
            SaveValidationError::ImpossibleState {
                reason: "Passenger Service stops are not connected by the Rail Network",
            },
        ),
        Some(path) => path_distance(network.rail_lines@, path, "Passenger Service stop distance"),
    }
}

/// The distance between two stops of a Service, by their positions in the stop pattern.
pub fn distance_between_service_stops(
    network: &RailNetwork,
    service: &PassengerService,
    first_stop_index: usize,
    second_stop_index: usize,
    facts: &SimulationFacts,
) -> (result: Result<DistanceMetres, SaveValidationError>)
    ensures
        result == (if first_stop_index >= service.stop_station_ids@.len() || second_stop_index
            >= service.stop_station_ids@.len() {
            Err(
                SaveValidationError::ImpossibleState {
                    reason: "Passenger Service stop index is outside the stop pattern",
                },
            )
        } else {
            stop_distance(
                *network,
                *service,
                first_stop_index as int,
                second_stop_index as int,
                *facts,
            )
        }),
{
    if first_stop_index >= service.stop_station_ids.len() || second_stop_index
        >= service.stop_station_ids.len() {
        return Err(
            SaveValidationError::ImpossibleState {
                reason: "Passenger Service stop index is outside the stop pattern",
            },
        );
    }
    match facts.path_between_stations(
        service.stop_station_ids[first_stop_index],
        service.stop_station_ids[second_stop_index],
    ) {
        None => Err(
            SaveValidationError::ImpossibleState {
                reason: "Passenger Service stops are not connected by the Rail Network",
            },
        ),
        Some(path) => measure_path(
            &network.rail_lines,
            path,
            "Passenger Service stop distance",
        ),
    }
}

/// The first position of a stop.
pub fn stop_position(stops: &Vec<RailStationId>, id: RailStationId) -> (result: Option<usize>)
    ensures
        match result {
            Some(i) => stops@.index_of_first(id) == Some(i as int) && i < stops@.len(),
            None => stops@.index_of_first(id) is None,
        },
{
    proof {
        stops@.index_of_first_ensures(id);
    }
    let mut i: usize = 0;
    while i < stops.len()
        invariant
            i <= stops.len(),
            forall|j: int| 0 <= j < i ==> #[trigger] stops@[j] != id,
            match stops@.index_of_first(id) {
                Some(index) => 0 <= index < stops@.len() && stops@[index] == id && forall|j: int|
                    0 <= j < index < stops@.len() ==> stops@[j] != id,
                None => !stops@.contains(id),
            },
        decreases stops.len() - i,
    {
        if stops[i] == id {
            assert(stops@[i as int] == id);
            assert(stops@.contains(id));
            return Some(i);
        }
        i += 1;
    }
    None
}

/// How far a Journey has come along its Service: the stop it last called at, the next one,
/// and whether it runs in stop order.
pub struct Progress {
    pub forward: bool,
    pub current: usize,
    pub next: usize,
}

/// What a Journey's checks look at besides the Journey.
pub ghost struct JourneyContext {
    pub state: GameState,
    pub facts: SimulationFacts,
    pub journey: Journey,
    pub service: PassengerService,
}

impl JourneyContext {
    pub open spec fn network(self) -> RailNetwork {
        self.state.region.rail_authority.rail_network
    }

    pub open spec fn stations(self) -> Seq<RailStation> {
        self.network().rail_stations@
    }

    pub open spec fn stops(self) -> Seq<RailStationId> {
        self.service.stop_station_ids@
    }
}

/// Whether a group boarded at or before the current stop and alights at or after the next.
pub open spec fn on_board(progress: Progress, origin: int, destination: int) -> bool {
    if progress.forward {
        origin < destination && destination >= progress.next && origin <= progress.current
    } else {
        origin > destination && destination <= progress.next && origin >= progress.current
    }
}

/// What is wrong with one passenger group.
pub open spec fn group_fault(
    context: JourneyContext,
    progress: Progress,
    group: JourneyPassengerGroup,
) -> Option<SaveValidationError> {
    let origin = context.stops().index_of_first(group.origin_station_id);
    let destination = context.stops().index_of_first(group.destination_station_id);
    if group.passengers == 0 || !has_station(context.stations(), group.origin_station_id)
        || !has_station(context.stations(), group.destination_station_id) {
        invalid_value("Journey passenger group")
    } else if origin is None {
        impossible("Journey passenger origin is not a Service stop")
    } else if destination is None {
        impossible("Journey passenger destination is not a Service stop")
    } else if !on_board(progress, origin->0, destination->0) {
        impossible("Journey passenger group is not travelling in the Service direction")
    } else {
        match stop_distance(
            context.network(),
            context.service,
            origin->0,
            destination->0,
            context.facts,
        ) {
            Err(error) => Some(error),
            Ok(distance) => match charge(
                context.journey.fare_rate.cents_per_kilometre as int,
                distance.metres as int,
            ) {
                Err(error) => Some(SaveValidationError::Calculation(error)),
                Ok(fare) => if group.fare != fare {
                    impossible(
                        "Journey passenger fare does not match its origin-destination distance",
                    )
                } else {
                    None
                },
            },
        }
    }
}

/// The passengers and the fares of the first `count` groups, or the first fault among them.
pub open spec fn group_totals(context: JourneyContext, progress: Progress, count: int) -> Result<
    (u32, Money),
    SaveValidationError,
>
    decreases count,
{
    if count <= 0 {
        Ok((0u32, Money { cents: 0 }))
    } else {
        let group = context.journey.passenger_groups@[count - 1];
        match group_totals(context, progress, count - 1) {
            Err(error) => Err(error),
            Ok((passengers, revenue)) => match group_fault(context, progress, group) {
                Some(error) => Err(error),
                None => if passengers + group.passengers > u32::MAX {
                    Err(
                        SaveValidationError::Calculation(
                            CalculationError::Overflow {
                                operation: "Journey onboard passenger count",
                            },
                        ),
                    )
                } else {
                    match money_product(group.fare.cents as int, group.passengers as int) {
                        Err(error) => Err(SaveValidationError::Calculation(error)),
                        Ok(fares) => match money_sum(revenue.cents as int, fares.cents as int) {
                            Err(error) => Err(SaveValidationError::Calculation(error)),
                            Ok(total) => Ok(((passengers + group.passengers) as u32, total)),
                        },
                    }
                },
            },
        }
    }
}

proof fn lemma_group_totals_fail(
    context: JourneyContext,
    progress: Progress,
    low: int,
    high: int,
)
    requires
        low <= high,
        group_totals(context, progress, low) is Err,
    ensures
        group_totals(context, progress, high) == group_totals(context, progress, low),
    decreases high - low,
{
    if low < high {
        lemma_group_totals_fail(context, progress, low, high - 1);
    }
}

/// Whether some group travels a direction that has no saved demand.
pub open spec fn lacks_demand(
    groups: Seq<JourneyPassengerGroup>,
    demand: Seq<OriginDestinationDemand>,
) -> bool {
    exists|i: int|
        0 <= i < groups.len() && !has_pool(
            demand,
            (#[trigger] groups[i]).origin_station_id,
            groups[i].destination_station_id,
        )
}

pub open spec fn has_pool(
    demand: Seq<OriginDestinationDemand>,
    origin: RailStationId,
    destination: RailStationId,
) -> bool {
    exists|j: int|
        0 <= j < demand.len() && (#[trigger] demand[j]).origin_station_id == origin
            && demand[j].destination_station_id == destination
}

fn find_pool(
    demand: &Vec<OriginDestinationDemand>,
    origin: RailStationId,
    destination: RailStationId,
) -> (result: bool)
    ensures
        result == has_pool(demand@, origin, destination),
{
    let mut j: usize = 0;
    while j < demand.len()
        invariant
            j <= demand@.len(),
            forall|k: int|
                0 <= k < j ==> !((#[trigger] demand@[k]).origin_station_id == origin
                    && demand@[k].destination_station_id == destination),
        decreases demand.len() - j,
    {
        if demand[j].origin_station_id == origin && demand[j].destination_station_id
            == destination {
            assert(demand@[j as int].origin_station_id == origin);
            return true;
        }
        j += 1;
    }
    false
}

/// What is wrong with a positioning Journey: an empty movement of an assigned Train to a
/// departure terminus of its Service.
pub open spec fn positioning_fault(context: JourneyContext) -> Option<SaveValidationError> {
    let journey = context.journey;
    if context.state.player_company.fleet.assigned(journey.train_id) != Some(journey.service_id) {
        impossible("positioning Journey Train is not assigned to its Passenger Service")
    } else if !context.service.departs_from(journey.destination_station_id)
        || journey.origin_station_id == journey.destination_station_id {
        impossible("positioning Journey does not end at a valid Service departure terminus")
    } else if context.facts.route(journey.origin_station_id, journey.destination_station_id)
        is None {
        impossible("positioning Journey has no open Rail Line path")
    } else if journey.passengers_carried != 0 || journey.passenger_groups@.len() != 0
        || journey.fare.cents != 0 || journey.operating_revenue.cents != 0
        || journey.credited_revenue.cents != 0 || journey.infrastructure_access_fee.cents < 0
        || journey.fuel_cost.cents <= 0 || journey.current_stop_index != 0
        || journey.arrives_at.seconds <= journey.departed_at.seconds {
        impossible("positioning Journey actuals do not match an empty non-revenue movement")
    } else {
        None
    }
}

/// Where a revenue Journey stands on its Service, or why it cannot be there.
pub open spec fn progress_of(journey: Journey, stops: Seq<RailStationId>) -> Result<
    Progress,
    SaveValidationError,
> {
    let current = journey.current_stop_index;
    if stops.len() == 0 {
        Err(
            SaveValidationError::ImpossibleState {
                reason: "Journey references a Passenger Service without an origin",
            },
        )
    } else if journey.origin_station_id == stops[0] && journey.destination_station_id
        == stops.last() {
        if current + 1 < stops.len() {
            Ok(Progress { forward: true, current, next: (current + 1) as usize })
        } else {
            Err(
                SaveValidationError::ImpossibleState {
                    reason: "Journey current Service stop cannot advance",
                },
            )
        }
    } else if journey.origin_station_id == stops.last() && journey.destination_station_id
        == stops[0] {
        if current >= 1 {
            Ok(Progress { forward: false, current, next: (current - 1) as usize })
        } else {
            Err(
                SaveValidationError::ImpossibleState {
                    reason: "Journey current Service stop cannot advance",
                },
            )
        }
    } else {
        Err(
            SaveValidationError::ImpossibleState {
                reason: "Journey endpoints do not match its Passenger Service",
            },
        )
    }
}

fn journey_progress(journey: &Journey, service: &PassengerService) -> (result: Result<
    Progress,
    SaveValidationError,
>)
    ensures
        result == progress_of(*journey, service.stop_station_ids@),
{
    let (origin, destination) = match (
        service.origin_station_id(),
        service.destination_station_id(),
    ) {
        (Some(origin), Some(destination)) => (origin, destination),
        _ => {
            return Err(
                SaveValidationError::ImpossibleState {
                    reason: "Journey references a Passenger Service without an origin",
                },
            );
        },
    };
    let current: usize = journey.current_stop_index;
    let count: usize = service.stop_station_ids.len();
    if journey.origin_station_id == origin && journey.destination_station_id == destination {
        if current < count && current + 1 < count {
            return Ok(Progress { forward: true, current, next: current + 1 });
        }
        return Err(
            SaveValidationError::ImpossibleState {
                reason: "Journey current Service stop cannot advance",
            },
        );
    }
    if journey.origin_station_id == destination && journey.destination_station_id == origin {
        if current >= 1 {
            return Ok(Progress { forward: false, current, next: current - 1 });
        }
        return Err(
            SaveValidationError::ImpossibleState {
                reason: "Journey current Service stop cannot advance",
            },
        );
    }
    Err(
        SaveValidationError::ImpossibleState {
            reason: "Journey endpoints do not match its Passenger Service",
        },
    )
}

/// Whether a Journey's amounts and times fit its fare rate and departure snapshot.
pub open spec fn actuals_hold(journey: Journey, through_fare: Money) -> bool {
    &&& journey.fare == through_fare
    &&& journey.infrastructure_access_fee.cents >= 0
    &&& journey.fuel_cost.cents > 0
    &&& journey.operating_revenue.cents >= 0
    &&& journey.credited_revenue.cents >= 0
    &&& journey.credited_revenue.cents <= journey.operating_revenue.cents
    &&& journey.arrives_at.seconds > journey.departed_at.seconds
}

/// What is wrong with the passengers and the revenue of a revenue Journey.
pub open spec fn booking_fault(
    context: JourneyContext,
    progress: Progress,
    capacity: u32,
) -> Option<SaveValidationError> {
    let journey = context.journey;
    match group_totals(context, progress, journey.passenger_groups@.len() as int) {
        Err(error) => Some(error),
        Ok((onboard, fares)) => {
            let booked = money_sum(journey.credited_revenue.cents as int, fares.cents as int);
            if onboard > capacity || journey.passengers_carried < onboard {
                impossible("Journey passenger counts exceed Train capacity or cumulative boardings")
            } else if booked is Err {
                Some(SaveValidationError::Calculation(booked->Err_0))
            } else if booked->Ok_0 != journey.operating_revenue {
                impossible(
                    "Journey booked revenue does not match credited and onboard passengers",
                )
            } else if lacks_demand(
                journey.passenger_groups@,
                context.state.origin_destination_demand@,
            ) {
                impossible("Journey passenger group has no saved Passenger Demand")
            } else {
                None
            }
        },
    }
}

/// What is wrong with a revenue Journey.
pub open spec fn revenue_fault(context: JourneyContext, capacity: u32) -> Option<
    SaveValidationError,
> {
    let journey = context.journey;
    match progress_of(journey, context.stops()) {
        Err(error) => Some(error),
        Ok(progress) => match service_length(context.service, context.network(), context.facts) {
            Err(error) => Some(error),
            Ok(distance) => match charge(
                journey.fare_rate.cents_per_kilometre as int,
                distance.metres as int,
            ) {
                Err(error) => Some(SaveValidationError::Calculation(error)),
                Ok(through_fare) => if !actuals_hold(journey, through_fare) {
                    impossible("Journey actuals do not match its saved rules and departure snapshot")
                } else {
                    booking_fault(context, progress, capacity)
                },
            },
        },
    }
}

/// What is wrong with one Journey under way.
pub open spec fn journey_fault(state: GameState, journey: Journey, facts: SimulationFacts) -> Option<
    SaveValidationError,
> {
    let trains = state.player_company.fleet.trains@;
    let services = state.player_company.passenger_services@;
    let stations = state.region.rail_authority.rail_network.rail_stations@;
    let train = the_train(trains, journey.train_id);
    let context = JourneyContext {
        state,
        facts,
        journey,
        service: the_service(services, journey.service_id),
    };
    if !has_train(trains, journey.train_id) {
        dangling("Journey Train")
    } else if !has_service(services, journey.service_id) {
        dangling("Journey Passenger Service")
    } else if !has_station(stations, journey.origin_station_id) || !has_station(
        stations,
        journey.destination_station_id,
    ) {
        dangling("Journey endpoint")
    } else if train.status != (TrainStatus::Travelling { journey_id: journey.id }) {
        impossible("a Journey's Train is not travelling on that Journey")
    } else if !facts.catalogue.lists(train.model_id.name@) {
        invalid_value("Journey Train catalogue model")
    } else if journey.purpose is Positioning {
        positioning_fault(context)
    } else {
        revenue_fault(context, facts.catalogue.model(train.model_id.name@).passenger_capacity)
    }
}

fn validate_positioning(
    state: &GameState,
    journey: &Journey,
    service: &PassengerService,
    facts: &SimulationFacts,
) -> (result: Result<(), SaveValidationError>)
    ensures
        result == outcome(
            positioning_fault(
                JourneyContext {
                    state: *state,
                    facts: *facts,
                    journey: *journey,
                    service: *service,
                },
            ),
        ),
{
    let assigned = match state.player_company.fleet.assigned_service_id(journey.train_id) {
        Some(id) => id == journey.service_id,
        None => false,
    };
    if !assigned {
        return Err(
            SaveValidationError::ImpossibleState {
                reason: "positioning Journey Train is not assigned to its Passenger Service",
            },
        );
    }
    if !service.accepts_departure_station(journey.destination_station_id)
        || journey.origin_station_id == journey.destination_station_id {
        return Err(
            SaveValidationError::ImpossibleState {
                reason:
                    "positioning Journey does not end at a valid Service departure terminus",
            },
        );
    }
    if facts.path_between_stations(
        journey.origin_station_id,
        journey.destination_station_id,
    ).is_none() {
        return Err(
            SaveValidationError::ImpossibleState {
                reason: "positioning Journey has no open Rail Line path",
            },
        );
    }
    if journey.passengers_carried != 0 || journey.passenger_groups.len() != 0
        || journey.fare.cents != 0 || journey.operating_revenue.cents != 0
        || journey.credited_revenue.cents != 0 || journey.infrastructure_access_fee.cents < 0
        || journey.fuel_cost.cents <= 0 || journey.current_stop_index != 0
        || journey.arrives_at.seconds <= journey.departed_at.seconds {
        return Err(
            SaveValidationError::ImpossibleState {
                reason:
                    "positioning Journey actuals do not match an empty non-revenue movement",
            },
        );
    }
    Ok(())
}

fn validate_group(
    state: &GameState,
    journey: &Journey,
    service: &PassengerService,
    facts: &SimulationFacts,
    progress: &Progress,
    group: &JourneyPassengerGroup,
) -> (result: Result<(), SaveValidationError>)
    ensures
        result == outcome(
            group_fault(
                JourneyContext {
                    state: *state,
                    facts: *facts,
                    journey: *journey,
                    service: *service,
                },
                *progress,
                *group,
            ),
        ),
{
    let network = &state.region.rail_authority.rail_network;
    if group.passengers == 0 || find_station(
        &network.rail_stations,
        group.origin_station_id,
    ).is_none() || find_station(&network.rail_stations, group.destination_station_id).is_none() {
        return Err(SaveValidationError::InvalidValue { field: "Journey passenger group" });
    }
    let origin = match stop_position(&service.stop_station_ids, group.origin_station_id) {
        Some(origin) => origin,
        None => {
            return Err(
                SaveValidationError::ImpossibleState {
                    reason: "Journey passenger origin is not a Service stop",
                },
            );
        },
    };
    let destination = match stop_position(&service.stop_station_ids, group.destination_station_id) {
        Some(destination) => destination,
        None => {
            return Err(
                SaveValidationError::ImpossibleState {
                    reason: "Journey passenger destination is not a Service stop",
                },
            );
        },
    };
    let aboard = if progress.forward {
        origin < destination && destination >= progress.next && origin <= progress.current
    } else {
        origin > destination && destination <= progress.next && origin >= progress.current
    };
    if !aboard {
        return Err(
            SaveValidationError::ImpossibleState {
                reason: "Journey passenger group is not travelling in the Service direction",
            },
        );
    }
    let distance = match distance_between_service_stops(
        network,
        service,
        origin,
        destination,
        facts,
    ) {
        Ok(distance) => distance,
        Err(error) => return Err(error),
    };
    let fare = match journey.fare_rate.checked_charge(distance) {
        Ok(fare) => fare,
        Err(error) => return Err(SaveValidationError::Calculation(error)),
    };
    if group.fare != fare {
        return Err(
            SaveValidationError::ImpossibleState {
                reason:
                    "Journey passenger fare does not match its origin-destination distance",
            },
        );
    }
    Ok(())
}

fn total_groups(
    state: &GameState,
    journey: &Journey,
    service: &PassengerService,
    facts: &SimulationFacts,
    progress: &Progress,
) -> (result: Result<(u32, Money), SaveValidationError>)
    ensures
        result == group_totals(
            JourneyContext { state: *state, facts: *facts, journey: *journey, service: *service },
            *progress,
            journey.passenger_groups@.len() as int,
        ),
{
    let ghost context = JourneyContext {
        state: *state,
        facts: *facts,
        journey: *journey,
        service: *service,
    };
    let mut passengers: u32 = 0;
    let mut revenue = Money::zero();
    let mut i: usize = 0;
    while i < journey.passenger_groups.len()
        invariant
            i <= journey.passenger_groups@.len(),
            context == (JourneyContext {
                state: *state,
                facts: *facts,
                journey: *journey,
                service: *service,
            }),
            group_totals(context, *progress, i as int) == Ok::<(u32, Money), SaveValidationError>(
                (passengers, revenue),
            ),
        decreases journey.passenger_groups.len() - i,
    {
        let group = &journey.passenger_groups[i];
        let ghost count = journey.passenger_groups@.len() as int;
        if let Err(error) = validate_group(state, journey, service, facts, progress, group) {
            proof {
                lemma_group_totals_fail(context, *progress, i + 1, count);
            }
            return Err(error);
        }
        let sum: u32 = match passengers.checked_add(group.passengers) {
            Some(sum) => sum,
            None => {
                proof {
                    lemma_group_totals_fail(context, *progress, i + 1, count);
                }
                return Err(
                    SaveValidationError::Calculation(
                        CalculationError::Overflow { operation: "Journey onboard passenger count" },
                    ),
                );
            },
        };
        let fares = match group.fare.checked_mul(group.passengers as u64) {
            Ok(fares) => fares,
            Err(error) => {
                proof {
                    lemma_group_totals_fail(context, *progress, i + 1, count);
                }
                return Err(SaveValidationError::Calculation(error));
            },
        };
        match revenue.checked_add(fares) {
            Ok(total) => {
                revenue = total;
            },
            Err(error) => {
                proof {
                    lemma_group_totals_fail(context, *progress, i + 1, count);
                }
                return Err(SaveValidationError::Calculation(error));
            },
        }
        passengers = sum;
        i += 1;
    }
    Ok((passengers, revenue))
}

fn groups_lack_demand(
    groups: &Vec<JourneyPassengerGroup>,
    demand: &Vec<OriginDestinationDemand>,
) -> (result: bool)
    ensures
        result == lacks_demand(groups@, demand@),
{
    let mut i: usize = 0;
    while i < groups.len()
        invariant
            i <= groups@.len(),
            forall|j: int|
                0 <= j < i ==> has_pool(
                    demand@,
                    (#[trigger] groups@[j]).origin_station_id,
                    groups@[j].destination_station_id,
                ),
        decreases groups.len() - i,
    {
        if !find_pool(demand, groups[i].origin_station_id, groups[i].destination_station_id) {
            assert(!has_pool(
                demand@,
                groups@[i as int].origin_station_id,
                groups@[i as int].destination_station_id,
            ));
            return true;
        }
        i += 1;
    }
    false
}

fn validate_revenue(
    state: &GameState,
    journey: &Journey,
    service: &PassengerService,
    facts: &SimulationFacts,
    capacity: u32,
) -> (result: Result<(), SaveValidationError>)
    ensures
        result == outcome(
            revenue_fault(
                JourneyContext {
                    state: *state,
                    facts: *facts,
                    journey: *journey,
                    service: *service,
                },
                capacity,
            ),
        ),
{
    let network = &state.region.rail_authority.rail_network;
    let progress = match journey_progress(journey, service) {
        Ok(progress) => progress,
        Err(error) => return Err(error),
    };
    let distance = match service_distance(service, network, facts) {
        Ok(distance) => distance,
        Err(error) => return Err(error),
    };
    let through_fare = match journey.fare_rate.checked_charge(distance) {
        Ok(fare) => fare,
        Err(error) => return Err(SaveValidationError::Calculation(error)),
    };
    if journey.fare != through_fare || journey.infrastructure_access_fee.cents < 0
        || journey.fuel_cost.cents <= 0 || journey.operating_revenue.cents < 0
        || journey.credited_revenue.cents < 0 || journey.credited_revenue.cents
        > journey.operating_revenue.cents || journey.arrives_at.seconds
        <= journey.departed_at.seconds {
        return Err(
            SaveValidationError::ImpossibleState {
                reason: "Journey actuals do not match its saved rules and departure snapshot",
            },
        );
    }
    let (onboard, fares) = match total_groups(state, journey, service, facts, &progress) {
        Ok(totals) => totals,
        Err(error) => return Err(error),
    };
    if onboard > capacity || journey.passengers_carried < onboard {
        return Err(
            SaveValidationError::ImpossibleState {
                reason:
                    "Journey passenger counts exceed Train capacity or cumulative boardings",
            },
        );
    }
    let booked = match journey.credited_revenue.checked_add(fares) {
        Ok(booked) => booked,
        Err(error) => return Err(SaveValidationError::Calculation(error)),
    };
    if booked != journey.operating_revenue {
        return Err(
            SaveValidationError::ImpossibleState {
                reason:
                    "Journey booked revenue does not match credited and onboard passengers",
            },
        );
    }
    if groups_lack_demand(&journey.passenger_groups, &state.origin_destination_demand) {
        return Err(
            SaveValidationError::ImpossibleState {
                reason: "Journey passenger group has no saved Passenger Demand",
            },
        );
    }
    Ok(())
}

pub fn validate_journey(state: &GameState, journey: &Journey, facts: &SimulationFacts) -> (result:
    Result<(), SaveValidationError>)
    ensures
        result == outcome(journey_fault(*state, *journey, *facts)),
{
    let train = match find_train(&state.player_company.fleet.trains, journey.train_id) {
        Some(train) => train,
        None => return Err(SaveValidationError::DanglingReference { field: "Journey Train" }),
    };
    let service = match find_service(
        &state.player_company.passenger_services,
        journey.service_id,
    ) {
        Some(service) => service,
        None => {
            return Err(
                SaveValidationError::DanglingReference { field: "Journey Passenger Service" },
            );
        },
    };
    let stations = &state.region.rail_authority.rail_network.rail_stations;
    if find_station(stations, journey.origin_station_id).is_none() || find_station(
        stations,
        journey.destination_station_id,
    ).is_none() {
        return Err(SaveValidationError::DanglingReference { field: "Journey endpoint" });
    }
    if train.status != (TrainStatus::Travelling { journey_id: journey.id }) {
        return Err(
            SaveValidationError::ImpossibleState {
                reason: "a Journey's Train is not travelling on that Journey",
            },
        );
    }
    let model = match facts.catalogue.by_id(&train.model_id) {
        Some(model) => model,
        None => {
            return Err(
                SaveValidationError::InvalidValue { field: "Journey Train catalogue model" },
            );
        },
    };
    match journey.purpose {
        JourneyPurpose::Positioning => validate_positioning(state, journey, service, facts),
        JourneyPurpose::RevenueService => validate_revenue(
            state,
            journey,
            service,
            facts,
            model.passenger_capacity,
        ),
    }
}

/// The first fault among the first `count` Journeys.
pub open spec fn journeys_fault(state: GameState, facts: SimulationFacts, count: int) -> Option<
    SaveValidationError,
>
    decreases count,
{
    if count <= 0 {
        None
    } else if journeys_fault(state, facts, count - 1) is Some {
        journeys_fault(state, facts, count - 1)
    } else {
        journey_fault(state, state.active_journeys@[count - 1], facts)
    }
}

proof fn lemma_journeys_fault(state: GameState, facts: SimulationFacts, low: int, high: int)
    requires
        low <= high,
        journeys_fault(state, facts, low) is Some,
    ensures
        journeys_fault(state, facts, high) == journeys_fault(state, facts, low),
    decreases high - low,
{
    if low < high {
        lemma_journeys_fault(state, facts, low, high - 1);
    }
}

pub proof fn lemma_no_journey_fault(state: GameState, facts: SimulationFacts, count: int, i: int)
    requires
        0 <= i < count,
        journeys_fault(state, facts, count) is None,
    ensures
        journey_fault(state, state.active_journeys@[i], facts) is None,
    decreases count,
{
    if i < count - 1 {
        lemma_no_journey_fault(state, facts, count - 1, i);
    }
}

pub fn validate_journeys(state: &GameState, facts: &SimulationFacts) -> (result: Result<
    (),
    SaveValidationError,
>)
    ensures
        result == outcome(journeys_fault(*state, *facts, state.active_journeys@.len() as int)),
{
    let mut i: usize = 0;
    while i < state.active_journeys.len()
        invariant
            i <= state.active_journeys@.len(),
            journeys_fault(*state, *facts, i as int) is None,
        decreases state.active_journeys.len() - i,
    {
        match validate_journey(state, &state.active_journeys[i], facts) {
            Ok(()) => {},
            Err(error) => {
                proof {
                    lemma_journeys_fault(
                        *state,
                        *facts,
                        i + 1,
                        state.active_journeys@.len() as int,
                    );
                }
                return Err(error);
            },
        }
        i += 1;
    }
    Ok(())
}

} // verus!
