//! Games of the first save format, once parsed, in terms of the current model.

use vstd::prelude::*;
use vstd::string::StringExecFns;

use super::codec::SaveCodecError;
use super::migration::vehicles::{catalogue_model_for_legacy_signature, has_signature};
use super::tables::company::{same_service, same_train, same_unit};
use super::tables::operations::{same_journey, same_receipts};
use super::tables::state::same_state;
use super::validation::sameness::{lemma_the_service, same_games_have_the_same_fault};
use super::validation::state::{state_fault, valid_game, validate_game_state};
use crate::model::catalogue::{TrainCatalogue, TrainModel};
use crate::model::company::{
    find_service, has_service, the_service, Financials, Fleet, Journey, JourneyPassengerGroup,
    ModelUnitSequence, OriginDestinationDemand, PassengerService, PlayerCompany,
    ServiceDirectionMode, Train, TrainStatus,
};
use crate::model::facts::SimulationFacts;
use crate::model::identity::{
    check_digit, number_fields, numberable, EuropeanVehicleNumber, TrainModelId, VehicleKeeperMark,
};
use crate::model::ids::{display_number, RailLineId, RailStationId, ServiceId, TrainId};
use crate::model::project::copy_line_ids;
use crate::model::state::{
    AuthorityRules, BalanceConfig, DemandRules, GameRules, GameState, RailwayRegistration, Region,
};
use crate::model::units::{Money, MoneyPerKilometre, UtcSeconds};
use crate::text::{decimal, decimal_text, digit, same_text};

verus! {

/// The version number of the first save format.
pub const LEGACY_RON_VERSION: u32 = 1;

/// A Train of the first format, described by its model's signature.
#[derive(Clone, Debug, PartialEq, Eq)]
pub struct LegacyTrain {
    pub id: TrainId,
    pub status: TrainStatus,
    pub model_name: String,
    pub original_purchase_price: Money,
    pub passenger_capacity: u32,
    pub speed_metres_per_second: u64,
    pub fuel_cost_per_kilometre: MoneyPerKilometre,
}

/// A Service of the first format: two stations and a path.
#[derive(Clone, Debug, PartialEq, Eq)]
pub struct LegacyService {
    pub id: ServiceId,
    pub first_station_id: RailStationId,
    pub second_station_id: RailStationId,
    pub rail_line_ids: Vec<RailLineId>,
}

/// A parsed save of the first format.
pub struct LegacyGame {
    pub version: u32,
    pub world_seed: u64,
    pub region: Region,
    pub company_name: String,
    pub funds: Money,
    pub trains: Vec<LegacyTrain>,
    pub services: Vec<LegacyService>,
    pub origin_destination_demand: Vec<OriginDestinationDemand>,
    pub active_journeys: Vec<Journey>,
    pub financials: Financials,
    pub balance: BalanceConfig,
    pub demand: DemandRules,
    pub last_processed_at: UtcSeconds,
}

/// What the current format holds and the first one did not: the Region's registration, the
/// Company's mark and the Authority's pace.
pub struct LegacyAdditions {
    pub registration: RailwayRegistration,
    pub vehicle_keeper_mark: VehicleKeeperMark,
    pub authority: AuthorityRules,
}

/// Whether the catalogue lists a model with a Train's signature.
pub open spec fn recognised(train: LegacyTrain, catalogue: TrainCatalogue) -> bool {
    exists|k: int| is_model_at(train, catalogue, k)
}

pub open spec fn signed(train: LegacyTrain, model: TrainModel) -> bool {
    has_signature(
        model,
        train.model_name@,
        train.passenger_capacity as i64,
        train.speed_metres_per_second as i64,
        train.fuel_cost_per_kilometre.cents_per_kilometre as i64,
    )
}

/// Whether `k` is the first catalogue model with a Train's signature.
pub open spec fn is_model_at(train: LegacyTrain, catalogue: TrainCatalogue, k: int) -> bool {
    &&& 0 <= k < catalogue.models@.len()
    &&& signed(train, catalogue.models@[k])
    &&& forall|j: int| 0 <= j < k ==> !signed(train, #[trigger] catalogue.models@[j])
}

/// The catalogue model of a recognised Train.
pub open spec fn model_of(train: LegacyTrain, catalogue: TrainCatalogue) -> TrainModel {
    catalogue.models@[choose|k: int| is_model_at(train, catalogue, k)]
}

/// How many of the first `count` Trains are of a model.
pub open spec fn earlier_units(
    trains: Seq<LegacyTrain>,
    catalogue: TrainCatalogue,
    model: Seq<char>,
    count: int,
) -> int
    decreases count,
{
    if count <= 0 {
        0
    } else {
        earlier_units(trains, catalogue, model, count - 1) + if model_of(
            trains[count - 1],
            catalogue,
        ).id.name@ == model {
            1int
        } else {
            0
        }
    }
}

/// The unit number that a Train receives.
pub open spec fn legacy_unit(trains: Seq<LegacyTrain>, catalogue: TrainCatalogue, i: int) -> int {
    1 + earlier_units(trains, catalogue, model_of(trains[i], catalogue).id.name@, i)
}

/// Why a Train of the first format has no place in the current one.
pub enum LegacyTrainFault {
    Field { field: &'static str },
    Model,
}

pub open spec fn legacy_train_fault(
    trains: Seq<LegacyTrain>,
    i: int,
    registration: u8,
    catalogue: TrainCatalogue,
) -> Option<LegacyTrainFault> {
    let train = trains[i];
    let model = model_of(train, catalogue);
    let unit = legacy_unit(trains, catalogue, i);
    if train.speed_metres_per_second > i64::MAX {
        Some(LegacyTrainFault::Field { field: "legacy Train speed" })
    } else if train.fuel_cost_per_kilometre.cents_per_kilometre > i64::MAX {
        Some(LegacyTrainFault::Field { field: "legacy Train fuel rate" })
    } else if !recognised(train, catalogue) {
        Some(LegacyTrainFault::Model)
    } else if !numberable(
        model.evn_type_code as int,
        registration as int,
        model.evn_series_code as int,
        unit,
    ) {
        Some(LegacyTrainFault::Field { field: "European Vehicle Number" })
    } else {
        None
    }
}

/// The first Train without a place in the current format, or the number of Trains.
pub open spec fn first_unplaced(
    trains: Seq<LegacyTrain>,
    count: int,
    registration: u8,
    catalogue: TrainCatalogue,
) -> int
    decreases count,
{
    if count <= 0 {
        0
    } else {
        let earlier = first_unplaced(trains, count - 1, registration, catalogue);
        if earlier < count - 1 {
            earlier
        } else if legacy_train_fault(trains, count - 1, registration, catalogue) is Some {
            count - 1
        } else {
            count
        }
    }
}

proof fn lemma_first_unplaced(
    trains: Seq<LegacyTrain>,
    low: int,
    high: int,
    registration: u8,
    catalogue: TrainCatalogue,
)
    requires
        0 <= low <= high,
        first_unplaced(trains, low, registration, catalogue) < low,
    ensures
        first_unplaced(trains, high, registration, catalogue) == first_unplaced(
            trains,
            low,
            registration,
            catalogue,
        ),
    decreases high - low,
{
    if low < high {
        lemma_first_unplaced(trains, low, high - 1, registration, catalogue);
    }
}

/// Whether a Train is what a Train of the first format becomes.
pub open spec fn train_placed(
    trains: Seq<LegacyTrain>,
    i: int,
    registration: u8,
    catalogue: TrainCatalogue,
    train: Train,
) -> bool {
    let old = trains[i];
    let model = model_of(old, catalogue);
    let fields = number_fields(
        model.evn_type_code as int,
        registration as int,
        model.evn_series_code as int,
        legacy_unit(trains, catalogue, i),
    );
    &&& train.id == old.id
    &&& train.evn.digits@ == fields.push(digit(check_digit(fields)))
    &&& train.evn.wf()
    &&& train.nickname is None
    &&& train.status == old.status
    &&& train.model_id.name@ == model.id.name@
    &&& train.original_purchase_price == old.original_purchase_price
}

/// The models of the first `count` Trains, each once, in the order in which they first occur.
pub open spec fn models_in_use(
    trains: Seq<LegacyTrain>,
    catalogue: TrainCatalogue,
    count: int,
) -> Seq<Seq<char>>
    decreases count,
{
    if count <= 0 {
        Seq::empty()
    } else {
        let earlier = models_in_use(trains, catalogue, count - 1);
        let model = model_of(trains[count - 1], catalogue).id.name@;
        if earlier.contains(model) {
            earlier
        } else {
            earlier.push(model)
        }
    }
}

/// Whether the sequences hold the next unit number of every model among the first `count`
/// Trains, and of no other, each model once.
pub open spec fn units_follow(
    sequences: Seq<ModelUnitSequence>,
    trains: Seq<LegacyTrain>,
    catalogue: TrainCatalogue,
    count: int,
) -> bool {
    let models = models_in_use(trains, catalogue, count);
    &&& sequences.len() == models.len()
    &&& forall|k: int|
        0 <= k < sequences.len() ==> (#[trigger] sequences[k]).model_id.name@ == models[k]
            && sequences[k].next_unit_number == 1 + earlier_units(
            trains,
            catalogue,
            models[k],
            count,
        )
}

/// Whether an error is what a fault of a Train is reported as.
pub open spec fn reports_train(
    error: SaveCodecError,
    fault: LegacyTrainFault,
    model: Seq<char>,
) -> bool {
    match fault {
        LegacyTrainFault::Field { field } => error == (SaveCodecError::InvalidValue { field }),
        LegacyTrainFault::Model => error matches SaveCodecError::TrainModelNotFound { model_name }
            && model_name@ == model,
    }
}

proof fn lemma_model_at(train: LegacyTrain, catalogue: TrainCatalogue, k: int)
    requires
        is_model_at(train, catalogue, k),
    ensures
        recognised(train, catalogue),
        model_of(train, catalogue) == catalogue.models@[k],
{
    let c = choose|c: int| is_model_at(train, catalogue, c);
    if c < k {
        assert(!signed(train, catalogue.models@[c]));
    }
    if k < c {
        assert(!signed(train, catalogue.models@[k]));
    }
}

fn find_sequence(sequences: &Vec<ModelUnitSequence>, model: &str) -> (result: Option<usize>)
    ensures
        match result {
            Some(k) => k < sequences@.len() && sequences@[k as int].model_id.name@ == model@,
            None => forall|k: int|
                0 <= k < sequences@.len() ==> (#[trigger] sequences@[k]).model_id.name@ != model@,
        },
{
    let mut k: usize = 0;
    while k < sequences.len()
        invariant
            k <= sequences@.len(),
            forall|j: int| 0 <= j < k ==> (#[trigger] sequences@[j]).model_id.name@ != model@,
        decreases sequences.len() - k,
    {
        if same_text(sequences[k].model_id.as_str(), model) {
            return Some(k);
        }
        k += 1;
    }
    None
}

/// The models in use are those that some Train is of, each once.
proof fn lemma_models_in_use(trains: Seq<LegacyTrain>, catalogue: TrainCatalogue, count: int)
    ensures
        models_in_use(trains, catalogue, count).no_duplicates(),
        forall|model: Seq<char>| #[trigger]
            earlier_units(trains, catalogue, model, count) >= 0 && (models_in_use(
                trains,
                catalogue,
                count,
            ).contains(model) <==> earlier_units(trains, catalogue, model, count) > 0),
    decreases count,
{
    let models = models_in_use(trains, catalogue, count);
    if count > 0 {
        lemma_models_in_use(trains, catalogue, count - 1);
        let earlier = models_in_use(trains, catalogue, count - 1);
        let last = model_of(trains[count - 1], catalogue).id.name@;
        if !earlier.contains(last) {
            assert(models[models.len() - 1] == last);
        }
        assert forall|model: Seq<char>| #[trigger]
            earlier_units(trains, catalogue, model, count) >= 0 && (models.contains(model)
            <==> earlier_units(trains, catalogue, model, count) > 0) by {
            assert(earlier_units(trains, catalogue, model, count - 1) >= 0);
            if earlier.contains(model) {
                let k = choose|k: int| 0 <= k < earlier.len() && earlier[k] == model;
                assert(models[k] == model);
            }
            if models.contains(model) && model != last {
                let k = choose|k: int| 0 <= k < models.len() && models[k] == model;
                assert(earlier[k] == model);
            }
        }
    }
}

/// Places the Trains of the first format in the current one.
pub fn place_trains(
    trains: &Vec<LegacyTrain>,
    registration: u8,
    catalogue: &TrainCatalogue,
) -> (result: Result<(Vec<Train>, Vec<ModelUnitSequence>), SaveCodecError>)
    ensures
        ({
            let first = first_unplaced(trains@, trains@.len() as int, registration, *catalogue);
            match result {
                Ok((placed, sequences)) => {
                    &&& first == trains@.len()
                    &&& placed@.len() == trains@.len()
                    &&& forall|i: int|
                        0 <= i < trains@.len() ==> train_placed(
                            trains@,
                            i,
                            registration,
                            *catalogue,
                            #[trigger] placed@[i],
                        )
                    &&& units_follow(sequences@, trains@, *catalogue, trains@.len() as int)
                },
                Err(error) => {
                    &&& 0 <= first < trains@.len()
                    &&& legacy_train_fault(trains@, first, registration, *catalogue) is Some
                    &&& reports_train(
                        error,
                        legacy_train_fault(trains@, first, registration, *catalogue)->0,
                        trains@[first].model_name@,
                    )
                },
            }
        }),
{
    let mut placed: Vec<Train> = Vec::new();
    let mut sequences: Vec<ModelUnitSequence> = Vec::new();
    let mut i: usize = 0;
    while i < trains.len()
        invariant
            i <= trains@.len(),
            first_unplaced(trains@, i as int, registration, *catalogue) == i,
            placed@.len() == i,
            forall|j: int|
                0 <= j < i ==> train_placed(
                    trains@,
                    j,
                    registration,
                    *catalogue,
                    #[trigger] placed@[j],
                ),
            units_follow(sequences@, trains@, *catalogue, i as int),
        decreases trains.len() - i,
    {
        let ghost count = trains@.len() as int;
        let train = &trains[i];
        if train.speed_metres_per_second > i64::MAX as u64 {
            proof {
                lemma_first_unplaced(trains@, i + 1, count, registration, *catalogue);
            }
            return Err(SaveCodecError::InvalidValue { field: "legacy Train speed" });
        }
        if train.fuel_cost_per_kilometre.cents_per_kilometre > i64::MAX as u64 {
            proof {
                lemma_first_unplaced(trains@, i + 1, count, registration, *catalogue);
            }
            return Err(SaveCodecError::InvalidValue { field: "legacy Train fuel rate" });
        }
        let model = match catalogue_model_for_legacy_signature(
            catalogue,
            train.model_name.as_str(),
            train.passenger_capacity as i64,
            train.speed_metres_per_second as i64,
            train.fuel_cost_per_kilometre.cents_per_kilometre as i64,
        ) {
            Some(model) => model,
            None => {
                proof {
                    assert forall|k: int| !is_model_at(*train, *catalogue, k) by {
                        if 0 <= k < catalogue.models@.len() {
                            assert(!signed(*train, catalogue.models@[k]));
                        }
                    }
                    lemma_first_unplaced(trains@, i + 1, count, registration, *catalogue);
                }
                return Err(
                    SaveCodecError::TrainModelNotFound { model_name: train.model_name.clone() },
                );
            },
        };
        proof {
            let k = choose|k: int|
                0 <= k < catalogue.models@.len() && #[trigger] catalogue.models@[k] == *model
                    && signed(*train, *model) && forall|j: int|
                    0 <= j < k ==> !has_signature(
                        #[trigger] catalogue.models@[j],
                        train.model_name@,
                        train.passenger_capacity as i64,
                        train.speed_metres_per_second as i64,
                        train.fuel_cost_per_kilometre.cents_per_kilometre as i64,
                    );
            assert(is_model_at(*train, *catalogue, k));
            lemma_model_at(*train, *catalogue, k);
        }
        let ghost name = model.id.name@;
        assert(model_of(trains@[i as int], *catalogue) == *model);
        let position = find_sequence(&sequences, model.id.as_str());
        let unit: u16 = match position {
            Some(k) => sequences[k].next_unit_number,
            None => 1,
        };
        let ghost models = models_in_use(trains@, *catalogue, i as int);
        proof {
            lemma_models_in_use(trains@, *catalogue, i as int);
            assert(earlier_units(trains@, *catalogue, name, i as int) >= 0);
            match position {
                Some(k) => {
                    assert(models[k as int] == name);
                },
                None => {
                    if models.contains(name) {
                        let k = choose|k: int| 0 <= k < models.len() && models[k] == name;
                        assert(sequences@[k].model_id.name@ == name);
                    }
                },
            }
        }
        assert(unit == legacy_unit(trains@, *catalogue, i as int));
        let evn = match EuropeanVehicleNumber::generate(
            model.evn_type_code,
            registration,
            model.evn_series_code,
            unit,
        ) {
            Ok(evn) => evn,
            Err(_) => {
                proof {
                    lemma_first_unplaced(trains@, i + 1, count, registration, *catalogue);
                }
                return Err(SaveCodecError::InvalidValue { field: "European Vehicle Number" });
            },
        };
        placed.push(
            Train {
                id: train.id,
                evn,
                nickname: None,
                status: train.status,
                model_id: TrainModelId { name: model.id.name.clone() },
                original_purchase_price: train.original_purchase_price,
            },
        );
        let ghost before = sequences@;
        let model_id = TrainModelId { name: model.id.name.clone() };
        match position {
            Some(k) => {
                sequences.set(k, ModelUnitSequence { model_id, next_unit_number: unit + 1 });
            },
            None => {
                sequences.push(ModelUnitSequence { model_id, next_unit_number: 2 });
            },
        }
        proof {
            let after = sequences@;
            let place: int = if position is Some {
                position->0 as int
            } else {
                before.len() as int
            };
            let next = models_in_use(trains@, *catalogue, i + 1);
            assert(next == if position is Some {
                models
            } else {
                models.push(name)
            });
            assert forall|k: int| 0 <= k < after.len() implies (#[trigger] after[k]).model_id.name@
                == next[k] && after[k].next_unit_number == 1 + earlier_units(
                trains@,
                *catalogue,
                next[k],
                i + 1,
            ) by {
                if k != place {
                    assert(after[k] == before[k]);
                    assert(models[k] != name);
                }
            }
        }
        i += 1;
    }
    Ok((placed, sequences))
}

/// The forward train number of a Service of the first format.
pub open spec fn legacy_number(i: int) -> int {
    100 + 2 * i
}

/// Whether a Service is what a Service of the first format becomes.
pub open spec fn service_placed(old: LegacyService, i: int, service: PassengerService) -> bool {
    &&& service.id == old.id
    &&& service.name@ == "R"@ + decimal(display_number(old.id.value) as nat)
    &&& service.custom_name is None
    &&& service.direction_mode is BothDirections
    &&& service.forward_train_number == legacy_number(i)
    &&& service.reverse_train_number == Some((legacy_number(i) + 1) as u32)
    &&& service.stop_station_ids@ == seq![old.first_station_id, old.second_station_id]
    &&& service.rail_line_ids@ == old.rail_line_ids@
}

/// Whether the train numbers of so many Services fit their unit.
pub open spec fn numbers_fit(count: int) -> bool {
    count > 0 ==> legacy_number(count - 1) + 1 <= u32::MAX
}

/// Places the Services of the first format in the current one.
pub fn place_services(services: &Vec<LegacyService>) -> (result: Result<
    Vec<PassengerService>,
    SaveCodecError,
>)
    ensures
        match result {
            Ok(placed) => {
                &&& numbers_fit(services@.len() as int)
                &&& placed@.len() == services@.len()
                &&& forall|i: int|
                    0 <= i < services@.len() ==> service_placed(
                        services@[i],
                        i,
                        #[trigger] placed@[i],
                    )
            },
            Err(error) => !numbers_fit(services@.len() as int) && error == (
            SaveCodecError::InvalidValue { field: "Passenger Service train number" }),
        },
{
    let mut placed: Vec<PassengerService> = Vec::new();
    let mut i: usize = 0;
    while i < services.len()
        invariant
            i <= services@.len(),
            numbers_fit(i as int),
            placed@.len() == i,
            forall|j: int|
                0 <= j < i ==> service_placed(services@[j], j, #[trigger] placed@[j]),
        decreases services.len() - i,
    {
        let service = &services[i];
        if i as u64 > 2_147_483_597 {
            return Err(SaveCodecError::InvalidValue { field: "Passenger Service train number" });
        }
        let forward_train_number: u32 = 100 + 2 * (i as u32);
        let number = decimal_text(service.id.get());
        let mut stop_station_ids: Vec<RailStationId> = Vec::new();
        stop_station_ids.push(service.first_station_id);
        stop_station_ids.push(service.second_station_id);
        assert(stop_station_ids@ =~= seq![service.first_station_id, service.second_station_id]);
        placed.push(
            PassengerService {
                id: service.id,
                name: "R".to_owned().concat(number.as_str()),
                custom_name: None,
                direction_mode: ServiceDirectionMode::BothDirections,
                forward_train_number,
                reverse_train_number: Some(forward_train_number + 1),
                stop_station_ids,
                rail_line_ids: copy_line_ids(&service.rail_line_ids),
            },
        );
        i += 1;
    }
    Ok(placed)
}

/// Where a Journey of the first format stands on its Service: at the last stop if it runs
/// against the stop order, and otherwise where it stood.
pub open spec fn legacy_stop(journey: Journey, services: Seq<PassengerService>) -> int {
    if has_service(services, journey.service_id) {
        let service = the_service(services, journey.service_id);
        let count = service.stop_station_ids@.len() as int;
        let from = if count > 0 {
            service.stop_station_ids@.last()
        } else {
            journey.origin_station_id
        };
        let to = if count > 0 {
            service.stop_station_ids@[0]
        } else {
            journey.destination_station_id
        };
        if journey.origin_station_id == from && journey.destination_station_id == to {
            if count > 0 {
                count - 1
            } else {
                0
            }
        } else {
            journey.current_stop_index as int
        }
    } else {
        journey.current_stop_index as int
    }
}

/// The groups of a Journey of the first format: all passengers ride the whole way.
pub open spec fn legacy_groups(journey: Journey) -> Seq<JourneyPassengerGroup> {
    if journey.passenger_groups@.len() == 0 && journey.passengers_carried > 0 {
        seq![
            JourneyPassengerGroup {
                origin_station_id: journey.origin_station_id,
                destination_station_id: journey.destination_station_id,
                passengers: journey.passengers_carried,
                fare: journey.fare,
            },
        ]
    } else {
        journey.passenger_groups@
    }
}

/// Whether a Journey is what a Journey of the first format becomes.
pub open spec fn journey_placed(
    old: Journey,
    services: Seq<PassengerService>,
    journey: Journey,
) -> bool {
    &&& journey.current_stop_index == legacy_stop(old, services)
    &&& journey.passenger_groups@ == legacy_groups(old)
    &&& journey == (Journey {
        current_stop_index: journey.current_stop_index,
        passenger_groups: journey.passenger_groups,
        ..old
    })
}

fn place_journey(journey: Journey, services: &Vec<PassengerService>) -> (result: Journey)
    ensures
        journey_placed(journey, services@, result),
{
    let mut placed = journey;
    if let Some(service) = find_service(services, placed.service_id) {
        let from = match service.destination_station_id() {
            Some(id) => id,
            None => placed.origin_station_id,
        };
        let to = match service.origin_station_id() {
            Some(id) => id,
            None => placed.destination_station_id,
        };
        if placed.origin_station_id == from && placed.destination_station_id == to {
            placed.current_stop_index = if service.stop_station_ids.len() > 0 {
                service.stop_station_ids.len() - 1
            } else {
                0
            };
        }
    }
    if placed.passenger_groups.len() == 0 && placed.passengers_carried > 0 {
        let group = JourneyPassengerGroup {
            origin_station_id: placed.origin_station_id,
            destination_station_id: placed.destination_station_id,
            passengers: placed.passengers_carried,
            fare: placed.fare,
        };
        let mut groups: Vec<JourneyPassengerGroup> = Vec::new();
        groups.push(group);
        assert(groups@ =~= legacy_groups(journey));
        placed.passenger_groups = groups;
    }
    placed
}

fn place_journeys(journeys: Vec<Journey>, services: &Vec<PassengerService>) -> (placed: Vec<Journey>)
    ensures
        placed@.len() == journeys@.len(),
        forall|i: int|
            0 <= i < journeys@.len() ==> journey_placed(
                journeys@[i],
                services@,
                #[trigger] placed@[i],
            ),
{
    let ghost all = journeys@;
    let mut rest = journeys;
    let mut reversed: Vec<Journey> = Vec::new();
    while rest.len() > 0
        invariant
            rest@.len() + reversed@.len() == all.len(),
            rest@ == all.take(rest@.len() as int),
            forall|k: int|
                0 <= k < reversed@.len() ==> journey_placed(
                    all[all.len() - 1 - k],
                    services@,
                    #[trigger] reversed@[k],
                ),
        decreases rest.len(),
    {
        let ghost before = rest@;
        match rest.pop() {
            Some(journey) => {
                assert(journey == all[before.len() - 1]);
                reversed.push(place_journey(journey, services));
                assert(rest@ =~= all.take(rest@.len() as int));
            },
            None => {},
        }
    }
    let mut placed: Vec<Journey> = Vec::new();
    let ghost turned = reversed@;
    while reversed.len() > 0
        invariant
            turned.len() == all.len(),
            reversed@.len() + placed@.len() == all.len(),
            reversed@ == turned.take(reversed@.len() as int),
            forall|k: int|
                0 <= k < turned.len() ==> journey_placed(
                    all[all.len() - 1 - k],
                    services@,
                    #[trigger] turned[k],
                ),
            forall|i: int|
                0 <= i < placed@.len() ==> journey_placed(all[i], services@, #[trigger] placed@[i]),
        decreases reversed.len(),
    {
        let ghost before = reversed@;
        match reversed.pop() {
            Some(journey) => {
                assert(journey == turned[before.len() - 1]);
                assert(all.len() - 1 - (before.len() - 1) == placed@.len());
                placed.push(journey);
                assert(reversed@ =~= turned.take(reversed@.len() as int));
            },
            None => {},
        }
    }
    placed
}

/// The next display number: one above every Train's, and at least one.
pub open spec fn is_next_number(trains: Seq<Train>, next: int) -> bool {
    &&& next >= 1
    &&& forall|i: int| 0 <= i < trains.len() ==> display_number((#[trigger] trains[i]).id.value) < next
    &&& next == 1 || exists|i: int|
        0 <= i < trains.len() && display_number((#[trigger] trains[i]).id.value) == next - 1
}

fn next_display_number(trains: &Vec<Train>) -> (next: u64)
    ensures
        is_next_number(trains@, next as int),
{
    let mut next: u64 = 1;
    let mut i: usize = 0;
    while i < trains.len()
        invariant
            i <= trains@.len(),
            1 <= next <= 0x1_0000_0000_0000,
            forall|j: int|
                0 <= j < i ==> display_number((#[trigger] trains@[j]).id.value) < next,
            next == 1 || exists|j: int|
                0 <= j < i && display_number((#[trigger] trains@[j]).id.value) == next - 1,
        decreases trains.len() - i,
    {
        let number: u64 = trains[i].id.get();
        if number >= next {
            next = number + 1;
            assert(display_number(trains@[i as int].id.value) == next - 1);
        }
        i += 1;
    }
    next
}

/// Whether a game is what a game of the first format becomes.
pub open spec fn game_converted(
    old: LegacyGame,
    additions: LegacyAdditions,
    catalogue: TrainCatalogue,
    state: GameState,
) -> bool {
    let code = additions.registration.numeric_code;
    let company = state.player_company;
    &&& state.world_seed == old.world_seed
    &&& state.region == (Region { railway_registration: additions.registration, ..old.region })
    &&& company.name == old.company_name
    &&& company.vehicle_keeper_mark == additions.vehicle_keeper_mark
    &&& company.funds == old.funds
    &&& company.fleet.trains@.len() == old.trains@.len()
    &&& forall|i: int|
        0 <= i < old.trains@.len() ==> train_placed(
            old.trains@,
            i,
            code,
            catalogue,
            #[trigger] company.fleet.trains@[i],
        )
    &&& is_next_number(company.fleet.trains@, company.fleet.next_train_display_number as int)
    &&& units_follow(
        company.fleet.next_evn_unit_by_model@,
        old.trains@,
        catalogue,
        old.trains@.len() as int,
    )
    &&& company.fleet.service_assignments@.len() == 0
    &&& company.passenger_services@.len() == old.services@.len()
    &&& forall|i: int|
        0 <= i < old.services@.len() ==> service_placed(
            old.services@[i],
            i,
            #[trigger] company.passenger_services@[i],
        )
    &&& state.origin_destination_demand == old.origin_destination_demand
    &&& state.active_journeys@.len() == old.active_journeys@.len()
    &&& forall|i: int|
        0 <= i < old.active_journeys@.len() ==> journey_placed(
            old.active_journeys@[i],
            company.passenger_services@,
            #[trigger] state.active_journeys@[i],
        )
    &&& state.financials == old.financials
    &&& state.rules == (GameRules {
        balance: old.balance,
        demand: old.demand,
        authority: additions.authority,
    })
    &&& state.last_processed_at == old.last_processed_at
    &&& state.bulletin_seen_count == 0
}

/// A save of the first format becomes one game: whatever it is converted to is the same, value
/// by value, and is valid or faulty alike.
pub proof fn conversion_is_determined(
    old: LegacyGame,
    additions: LegacyAdditions,
    facts: SimulationFacts,
    first: GameState,
    second: GameState,
)
    requires
        game_converted(old, additions, facts.catalogue, first),
        game_converted(old, additions, facts.catalogue, second),
    ensures
        same_state(first, second),
        state_fault(first, facts) == state_fault(second, facts),
{
    let a = first.player_company;
    let b = second.player_company;
    assert forall|i: int| 0 <= i < a.fleet.trains@.len() implies same_train(
        a.fleet.trains@[i],
        #[trigger] b.fleet.trains@[i],
    ) by {
        assert(train_placed(
            old.trains@,
            i,
            additions.registration.numeric_code,
            facts.catalogue,
            a.fleet.trains@[i],
        ));
    }
    lemma_next_number(
        a.fleet.trains@,
        b.fleet.trains@,
        a.fleet.next_train_display_number as int,
        b.fleet.next_train_display_number as int,
    );
    lemma_next_number(
        b.fleet.trains@,
        a.fleet.trains@,
        b.fleet.next_train_display_number as int,
        a.fleet.next_train_display_number as int,
    );
    assert forall|i: int| 0 <= i < a.fleet.next_evn_unit_by_model@.len() implies same_unit(
        a.fleet.next_evn_unit_by_model@[i],
        #[trigger] b.fleet.next_evn_unit_by_model@[i],
    ) by {
        assert(a.fleet.next_evn_unit_by_model@[i].model_id.name@
            == b.fleet.next_evn_unit_by_model@[i].model_id.name@);
    }
    assert(a.fleet.service_assignments@ =~= b.fleet.service_assignments@);
    assert forall|i: int| 0 <= i < a.passenger_services@.len() implies same_service(
        a.passenger_services@[i],
        #[trigger] b.passenger_services@[i],
    ) by {
        assert(service_placed(old.services@[i], i, a.passenger_services@[i]));
    }
    assert forall|i: int| 0 <= i < first.active_journeys@.len() implies same_journey(
        first.active_journeys@[i],
        #[trigger] second.active_journeys@[i],
    ) by {
        let journey = old.active_journeys@[i];
        assert(journey_placed(journey, a.passenger_services@, first.active_journeys@[i]));
        lemma_the_service(a.passenger_services@, b.passenger_services@, journey.service_id);
    }
    assert(same_receipts(
        first.financials.recent_journey_receipts@,
        second.financials.recent_journey_receipts@,
    ));
    same_games_have_the_same_fault(first, second, facts);
}

proof fn lemma_next_number(first: Seq<Train>, second: Seq<Train>, low: int, high: int)
    requires
        first.len() == second.len(),
        forall|i: int| 0 <= i < first.len() ==> first[i].id == (#[trigger] second[i]).id,
        is_next_number(first, low),
        is_next_number(second, high),
    ensures
        high <= low,
{
    if high > 1 {
        let i = choose|i: int|
            0 <= i < second.len() && display_number((#[trigger] second[i]).id.value) == high - 1;
        assert(display_number(first[i].id.value) < low);
    }
}

/// Turns a parsed save of the first format into a valid game of the current one.
pub fn decode_legacy_game_state(
    legacy: LegacyGame,
    additions: LegacyAdditions,
    facts: &SimulationFacts,
) -> (result: Result<GameState, SaveCodecError>)
    ensures
        ({
            let code = additions.registration.numeric_code;
            let count = legacy.trains@.len() as int;
            let first = first_unplaced(legacy.trains@, count, code, facts.catalogue);
            match result {
                Ok(state) => {
                    &&& legacy.version == LEGACY_RON_VERSION
                    &&& first == count
                    &&& numbers_fit(legacy.services@.len() as int)
                    &&& game_converted(legacy, additions, facts.catalogue, state)
                    &&& valid_game(state, *facts)
                },
                Err(error) => {
                    if legacy.version != LEGACY_RON_VERSION {
                        error == (SaveCodecError::UnsupportedVersion { found: legacy.version })
                    } else if first < count {
                        reports_train(
                            error,
                            legacy_train_fault(legacy.trains@, first, code, facts.catalogue)->0,
                            legacy.trains@[first].model_name@,
                        )
                    } else if !numbers_fit(legacy.services@.len() as int) {
                        error == (SaveCodecError::InvalidValue {
                            field: "Passenger Service train number",
                        })
                    } else {
                        exists|state: GameState|
                            {
                                &&& #[trigger] game_converted(
                                    legacy,
                                    additions,
                                    facts.catalogue,
                                    state,
                                )
                                &&& state_fault(state, *facts) is Some
                                &&& error == SaveCodecError::InvalidState(
                                    state_fault(state, *facts)->0,
                                )
                            }
                    }
                },
            }
        }),
        forall|state: GameState|
            legacy.version == LEGACY_RON_VERSION && first_unplaced(
                legacy.trains@,
                legacy.trains@.len() as int,
                additions.registration.numeric_code,
                facts.catalogue,
            ) == legacy.trains@.len() && numbers_fit(legacy.services@.len() as int)
                && #[trigger] game_converted(legacy, additions, facts.catalogue, state)
                ==> match result {
                Ok(decoded) => valid_game(state, *facts) && same_state(state, decoded),
                Err(error) => state_fault(state, *facts) is Some && error
                    == SaveCodecError::InvalidState(state_fault(state, *facts)->0),
            },
{
    if legacy.version != LEGACY_RON_VERSION {
        return Err(SaveCodecError::UnsupportedVersion { found: legacy.version });
    }
    let ghost old = legacy;
    let ghost added = additions;
    let (trains, next_evn_unit_by_model) = match place_trains(
        &legacy.trains,
        additions.registration.numeric_code,
        &facts.catalogue,
    ) {
        Ok(placed) => placed,
        Err(error) => return Err(error),
    };
    let passenger_services = match place_services(&legacy.services) {
        Ok(services) => services,
        Err(error) => return Err(error),
    };
    let active_journeys = place_journeys(legacy.active_journeys, &passenger_services);
    let next_train_display_number: u64 = next_display_number(&trains);
    let mut region = legacy.region;
    region.railway_registration = additions.registration;
    let state = GameState {
        world_seed: legacy.world_seed,
        region,
        player_company: PlayerCompany {
            name: legacy.company_name,
            vehicle_keeper_mark: additions.vehicle_keeper_mark,
            funds: legacy.funds,
            fleet: Fleet {
                trains,
                next_train_display_number,
                next_evn_unit_by_model,
                service_assignments: Vec::new(),
            },
            passenger_services,
        },
        origin_destination_demand: legacy.origin_destination_demand,
        active_journeys,
        financials: legacy.financials,
        rules: GameRules {
            balance: legacy.balance,
            demand: legacy.demand,
            authority: additions.authority,
        },
        last_processed_at: legacy.last_processed_at,
        bulletin_seen_count: 0,
    };
    assert(game_converted(old, added, facts.catalogue, state));
    proof {
        assert forall|other: GameState| #[trigger]
            game_converted(old, added, facts.catalogue, other) implies same_state(other, state)
            && state_fault(other, *facts) == state_fault(state, *facts) by {
            conversion_is_determined(old, added, *facts, other, state);
        }
    }
    match validate_game_state(&state, facts) {
        Ok(()) => Ok(state),
        Err(error) => Err(SaveCodecError::InvalidState(error)),
    }
}

} // verus!
