//! Vehicle numbers and catalogue models of Trains from earlier saves.

use vstd::prelude::*;

use crate::model::catalogue::{TrainCatalogue, TrainModel};
use crate::model::company::ModelUnitSequence;
use crate::model::identity::{
    check_digit, is_vehicle_number, number_fields, numberable, vehicle_registration, vehicle_unit,
    EuropeanVehicleNumber, TrainModelId,
};
use crate::storage::codec::SaveCodecError;
use crate::text::{digit, same_text};

verus! {

/// The identity under which the catalogue lists a stored model: two early models were
/// replaced.
pub open spec fn current_model(stored: Seq<char>) -> Seq<char> {
    if stored == "local-70"@ {
        "helvetra-r70"@
    } else if stored == "express-120"@ {
        "veltrian-d121"@
    } else {
        stored
    }
}

pub fn replacement_model_id(stored: &str) -> (result: TrainModelId)
    ensures
        result.name@ == current_model(stored@),
{
    if same_text(stored, "local-70") {
        TrainModelId { name: "helvetra-r70".to_owned() }
    } else if same_text(stored, "express-120") {
        TrainModelId { name: "veltrian-d121".to_owned() }
    } else {
        TrainModelId { name: stored.to_owned() }
    }
}

/// The catalogue's model for a stored identity.
pub fn catalogue_model_for_persisted_id<'a>(catalogue: &'a TrainCatalogue, stored: &str) -> (result:
    Option<&'a TrainModel>)
    ensures
        match result {
            Some(model) => catalogue.lists(current_model(stored@)) && *model == catalogue.model(
                current_model(stored@),
            ),
            None => !catalogue.lists(current_model(stored@)),
        },
{
    let id = replacement_model_id(stored);
    catalogue.by_id(&id)
}

/// Whether a recorded name is a model's own, or the one it had before the model was replaced.
pub open spec fn is_known_as(model: TrainModel, name: Seq<char>) -> bool {
    ||| model.name@ == name
    ||| name == "Local 70"@ && model.id.name@ == "helvetra-r70"@
    ||| name == "Express 120"@ && model.id.name@ == "veltrian-d121"@
}

/// Whether a model has the name, capacity, speed and fuel rate that an early save recorded.
pub open spec fn has_signature(
    model: TrainModel,
    name: Seq<char>,
    capacity: i64,
    speed: i64,
    fuel_rate: i64,
) -> bool {
    &&& is_known_as(model, name)
    &&& model.passenger_capacity == capacity
    &&& model.speed_metres_per_second == speed
    &&& model.fuel_cost_per_kilometre.cents_per_kilometre == fuel_rate
}

/// The first catalogue model with a recorded signature.
pub fn catalogue_model_for_legacy_signature<'a>(
    catalogue: &'a TrainCatalogue,
    name: &str,
    capacity: i64,
    speed: i64,
    fuel_rate: i64,
) -> (result: Option<&'a TrainModel>)
    ensures
        match result {
            Some(model) => exists|i: int|
                0 <= i < catalogue.models@.len() && #[trigger] catalogue.models@[i] == *model
                    && has_signature(*model, name@, capacity, speed, fuel_rate) && forall|j: int|
                    0 <= j < i ==> !has_signature(
                        #[trigger] catalogue.models@[j],
                        name@,
                        capacity,
                        speed,
                        fuel_rate,
                    ),
            None => forall|j: int|
                0 <= j < catalogue.models@.len() ==> !has_signature(
                    #[trigger] catalogue.models@[j],
                    name@,
                    capacity,
                    speed,
                    fuel_rate,
                ),
        },
{
    let mut i: usize = 0;
    while i < catalogue.models.len()
        invariant
            i <= catalogue.models@.len(),
            forall|j: int|
                0 <= j < i ==> !has_signature(
                    #[trigger] catalogue.models@[j],
                    name@,
                    capacity,
                    speed,
                    fuel_rate,
                ),
        decreases catalogue.models.len() - i,
    {
        let model = &catalogue.models[i];
        let known = same_text(model.name.as_str(), name) || (same_text(name, "Local 70")
            && same_text(model.id.name.as_str(), "helvetra-r70")) || (same_text(
            name,
            "Express 120",
        ) && same_text(model.id.name.as_str(), "veltrian-d121"));
        if known && model.passenger_capacity as i64 == capacity
            && speed >= 0 && model.speed_metres_per_second == speed as u64 && fuel_rate >= 0
            && model.fuel_cost_per_kilometre.cents_per_kilometre == fuel_rate as u64 {
            assert(catalogue.models@[i as int] == *model);
            return Some(model);
        }
        i += 1;
    }
    None
}

/// A Train of an early save that has no vehicle number yet.
#[derive(Clone, Debug, PartialEq, Eq)]
pub struct UnnumberedTrain {
    pub id: i64,
    pub model_id: String,
}

/// How many of the first `count` Trains are of a model.
pub open spec fn trains_of(trains: Seq<UnnumberedTrain>, model: Seq<char>, count: int) -> int
    decreases count,
{
    if count <= 0 {
        0
    } else {
        trains_of(trains, model, count - 1) + if trains[count - 1].model_id@ == model {
            1int
        } else {
            0
        }
    }
}

/// The unit number of a Train: Trains of a model are numbered from one in order.
pub open spec fn unit_of(trains: Seq<UnnumberedTrain>, i: int) -> int {
    1 + trains_of(trains, trains[i].model_id@, i)
}

/// Why a Train cannot be numbered, or nothing.
pub enum NumberingFault {
    Field { field: &'static str },
    Model,
}

pub open spec fn numbering_fault(
    trains: Seq<UnnumberedTrain>,
    i: int,
    registration: u8,
    catalogue: TrainCatalogue,
) -> Option<NumberingFault> {
    let stored = trains[i].model_id@;
    let model = catalogue.model(current_model(stored));
    let unit = unit_of(trains, i);
    if trains[i].id < 0 {
        Some(NumberingFault::Field { field: "Train ID" })
    } else if !catalogue.lists(current_model(stored)) {
        Some(NumberingFault::Model)
    } else if unit > 999 {
        Some(NumberingFault::Field { field: "EVN unit number" })
    } else if !numberable(
        model.evn_type_code as int,
        registration as int,
        model.evn_series_code as int,
        unit,
    ) {
        Some(NumberingFault::Field { field: "European Vehicle Number" })
    } else {
        None
    }
}

/// The first Train that cannot be numbered, or the number of Trains.
pub open spec fn first_unnumbered(
    trains: Seq<UnnumberedTrain>,
    count: int,
    registration: u8,
    catalogue: TrainCatalogue,
) -> int
    decreases count,
{
    if count <= 0 {
        0
    } else {
        let earlier = first_unnumbered(trains, count - 1, registration, catalogue);
        if earlier < count - 1 {
            earlier
        } else if numbering_fault(trains, count - 1, registration, catalogue) is Some {
            count - 1
        } else {
            count
        }
    }
}

proof fn lemma_first_unnumbered(
    trains: Seq<UnnumberedTrain>,
    low: int,
    high: int,
    registration: u8,
    catalogue: TrainCatalogue,
)
    requires
        0 <= low <= high,
        first_unnumbered(trains, low, registration, catalogue) < low,
    ensures
        first_unnumbered(trains, high, registration, catalogue) == first_unnumbered(
            trains,
            low,
            registration,
            catalogue,
        ),
    decreases high - low,
{
    if low < high {
        lemma_first_unnumbered(trains, low, high - 1, registration, catalogue);
    }
}

/// The number that a Train receives.
pub open spec fn vehicle_number(
    trains: Seq<UnnumberedTrain>,
    i: int,
    registration: u8,
    catalogue: TrainCatalogue,
) -> Seq<char> {
    let model = catalogue.model(current_model(trains[i].model_id@));
    let fields = number_fields(
        model.evn_type_code as int,
        registration as int,
        model.evn_series_code as int,
        unit_of(trains, i),
    );
    fields.push(digit(check_digit(fields)))
}

/// A Train's identity and the vehicle number that it receives.
#[derive(Clone, Debug, PartialEq, Eq)]
pub struct NumberedTrain {
    pub id: u64,
    pub evn: EuropeanVehicleNumber,
}

/// Whether a model has a sequence.
pub open spec fn listed(sequences: Seq<ModelUnitSequence>, model: Seq<char>) -> bool {
    exists|k: int| 0 <= k < sequences.len() && (#[trigger] sequences[k]).model_id.name@ == model
}

fn find_sequence(sequences: &Vec<ModelUnitSequence>, model: &str) -> (result: Option<usize>)
    ensures
        match result {
            Some(k) => k < sequences@.len() && sequences@[k as int].model_id.name@ == model@,
            None => !listed(sequences@, model@),
        },
{
    let mut k: usize = 0;
    while k < sequences.len()
        invariant
            k <= sequences@.len(),
            forall|j: int| 0 <= j < k ==> (#[trigger] sequences@[j]).model_id.name@ != model@,
        decreases sequences.len() - k,
    {
        if same_text(sequences[k].model_id.as_str(), model) {
            return Some(k);
        }
        k += 1;
    }
    None
}

/// Whether the sequences hold the next unit number of every model among the first `count`
/// Trains, each model once.
pub open spec fn sequences_follow(
    sequences: Seq<ModelUnitSequence>,
    trains: Seq<UnnumberedTrain>,
    count: int,
) -> bool {
    &&& forall|k: int|
        0 <= k < sequences.len() ==> (#[trigger] sequences[k]).next_unit_number == 1 + trains_of(
            trains,
            sequences[k].model_id.name@,
            count,
        )
    &&& forall|a: int, b: int|
        0 <= a < b < sequences.len() ==> (#[trigger] sequences[a]).model_id.name@ != (
        #[trigger] sequences[b]).model_id.name@
    &&& forall|i: int|
        0 <= i < count ==> listed(sequences, (#[trigger] trains[i]).model_id@)
    &&& forall|k: int|
        0 <= k < sequences.len() ==> trains_of(
            trains,
            (#[trigger] sequences[k]).model_id.name@,
            count,
        ) > 0
}

/// Whether an error is what a fault of a Train is reported as.
pub open spec fn reports(error: SaveCodecError, fault: NumberingFault, model: Seq<char>) -> bool {
    match fault {
        NumberingFault::Field { field } => error == (SaveCodecError::InvalidValue { field }),
        NumberingFault::Model => error matches SaveCodecError::TrainModelNotFound { model_name }
            && model_name@ == model,
    }
}

proof fn lemma_trains_of(trains: Seq<UnnumberedTrain>, model: Seq<char>, count: int)
    requires
        0 <= count,
    ensures
        0 <= trains_of(trains, model, count) <= count,
    decreases count,
{
    if count > 0 {
        lemma_trains_of(trains, model, count - 1);
    }
}

/// Numbers the Trains of an early save: within each model from one, in the given order.
pub fn assign_vehicle_numbers(
    trains: &Vec<UnnumberedTrain>,
    registration: u8,
    catalogue: &TrainCatalogue,
) -> (result: Result<(Vec<NumberedTrain>, Vec<ModelUnitSequence>), SaveCodecError>)
    ensures
        ({
            let first = first_unnumbered(
                trains@,
                trains@.len() as int,
                registration,
                *catalogue,
            );
            match result {
                Ok((numbered, sequences)) => {
                    &&& first == trains@.len()
                    &&& numbered@.len() == trains@.len()
                    &&& forall|i: int|
                        0 <= i < trains@.len() ==> (#[trigger] numbered@[i]).id == trains@[i].id
                            && numbered@[i].evn.digits@ == vehicle_number(
                            trains@,
                            i,
                            registration,
                            *catalogue,
                        ) && numbered@[i].evn.wf() && vehicle_unit(numbered@[i].evn.digits@)
                            == unit_of(trains@, i)
                    &&& sequences_follow(sequences@, trains@, trains@.len() as int)
                },
                Err(error) => {
                    &&& 0 <= first < trains@.len()
                    &&& numbering_fault(trains@, first, registration, *catalogue) is Some
                    &&& reports(
                        error,
                        numbering_fault(trains@, first, registration, *catalogue)->0,
                        trains@[first].model_id@,
                    )
                },
            }
        }),
{
    let mut numbered: Vec<NumberedTrain> = Vec::new();
    let mut sequences: Vec<ModelUnitSequence> = Vec::new();
    let mut i: usize = 0;
    while i < trains.len()
        invariant
            i <= trains@.len(),
            first_unnumbered(trains@, i as int, registration, *catalogue) == i,
            numbered@.len() == i,
            forall|j: int|
                0 <= j < i ==> (#[trigger] numbered@[j]).id == trains@[j].id
                    && numbered@[j].evn.digits@ == vehicle_number(
                    trains@,
                    j,
                    registration,
                    *catalogue,
                ) && numbered@[j].evn.wf() && vehicle_unit(numbered@[j].evn.digits@) == unit_of(
                    trains@,
                    j,
                ),
            sequences_follow(sequences@, trains@, i as int),
        decreases trains.len() - i,
    {
        let ghost count = trains@.len() as int;
        let train = &trains[i];
        if train.id < 0 {
            proof {
                lemma_first_unnumbered(trains@, i + 1, count, registration, *catalogue);
            }
            return Err(SaveCodecError::InvalidValue { field: "Train ID" });
        }
        let model = match catalogue_model_for_persisted_id(catalogue, train.model_id.as_str()) {
            Some(model) => model,
            None => {
                proof {
                    lemma_first_unnumbered(trains@, i + 1, count, registration, *catalogue);
                }
                return Err(
                    SaveCodecError::TrainModelNotFound { model_name: train.model_id.clone() },
                );
            },
        };
        let ghost name = train.model_id@;
        let position = find_sequence(&sequences, train.model_id.as_str());
        let unit: u16 = match position {
            Some(k) => sequences[k].next_unit_number,
            None => {
                proof {
                    lemma_no_trains_of(sequences@, trains@, i as int, name);
                }
                1
            },
        };
        assert(unit == unit_of(trains@, i as int));
        if unit > EuropeanVehicleNumber::MAX_UNIT_NUMBER {
            proof {
                lemma_first_unnumbered(trains@, i + 1, count, registration, *catalogue);
            }
            return Err(SaveCodecError::InvalidValue { field: "EVN unit number" });
        }
        let evn = match EuropeanVehicleNumber::generate(
            model.evn_type_code,
            registration,
            model.evn_series_code,
            unit,
        ) {
            Ok(evn) => evn,
            Err(_) => {
                proof {
                    lemma_first_unnumbered(trains@, i + 1, count, registration, *catalogue);
                }
                return Err(SaveCodecError::InvalidValue { field: "European Vehicle Number" });
            },
        };
        numbered.push(NumberedTrain { id: train.id as u64, evn });
        let ghost before = sequences@;
        let model_id = TrainModelId { name: train.model_id.clone() };
        match position {
            Some(k) => {
                sequences.set(k, ModelUnitSequence { model_id, next_unit_number: unit + 1 });
            },
            None => {
                sequences.push(ModelUnitSequence { model_id, next_unit_number: 2 });
            },
        }
        proof {
            lemma_trains_of(trains@, name, i as int);
            let after = sequences@;
            let place: int = if position is Some {
                position->0 as int
            } else {
                before.len() as int
            };
            assert forall|k: int| 0 <= k < after.len() && k != place implies after[k] == before[k]
                && (#[trigger] after[k]).model_id.name@ != name by {
                if position is Some {
                    if k < place {
                        assert(before[k].model_id.name@ != before[place].model_id.name@);
                    } else {
                        assert(before[place].model_id.name@ != before[k].model_id.name@);
                    }
                } else {
                    assert(!listed(before, name));
                    assert(before[k].model_id.name@ != name);
                }
            }
            assert forall|k: int| 0 <= k < after.len() implies (
            #[trigger] after[k]).next_unit_number == 1 + trains_of(
                trains@,
                after[k].model_id.name@,
                i + 1,
            ) && trains_of(trains@, after[k].model_id.name@, i + 1) > 0 by {
                if k != place {
                    assert(after[k] == before[k]);
                    assert(before[k].next_unit_number == 1 + trains_of(
                        trains@,
                        before[k].model_id.name@,
                        i as int,
                    ));
                }
            }
            assert forall|a: int, b: int| 0 <= a < b < after.len() implies (
            #[trigger] after[a]).model_id.name@ != (#[trigger] after[b]).model_id.name@ by {
                if a != place && b != place {
                    assert(before[a].model_id.name@ != before[b].model_id.name@);
                }
            }
            assert forall|j: int| 0 <= j < i + 1 implies listed(
                after,
                (#[trigger] trains@[j]).model_id@,
            ) by {
                if j < i {
                    assert(listed(before, trains@[j].model_id@));
                    let k = choose|k: int|
                        0 <= k < before.len() && (#[trigger] before[k]).model_id.name@
                            == trains@[j].model_id@;
                    assert(after[k].model_id.name@ == trains@[j].model_id@);
                } else {
                    assert(after[place].model_id.name@ == name);
                }
            }
        }
        i += 1;
    }
    Ok((numbered, sequences))
}

proof fn lemma_no_trains_of(
    sequences: Seq<ModelUnitSequence>,
    trains: Seq<UnnumberedTrain>,
    count: int,
    model: Seq<char>,
)
    requires
        0 <= count <= trains.len(),
        forall|i: int| 0 <= i < count ==> listed(sequences, (#[trigger] trains[i]).model_id@),
        !listed(sequences, model),
    ensures
        trains_of(trains, model, count) == 0,
    decreases count,
{
    if count > 0 {
        lemma_no_trains_of(sequences, trains, count - 1, model);
        assert(listed(sequences, trains[count - 1].model_id@));
    }
}

/// Two Trains of one model never receive the same unit number.
pub proof fn units_of_a_model_differ(trains: Seq<UnnumberedTrain>, i: int, j: int)
    requires
        0 <= i < j < trains.len(),
        trains[i].model_id@ == trains[j].model_id@,
    ensures
        unit_of(trains, i) < unit_of(trains, j),
{
    lemma_trains_of_grow(trains, trains[i].model_id@, i + 1, j);
}

proof fn lemma_trains_of_grow(
    trains: Seq<UnnumberedTrain>,
    model: Seq<char>,
    low: int,
    high: int,
)
    requires
        0 <= low <= high <= trains.len(),
    ensures
        trains_of(trains, model, low) <= trains_of(trains, model, high),
    decreases high - low,
{
    if low < high {
        lemma_trains_of_grow(trains, model, low, high - 1);
    }
}

/// The number of a replaced model's Train: the new model's type and series, the old
/// country and unit.
pub fn replacement_vehicle_number(old: &str, replacement: &TrainModel) -> (result: Result<
    EuropeanVehicleNumber,
    SaveCodecError,
>)
    ensures
        match result {
            Ok(evn) => {
                &&& is_vehicle_number(old@)
                &&& evn.wf()
                &&& evn.digits@ == ({
                    let fields = number_fields(
                        replacement.evn_type_code as int,
                        vehicle_registration(old@),
                        replacement.evn_series_code as int,
                        vehicle_unit(old@),
                    );
                    fields.push(digit(check_digit(fields)))
                })
            },
            Err(error) => error == (SaveCodecError::InvalidValue {
                field: "European Vehicle Number",
            }) && !(is_vehicle_number(old@) && numberable(
                replacement.evn_type_code as int,
                vehicle_registration(old@),
                replacement.evn_series_code as int,
                vehicle_unit(old@),
            )),
        },
{
    let old_number = match EuropeanVehicleNumber::parse(old) {
        Ok(number) => number,
        Err(_) => return Err(SaveCodecError::InvalidValue { field: "European Vehicle Number" }),
    };
    match EuropeanVehicleNumber::generate(
        replacement.evn_type_code,
        old_number.registration_code(),
        replacement.evn_series_code,
        old_number.unit_number(),
    ) {
        Ok(number) => Ok(number),
        Err(_) => Err(SaveCodecError::InvalidValue { field: "European Vehicle Number" }),
    }
}

/// The next unit number of a model that takes over another's sequence: the larger.
pub open spec fn larger_unit(old: i64, current: Option<i64>) -> i64 {
    match current {
        Some(current) => if current >= old {
            current
        } else {
            old
        },
        None => old,
    }
}

pub fn merged_next_unit(old: i64, current: Option<i64>) -> (result: i64)
    ensures
        result == larger_unit(old, current),
{
    match current {
        Some(current) => if current >= old {
            current
        } else {
            old
        },
        None => old,
    }
}

} // verus!
