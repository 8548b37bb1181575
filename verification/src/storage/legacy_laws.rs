//! What a save of the first format becomes, whatever it holds.

use vstd::prelude::*;

use super::legacy::{
    earlier_units, first_unplaced, game_converted, journey_placed, legacy_train_fault, model_of,
    models_in_use, service_placed, train_placed, LegacyAdditions, LegacyGame, LegacyTrain,
};
use super::validation::journeys::progress_of;
use crate::model::catalogue::TrainCatalogue;
use crate::model::company::{group_passengers, has_service, the_service};
use crate::model::identity::{
    is_vehicle_number, lemma_composed_number, vehicle_registration, vehicle_series, vehicle_type,
    vehicle_unit,
};
use crate::model::ids::display_number;
use crate::model::state::GameState;
use crate::text::decimal;

verus! {

/// A converted Journey that runs against the order of its Service's stops stands at the last
/// stop, which is where it came from, and has the stops before it ahead; any other stands where
/// it stood.
pub proof fn returning_journeys_stand_at_their_origin(
    old: LegacyGame,
    additions: LegacyAdditions,
    catalogue: TrainCatalogue,
    state: GameState,
    i: int,
)
    requires
        game_converted(old, additions, catalogue, state),
        0 <= i < state.active_journeys@.len(),
        has_service(
            state.player_company.passenger_services@,
            state.active_journeys@[i].service_id,
        ),
        the_service(
            state.player_company.passenger_services@,
            state.active_journeys@[i].service_id,
        ).stop_station_ids@.len() >= 2,
    ensures
        ({
            let journey = state.active_journeys@[i];
            let stops = the_service(
                state.player_company.passenger_services@,
                journey.service_id,
            ).stop_station_ids@;
            &&& journey.origin_station_id == stops.last() && journey.destination_station_id
                == stops[0] ==> {
                &&& stops[journey.current_stop_index as int] == journey.origin_station_id
                &&& journey.current_stop_index + 1 == stops.len()
                &&& stops[0] != stops.last() ==> (progress_of(journey, stops) matches Ok(progress)
                    && !progress.forward && progress.next + 1 == journey.current_stop_index)
            }
            &&& !(journey.origin_station_id == stops.last() && journey.destination_station_id
                == stops[0]) ==> journey.current_stop_index
                == old.active_journeys@[i].current_stop_index
        }),
{
    assert(journey_placed(
        old.active_journeys@[i],
        state.player_company.passenger_services@,
        state.active_journeys@[i],
    ));
}

/// A converted Journey keeps its identity, its way, its times and its money, and everybody who
/// was carried is on board for the whole way where no groups were known.
pub proof fn converted_journeys_keep_their_passengers(
    old: LegacyGame,
    additions: LegacyAdditions,
    catalogue: TrainCatalogue,
    state: GameState,
    i: int,
)
    requires
        game_converted(old, additions, catalogue, state),
        0 <= i < old.active_journeys@.len(),
    ensures
        state.active_journeys@.len() == old.active_journeys@.len(),
        ({
            let before = old.active_journeys@[i];
            let after = state.active_journeys@[i];
            &&& after.id == before.id
            &&& after.purpose == before.purpose
            &&& after.service_id == before.service_id
            &&& after.train_id == before.train_id
            &&& after.origin_station_id == before.origin_station_id
            &&& after.destination_station_id == before.destination_station_id
            &&& after.passengers_carried == before.passengers_carried
            &&& after.fare_rate == before.fare_rate
            &&& after.fare == before.fare
            &&& after.operating_revenue == before.operating_revenue
            &&& after.credited_revenue == before.credited_revenue
            &&& after.infrastructure_access_fee == before.infrastructure_access_fee
            &&& after.fuel_cost == before.fuel_cost
            &&& after.departed_at == before.departed_at
            &&& after.arrives_at == before.arrives_at
            &&& before.passenger_groups@.len() > 0 ==> after.passenger_groups@
                == before.passenger_groups@
            &&& before.passenger_groups@.len() == 0 ==> group_passengers(
                after.passenger_groups@,
                after.passenger_groups@.len() as int,
            ) == before.passengers_carried
            &&& before.passenger_groups@.len() == 0 && before.passengers_carried > 0 ==> {
                &&& after.passenger_groups@.len() == 1
                &&& after.passenger_groups@[0].origin_station_id == before.origin_station_id
                &&& after.passenger_groups@[0].destination_station_id
                    == before.destination_station_id
                &&& after.passenger_groups@[0].fare == before.fare
            }
        }),
{
    assert(journey_placed(
        old.active_journeys@[i],
        state.player_company.passenger_services@,
        state.active_journeys@[i],
    ));
    reveal_with_fuel(group_passengers, 2);
}

/// A converted Service stops at its two stations in order and runs both ways, under its own
/// number and with a pair of train numbers of its own.
pub proof fn converted_services_run_both_ways(
    old: LegacyGame,
    additions: LegacyAdditions,
    catalogue: TrainCatalogue,
    state: GameState,
    i: int,
    j: int,
)
    requires
        game_converted(old, additions, catalogue, state),
        0 <= i < j < old.services@.len(),
        old.services@.len() <= 0x3fff_ffff,
    ensures
        state.player_company.passenger_services@.len() == old.services@.len(),
        ({
            let before = old.services@[i];
            let first = state.player_company.passenger_services@[i];
            let second = state.player_company.passenger_services@[j];
            &&& first.id == before.id
            &&& first.stop_station_ids@.len() == 2
            &&& first.stop_station_ids@[0] == before.first_station_id
            &&& first.stop_station_ids@[1] == before.second_station_id
            &&& first.rail_line_ids@ == before.rail_line_ids@
            &&& first.direction_mode is BothDirections
            &&& first.custom_name is None
            &&& first.name@ == "R"@ + decimal(display_number(before.id.value) as nat)
            &&& first.forward_train_number >= 100
            &&& first.reverse_train_number == Some((first.forward_train_number + 1) as u32)
            &&& first.forward_train_number + 1 < second.forward_train_number
        }),
{
    assert(service_placed(old.services@[i], i, state.player_company.passenger_services@[i]));
    assert(service_placed(old.services@[j], j, state.player_company.passenger_services@[j]));
}

proof fn lemma_placed(
    trains: Seq<LegacyTrain>,
    count: int,
    code: u8,
    catalogue: TrainCatalogue,
    i: int,
)
    requires
        0 <= i < count,
        first_unplaced(trains, count, code, catalogue) == count,
    ensures
        legacy_train_fault(trains, i, code, catalogue) is None,
    decreases count,
{
    if i < count - 1 {
        lemma_placed(trains, count - 1, code, catalogue, i);
    }
}

/// A converted Train keeps its identity, place and price, and its vehicle number tells its
/// model's codes, the Region's, and how many Trains of its model came before it.
pub proof fn converted_trains_are_numbered_within_their_model(
    old: LegacyGame,
    additions: LegacyAdditions,
    catalogue: TrainCatalogue,
    state: GameState,
    i: int,
)
    requires
        game_converted(old, additions, catalogue, state),
        first_unplaced(
            old.trains@,
            old.trains@.len() as int,
            additions.registration.numeric_code,
            catalogue,
        ) == old.trains@.len(),
        0 <= i < old.trains@.len(),
    ensures
        state.player_company.fleet.trains@.len() == old.trains@.len(),
        ({
            let before = old.trains@[i];
            let after = state.player_company.fleet.trains@[i];
            let model = model_of(before, catalogue);
            let number = after.evn.digits@;
            &&& after.id == before.id
            &&& after.status == before.status
            &&& after.original_purchase_price == before.original_purchase_price
            &&& after.nickname is None
            &&& after.model_id.name@ == model.id.name@
            &&& is_vehicle_number(number)
            &&& vehicle_type(number) == model.evn_type_code
            &&& vehicle_registration(number) == additions.registration.numeric_code
            &&& vehicle_series(number) == model.evn_series_code
            &&& vehicle_unit(number) == 1 + earlier_units(
                old.trains@,
                catalogue,
                model.id.name@,
                i,
            )
            &&& display_number(after.id.value)
                < state.player_company.fleet.next_train_display_number
        }),
{
    let code = additions.registration.numeric_code;
    lemma_placed(old.trains@, old.trains@.len() as int, code, catalogue, i);
    let model = model_of(old.trains@[i], catalogue);
    assert(train_placed(
        old.trains@,
        i,
        code,
        catalogue,
        state.player_company.fleet.trains@[i],
    ));
    lemma_composed_number(
        model.evn_type_code as int,
        code as int,
        model.evn_series_code as int,
        super::legacy::legacy_unit(old.trains@, catalogue, i),
    );
}

/// A Train of the first format is of the first model in the catalogue with its name, capacity,
/// speed and fuel cost.
pub proof fn models_are_told_by_their_signature(
    train: LegacyTrain,
    catalogue: TrainCatalogue,
    k: int,
)
    requires
        0 <= k < catalogue.models@.len(),
        super::legacy::signed(train, catalogue.models@[k]),
        forall|j: int|
            0 <= j < k ==> !super::legacy::signed(train, #[trigger] catalogue.models@[j]),
    ensures
        model_of(train, catalogue) == catalogue.models@[k],
{
    assert(super::legacy::is_model_at(train, catalogue, k));
    let c = choose|c: int| super::legacy::is_model_at(train, catalogue, c);
    assert(super::legacy::is_model_at(train, catalogue, c));
    if c < k {
        assert(!super::legacy::signed(train, catalogue.models@[c]));
    }
}

/// Trains of a model are counted one by one: each adds one to its own model and to no other.
pub proof fn units_are_counted_one_by_one(
    trains: Seq<LegacyTrain>,
    catalogue: TrainCatalogue,
    model: Seq<char>,
    count: int,
)
    requires
        0 <= count < trains.len(),
    ensures
        earlier_units(trains, catalogue, model, 0) == 0,
        model_of(trains[count], catalogue).id.name@ == model ==> earlier_units(
            trains,
            catalogue,
            model,
            count + 1,
        ) == earlier_units(trains, catalogue, model, count) + 1,
        model_of(trains[count], catalogue).id.name@ != model ==> earlier_units(
            trains,
            catalogue,
            model,
            count + 1,
        ) == earlier_units(trains, catalogue, model, count),
{
}

/// The next unit number of a converted model is one above those that its Trains carry, and
/// there is one for each model that some Train is of.
pub proof fn sequences_go_on_behind_the_trains(
    old: LegacyGame,
    additions: LegacyAdditions,
    catalogue: TrainCatalogue,
    state: GameState,
    i: int,
)
    requires
        game_converted(old, additions, catalogue, state),
        0 <= i < old.trains@.len(),
    ensures
        exists|k: int|
            0 <= k < state.player_company.fleet.next_evn_unit_by_model@.len() && (
            #[trigger] state.player_company.fleet.next_evn_unit_by_model@[k]).model_id.name@
                == model_of(old.trains@[i], catalogue).id.name@
                && state.player_company.fleet.next_evn_unit_by_model@[k].next_unit_number == 1
                + earlier_units(
                old.trains@,
                catalogue,
                model_of(old.trains@[i], catalogue).id.name@,
                old.trains@.len() as int,
            ),
{
    let count = old.trains@.len() as int;
    let model = model_of(old.trains@[i], catalogue).id.name@;
    let models = models_in_use(old.trains@, catalogue, count);
    lemma_in_use(old.trains@, catalogue, count, i);
    let k = choose|k: int| 0 <= k < models.len() && models[k] == model;
    assert(state.player_company.fleet.next_evn_unit_by_model@[k].model_id.name@ == model);
}

proof fn lemma_in_use(
    trains: Seq<LegacyTrain>,
    catalogue: TrainCatalogue,
    count: int,
    i: int,
)
    requires
        0 <= i < count,
    ensures
        models_in_use(trains, catalogue, count).contains(model_of(trains[i], catalogue).id.name@),
    decreases count,
{
    let earlier = models_in_use(trains, catalogue, count - 1);
    let models = models_in_use(trains, catalogue, count);
    let last = model_of(trains[count - 1], catalogue).id.name@;
    if i < count - 1 {
        lemma_in_use(trains, catalogue, count - 1, i);
        let model = model_of(trains[i], catalogue).id.name@;
        let k = choose|k: int| 0 <= k < earlier.len() && earlier[k] == model;
        assert(models[k] == model);
    } else if !earlier.contains(last) {
        assert(models[models.len() - 1] == last);
    }
}

/// A converted game keeps its world, its Region, its money, its demand, its prices and its time,
/// and takes from elsewhere only what the first format did not hold.
pub proof fn converted_games_keep_what_they_hold(
    old: LegacyGame,
    additions: LegacyAdditions,
    catalogue: TrainCatalogue,
    state: GameState,
)
    requires
        game_converted(old, additions, catalogue, state),
    ensures
        state.world_seed == old.world_seed,
        state.region.name == old.region.name,
        state.region.population == old.region.population,
        state.region.settlements == old.region.settlements,
        state.region.bulletin == old.region.bulletin,
        state.region.rail_authority == old.region.rail_authority,
        state.region.railway_registration == additions.registration,
        state.player_company.name == old.company_name,
        state.player_company.vehicle_keeper_mark == additions.vehicle_keeper_mark,
        state.player_company.funds == old.funds,
        state.player_company.fleet.service_assignments@.len() == 0,
        state.origin_destination_demand == old.origin_destination_demand,
        state.financials == old.financials,
        state.rules.balance == old.balance,
        state.rules.demand == old.demand,
        state.rules.authority == additions.authority,
        state.last_processed_at == old.last_processed_at,
        state.bulletin_seen_count == 0,
{
}

} // verus!
