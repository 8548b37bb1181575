//! What upgrades do to earlier saves, whatever they hold.

use vstd::prelude::*;

use super::amounts::{
    credit_of, kilometre_cost, midnight, planned_cost, rates_after, replacing_discount, reserve_of,
    rounded_up, upkeep, upgraded_rate, whole_days, PlannedLength, TrackLength,
};
use super::plan::{step_for, SchemaStep, SAVE_VERSION};
use super::services::{
    can_reverse, merge_plan, pairs, partner, reciprocity_is_symmetric,
    ends_of, first_number, merge_of, numbers_of, reciprocal, resumed_stop, reversible, texts, way,
    LineEndpoints, ServiceChange, StoredService,
};
use super::vehicles::{
    current_model, first_unnumbered, has_signature, is_known_as, larger_unit, numbering_fault,
    trains_of, unit_of, vehicle_number, UnnumberedTrain,
};
use crate::model::catalogue::{TrainCatalogue, TrainModel};
use crate::model::company::ServiceDirectionMode;
use crate::model::identity::{
    check_digit, is_vehicle_number, lemma_composed_number, number_fields, numberable,
    vehicle_registration, vehicle_series, vehicle_type, vehicle_unit,
};
use crate::model::network::ConstructionDifficulty;
use crate::text::digit;

verus! {

/// A price for a distance is the smallest whole amount that covers it.
pub proof fn prices_are_rounded_up(metres: int, rate: int)
    ensures
        1000 * rounded_up(metres, rate) >= metres * rate,
        1000 * (rounded_up(metres, rate) - 1) < metres * rate,
{
}

/// Harder ground costs more, by the kilometre.
pub proof fn harder_ground_costs_more()
    ensures
        kilometre_cost(ConstructionDifficulty::Low) == 120_000,
        kilometre_cost(ConstructionDifficulty::Moderate) == 160_000,
        kilometre_cost(ConstructionDifficulty::High) == 220_000,
        kilometre_cost(ConstructionDifficulty::Low) < kilometre_cost(
            ConstructionDifficulty::Moderate,
        ) < kilometre_cost(ConstructionDifficulty::High),
{
}

proof fn lemma_costs(
    lines: Seq<PlannedLength>,
    line: PlannedLength,
    tracks: Seq<TrackLength>,
    track: TrackLength,
    rate: int,
    count: int,
)
    ensures
        0 <= count <= lines.len() ==> planned_cost(lines.push(line), count) == planned_cost(
            lines,
            count,
        ),
        0 <= count <= tracks.len() ==> upkeep(tracks.push(track), rate, count) == upkeep(
            tracks,
            rate,
            count,
        ),
    decreases count,
{
    if count > 0 {
        lemma_costs(lines, line, tracks, track, rate, count - 1);
        if count <= lines.len() {
            assert(lines.push(line)[count - 1] == lines[count - 1]);
        }
        if count <= tracks.len() {
            assert(tracks.push(track)[count - 1] == tracks[count - 1]);
        }
    }
}

/// Costs add up: a planned line adds its own price, and a built one the upkeep of each track.
pub proof fn costs_add_up(
    lines: Seq<PlannedLength>,
    line: PlannedLength,
    tracks: Seq<TrackLength>,
    track: TrackLength,
    rate: int,
)
    ensures
        planned_cost(Seq::empty(), 0) == 0,
        upkeep(Seq::empty(), rate, 0) == 0,
        planned_cost(lines.push(line), (lines.len() + 1) as int) == planned_cost(
            lines,
            lines.len() as int,
        ) + rounded_up(line.metres as int, kilometre_cost(line.difficulty)),
        upkeep(tracks.push(track), rate, (tracks.len() + 1) as int) == upkeep(
            tracks,
            rate,
            tracks.len() as int,
        ) + rounded_up(track.metres as int, rate) * track.tracks,
{
    lemma_costs(lines, line, tracks, track, rate, lines.len() as int);
    lemma_costs(lines, line, tracks, track, rate, tracks.len() as int);
    assert(lines.push(line)[lines.len() as int] == line);
    assert(tracks.push(track)[tracks.len() as int] == track);
}

/// A seeded reserve covers the upkeep where that can be afforded, and never takes what is
/// committed.
pub proof fn reserves_are_affordable(
    treasury: int,
    committed: int,
    lines: Seq<TrackLength>,
    rate: int,
)
    ensures
        reserve_of(treasury, committed, lines, rate) + committed <= treasury,
        reserve_of(treasury, committed, lines, rate) <= upkeep(lines, rate, lines.len() as int),
        upkeep(lines, rate, lines.len() as int) + committed <= treasury ==> reserve_of(
            treasury,
            committed,
            lines,
            rate,
        ) == upkeep(lines, rate, lines.len() as int),
        upkeep(lines, rate, lines.len() as int) + committed > treasury ==> reserve_of(
            treasury,
            committed,
            lines,
            rate,
        ) + committed == treasury,
{
}

/// Access credit is what was contributed and fifteen hundredths more, cut to whole cents.
pub proof fn credit_exceeds_the_contribution(contributed: int)
    requires
        contributed >= 0,
    ensures
        contributed <= credit_of(contributed),
        100 * (credit_of(contributed) - contributed) <= 15 * contributed < 100 * (credit_of(
            contributed,
        ) - contributed + 1),
{
}

/// Midnights are a day apart, the first of them the next one from now.
pub proof fn midnights_are_a_day_apart(time: int, days: int)
    ensures
        midnight(time, 1) > time,
        time >= 0 ==> midnight(time, 1) <= time + 86_400,
        midnight(time, 1) % 86_400 == 0,
        midnight(time, days + 1) == midnight(time, days) + 86_400,
{
    assert((whole_days(time) + 1) * 86_400 % 86_400 == 0);
}

/// Credit that is left becomes half the fee until a week of midnights has passed, and none
/// becomes nothing.
pub proof fn credit_becomes_a_discount(remaining: int, time: int)
    ensures
        remaining <= 0 ==> replacing_discount(remaining, time) is None,
        remaining > 0 && i64::MIN <= midnight(time, 1) + 6 * 86_400 <= i64::MAX
            ==> replacing_discount(remaining, time) == Some(
            (5_000i64, (midnight(time, 1) + 6 * 86_400) as i64),
        ),
{
}

/// Rates change only where both are still the former defaults.
pub proof fn chosen_rates_stay(fare: i64, access: i64)
    ensures
        fare != 20 || access != 12 ==> rates_after(fare, access) == (fare, access),
        fare == 20 && access == 12 ==> rates_after(fare, access).0 < fare && rates_after(
            fare,
            access,
        ).1 > access,
        rates_after(20, 12) == (12i64, 35i64),
{
}

/// A Journey's rate is what it was sold at, wherever that is a rate at all.
pub proof fn journeys_keep_the_rate_of_their_fare(
    fare: int,
    metres: int,
    current: Option<i64>,
    rate: i64,
)
    requires
        fare >= 0,
        metres > 0,
        rate > 0,
        rate * metres <= 1000 * fare < (rate + 1) * metres,
    ensures
        upgraded_rate(fare, metres, current) == Some(rate),
        upgraded_rate(fare, 0, current) == current,
        upgraded_rate(-1, metres, current) == current,
{
    assert(fare * 1000 / metres == rate) by (nonlinear_arith)
        requires
            metres > 0,
            rate * metres <= 1000 * fare < (rate + 1) * metres,
    ;
}

/// Two models were replaced, each by its successor; every other is itself.
pub proof fn models_have_successors(stored: Seq<char>, model: TrainModel, name: Seq<char>)
    ensures
        current_model("local-70"@) == "helvetra-r70"@,
        current_model("express-120"@) == "veltrian-d121"@,
        stored != "local-70"@ && stored != "express-120"@ ==> current_model(stored) == stored,
        is_known_as(model, model.name@),
        model.id.name@ == "helvetra-r70"@ ==> is_known_as(model, "Local 70"@),
        model.id.name@ == "veltrian-d121"@ ==> is_known_as(model, "Express 120"@),
        is_known_as(model, name) && name != "Local 70"@ && name != "Express 120"@ ==> model.name@
            == name,
{
    reveal_strlit("local-70");
    reveal_strlit("express-120");
    assert("local-70"@.len() == 8 && "express-120"@.len() == 11);
}

/// A model answers to a signature exactly if it is known by the name and has that capacity,
/// speed and fuel cost.
pub proof fn signatures_tell_models_apart(
    model: TrainModel,
    name: Seq<char>,
    capacity: i64,
    speed: i64,
    fuel: i64,
)
    ensures
        has_signature(model, name, capacity, speed, fuel) <==> {
            &&& is_known_as(model, name)
            &&& model.passenger_capacity == capacity
            &&& model.speed_metres_per_second == speed
            &&& model.fuel_cost_per_kilometre.cents_per_kilometre == fuel
        },
{
}

proof fn lemma_numbered(
    trains: Seq<UnnumberedTrain>,
    count: int,
    code: u8,
    catalogue: TrainCatalogue,
    i: int,
)
    requires
        0 <= i < count,
        first_unnumbered(trains, count, code, catalogue) == count,
    ensures
        numbering_fault(trains, i, code, catalogue) is None,
    decreases count,
{
    if i < count - 1 {
        lemma_numbered(trains, count - 1, code, catalogue, i);
    }
}

/// The number of a Train tells its model's codes, the Region's, and its place among the Trains
/// of its model.
pub proof fn trains_are_numbered_within_their_model(
    trains: Seq<UnnumberedTrain>,
    i: int,
    code: u8,
    catalogue: TrainCatalogue,
)
    requires
        0 <= i < trains.len(),
        first_unnumbered(trains, trains.len() as int, code, catalogue) == trains.len(),
    ensures
        ({
            let number = vehicle_number(trains, i, code, catalogue);
            let model = catalogue.model(current_model(trains[i].model_id@));
            &&& is_vehicle_number(number)
            &&& vehicle_type(number) == model.evn_type_code
            &&& vehicle_registration(number) == code
            &&& vehicle_series(number) == model.evn_series_code
            &&& vehicle_unit(number) == 1 + trains_of(trains, trains[i].model_id@, i)
        }),
        trains_of(trains, trains[i].model_id@, 0) == 0,
        trains_of(trains, trains[i].model_id@, i + 1) == trains_of(trains, trains[i].model_id@, i)
            + 1,
{
    lemma_numbered(trains, trains.len() as int, code, catalogue, i);
    let model = catalogue.model(current_model(trains[i].model_id@));
    lemma_composed_number(
        model.evn_type_code as int,
        code as int,
        model.evn_series_code as int,
        unit_of(trains, i),
    );
}

/// A replaced vehicle keeps its Region and unit, and takes its model's codes.
pub proof fn replaced_vehicles_keep_region_and_unit(old: Seq<char>, type_code: int, series: int)
    requires
        is_vehicle_number(old),
        numberable(type_code, vehicle_registration(old), series, vehicle_unit(old)),
    ensures
        ({
            let fields = number_fields(
                type_code,
                vehicle_registration(old),
                series,
                vehicle_unit(old),
            );
            let new = fields.push(digit(check_digit(fields)));
            &&& is_vehicle_number(new)
            &&& vehicle_registration(new) == vehicle_registration(old)
            &&& vehicle_unit(new) == vehicle_unit(old)
            &&& vehicle_type(new) == type_code
            &&& vehicle_series(new) == series
        }),
{
    lemma_composed_number(type_code, vehicle_registration(old), series, vehicle_unit(old));
}

/// A sequence that takes over another goes on behind both.
pub proof fn merged_sequences_go_on_behind_both(old: i64, current: Option<i64>)
    ensures
        larger_unit(old, current) >= old,
        current is Some ==> larger_unit(old, current) >= current->0,
        larger_unit(old, current) == old || Some(larger_unit(old, current)) == current,
{
}

/// Of two reciprocal Services the one with a Journey under way survives, else the one that was
/// there first; where both have Journeys, both stay.
pub proof fn the_busy_or_older_service_survives(services: Seq<StoredService>, i: int, j: int)
    requires
        0 <= i < services.len() <= usize::MAX,
        0 <= j < services.len(),
    ensures
        merge_of(services, i, j) is None <==> services[i].has_active_journey
            && services[j].has_active_journey,
        services[i].has_active_journey && !services[j].has_active_journey ==> merge_of(
            services,
            i,
            j,
        ) == Some(ServiceChange::Merge { survivor: i as usize, retired: j as usize }),
        !services[i].has_active_journey && services[j].has_active_journey ==> merge_of(
            services,
            i,
            j,
        ) == Some(ServiceChange::Merge { survivor: j as usize, retired: i as usize }),
        !services[i].has_active_journey && !services[j].has_active_journey && services[i].sequence
            <= services[j].sequence ==> merge_of(services, i, j) == Some(
            ServiceChange::Merge { survivor: i as usize, retired: j as usize },
        ),
        !services[i].has_active_journey && !services[j].has_active_journey && services[i].sequence
            > services[j].sequence ==> merge_of(services, i, j) == Some(
            ServiceChange::Merge { survivor: j as usize, retired: i as usize },
        ),
{
}

/// Services are reciprocal exactly if the stops and the lines of one are those of the other
/// from behind.
pub proof fn reciprocal_services_mirror_each_other(
    first: StoredService,
    second: StoredService,
    i: int,
)
    ensures
        reciprocal(first, second) ==> {
            &&& first.stop_station_ids@.len() == second.stop_station_ids@.len()
            &&& first.rail_line_ids@.len() == second.rail_line_ids@.len()
            &&& 0 <= i < first.stop_station_ids@.len() ==> first.stop_station_ids@[i]@
                == second.stop_station_ids@[first.stop_station_ids@.len() - 1 - i]@
            &&& 0 <= i < first.rail_line_ids@.len() ==> first.rail_line_ids@[i]@
                == second.rail_line_ids@[first.rail_line_ids@.len() - 1 - i]@
        },
{
    if reciprocal(first, second) {
        let a = texts(first.stop_station_ids@);
        let b = texts(second.stop_station_ids@);
        let c = texts(first.rail_line_ids@);
        let d = texts(second.rail_line_ids@);
        assert(a == b.reverse() && c == d.reverse());
        assert(a.len() == b.len() && c.len() == d.len());
        if 0 <= i < a.len() {
            assert(a[i] == b.reverse()[i]);
        }
        if 0 <= i < c.len() {
            assert(c[i] == d.reverse()[i]);
        }
    }
}

/// A Service between the two ends of one line can be run backwards, whichever way round the
/// line is stored.
pub proof fn single_lines_can_be_reversed(
    stops: Seq<Seq<char>>,
    path: Seq<Seq<char>>,
    lines: Seq<LineEndpoints>,
)
    requires
        stops.len() == 2,
        path.len() == 1,
        stops[0] != stops[1],
        ends_of(lines, path[0]) == Some((stops[0], stops[1])) || ends_of(lines, path[0]) == Some(
            (stops[1], stops[0]),
        ),
    ensures
        reversible(stops, path, lines),
{
    reveal_with_fuel(way, 2);
    reveal_with_fuel(super::services::call_position, 2);
    reveal_with_fuel(super::services::next_pass, 3);
    let stations = way(stops[0], path, lines, 1);
    assert(stations == Some(seq![stops[0]].push(stops[1])));
    assert(stations->0.len() == 2 && stations->0[0] == stops[0] && stations->0[1] == stops[1]);
}

/// A Service that can be run backwards stops at least twice, nowhere twice, over no line twice.
pub proof fn reversible_services_are_simple(
    stops: Seq<Seq<char>>,
    path: Seq<Seq<char>>,
    lines: Seq<LineEndpoints>,
)
    requires
        reversible(stops, path, lines),
    ensures
        stops.len() >= 2,
        path.len() >= 1,
        forall|i: int, j: int| 0 <= i < j < stops.len() ==> #[trigger] stops[i] != #[trigger] stops[j],
        forall|i: int, j: int| 0 <= i < j < path.len() ==> #[trigger] path[i] != #[trigger] path[j],
        way(stops[0], path, lines, path.len() as int) is Some,
        way(stops[0], path, lines, path.len() as int)->0.last() == stops.last(),
{
}

/// Train numbers start at a hundred and follow each other without gaps, two for a Service that
/// runs both ways and one for any other.
pub proof fn train_numbers_follow_each_other(modes: Seq<ServiceDirectionMode>, i: int)
    requires
        0 <= i < modes.len(),
        first_number(modes, i + 1) <= i64::MAX,
        100 <= first_number(modes, i),
    ensures
        first_number(modes, 0) == 100,
        numbers_of(modes, i).forward == first_number(modes, i),
        modes[i] is BothDirections ==> numbers_of(modes, i).reverse == Some(
            (numbers_of(modes, i).forward + 1) as i64,
        ) && first_number(modes, i + 1) == numbers_of(modes, i).forward + 2,
        modes[i] is ForwardOnly ==> numbers_of(modes, i).reverse is None && first_number(
            modes,
            i + 1,
        ) == numbers_of(modes, i).forward + 1,
{
}

/// A Journey of a merged Service goes on towards the other end of the survivor.
pub proof fn merged_journeys_go_on(origin: Seq<char>, stops: Seq<Seq<char>>)
    requires
        stops.len() >= 2,
        stops[0] != stops.last(),
    ensures
        origin == stops[0] ==> resumed_stop(origin, stops) + 2 == stops.len(),
        origin == stops.last() ==> resumed_stop(origin, stops) == 1,
        origin != stops[0] && origin != stops.last() ==> resumed_stop(origin, stops) == 0,
        0 <= resumed_stop(origin, stops) < stops.len(),
{
}

/// An empty database is created, the current one verified, and every other one upgraded from
/// where it is.
pub proof fn every_version_has_its_step(version: u32)
    requires
        version <= SAVE_VERSION,
    ensures
        step_for(version) is Create <==> version == 0,
        step_for(version) is Verify <==> version == SAVE_VERSION,
        step_for(version) matches SchemaStep::Upgrade { from } ==> from == version,
        0 < version < SAVE_VERSION ==> step_for(version) is Upgrade,
{
}

proof fn lemma_handled(
    services: Seq<StoredService>,
    lines: Seq<LineEndpoints>,
    count: int,
    i: int,
)
    requires
        0 <= count <= i < services.len(),
    ensures
        merge_plan(services, lines, count).handled.len() == services.len(),
        merge_plan(services, lines, count).handled[i] ==> can_reverse(services[i], lines) && exists|
            k: int,
        |
            0 <= k < count && can_reverse(#[trigger] services[k], lines) && reciprocal(
                services[k],
                services[i],
            ),
    decreases count,
{
    if count > 0 {
        let k = count - 1;
        lemma_handled(services, lines, k, i);
        lemma_handled(services, lines, k, k);
        let plan = merge_plan(services, lines, k);
        let settled = plan.handled.update(k, true);
        if !plan.handled[k] && can_reverse(services[k], lines) {
            lemma_partner(services, lines, settled, k, k + 1);
        }
    }
}

proof fn lemma_partner(
    services: Seq<StoredService>,
    lines: Seq<LineEndpoints>,
    handled: Seq<bool>,
    i: int,
    from: int,
)
    requires
        0 <= from,
    ensures
        partner(services, lines, handled, i, from) matches Some(j) ==> from <= j < services.len()
            && pairs(services, lines, handled, i, j),
        partner(services, lines, handled, i, from) is None ==> forall|j: int|
            from <= j < services.len() ==> !#[trigger] pairs(services, lines, handled, i, j),
    decreases services.len() - from,
{
    if from < services.len() && !pairs(services, lines, handled, i, from) {
        lemma_partner(services, lines, handled, i, from + 1);
    }
}

proof fn lemma_changes_stay(
    services: Seq<StoredService>,
    lines: Seq<LineEndpoints>,
    low: int,
    high: int,
    change: ServiceChange,
)
    requires
        0 <= low <= high,
        merge_plan(services, lines, low).changes.contains(change),
    ensures
        merge_plan(services, lines, high).changes.contains(change),
    decreases high - low,
{
    if low < high {
        lemma_changes_stay(services, lines, low, high - 1, change);
        let before = merge_plan(services, lines, high - 1).changes;
        let after = merge_plan(services, lines, high).changes;
        let k = choose|k: int| 0 <= k < before.len() && before[k] == change;
        assert(after[k] == change);
    }
}

/// A Service that can be run backwards, and that no other mirrors, runs both ways from now on.
pub proof fn lone_services_run_both_ways(
    services: Seq<StoredService>,
    lines: Seq<LineEndpoints>,
    i: int,
)
    requires
        0 <= i < services.len() <= usize::MAX,
        can_reverse(services[i], lines),
        forall|j: int|
            0 <= j < services.len() && j != i ==> !(can_reverse(#[trigger] services[j], lines)
                && reciprocal(services[i], services[j])),
    ensures
        merge_plan(services, lines, services.len() as int).changes.contains(
            ServiceChange::BothWays { service: i as usize },
        ),
{
    let change = ServiceChange::BothWays { service: i as usize };
    let plan = merge_plan(services, lines, i);
    let settled = plan.handled.update(i, true);
    lemma_handled(services, lines, i, i);
    if plan.handled[i] {
        let k = choose|k: int|
            0 <= k < i && can_reverse(#[trigger] services[k], lines) && reciprocal(
                services[k],
                services[i],
            );
        reciprocity_is_symmetric(services[k], services[i]);
    }
    lemma_partner(services, lines, settled, i, i + 1);
    if partner(services, lines, settled, i, i + 1) is Some {
        let j = partner(services, lines, settled, i, i + 1)->0;
        assert(can_reverse(services[j], lines) && reciprocal(services[i], services[j]));
    }
    let after = merge_plan(services, lines, i + 1).changes;
    assert(after[after.len() - 1] == change);
    lemma_changes_stay(services, lines, i + 1, services.len() as int, change);
}

/// Two Services that mirror each other, and that no other mirrors, become one, unless both have
/// Journeys under way.
pub proof fn mirrored_services_become_one(
    services: Seq<StoredService>,
    lines: Seq<LineEndpoints>,
    i: int,
    j: int,
)
    requires
        0 <= i < j < services.len() <= usize::MAX,
        can_reverse(services[i], lines),
        can_reverse(services[j], lines),
        reciprocal(services[i], services[j]),
        !(services[i].has_active_journey && services[j].has_active_journey),
        forall|k: int|
            0 <= k < services.len() && k != i && k != j ==> !(can_reverse(
                #[trigger] services[k],
                lines,
            ) && (reciprocal(services[i], services[k]) || reciprocal(services[j], services[k]))),
    ensures
        merge_plan(services, lines, services.len() as int).changes.contains(
            merge_of(services, i, j)->0,
        ),
{
    let change = merge_of(services, i, j)->0;
    let plan = merge_plan(services, lines, i);
    let settled = plan.handled.update(i, true);
    lemma_handled(services, lines, i, i);
    lemma_handled(services, lines, i, j);
    if plan.handled[i] {
        let k = choose|k: int|
            0 <= k < i && can_reverse(#[trigger] services[k], lines) && reciprocal(
                services[k],
                services[i],
            );
        reciprocity_is_symmetric(services[k], services[i]);
    }
    if plan.handled[j] {
        let k = choose|k: int|
            0 <= k < i && can_reverse(#[trigger] services[k], lines) && reciprocal(
                services[k],
                services[j],
            );
        reciprocity_is_symmetric(services[k], services[j]);
    }
    lemma_partner(services, lines, settled, i, i + 1);
    assert(pairs(services, lines, settled, i, j));
    let found = partner(services, lines, settled, i, i + 1)->0;
    assert(partner(services, lines, settled, i, i + 1) is Some);
    assert(can_reverse(services[found], lines) && reciprocal(services[i], services[found]));
    assert(found == j);
    let after = merge_plan(services, lines, i + 1).changes;
    assert(after[after.len() - 1] == change);
    lemma_changes_stay(services, lines, i + 1, services.len() as int, change);
}

} // verus!
