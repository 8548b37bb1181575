//! What amounts, numbers and assignments mean, whatever their values are.

use vstd::prelude::*;

use super::company::{
    assignment_of, has_journey, has_service, has_train, is_journey_at, is_service_at, is_train_at,
    the_journey, the_service, the_train, Fleet, Journey, PassengerService, ServiceAssignment, Train,
};
use super::facts::{cap_of, route_path, stops_path, ServicePath, StationRoute, WaitingCap};
use super::identity::{
    check_digit, check_sum, check_term, digit_value, is_digit, is_keeper_mark, is_vehicle_number,
    vehicle_registration, vehicle_series, vehicle_type, vehicle_unit,
};
use super::ids::{display_number, numbered, JourneyId, RailStationId, ServiceId, TrainId};
use super::network::{has_line, line_index, RailLine};
use super::project::InfrastructureProjectFunding;
use super::units::{charge, money_difference, money_product, money_sum, CalculationError, Money};

verus! {

/// A charge is the smallest whole amount that covers the rate over the distance.
pub proof fn charges_are_rounded_up(rate: int, metres: int, amount: Money)
    ensures
        charge(rate, metres) == Ok::<Money, CalculationError>(amount) <==> {
            &&& 1000 * amount.cents >= rate * metres
            &&& 1000 * (amount.cents - 1) < rate * metres
        },
{
}

/// Sums, differences and products are exact, and fail exactly where the unit ends.
pub proof fn amounts_are_exact(first: Money, second: Money, count: u32)
    ensures
        money_sum(first.cents as int, second.cents as int) matches Ok(sum) ==> sum.cents
            == first.cents + second.cents,
        money_sum(first.cents as int, second.cents as int) is Ok <==> i64::MIN <= first.cents
            + second.cents <= i64::MAX,
        money_difference(first.cents as int, second.cents as int) matches Ok(rest) ==> rest.cents
            + second.cents == first.cents,
        money_difference(first.cents as int, second.cents as int) is Ok <==> i64::MIN <= first.cents
            - second.cents <= i64::MAX,
        money_product(first.cents as int, count as int) matches Ok(total) ==> total.cents
            == first.cents * count,
        money_product(first.cents as int, count as int) is Ok <==> i64::MIN <= first.cents * count
            <= i64::MAX,
{
}

/// What is raised for a project is the Authority's and the operator's money, and the gap is what
/// the cost exceeds it by.
pub proof fn funding_adds_up(funding: InfrastructureProjectFunding)
    ensures
        funding.funded() matches Ok(total) ==> total.cents == funding.authority_committed.cents
            + funding.operator_contributed.cents,
        funding.gap() matches Ok(gap) ==> gap.cents + funding.authority_committed.cents
            + funding.operator_contributed.cents == funding.estimated_cost.cents,
        funding.funded() is Ok ==> (funding.fully_funded() <==> funding.authority_committed.cents
            + funding.operator_contributed.cents >= funding.estimated_cost.cents),
        funding.estimated_cost.cents >= 0 ==> 5 * funding.operator_cap()
            <= funding.estimated_cost.cents < 5 * (funding.operator_cap() + 1),
        funding.operator_room() matches Ok(room) ==> room.cents
            + funding.operator_contributed.cents == funding.operator_cap(),
{
}

proof fn lemma_sums(first: Seq<char>, second: Seq<char>, at: int, count: int)
    requires
        first.len() == 12,
        second.len() == 12,
        0 <= count <= 11,
        forall|i: int| 0 <= i < 12 && i != at ==> first[i] == second[i],
        0 <= at < 12,
    ensures
        count <= at ==> check_sum(first, count) == check_sum(second, count),
        count > at ==> check_sum(first, count) - check_sum(second, count) == check_term(
            at,
            digit_value(first[at]),
        ) - check_term(at, digit_value(second[at])),
    decreases count,
{
    if count > 0 {
        lemma_sums(first, second, at, count - 1);
    }
}

/// A single wrong digit is noticed: of two numbers that differ in one digit, at most one is a
/// vehicle number.
pub proof fn a_wrong_digit_is_noticed(first: Seq<char>, second: Seq<char>, at: int)
    requires
        is_vehicle_number(first),
        second.len() == 12,
        0 <= at < 12,
        forall|i: int| 0 <= i < 12 && i != at ==> first[i] == second[i],
        first[at] != second[at],
        is_digit(second[at]),
    ensures
        !is_vehicle_number(second),
{
    lemma_sums(first, second, at, 11);
    let a = digit_value(first[at]);
    let b = digit_value(second[at]);
    assert(is_digit(first[at]));
    assert(0 <= a <= 9 && 0 <= b <= 9 && a != b);
    let x = check_sum(first, 11);
    let y = check_sum(second, 11);
    if at < 11 {
        assert(first[11] == second[11]);
        let d = check_term(at, a) - check_term(at, b);
        assert(x - y == d);
        assert(-9 <= d <= 9 && d != 0);
        if check_digit(first) == check_digit(second) {
            assert(x % 10 == y % 10);
            assert(false);
        }
    } else {
        assert(x == y);
    }
}

/// The digits of a vehicle number add up to a multiple of ten, every second one doubled.
pub proof fn vehicle_numbers_add_up(number: Seq<char>)
    requires
        is_vehicle_number(number),
    ensures
        (check_sum(number, 11) + digit_value(number[11])) % 10 == 0,
        number.len() == 12,
        check_term(0, 6) == 3,
        check_term(1, 6) == 6,
        check_term(0, 4) == 8,
{
}

/// A keeper mark is two to five capital letters.
pub proof fn keeper_marks_are_capitals(text: Seq<char>)
    ensures
        is_keeper_mark(text) <==> 2 <= text.len() <= 5 && forall|i: int|
            0 <= i < text.len() ==> 'A' <= #[trigger] text[i] <= 'Z',
{
}

/// A numbered identity shows its number.
pub proof fn identities_show_their_number(family: int, number: int)
    requires
        0 <= family < 0x1_0000_0000,
        0 <= number < 0x1_0000_0000_0000,
    ensures
        display_number(numbered(family, number) as u128) == number,
{
    let value = numbered(family, number);
    assert(0 <= value <= u128::MAX);
    assert(value % 0x1_0000_0000_0000 == number) by (nonlinear_arith)
        requires
            value == family * 0x1_0000_0000_0000_0000_0000_0000 + 0x4000_8000_0000_0000_0000
                + number,
            0 <= number < 0x1_0000_0000_0000,
            0 <= family,
    ;
}

/// A Train of a well-formed Fleet is assigned to the Service of its entry, and one without an
/// entry to none.
pub proof fn trains_have_their_services(fleet: Fleet, i: int, id: TrainId)
    requires
        fleet.wf(),
    ensures
        0 <= i < fleet.service_assignments@.len() ==> fleet.assigned(
            fleet.service_assignments@[i].train_id,
        ) == Some(fleet.service_assignments@[i].service_id),
        (forall|j: int|
            0 <= j < fleet.service_assignments@.len() ==> (
            #[trigger] fleet.service_assignments@[j]).train_id != id) ==> fleet.assigned(id) is None,
{
    if 0 <= i < fleet.service_assignments@.len() {
        lemma_assigned(fleet.service_assignments@, i);
    }
    if forall|j: int|
        0 <= j < fleet.service_assignments@.len() ==> (
        #[trigger] fleet.service_assignments@[j]).train_id != id {
        lemma_unassigned(fleet.service_assignments@, id);
    }
}

proof fn lemma_assigned(assignments: Seq<ServiceAssignment>, i: int)
    requires
        0 <= i < assignments.len(),
        forall|a: int, b: int|
            0 <= a < b < assignments.len() ==> (#[trigger] assignments[a]).train_id != (
            #[trigger] assignments[b]).train_id,
    ensures
        assignment_of(assignments, assignments[i].train_id) == Some(assignments[i].service_id),
    decreases assignments.len(),
{
    if i < assignments.len() - 1 {
        let shorter = assignments.drop_last();
        assert(assignments[i].train_id != assignments[assignments.len() - 1].train_id);
        assert(forall|a: int| 0 <= a < shorter.len() ==> #[trigger] shorter[a] == assignments[a]);
        lemma_assigned(shorter, i);
    }
}

proof fn lemma_unassigned(assignments: Seq<ServiceAssignment>, id: TrainId)
    requires
        forall|j: int| 0 <= j < assignments.len() ==> (#[trigger] assignments[j]).train_id != id,
    ensures
        assignment_of(assignments, id) is None,
    decreases assignments.len(),
{
    if assignments.len() > 0 {
        let shorter = assignments.drop_last();
        assert(assignments[assignments.len() - 1].train_id != id);
        assert forall|j: int| 0 <= j < shorter.len() implies (#[trigger] shorter[j]).train_id
            != id by {
            assert(shorter[j] == assignments[j]);
        }
        lemma_unassigned(shorter, id);
    }
}

/// A line is looked up by its identity, the first where several had it.
pub proof fn lines_are_found_by_identity(lines: Seq<RailLine>, i: int)
    requires
        0 <= i < lines.len(),
        forall|j: int| 0 <= j < i ==> (#[trigger] lines[j]).id != lines[i].id,
    ensures
        has_line(lines, lines[i].id),
        line_index(lines, lines[i].id) == i,
    decreases lines.len(),
{
    if i > 0 {
        let rest = lines.drop_first();
        assert(lines[0].id != lines[i].id);
        assert(rest[i - 1] == lines[i]);
        assert forall|j: int| 0 <= j < i - 1 implies (#[trigger] rest[j]).id != rest[i - 1].id by {
            assert(rest[j] == lines[j + 1]);
        }
        lines_are_found_by_identity(rest, i - 1);
    }
}

/// What the simulation reports of a route, a path or a cap is the first entry for its stations.
pub proof fn reports_are_found_by_their_stations(
    route: StationRoute,
    routes: Seq<StationRoute>,
    path: ServicePath,
    paths: Seq<ServicePath>,
    cap: WaitingCap,
    caps: Seq<WaitingCap>,
    from: RailStationId,
    to: RailStationId,
)
    ensures
        route_path(Seq::empty(), from, to) is None,
        route.from == from && route.to == to ==> route_path(seq![route] + routes, from, to) == Some(
            route.rail_line_ids@,
        ),
        route.from != from || route.to != to ==> route_path(seq![route] + routes, from, to)
            == route_path(routes, from, to),
        stops_path(seq![path] + paths, path.stop_station_ids@) == Some(path.rail_line_ids@),
        cap.origin_station_id == from && cap.destination_station_id == to ==> cap_of(
            seq![cap] + caps,
            from,
            to,
        ) == cap.passengers,
        cap.origin_station_id != from || cap.destination_station_id != to ==> cap_of(
            seq![cap] + caps,
            from,
            to,
        ) == cap_of(caps, from, to),
        cap_of(Seq::empty(), from, to) == 0,
{
    assert((seq![route] + routes).drop_first() =~= routes);
    assert((seq![path] + paths).drop_first() =~= paths);
    assert((seq![cap] + caps).drop_first() =~= caps);
}

/// Journeys of a Service start at its first stop, and where it runs both ways at its last.
pub proof fn services_depart_from_their_ends(service: PassengerService, station: RailStationId)
    requires
        service.stop_station_ids@.len() > 0,
    ensures
        service.direction_mode is ForwardOnly ==> (service.departs_from(station) <==> station
            == service.stop_station_ids@[0]),
        service.direction_mode is BothDirections ==> (service.departs_from(station) <==> station
            == service.stop_station_ids@[0] || station == service.stop_station_ids@.last()),
{
}

/// A vehicle number holds two digits of type, two of the country, four of series, three of unit
/// and a check digit, from the left.
pub proof fn vehicle_numbers_hold_their_fields(number: Seq<char>)
    ensures
        vehicle_type(number) == 10 * digit_value(number[0]) + digit_value(number[1]),
        vehicle_registration(number) == 10 * digit_value(number[2]) + digit_value(number[3]),
        vehicle_series(number) == 1000 * digit_value(number[4]) + 100 * digit_value(number[5]) + 10
            * digit_value(number[6]) + digit_value(number[7]),
        vehicle_unit(number) == 100 * digit_value(number[8]) + 10 * digit_value(number[9])
            + digit_value(number[10]),
{
    reveal_with_fuel(super::identity::field_value, 5);
}

/// Trains, Services and Journeys are there exactly if an entry has their identity, and are
/// looked up as the first that has it.
pub proof fn entries_are_found_by_identity(
    trains: Seq<Train>,
    services: Seq<PassengerService>,
    journeys: Seq<Journey>,
    i: int,
)
    requires
        0 <= i,
    ensures
        i < trains.len() && (forall|j: int| 0 <= j < i ==> (#[trigger] trains[j]).id != trains[i].id)
            ==> has_train(trains, trains[i].id) && the_train(trains, trains[i].id) == trains[i],
        i < services.len() && (forall|j: int|
            0 <= j < i ==> (#[trigger] services[j]).id != services[i].id) ==> has_service(
            services,
            services[i].id,
        ) && the_service(services, services[i].id) == services[i],
        i < journeys.len() && (forall|j: int|
            0 <= j < i ==> (#[trigger] journeys[j]).id != journeys[i].id) ==> has_journey(
            journeys,
            journeys[i].id,
        ) && the_journey(journeys, journeys[i].id) == journeys[i],
{
    if i < trains.len() && (forall|j: int|
        0 <= j < i ==> (#[trigger] trains[j]).id != trains[i].id) {
        let id = trains[i].id;
        assert(is_train_at(trains, i, id));
        let c = choose|c: int| is_train_at(trains, c, id);
        assert(is_train_at(trains, c, id));
        if c < i {
            assert(trains[c].id != id);
        }
    }
    if i < services.len() && (forall|j: int|
        0 <= j < i ==> (#[trigger] services[j]).id != services[i].id) {
        let id = services[i].id;
        assert(is_service_at(services, i, id));
        let c = choose|c: int| is_service_at(services, c, id);
        assert(is_service_at(services, c, id));
        if c < i {
            assert(services[c].id != id);
        }
    }
    if i < journeys.len() && (forall|j: int|
        0 <= j < i ==> (#[trigger] journeys[j]).id != journeys[i].id) {
        let id = journeys[i].id;
        assert(is_journey_at(journeys, i, id));
        let c = choose|c: int| is_journey_at(journeys, c, id);
        assert(is_journey_at(journeys, c, id));
        if c < i {
            assert(journeys[c].id != id);
        }
    }
}

/// What no entry has the identity of is not there.
pub proof fn absent_entries_are_not_found(
    trains: Seq<Train>,
    services: Seq<PassengerService>,
    journeys: Seq<Journey>,
    train: TrainId,
    service: ServiceId,
    journey: JourneyId,
)
    ensures
        (forall|j: int| 0 <= j < trains.len() ==> (#[trigger] trains[j]).id != train) ==> !has_train(
            trains,
            train,
        ),
        (forall|j: int| 0 <= j < services.len() ==> (#[trigger] services[j]).id != service)
            ==> !has_service(services, service),
        (forall|j: int| 0 <= j < journeys.len() ==> (#[trigger] journeys[j]).id != journey)
            ==> !has_journey(journeys, journey),
{
}

/// A digit is one of ten characters and stands for its number, and vehicle numbers consist of
/// twelve.
pub proof fn digits_stand_for_numbers(character: char, number: Seq<char>)
    ensures
        is_digit(character) <==> character as u32 >= 48 && character as u32 <= 57,
        digit_value('0') == 0,
        digit_value('9') == 9,
        digit_value(character) == character as u32 - 48,
        is_vehicle_number(number) ==> number.len() == 12 && (forall|i: int|
            0 <= i < number.len() ==> is_digit(#[trigger] number[i])),
{
}

} // verus!
