//! Passenger Services of earlier saves: which may run in both directions, which reciprocal
//! pairs become one Service, the train numbers that Services receive, and where Journeys under
//! way stand on them.

use vstd::prelude::*;

use crate::model::company::ServiceDirectionMode;
use crate::storage::codec::SaveCodecError;
use crate::text::same_text;

verus! {

/// A stored Rail Line with the Rail Stations that it joins.
#[derive(Clone, Debug, PartialEq, Eq)]
pub struct LineEndpoints {
    pub id: String,
    pub first_station_id: String,
    pub second_station_id: String,
}

/// A stored Passenger Service with its stops and its path in order.
#[derive(Clone, Debug, PartialEq, Eq)]
pub struct StoredService {
    pub id: String,
    pub sequence: i64,
    pub stop_station_ids: Vec<String>,
    pub rail_line_ids: Vec<String>,
    pub has_active_journey: bool,
}

pub open spec fn texts(strings: Seq<String>) -> Seq<Seq<char>> {
    Seq::new(strings.len(), |i: int| strings[i]@)
}

pub open spec fn all_distinct(items: Seq<Seq<char>>) -> bool {
    forall|i: int, j: int| 0 <= i < j < items.len() ==> #[trigger] items[i] != #[trigger] items[j]
}

/// The Rail Stations that the last stored Rail Line with an identity joins.
pub open spec fn ends_of(lines: Seq<LineEndpoints>, id: Seq<char>) -> Option<(Seq<char>, Seq<char>)>
    decreases lines.len(),
{
    if lines.len() == 0 {
        None
    } else if lines.last().id@ == id {
        Some((lines.last().first_station_id@, lines.last().second_station_id@))
    } else {
        ends_of(lines.drop_last(), id)
    }
}

/// The Rail Stations on the way from a start along the first `count` Rail Lines of a path, or
/// nothing where a Rail Line does not continue the way.
pub open spec fn way(
    start: Seq<char>,
    path: Seq<Seq<char>>,
    lines: Seq<LineEndpoints>,
    count: int,
) -> Option<Seq<Seq<char>>>
    decreases count,
{
    if count <= 0 {
        Some(seq![start])
    } else {
        match way(start, path, lines, count - 1) {
            None => None,
            Some(stations) => match ends_of(lines, path[count - 1]) {
                None => None,
                Some((first, second)) => if stations.last() == first {
                    Some(stations.push(second))
                } else if stations.last() == second {
                    Some(stations.push(first))
                } else {
                    None
                },
            },
        }
    }
}

/// The first position at or after `from` at which the way passes a Rail Station.
pub open spec fn next_pass(stations: Seq<Seq<char>>, from: int, station: Seq<char>) -> Option<int>
    decreases stations.len() - from,
{
    if from < 0 || from >= stations.len() {
        None
    } else if stations[from] == station {
        Some(from)
    } else {
        next_pass(stations, from + 1, station)
    }
}

/// Where the way calls at the stop number `k`: each stop at the first pass after the one
/// before it.
pub open spec fn call_position(stations: Seq<Seq<char>>, stops: Seq<Seq<char>>, k: int) -> Option<int>
    decreases k,
{
    if k <= 0 {
        Some(0)
    } else {
        match call_position(stations, stops, k - 1) {
            None => None,
            Some(position) => next_pass(stations, position + 1, stops[k]),
        }
    }
}

/// A route that can be run backwards: distinct stops and Rail Lines, a continuous way from the
/// first stop to the last, and the stops called at in order, the last one at its end.
pub open spec fn reversible(
    stops: Seq<Seq<char>>,
    path: Seq<Seq<char>>,
    lines: Seq<LineEndpoints>,
) -> bool {
    &&& stops.len() >= 2
    &&& path.len() > 0
    &&& all_distinct(stops)
    &&& all_distinct(path)
    &&& way(stops[0], path, lines, path.len() as int) matches Some(stations)
        && stations.last() == stops.last() && call_position(stations, stops, stops.len() - 1)
        == Some(stations.len() - 1)
}

fn has_distinct_texts(items: &Vec<String>) -> (result: bool)
    ensures
        result == all_distinct(texts(items@)),
{
    let mut i: usize = 0;
    while i < items.len()
        invariant
            i <= items@.len(),
            forall|a: int, b: int|
                0 <= a < b < i ==> #[trigger] texts(items@)[a] != #[trigger] texts(items@)[b],
        decreases items.len() - i,
    {
        let mut j: usize = 0;
        while j < i
            invariant
                j <= i < items@.len(),
                forall|a: int| 0 <= a < j ==> #[trigger] texts(items@)[a] != texts(items@)[i as int],
            decreases i - j,
        {
            if same_text(items[j].as_str(), items[i].as_str()) {
                assert(texts(items@)[j as int] == texts(items@)[i as int]);
                return false;
            }
            j += 1;
        }
        i += 1;
    }
    true
}

fn find_ends<'a>(lines: &'a Vec<LineEndpoints>, id: &str) -> (result: Option<&'a LineEndpoints>)
    ensures
        match result {
            Some(line) => ends_of(lines@, id@) == Some(
                (line.first_station_id@, line.second_station_id@),
            ),
            None => ends_of(lines@, id@) is None,
        },
{
    let mut i: usize = lines.len();
    assert(lines@.take(i as int) =~= lines@);
    while i > 0
        invariant
            i <= lines@.len(),
            ends_of(lines@, id@) == ends_of(lines@.take(i as int), id@),
        decreases i,
    {
        i -= 1;
        assert(lines@.take(i + 1).drop_last() =~= lines@.take(i as int));
        if same_text(lines[i].id.as_str(), id) {
            return Some(&lines[i]);
        }
    }
    None
}

proof fn lemma_way_fails(
    start: Seq<char>,
    path: Seq<Seq<char>>,
    lines: Seq<LineEndpoints>,
    low: int,
    high: int,
)
    requires
        low <= high,
        way(start, path, lines, low) is None,
    ensures
        way(start, path, lines, high) is None,
    decreases high - low,
{
    if low < high {
        lemma_way_fails(start, path, lines, low, high - 1);
    }
}

proof fn lemma_call_fails(stations: Seq<Seq<char>>, stops: Seq<Seq<char>>, low: int, high: int)
    requires
        low <= high,
        call_position(stations, stops, low) is None,
    ensures
        call_position(stations, stops, high) is None,
    decreases high - low,
{
    if low < high {
        lemma_call_fails(stations, stops, low, high - 1);
    }
}

fn travel(
    start: &String,
    path: &Vec<String>,
    lines: &Vec<LineEndpoints>,
) -> (result: Option<Vec<String>>)
    ensures
        match result {
            Some(stations) => way(start@, texts(path@), lines@, path@.len() as int) == Some(
                texts(stations@),
            ),
            None => way(start@, texts(path@), lines@, path@.len() as int) is None,
        },
{
    let mut stations: Vec<String> = Vec::new();
    stations.push(start.clone());
    assert(texts(stations@) =~= seq![start@]);
    let mut i: usize = 0;
    while i < path.len()
        invariant
            i <= path@.len(),
            stations@.len() == i + 1,
            way(start@, texts(path@), lines@, i as int) == Some(texts(stations@)),
        decreases path.len() - i,
    {
        let ghost count = path@.len() as int;
        let line = match find_ends(lines, path[i].as_str()) {
            Some(line) => line,
            None => {
                proof {
                    lemma_way_fails(start@, texts(path@), lines@, i + 1, count);
                }
                return None;
            },
        };
        let ghost before = texts(stations@);
        let last: usize = stations.len() - 1;
        let next = if same_text(stations[last].as_str(), line.first_station_id.as_str()) {
            line.second_station_id.clone()
        } else if same_text(stations[last].as_str(), line.second_station_id.as_str()) {
            line.first_station_id.clone()
        } else {
            proof {
                lemma_way_fails(start@, texts(path@), lines@, i + 1, count);
            }
            return None;
        };
        stations.push(next);
        assert(texts(stations@) =~= before.push(next@));
        i += 1;
    }
    Some(stations)
}

fn find_pass(stations: &Vec<String>, from: usize, station: &str) -> (result: Option<usize>)
    ensures
        match result {
            Some(i) => next_pass(texts(stations@), from as int, station@) == Some(i as int) && from
                <= i < stations@.len(),
            None => next_pass(texts(stations@), from as int, station@) is None,
        },
{
    let mut i: usize = from;
    while i < stations.len()
        invariant
            from <= i,
            next_pass(texts(stations@), from as int, station@) == next_pass(
                texts(stations@),
                i as int,
                station@,
            ),
        decreases stations.len() - i,
    {
        if same_text(stations[i].as_str(), station) {
            return Some(i);
        }
        i += 1;
    }
    None
}

/// Whether a stored route can be run backwards.
pub fn stored_service_route_is_reversible(
    stop_station_ids: &Vec<String>,
    rail_line_ids: &Vec<String>,
    lines: &Vec<LineEndpoints>,
) -> (result: bool)
    ensures
        result == reversible(texts(stop_station_ids@), texts(rail_line_ids@), lines@),
{
    if stop_station_ids.len() < 2 || rail_line_ids.len() == 0 {
        return false;
    }
    if !has_distinct_texts(stop_station_ids) || !has_distinct_texts(rail_line_ids) {
        return false;
    }
    let stations = match travel(&stop_station_ids[0], rail_line_ids, lines) {
        Some(stations) => stations,
        None => return false,
    };
    let ghost stops = texts(stop_station_ids@);
    let ghost visited = texts(stations@);
    proof {
        lemma_way_length(stops[0], texts(rail_line_ids@), lines@, rail_line_ids@.len() as int);
    }
    if !same_text(
        stations[stations.len() - 1].as_str(),
        stop_station_ids[stop_station_ids.len() - 1].as_str(),
    ) {
        return false;
    }
    let passed: usize = stations.len();
    let mut position: usize = 0;
    let mut k: usize = 1;
    while k < stop_station_ids.len()
        invariant
            1 <= k <= stop_station_ids@.len(),
            stops == texts(stop_station_ids@),
            visited == texts(stations@),
            position < passed == stations@.len(),
            call_position(visited, stops, k - 1) == Some(position as int),
            way(stops[0], texts(rail_line_ids@), lines@, rail_line_ids@.len() as int) == Some(
                visited,
            ),
        decreases stop_station_ids.len() - k,
    {
        match find_pass(&stations, position + 1, stop_station_ids[k].as_str()) {
            Some(next) => {
                position = next;
            },
            None => {
                proof {
                    lemma_call_fails(visited, stops, k as int, stops.len() - 1);
                }
                return false;
            },
        }
        k += 1;
    }
    position == passed - 1
}

proof fn lemma_way_length(
    start: Seq<char>,
    path: Seq<Seq<char>>,
    lines: Seq<LineEndpoints>,
    count: int,
)
    requires
        0 <= count,
    ensures
        way(start, path, lines, count) matches Some(stations) ==> stations.len() == count + 1,
    decreases count,
{
    if count > 0 {
        lemma_way_length(start, path, lines, count - 1);
    }
}

/// Whether two routes are each other's exact reverse.
pub open spec fn reciprocal(first: StoredService, second: StoredService) -> bool {
    &&& texts(first.stop_station_ids@) == texts(second.stop_station_ids@).reverse()
    &&& texts(first.rail_line_ids@) == texts(second.rail_line_ids@).reverse()
}

fn is_reverse(first: &Vec<String>, second: &Vec<String>) -> (result: bool)
    ensures
        result == (texts(first@) == texts(second@).reverse()),
{
    let ghost forward = texts(first@);
    let ghost backward = texts(second@).reverse();
    if first.len() != second.len() {
        assert(forward.len() != backward.len());
        return false;
    }
    let count: usize = first.len();
    let mut i: usize = 0;
    while i < count
        invariant
            i <= count,
            count == first@.len(),
            count == second@.len(),
            forward == texts(first@),
            backward == texts(second@).reverse(),
            forall|j: int| 0 <= j < i ==> #[trigger] forward[j] == backward[j],
        decreases count - i,
    {
        assert(backward[i as int] == texts(second@)[count - 1 - i]);
        if !same_text(first[i].as_str(), second[count - 1 - i].as_str()) {
            assert(forward[i as int] != backward[i as int]);
            return false;
        }
        i += 1;
    }
    assert(forward =~= backward);
    true
}

pub fn routes_are_exact_reciprocals(first: &StoredService, second: &StoredService) -> (result: bool)
    ensures
        result == reciprocal(*first, *second),
{
    is_reverse(&first.stop_station_ids, &second.stop_station_ids) && is_reverse(
        &first.rail_line_ids,
        &second.rail_line_ids,
    )
}

/// Reciprocity goes both ways.
pub proof fn reciprocity_is_symmetric(first: StoredService, second: StoredService)
    ensures
        reciprocal(first, second) == reciprocal(second, first),
{
    let a = texts(first.stop_station_ids@);
    let b = texts(second.stop_station_ids@);
    let c = texts(first.rail_line_ids@);
    let d = texts(second.rail_line_ids@);
    assert(a.reverse().reverse() =~= a);
    assert(b.reverse().reverse() =~= b);
    assert(c.reverse().reverse() =~= c);
    assert(d.reverse().reverse() =~= d);
}

/// What an upgrade does to a Service that is not left one-way.
#[derive(Clone, Copy, Debug, PartialEq, Eq, Structural)]
pub enum ServiceChange {
    /// The Service runs in both directions.
    BothWays { service: usize },
    /// The survivor runs in both directions and takes the place of the retired Service.
    Merge { survivor: usize, retired: usize },
}

pub open spec fn can_reverse(service: StoredService, lines: Seq<LineEndpoints>) -> bool {
    reversible(texts(service.stop_station_ids@), texts(service.rail_line_ids@), lines)
}

/// Whether `j` can be the partner of `i` in a pair: unhandled, reversible, and its reciprocal.
pub open spec fn pairs(
    services: Seq<StoredService>,
    lines: Seq<LineEndpoints>,
    handled: Seq<bool>,
    i: int,
    j: int,
) -> bool {
    !handled[j] && can_reverse(services[j], lines) && reciprocal(services[i], services[j])
}

/// The first later Service that pairs with `i`, from position `from` on.
pub open spec fn partner(
    services: Seq<StoredService>,
    lines: Seq<LineEndpoints>,
    handled: Seq<bool>,
    i: int,
    from: int,
) -> Option<int>
    decreases services.len() - from,
{
    if from < 0 || from >= services.len() {
        None
    } else if pairs(services, lines, handled, i, from) {
        Some(from)
    } else {
        partner(services, lines, handled, i, from + 1)
    }
}

/// Which of a reciprocal pair survives: the one with a Journey under way, otherwise the older.
/// With Journeys under way on both, both stay.
pub open spec fn merge_of(services: Seq<StoredService>, i: int, j: int) -> Option<ServiceChange> {
    if services[i].has_active_journey && services[j].has_active_journey {
        None
    } else if services[i].has_active_journey || (!services[j].has_active_journey
        && services[i].sequence <= services[j].sequence) {
        Some(ServiceChange::Merge { survivor: i as usize, retired: j as usize })
    } else {
        Some(ServiceChange::Merge { survivor: j as usize, retired: i as usize })
    }
}

/// How far an upgrade has come: the Services that are settled and the changes so far.
#[verifier::ext_equal]
pub ghost struct MergePlan {
    pub handled: Seq<bool>,
    pub changes: Seq<ServiceChange>,
}

/// The upgrade of the first `count` Services.
pub open spec fn merge_plan(
    services: Seq<StoredService>,
    lines: Seq<LineEndpoints>,
    count: int,
) -> MergePlan
    decreases count,
{
    if count <= 0 {
        MergePlan {
            handled: Seq::new(services.len(), |i: int| false),
            changes: Seq::empty(),
        }
    } else {
        let i = count - 1;
        let plan = merge_plan(services, lines, i);
        let settled = plan.handled.update(i, true);
        if plan.handled[i] {
            plan
        } else if !can_reverse(services[i], lines) {
            MergePlan { handled: settled, changes: plan.changes }
        } else {
            match partner(services, lines, settled, i, i + 1) {
                None => MergePlan {
                    handled: settled,
                    changes: plan.changes.push(ServiceChange::BothWays { service: i as usize }),
                },
                Some(j) => MergePlan {
                    handled: settled.update(j, true),
                    changes: match merge_of(services, i, j) {
                        Some(change) => plan.changes.push(change),
                        None => plan.changes,
                    },
                },
            }
        }
    }
}

fn find_partner(
    services: &Vec<StoredService>,
    lines: &Vec<LineEndpoints>,
    handled: &Vec<bool>,
    i: usize,
) -> (result: Option<usize>)
    requires
        i < services@.len(),
        handled@.len() == services@.len(),
    ensures
        match result {
            Some(j) => partner(services@, lines@, handled@, i as int, i + 1) == Some(j as int) && i
                < j < services@.len(),
            None => partner(services@, lines@, handled@, i as int, i + 1) is None,
        },
{
    let count: usize = services.len();
    let mut j: usize = i + 1;
    while j < count
        invariant
            i < j <= count,
            count == services@.len(),
            handled@.len() == services@.len(),
            partner(services@, lines@, handled@, i as int, i + 1) == partner(
                services@,
                lines@,
                handled@,
                i as int,
                j as int,
            ),
        decreases count - j,
    {
        if !handled[j] && stored_service_route_is_reversible(
            &services[j].stop_station_ids,
            &services[j].rail_line_ids,
            lines,
        ) && routes_are_exact_reciprocals(&services[i], &services[j]) {
            return Some(j);
        }
        j += 1;
    }
    None
}

/// Plans the upgrade of one-way Services: a reversible Service runs in both directions, and of
/// a reciprocal pair one Service takes the place of both.
pub fn plan_passenger_services(
    services: &Vec<StoredService>,
    lines: &Vec<LineEndpoints>,
) -> (result: Vec<ServiceChange>)
    ensures
        result@ == merge_plan(services@, lines@, services@.len() as int).changes,
{
    let mut changes: Vec<ServiceChange> = Vec::new();
    let mut handled: Vec<bool> = Vec::new();
    let mut k: usize = 0;
    while k < services.len()
        invariant
            k <= services@.len(),
            handled@.len() == k,
            forall|j: int| 0 <= j < k ==> !(#[trigger] handled@[j]),
        decreases services.len() - k,
    {
        handled.push(false);
        k += 1;
    }
    assert(handled@ =~= merge_plan(services@, lines@, 0).handled);
    let mut i: usize = 0;
    while i < services.len()
        invariant
            i <= services@.len(),
            handled@.len() == services@.len(),
            handled@ == merge_plan(services@, lines@, i as int).handled,
            changes@ == merge_plan(services@, lines@, i as int).changes,
        decreases services.len() - i,
    {
        if !handled[i] {
            handled.set(i, true);
            let service = &services[i];
            if stored_service_route_is_reversible(
                &service.stop_station_ids,
                &service.rail_line_ids,
                lines,
            ) {
                match find_partner(services, lines, &handled, i) {
                    None => {
                        changes.push(ServiceChange::BothWays { service: i });
                    },
                    Some(j) => {
                        handled.set(j, true);
                        let other = &services[j];
                        if !(service.has_active_journey && other.has_active_journey) {
                            if service.has_active_journey || (!other.has_active_journey
                                && service.sequence <= other.sequence) {
                                changes.push(ServiceChange::Merge { survivor: i, retired: j });
                            } else {
                                changes.push(ServiceChange::Merge { survivor: j, retired: i });
                            }
                        }
                    },
                }
            }
        }
        i += 1;
    }
    changes
}

/// The Service that a change retires, if any.
pub open spec fn retired_by(change: ServiceChange) -> Option<int> {
    match change {
        ServiceChange::BothWays { .. } => None,
        ServiceChange::Merge { retired, .. } => Some(retired as int),
    }
}

/// The Service that a change lets run in both directions.
pub open spec fn kept_by(change: ServiceChange) -> int {
    match change {
        ServiceChange::BothWays { service } => service as int,
        ServiceChange::Merge { survivor, .. } => survivor as int,
    }
}

/// What a single change of a plan respects.
pub open spec fn sound_change(
    services: Seq<StoredService>,
    lines: Seq<LineEndpoints>,
    handled: Seq<bool>,
    change: ServiceChange,
) -> bool {
    let kept = kept_by(change);
    &&& 0 <= kept < services.len()
    &&& handled[kept]
    &&& can_reverse(services[kept], lines)
    &&& retired_by(change) matches Some(retired) ==> {
        &&& 0 <= retired < services.len()
        &&& retired != kept
        &&& handled[retired]
        &&& reciprocal(services[kept], services[retired])
        &&& !services[retired].has_active_journey
    }
}

proof fn lemma_partner(
    services: Seq<StoredService>,
    lines: Seq<LineEndpoints>,
    handled: Seq<bool>,
    i: int,
    from: int,
)
    ensures
        partner(services, lines, handled, i, from) matches Some(j) ==> from <= j < services.len()
            && pairs(services, lines, handled, i, j),
    decreases services.len() - from,
{
    if 0 <= from < services.len() && !pairs(services, lines, handled, i, from) {
        lemma_partner(services, lines, handled, i, from + 1);
    }
}

spec fn apart(first: ServiceChange, second: ServiceChange) -> bool {
    &&& kept_by(first) != kept_by(second)
    &&& retired_by(first) != Some(kept_by(second))
    &&& retired_by(second) != Some(kept_by(first))
    &&& retired_by(first) is Some ==> retired_by(first) != retired_by(second)
}

proof fn lemma_plan(services: Seq<StoredService>, lines: Seq<LineEndpoints>, count: int)
    requires
        0 <= count <= services.len(),
        services.len() <= usize::MAX,
    ensures
        ({
            let plan = merge_plan(services, lines, count);
            &&& plan.handled.len() == services.len()
            &&& forall|c: int|
                0 <= c < plan.changes.len() ==> sound_change(
                    services,
                    lines,
                    plan.handled,
                    #[trigger] plan.changes[c],
                )
            &&& forall|c: int, d: int|
                0 <= c < d < plan.changes.len() ==> apart(
                    #[trigger] plan.changes[c],
                    #[trigger] plan.changes[d],
                )
        }),
    decreases count,
{
    if count > 0 {
        let i = count - 1;
        lemma_plan(services, lines, i);
        let plan = merge_plan(services, lines, i);
        let after = merge_plan(services, lines, count);
        let settled = plan.handled.update(i, true);
        lemma_partner(services, lines, settled, i, i + 1);
        let found = partner(services, lines, settled, i, i + 1);
        if found is Some {
            reciprocity_is_symmetric(services[i], services[found->0]);
        }
        assert forall|c: int| 0 <= c < after.changes.len() implies sound_change(
            services,
            lines,
            after.handled,
            #[trigger] after.changes[c],
        ) by {
            if c < plan.changes.len() {
                assert(after.changes[c] == plan.changes[c]);
                assert(sound_change(services, lines, plan.handled, plan.changes[c]));
            }
        }
        assert forall|c: int, d: int| 0 <= c < d < after.changes.len() implies apart(
            #[trigger] after.changes[c],
            #[trigger] after.changes[d],
        ) by {
            assert(after.changes[c] == plan.changes[c]);
            assert(sound_change(services, lines, plan.handled, plan.changes[c]));
            if d < plan.changes.len() {
                assert(after.changes[d] == plan.changes[d]);
                assert(apart(plan.changes[c], plan.changes[d]));
            }
        }
    }
}

/// Merging never retires a Service with a Journey under way, only merges exact reciprocals of
/// which the survivor can be run backwards, and touches every Service at most once.
pub proof fn merging_is_safe(services: Seq<StoredService>, lines: Seq<LineEndpoints>, c: int, d: int)
    requires
        services.len() <= usize::MAX,
        0 <= c < merge_plan(services, lines, services.len() as int).changes.len(),
        0 <= d < merge_plan(services, lines, services.len() as int).changes.len(),
        c != d,
    ensures
        ({
            let changes = merge_plan(services, lines, services.len() as int).changes;
            let kept = kept_by(changes[c]);
            &&& 0 <= kept < services.len()
            &&& can_reverse(services[kept], lines)
            &&& retired_by(changes[c]) matches Some(retired) ==> {
                &&& 0 <= retired < services.len()
                &&& reciprocal(services[kept], services[retired])
                &&& !services[retired].has_active_journey
            }
            &&& kept != kept_by(changes[d])
            &&& retired_by(changes[d]) != Some(kept)
            &&& retired_by(changes[c]) is Some ==> retired_by(changes[c]) != retired_by(changes[d])
        }),
{
    lemma_plan(services, lines, services.len() as int);
    let plan = merge_plan(services, lines, services.len() as int);
    assert(sound_change(services, lines, plan.handled, plan.changes[c]));
    if c < d {
        assert(apart(plan.changes[c], plan.changes[d]));
    } else {
        assert(apart(plan.changes[d], plan.changes[c]));
    }
}

/// How many train numbers a Service takes.
pub open spec fn numbers_taken(mode: ServiceDirectionMode) -> int {
    if mode is BothDirections {
        2
    } else {
        1
    }
}

/// The first train number of a Service: from one hundred on, in order.
pub open spec fn first_number(modes: Seq<ServiceDirectionMode>, count: int) -> int
    decreases count,
{
    if count <= 0 {
        100
    } else {
        first_number(modes, count - 1) + numbers_taken(modes[count - 1])
    }
}

/// The train numbers of one Service.
#[derive(Clone, Copy, Debug, PartialEq, Eq, Structural)]
pub struct TrainNumbers {
    pub forward: i64,
    pub reverse: Option<i64>,
}

pub open spec fn numbers_of(modes: Seq<ServiceDirectionMode>, i: int) -> TrainNumbers {
    TrainNumbers {
        forward: first_number(modes, i) as i64,
        reverse: if modes[i] is BothDirections {
            Some((first_number(modes, i) + 1) as i64)
        } else {
            None
        },
    }
}

proof fn lemma_numbers_grow(modes: Seq<ServiceDirectionMode>, low: int, high: int)
    requires
        0 <= low <= high,
    ensures
        100 <= first_number(modes, low),
        first_number(modes, low) + (high - low) <= first_number(modes, high),
    decreases high,
{
    if low < high {
        lemma_numbers_grow(modes, low, high - 1);
    } else if low > 0 {
        lemma_numbers_grow(modes, low - 1, low - 1);
    }
}

/// Gives every Service its train numbers.
pub fn number_services(modes: &Vec<ServiceDirectionMode>) -> (result: Result<
    Vec<TrainNumbers>,
    SaveCodecError,
>)
    ensures
        match result {
            Ok(numbers) => {
                &&& first_number(modes@, modes@.len() as int) <= i64::MAX
                &&& numbers@.len() == modes@.len()
                &&& forall|i: int|
                    0 <= i < modes@.len() ==> #[trigger] numbers@[i] == numbers_of(modes@, i)
            },
            Err(error) => first_number(modes@, modes@.len() as int) > i64::MAX && error == (
            SaveCodecError::InvalidValue { field: "Passenger Service train number" }),
        },
{
    let mut numbers: Vec<TrainNumbers> = Vec::new();
    let mut next: i64 = 100;
    let mut i: usize = 0;
    while i < modes.len()
        invariant
            i <= modes@.len(),
            next == first_number(modes@, i as int),
            next >= 100,
            numbers@.len() == i,
            forall|j: int| 0 <= j < i ==> #[trigger] numbers@[j] == numbers_of(modes@, j),
        decreases modes.len() - i,
    {
        let both = matches!(modes[i], ServiceDirectionMode::BothDirections);
        let taken: i64 = if both {
            2
        } else {
            1
        };
        let following: i64 = match next.checked_add(taken) {
            Some(following) => following,
            None => {
                proof {
                    lemma_numbers_grow(modes@, i + 1, modes@.len() as int);
                }
                return Err(
                    SaveCodecError::InvalidValue { field: "Passenger Service train number" },
                );
            },
        };
        let reverse: Option<i64> = if both {
            Some(next + 1)
        } else {
            None
        };
        numbers.push(TrainNumbers { forward: next, reverse });
        next = following;
        i += 1;
    }
    Ok(numbers)
}

/// No train number is given twice, and none lies below one hundred.
pub proof fn train_numbers_are_distinct(modes: Seq<ServiceDirectionMode>, i: int, j: int)
    requires
        0 <= i < j < modes.len(),
        first_number(modes, modes.len() as int) <= i64::MAX,
    ensures
        100 <= numbers_of(modes, i).forward,
        numbers_of(modes, i).forward < numbers_of(modes, j).forward,
        numbers_of(modes, i).reverse matches Some(reverse) ==> numbers_of(modes, i).forward < reverse
            < numbers_of(modes, j).forward,
{
    lemma_numbers_grow(modes, i, i);
    lemma_numbers_grow(modes, i + 1, j);
    lemma_numbers_grow(modes, j, modes.len() as int);
}

/// The stop of its Service that a Journey of an early save has reached: those saves ran
/// without a halt, so a Journey stands on the last leg of its direction.
pub open spec fn resumed_stop(origin: Seq<char>, stops: Seq<Seq<char>>) -> int {
    if stops.len() < 2 {
        0
    } else if origin == stops[0] {
        stops.len() - 2
    } else if origin == stops.last() {
        1
    } else {
        0
    }
}

pub fn resumed_stop_index(origin: &str, stops: &Vec<String>) -> (result: usize)
    ensures
        result == resumed_stop(origin@, texts(stops@)),
        stops@.len() > 0 ==> result < stops@.len(),
{
    if stops.len() < 2 {
        return 0;
    }
    proof {
        assert(texts(stops@)[0] == stops@[0]@);
        assert(texts(stops@).last() == stops@.last()@);
    }
    if same_text(origin, stops[0].as_str()) {
        stops.len() - 2
    } else if same_text(origin, stops[stops.len() - 1].as_str()) {
        1
    } else {
        0
    }
}

} // verus!
