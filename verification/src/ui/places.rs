//! The names of settlements and stations.

use vstd::prelude::*;
use vstd::string::StringExecFns;

use crate::model::ids::{RailStationId, SettlementId};
use crate::model::network::{RailLine, RailStation, Settlement};
use crate::model::state::Region;
use crate::text::views;

verus! {

/// The name of the first settlement with an identity.
pub open spec fn settlement_label(settlements: Seq<Settlement>, id: SettlementId) -> Seq<char>
    decreases settlements.len(),
{
    if settlements.len() == 0 {
        "Unknown settlement"@
    } else if settlements[0].id == id {
        settlements[0].name@
    } else {
        settlement_label(settlements.skip(1), id)
    }
}

pub fn settlement_name(settlements: &Vec<Settlement>, id: SettlementId) -> (result: String)
    ensures
        result@ == settlement_label(settlements@, id),
{
    let mut i: usize = 0;
    assert(settlements@.skip(0) =~= settlements@);
    while i < settlements.len()
        invariant
            i <= settlements@.len(),
            settlement_label(settlements@, id) == settlement_label(settlements@.skip(i as int), id),
        decreases settlements.len() - i,
    {
        assert(settlements@.skip(i as int)[0] == settlements@[i as int]);
        if settlements[i].id == id {
            return settlements[i].name.clone();
        }
        assert(settlements@.skip(i as int).skip(1) =~= settlements@.skip(i + 1));
        i += 1;
    }
    "Unknown settlement".to_owned()
}

/// The settlement of the first station with an identity.
pub open spec fn station_settlement(stations: Seq<RailStation>, id: RailStationId) -> Option<
    SettlementId,
>
    decreases stations.len(),
{
    if stations.len() == 0 {
        None
    } else if stations[0].id == id {
        Some(stations[0].settlement_id)
    } else {
        station_settlement(stations.skip(1), id)
    }
}

pub fn find_station_settlement(stations: &Vec<RailStation>, id: RailStationId) -> (result: Option<
    SettlementId,
>)
    ensures
        result == station_settlement(stations@, id),
{
    let mut i: usize = 0;
    assert(stations@.skip(0) =~= stations@);
    while i < stations.len()
        invariant
            i <= stations@.len(),
            station_settlement(stations@, id) == station_settlement(stations@.skip(i as int), id),
        decreases stations.len() - i,
    {
        assert(stations@.skip(i as int)[0] == stations@[i as int]);
        if stations[i].id == id {
            return Some(stations[i].settlement_id);
        }
        assert(stations@.skip(i as int).skip(1) =~= stations@.skip(i + 1));
        i += 1;
    }
    None
}

/// The name of a station: that of its settlement. Planned stations come before built ones.
pub open spec fn station_label(
    region: Region,
    planned: Seq<RailStation>,
    id: RailStationId,
) -> Seq<char> {
    let settlements = region.settlements@;
    match station_settlement(planned, id) {
        Some(settlement) => settlement_label(settlements, settlement),
        None => match station_settlement(
            region.rail_authority.rail_network.rail_stations@,
            id,
        ) {
            Some(settlement) => settlement_label(settlements, settlement),
            None => "Unknown station"@,
        },
    }
}

pub fn station_name(region: &Region, planned: &Vec<RailStation>, id: RailStationId) -> (result:
    String)
    ensures
        result@ == station_label(*region, planned@, id),
{
    match find_station_settlement(planned, id) {
        Some(settlement) => settlement_name(&region.settlements, settlement),
        None => match find_station_settlement(
            &region.rail_authority.rail_network.rail_stations,
            id,
        ) {
            Some(settlement) => settlement_name(&region.settlements, settlement),
            None => "Unknown station".to_owned(),
        },
    }
}

/// Whether a station is among the planned ones.
pub open spec fn planned_here(planned: Seq<RailStation>, id: RailStationId) -> bool {
    station_settlement(planned, id) is Some
}

/// The first end of a planned line, in the order of the lines, that is not planned itself.
pub open spec fn built_end(lines: Seq<RailLine>, planned: Seq<RailStation>) -> Option<RailStationId>
    decreases lines.len(),
{
    if lines.len() == 0 {
        None
    } else if !planned_here(planned, lines[0].first_station_id) {
        Some(lines[0].first_station_id)
    } else if !planned_here(planned, lines[0].second_station_id) {
        Some(lines[0].second_station_id)
    } else {
        built_end(lines.skip(1), planned)
    }
}

fn find_built_end(lines: &Vec<RailLine>, planned: &Vec<RailStation>) -> (result: Option<
    RailStationId,
>)
    ensures
        result == built_end(lines@, planned@),
{
    let mut i: usize = 0;
    assert(lines@.skip(0) =~= lines@);
    while i < lines.len()
        invariant
            i <= lines@.len(),
            built_end(lines@, planned@) == built_end(lines@.skip(i as int), planned@),
        decreases lines.len() - i,
    {
        assert(lines@.skip(i as int)[0] == lines@[i as int]);
        if find_station_settlement(planned, lines[i].first_station_id).is_none() {
            return Some(lines[i].first_station_id);
        }
        if find_station_settlement(planned, lines[i].second_station_id).is_none() {
            return Some(lines[i].second_station_id);
        }
        assert(lines@.skip(i as int).skip(1) =~= lines@.skip(i + 1));
        i += 1;
    }
    None
}

pub open spec fn meets(line: RailLine, id: RailStationId) -> bool {
    line.first_station_id == id || line.second_station_id == id
}

/// How many of the first `count` lines end at a station.
pub open spec fn lines_at(lines: Seq<RailLine>, id: RailStationId, count: int) -> int
    decreases count,
{
    if count <= 0 {
        0
    } else {
        lines_at(lines, id, count - 1) + if meets(lines[count - 1], id) {
            1int
        } else {
            0
        }
    }
}

fn count_lines_at(lines: &Vec<RailLine>, id: RailStationId) -> (result: usize)
    ensures
        result == lines_at(lines@, id, lines@.len() as int),
{
    let mut count: usize = 0;
    let mut i: usize = 0;
    while i < lines.len()
        invariant
            i <= lines@.len(),
            count == lines_at(lines@, id, i as int),
            count <= i,
        decreases lines.len() - i,
    {
        if lines[i].first_station_id == id || lines[i].second_station_id == id {
            count += 1;
        }
        i += 1;
    }
    count
}

/// The first planned station at the edge of the planned lines: one line ends there.
pub open spec fn edge_station(planned: Seq<RailStation>, lines: Seq<RailLine>) -> Option<
    RailStationId,
>
    decreases planned.len(),
{
    if planned.len() == 0 {
        None
    } else if lines_at(lines, planned[0].id, lines.len() as int) == 1 {
        Some(planned[0].id)
    } else {
        edge_station(planned.skip(1), lines)
    }
}

fn find_edge_station(planned: &Vec<RailStation>, lines: &Vec<RailLine>) -> (result: Option<
    RailStationId,
>)
    ensures
        result == edge_station(planned@, lines@),
{
    let mut i: usize = 0;
    assert(planned@.skip(0) =~= planned@);
    while i < planned.len()
        invariant
            i <= planned@.len(),
            edge_station(planned@, lines@) == edge_station(planned@.skip(i as int), lines@),
        decreases planned.len() - i,
    {
        assert(planned@.skip(i as int)[0] == planned@[i as int]);
        if count_lines_at(lines, planned[i].id) == 1 {
            return Some(planned[i].id);
        }
        assert(planned@.skip(i as int).skip(1) =~= planned@.skip(i + 1));
        i += 1;
    }
    None
}

/// The built end of a new route, where it has one; else the first end of its first line.
pub open spec fn route_origin(planned: Seq<RailStation>, lines: Seq<RailLine>) -> RailStationId {
    match built_end(lines, planned) {
        Some(id) => id,
        None => lines[0].first_station_id,
    }
}

/// The planned edge of a new route; else its last planned station, or the second end of its
/// first line where it plans none.
pub open spec fn route_destination(
    planned: Seq<RailStation>,
    lines: Seq<RailLine>,
) -> RailStationId {
    match edge_station(planned, lines) {
        Some(id) => id,
        None => if planned.len() > 0 {
            planned.last().id
        } else {
            lines[0].second_station_id
        },
    }
}

/// A new route as its two ends.
pub open spec fn route_label(
    region: Region,
    planned: Seq<RailStation>,
    lines: Seq<RailLine>,
) -> Option<Seq<char>> {
    if lines.len() == 0 {
        None
    } else {
        Some(
            station_label(region, planned, route_origin(planned, lines)) + " → "@ + station_label(
                region,
                planned,
                route_destination(planned, lines),
            ),
        )
    }
}

pub fn new_line_route_label(
    region: &Region,
    planned: &Vec<RailStation>,
    lines: &Vec<RailLine>,
) -> (result: Option<String>)
    ensures
        match result {
            Some(label) => route_label(*region, planned@, lines@) == Some(label@),
            None => route_label(*region, planned@, lines@) is None,
        },
{
    if lines.len() == 0 {
        return None;
    }
    let origin = match find_built_end(lines, planned) {
        Some(id) => id,
        None => lines[0].first_station_id,
    };
    let destination = match find_edge_station(planned, lines) {
        Some(id) => id,
        None => if planned.len() > 0 {
            planned[planned.len() - 1].id
        } else {
            lines[0].second_station_id
        },
    };
    let end = station_name(region, planned, destination);
    Some(station_name(region, planned, origin).concat(" → ").concat(end.as_str()))
}

/// The settlements of planned stations by name.
pub open spec fn planned_places(region: Region, planned: Seq<RailStation>) -> Seq<Seq<char>> {
    Seq::new(
        planned.len(),
        |i: int| settlement_label(region.settlements@, planned[i].settlement_id),
    )
}

pub fn planned_place_names(region: &Region, planned: &Vec<RailStation>) -> (result: Vec<String>)
    ensures
        views(result@) == planned_places(*region, planned@),
{
    let mut names: Vec<String> = Vec::new();
    let mut i: usize = 0;
    while i < planned.len()
        invariant
            i <= planned@.len(),
            names@.len() == i,
            forall|j: int|
                0 <= j < i ==> (#[trigger] names@[j])@ == planned_places(*region, planned@)[j],
        decreases planned.len() - i,
    {
        names.push(settlement_name(&region.settlements, planned[i].settlement_id));
        i += 1;
    }
    assert(views(names@) =~= planned_places(*region, planned@));
    names
}

} // verus!
