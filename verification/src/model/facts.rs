//! What the simulation derives for a game: the train catalogue, the paths that
//! Trains take through the Rail Network, and the caps on Waiting Passengers.

use vstd::prelude::*;

use super::catalogue::TrainCatalogue;
use super::ids::{RailLineId, RailStationId};

verus! {

/// The open Rail Line path between two Rail Stations.
#[derive(Clone, Debug, PartialEq, Eq)]
pub struct StationRoute {
    pub from: RailStationId,
    pub to: RailStationId,
    pub rail_line_ids: Vec<RailLineId>,
}

/// The simple continuous Rail Line path through an ordered list of stops.
#[derive(Clone, Debug, PartialEq, Eq)]
pub struct ServicePath {
    pub stop_station_ids: Vec<RailStationId>,
    pub rail_line_ids: Vec<RailLineId>,
}

/// How many passengers may wait in one direction.
#[derive(Clone, Copy, Debug, PartialEq, Eq, Structural)]
pub struct WaitingCap {
    pub origin_station_id: RailStationId,
    pub destination_station_id: RailStationId,
    pub passengers: u32,
}

/// The simulation's derived facts about one game. Where a route or a path is not
/// listed, there is none; a direction without a cap admits no Waiting Passengers.
#[derive(Clone, Debug, PartialEq, Eq)]
pub struct SimulationFacts {
    pub catalogue: TrainCatalogue,
    pub routes: Vec<StationRoute>,
    pub service_paths: Vec<ServicePath>,
    pub waiting_caps: Vec<WaitingCap>,
}

/// The path of the first listed route between two Rail Stations.
pub open spec fn route_path(
    routes: Seq<StationRoute>,
    from: RailStationId,
    to: RailStationId,
) -> Option<Seq<RailLineId>>
    decreases routes.len(),
{
    if routes.len() == 0 {
        None
    } else if routes[0].from == from && routes[0].to == to {
        Some(routes[0].rail_line_ids@)
    } else {
        route_path(routes.drop_first(), from, to)
    }
}

/// The first listed path through the given stops.
pub open spec fn stops_path(paths: Seq<ServicePath>, stops: Seq<RailStationId>) -> Option<
    Seq<RailLineId>,
>
    decreases paths.len(),
{
    if paths.len() == 0 {
        None
    } else if paths[0].stop_station_ids@ == stops {
        Some(paths[0].rail_line_ids@)
    } else {
        stops_path(paths.drop_first(), stops)
    }
}

/// The first listed cap of a direction, or zero.
pub open spec fn cap_of(
    caps: Seq<WaitingCap>,
    origin: RailStationId,
    destination: RailStationId,
) -> int
    decreases caps.len(),
{
    if caps.len() == 0 {
        0
    } else if caps[0].origin_station_id == origin && caps[0].destination_station_id
        == destination {
        caps[0].passengers as int
    } else {
        cap_of(caps.drop_first(), origin, destination)
    }
}

pub fn same_stations(first: &Vec<RailStationId>, second: &Vec<RailStationId>) -> (result: bool)
    ensures
        result == (first@ == second@),
{
    if first.len() != second.len() {
        return false;
    }
    let mut i: usize = 0;
    while i < first.len()
        invariant
            i <= first.len(),
            first.len() == second.len(),
            forall|j: int| 0 <= j < i ==> first@[j] == second@[j],
        decreases first.len() - i,
    {
        if first[i] != second[i] {
            return false;
        }
        i += 1;
    }
    assert(first@ =~= second@);
    true
}

pub fn same_lines(first: &Vec<RailLineId>, second: &Vec<RailLineId>) -> (result: bool)
    ensures
        result == (first@ == second@),
{
    if first.len() != second.len() {
        return false;
    }
    let mut i: usize = 0;
    while i < first.len()
        invariant
            i <= first.len(),
            first.len() == second.len(),
            forall|j: int| 0 <= j < i ==> first@[j] == second@[j],
        decreases first.len() - i,
    {
        if first[i] != second[i] {
            return false;
        }
        i += 1;
    }
    assert(first@ =~= second@);
    true
}

impl SimulationFacts {
    /// The open path between two Rail Stations.
    pub open spec fn route(self, from: RailStationId, to: RailStationId) -> Option<
        Seq<RailLineId>,
    > {
        route_path(self.routes@, from, to)
    }

    pub fn path_between_stations(&self, from: RailStationId, to: RailStationId) -> (result: Option<
        &Vec<RailLineId>,
    >)
        ensures
            match result {
                Some(path) => self.route(from, to) == Some(path@),
                None => self.route(from, to) is None,
            },
    {
        let mut i: usize = 0;
        assert(self.routes@.skip(0) =~= self.routes@);
        while i < self.routes.len()
            invariant
                i <= self.routes@.len(),
                route_path(self.routes@, from, to) == route_path(
                    self.routes@.skip(i as int),
                    from,
                    to,
                ),
            decreases self.routes.len() - i,
        {
            assert(self.routes@.skip(i as int).drop_first() =~= self.routes@.skip(i + 1));
            if self.routes[i].from == from && self.routes[i].to == to {
                return Some(&self.routes[i].rail_line_ids);
            }
            i += 1;
        }
        None
    }

    /// The path through an ordered list of stops.
    pub open spec fn path(self, stops: Seq<RailStationId>) -> Option<Seq<RailLineId>> {
        stops_path(self.service_paths@, stops)
    }

    pub fn service_path_for_stops(&self, stops: &Vec<RailStationId>) -> (result: Option<
        &Vec<RailLineId>,
    >)
        ensures
            match result {
                Some(path) => self.path(stops@) == Some(path@),
                None => self.path(stops@) is None,
            },
    {
        let mut i: usize = 0;
        assert(self.service_paths@.skip(0) =~= self.service_paths@);
        while i < self.service_paths.len()
            invariant
                i <= self.service_paths@.len(),
                stops_path(self.service_paths@, stops@) == stops_path(
                    self.service_paths@.skip(i as int),
                    stops@,
                ),
            decreases self.service_paths.len() - i,
        {
            assert(self.service_paths@.skip(i as int).drop_first() =~= self.service_paths@.skip(
                i + 1,
            ));
            if same_stations(&self.service_paths[i].stop_station_ids, stops) {
                return Some(&self.service_paths[i].rail_line_ids);
            }
            i += 1;
        }
        None
    }

    /// How many passengers may wait in a direction.
    pub open spec fn waiting_cap(self, origin: RailStationId, destination: RailStationId) -> int {
        cap_of(self.waiting_caps@, origin, destination)
    }

    pub fn waiting_passenger_cap(&self, origin: RailStationId, destination: RailStationId) -> (result:
        u32)
        ensures
            result == self.waiting_cap(origin, destination),
    {
        let mut i: usize = 0;
        assert(self.waiting_caps@.skip(0) =~= self.waiting_caps@);
        while i < self.waiting_caps.len()
            invariant
                i <= self.waiting_caps@.len(),
                cap_of(self.waiting_caps@, origin, destination) == cap_of(
                    self.waiting_caps@.skip(i as int),
                    origin,
                    destination,
                ),
            decreases self.waiting_caps.len() - i,
        {
            assert(self.waiting_caps@.skip(i as int).drop_first() =~= self.waiting_caps@.skip(
                i + 1,
            ));
            if self.waiting_caps[i].origin_station_id == origin
                && self.waiting_caps[i].destination_station_id == destination {
                return self.waiting_caps[i].passengers;
            }
            i += 1;
        }
        0
    }
}

} // verus!
