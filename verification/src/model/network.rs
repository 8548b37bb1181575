//! Settlements and the public Rail Network that links them.

use vstd::prelude::*;

use super::ids::{RailLineId, RailStationId, SettlementId};
use super::units::{DistanceMetres, SpeedKilometresPerHour, TrackCount};

verus! {

/// Where a Settlement lies on the Region's map.
#[derive(Clone, Copy, Debug, PartialEq, Eq, Structural)]
pub struct WorldPosition {
    pub x: i64,
    pub y: i64,
}

#[derive(Clone, Debug, PartialEq, Eq)]
pub struct Settlement {
    pub id: SettlementId,
    pub name: String,
    pub population: u64,
    pub position: WorldPosition,
}

#[derive(Clone, Copy, Debug, PartialEq, Eq, Structural)]
pub struct RailStation {
    pub id: RailStationId,
    pub settlement_id: SettlementId,
}

#[derive(Clone, Copy, Debug, PartialEq, Eq, Structural)]
pub enum Electrification {
    Unelectrified,
    Electric,
}

#[derive(Clone, Copy, Debug, PartialEq, Eq, Structural)]
pub enum ConstructionDifficulty {
    Low,
    Moderate,
    High,
}

/// A Rail Line of the network, or one that a project plans to build.
#[derive(Clone, Copy, Debug, PartialEq, Eq, Structural)]
pub struct RailLine {
    pub id: RailLineId,
    pub first_station_id: RailStationId,
    pub second_station_id: RailStationId,
    pub distance: DistanceMetres,
    pub speed_limit: SpeedKilometresPerHour,
    pub track_count: TrackCount,
    pub electrification: Electrification,
    pub construction_difficulty: ConstructionDifficulty,
}

impl RailLine {
    pub open spec fn wf(self) -> bool {
        self.distance.wf() && self.speed_limit.wf() && self.track_count.wf()
    }
}

#[derive(Clone, Debug, PartialEq, Eq)]
pub struct RailNetwork {
    pub rail_stations: Vec<RailStation>,
    pub rail_lines: Vec<RailLine>,
}

pub open spec fn has_settlement(settlements: Seq<Settlement>, id: SettlementId) -> bool {
    exists|i: int| 0 <= i < settlements.len() && (#[trigger] settlements[i]).id == id
}

pub open spec fn has_station(stations: Seq<RailStation>, id: RailStationId) -> bool {
    exists|i: int| 0 <= i < stations.len() && (#[trigger] stations[i]).id == id
}

pub open spec fn has_line(lines: Seq<RailLine>, id: RailLineId) -> bool {
    exists|i: int| 0 <= i < lines.len() && (#[trigger] lines[i]).id == id
}

pub fn find_settlement(settlements: &Vec<Settlement>, id: SettlementId) -> (result: Option<usize>)
    ensures
        match result {
            Some(i) => i < settlements@.len() && settlements@[i as int].id == id && forall|j: int|
                0 <= j < i ==> (#[trigger] settlements@[j]).id != id,
            None => !has_settlement(settlements@, id),
        },
{
    let mut i: usize = 0;
    while i < settlements.len()
        invariant
            i <= settlements.len(),
            forall|j: int| 0 <= j < i ==> (#[trigger] settlements@[j]).id != id,
        decreases settlements.len() - i,
    {
        if settlements[i].id == id {
            return Some(i);
        }
        i += 1;
    }
    None
}

pub fn find_station(stations: &Vec<RailStation>, id: RailStationId) -> (result: Option<usize>)
    ensures
        match result {
            Some(i) => i < stations@.len() && stations@[i as int].id == id && forall|j: int|
                0 <= j < i ==> (#[trigger] stations@[j]).id != id,
            None => !has_station(stations@, id),
        },
{
    let mut i: usize = 0;
    while i < stations.len()
        invariant
            i <= stations.len(),
            forall|j: int| 0 <= j < i ==> (#[trigger] stations@[j]).id != id,
        decreases stations.len() - i,
    {
        if stations[i].id == id {
            return Some(i);
        }
        i += 1;
    }
    None
}

pub fn find_line(lines: &Vec<RailLine>, id: RailLineId) -> (result: Option<usize>)
    ensures
        match result {
            Some(i) => i < lines@.len() && lines@[i as int].id == id && forall|j: int|
                0 <= j < i ==> (#[trigger] lines@[j]).id != id,
            None => !has_line(lines@, id),
        },
{
    let mut i: usize = 0;
    while i < lines.len()
        invariant
            i <= lines.len(),
            forall|j: int| 0 <= j < i ==> (#[trigger] lines@[j]).id != id,
        decreases lines.len() - i,
    {
        if lines[i].id == id {
            return Some(i);
        }
        i += 1;
    }
    None
}

/// The position of the first Rail Line with an identity, or the length where none has it.
pub open spec fn line_index(lines: Seq<RailLine>, id: RailLineId) -> int
    decreases lines.len(),
{
    if lines.len() == 0 {
        0
    } else if lines[0].id == id {
        0
    } else {
        1 + line_index(lines.drop_first(), id)
    }
}

pub proof fn lemma_line_index(lines: Seq<RailLine>, id: RailLineId, i: int)
    requires
        0 <= i < lines.len(),
        lines[i].id == id,
        forall|j: int| 0 <= j < i ==> (#[trigger] lines[j]).id != id,
    ensures
        line_index(lines, id) == i,
    decreases lines.len(),
{
    if i > 0 {
        assert(lines[0].id != id);
        let rest = lines.drop_first();
        assert(rest[i - 1] == lines[i]);
        assert forall|j: int| 0 <= j < i - 1 implies (#[trigger] rest[j]).id != id by {
            assert(rest[j] == lines[j + 1]);
        }
        lemma_line_index(rest, id, i - 1);
    }
}

} // verus!
