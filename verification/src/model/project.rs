//! The Rail Authority: its finances and its programme of Infrastructure Projects.

use vstd::prelude::*;

use super::ids::{InfrastructureProjectId, RailLineId, RailStationId};
use super::network::{RailLine, RailNetwork, RailStation};
use super::units::{
    money_difference, money_sum, CalculationError, Money, SpeedKilometresPerHour, TrackCount,
    UtcSeconds,
};

verus! {

/// A Rail Station that a project will open.
pub type PlannedRailStation = RailStation;

/// A Rail Line that a project will open.
pub type PlannedRailLine = RailLine;

/// What a project builds or improves.
#[derive(Clone, Debug, PartialEq, Eq)]
pub enum InfrastructureProjectKind {
    NewLine { planned_stations: Vec<PlannedRailStation>, planned_lines: Vec<PlannedRailLine> },
    SpeedUpgrade { rail_line_ids: Vec<RailLineId>, target_speed_limit: SpeedKilometresPerHour },
    DoubleTracking { rail_line_ids: Vec<RailLineId>, target_track_count: TrackCount },
    Electrification { rail_line_ids: Vec<RailLineId> },
    Renewal { rail_line_ids: Vec<RailLineId> },
    StationUpgrade { rail_station_ids: Vec<RailStationId> },
}

#[derive(Clone, Copy, Debug, PartialEq, Eq, Structural)]
pub enum InfrastructureProjectStatus {
    Requested,
    UnderReview,
    Proposed,
    Approved,
    Deferred,
    Rejected,
    Funding,
    Scheduled,
    Construction,
    Open,
    Cancelled,
}

impl InfrastructureProjectStatus {
    /// Whether a project in this status holds one of the Authority's construction slots.
    pub open spec fn reserves(self) -> bool {
        self is Scheduled || self is Construction
    }

    pub fn reserves_construction_capacity(self) -> (result: bool)
        ensures
            result == self.reserves(),
    {
        matches!(self, InfrastructureProjectStatus::Scheduled | InfrastructureProjectStatus::Construction)
    }
}

#[derive(Clone, Copy, Debug, PartialEq, Eq, Structural)]
pub struct InfrastructureProjectTimeline {
    pub requested_at: UtcSeconds,
    pub review_started_at: Option<UtcSeconds>,
    pub proposed_at: Option<UtcSeconds>,
    pub approved_at: Option<UtcSeconds>,
    pub funding_completed_at: Option<UtcSeconds>,
    pub scheduled_start_at: Option<UtcSeconds>,
    pub construction_started_at: Option<UtcSeconds>,
    pub planned_completion_at: Option<UtcSeconds>,
    pub completed_at: Option<UtcSeconds>,
    pub deferred_at: Option<UtcSeconds>,
    pub cancelled_at: Option<UtcSeconds>,
    pub reconsideration_count: u8,
}

/// Basis points of the access fee that a contributing operator is spared.
pub const PROVISIONAL_OPERATOR_ACCESS_DISCOUNT_BASIS_POINTS: u16 = 5_000;

/// Fiscal days for which that discount lasts after opening.
pub const PROVISIONAL_OPERATOR_ACCESS_DISCOUNT_DURATION_DAYS: u32 = 7;

/// An access-fee discount on contributed infrastructure.
#[derive(Clone, Copy, Debug, PartialEq, Eq, Structural)]
pub struct InfrastructureAccessDiscount {
    pub basis_points: u16,
    pub expires_at: UtcSeconds,
}

impl InfrastructureAccessDiscount {
    pub open spec fn active_at(self, now: UtcSeconds) -> bool {
        now.seconds < self.expires_at.seconds
    }

    pub fn is_active_at(self, now: UtcSeconds) -> (result: bool)
        ensures
            result == self.active_at(now),
    {
        now.seconds < self.expires_at.seconds
    }
}

#[derive(Clone, Copy, Debug, PartialEq, Eq, Structural)]
pub struct InfrastructureProjectFunding {
    pub estimated_cost: Money,
    pub authority_committed: Money,
    pub operator_contributed: Money,
    pub access_fee_discount: Option<InfrastructureAccessDiscount>,
}

impl Default for InfrastructureProjectFunding {
    fn default() -> (result: Self)
        ensures
            result.estimated_cost.cents == 0,
            result.authority_committed.cents == 0,
            result.operator_contributed.cents == 0,
            result.access_fee_discount is None,
    {
        InfrastructureProjectFunding {
            estimated_cost: Money::zero(),
            authority_committed: Money::zero(),
            operator_contributed: Money::zero(),
            access_fee_discount: None,
        }
    }
}

/// A share of an amount in whole percent, rounded toward zero cents.
pub open spec fn percent_of(cents: int, percent: int) -> int {
    if cents >= 0 {
        cents * percent / 100
    } else {
        -((-cents) * percent / 100)
    }
}

fn percentage(amount: Money, percent: i64) -> (result: Money)
    requires
        0 <= percent <= 100,
    ensures
        result.cents == percent_of(amount.cents as int, percent as int),
{
    let cents: i128 = amount.cents as i128;
    let factor: i128 = percent as i128;
    if cents >= 0 {
        assert(0 <= cents * factor <= cents * 100) by (nonlinear_arith)
            requires
                0 <= cents,
                0 <= factor <= 100,
        ;
        Money { cents: (cents * factor / 100) as i64 }
    } else {
        let magnitude: i128 = -cents;
        assert(0 <= magnitude * factor <= magnitude * 100) by (nonlinear_arith)
            requires
                0 <= magnitude,
                0 <= factor <= 100,
        ;
        Money { cents: (-(magnitude * factor / 100)) as i64 }
    }
}

pub open spec fn least(first: int, second: int) -> int {
    if first <= second {
        first
    } else {
        second
    }
}

impl InfrastructureProjectFunding {
    /// What has been raised: the Authority's and the operator's money.
    pub open spec fn funded(self) -> Result<Money, CalculationError> {
        money_sum(self.authority_committed.cents as int, self.operator_contributed.cents as int)
    }

    pub fn total_funded(&self) -> (result: Result<Money, CalculationError>)
        ensures
            result == self.funded(),
    {
        self.authority_committed.checked_add(self.operator_contributed)
    }

    pub open spec fn fully_funded(self) -> bool {
        self.authority_committed.cents + self.operator_contributed.cents >= self.estimated_cost.cents
            && fits(self)
    }

    /// Whether the raised money covers the estimated cost.
    pub fn is_fully_funded(&self) -> (result: bool)
        ensures
            result == self.fully_funded(),
    {
        match self.total_funded() {
            Ok(total) => total.cents >= self.estimated_cost.cents,
            Err(_) => false,
        }
    }

    pub open spec fn gap(self) -> Result<Money, CalculationError> {
        match self.funded() {
            Ok(total) => money_difference(self.estimated_cost.cents as int, total.cents as int),
            Err(error) => Err(error),
        }
    }

    /// What is still to be raised.
    pub fn funding_gap(&self) -> (result: Result<Money, CalculationError>)
        ensures
            result == self.gap(),
    {
        match self.total_funded() {
            Ok(total) => self.estimated_cost.checked_sub(total),
            Err(error) => Err(error),
        }
    }

    /// The operator may contribute a fifth of the estimated cost.
    pub open spec fn operator_cap(self) -> int {
        percent_of(self.estimated_cost.cents as int, 20)
    }

    pub fn operator_contribution_cap(&self) -> (result: Result<Money, CalculationError>)
        ensures
            result matches Ok(cap) && cap.cents == self.operator_cap(),
    {
        Ok(percentage(self.estimated_cost, 20))
    }

    pub open spec fn operator_room(self) -> Result<Money, CalculationError> {
        money_difference(self.operator_cap(), self.operator_contributed.cents as int)
    }

    /// What the operator may still contribute under the cap.
    pub fn remaining_operator_contribution_capacity(&self) -> (result: Result<
        Money,
        CalculationError,
    >)
        ensures
            result == self.operator_room(),
    {
        percentage(self.estimated_cost, 20).checked_sub(self.operator_contributed)
    }

    /// A tenth of the estimated cost, but no more than the funding gap, the operator's
    /// room under the cap, or the Company Funds.
    pub open spec fn suggestion(self, funds: Money) -> Result<Money, CalculationError> {
        match self.gap() {
            Err(error) => Err(error),
            Ok(gap) => match self.operator_room() {
                Err(error) => Err(error),
                Ok(room) => Ok(
                    Money {
                        cents: least(
                            least(percent_of(self.estimated_cost.cents as int, 10), gap.cents as int),
                            least(room.cents as int, funds.cents as int),
                        ) as i64,
                    },
                ),
            },
        }
    }

    pub fn suggested_operator_contribution(&self, funds: Money) -> (result: Result<
        Money,
        CalculationError,
    >)
        ensures
            result == self.suggestion(funds),
    {
        let gap = match self.funding_gap() {
            Ok(gap) => gap,
            Err(error) => return Err(error),
        };
        let room = match self.remaining_operator_contribution_capacity() {
            Ok(room) => room,
            Err(error) => return Err(error),
        };
        let tranche = percentage(self.estimated_cost, 10);
        let first: i64 = if tranche.cents <= gap.cents {
            tranche.cents
        } else {
            gap.cents
        };
        let second: i64 = if room.cents <= funds.cents {
            room.cents
        } else {
            funds.cents
        };
        let cents: i64 = if first <= second {
            first
        } else {
            second
        };
        Ok(Money { cents })
    }
}

pub open spec fn fits(funding: InfrastructureProjectFunding) -> bool {
    funding.funded() is Ok
}

#[derive(Clone, Debug, PartialEq, Eq)]
pub struct InfrastructureProject {
    pub id: InfrastructureProjectId,
    pub kind: InfrastructureProjectKind,
    pub status: InfrastructureProjectStatus,
    pub timeline: InfrastructureProjectTimeline,
    pub funding: InfrastructureProjectFunding,
}

/// Whether a project works on, or will open, the given Rail Line.
pub open spec fn touches_line(kind: InfrastructureProjectKind, id: RailLineId) -> bool {
    match kind {
        InfrastructureProjectKind::NewLine { planned_lines, .. } => exists|i: int|
            0 <= i < planned_lines@.len() && (#[trigger] planned_lines@[i]).id == id,
        InfrastructureProjectKind::SpeedUpgrade { rail_line_ids, .. } => rail_line_ids@.contains(id),
        InfrastructureProjectKind::DoubleTracking { rail_line_ids, .. } => rail_line_ids@.contains(
            id,
        ),
        InfrastructureProjectKind::Electrification { rail_line_ids } => rail_line_ids@.contains(id),
        InfrastructureProjectKind::Renewal { rail_line_ids } => rail_line_ids@.contains(id),
        InfrastructureProjectKind::StationUpgrade { .. } => false,
    }
}

/// Whether a project works on, or will open, the given Rail Station.
pub open spec fn touches_station(kind: InfrastructureProjectKind, id: RailStationId) -> bool {
    match kind {
        InfrastructureProjectKind::NewLine { planned_stations, .. } => exists|i: int|
            0 <= i < planned_stations@.len() && (#[trigger] planned_stations@[i]).id == id,
        InfrastructureProjectKind::StationUpgrade { rail_station_ids } => rail_station_ids@.contains(
            id,
        ),
        _ => false,
    }
}

/// Two projects conflict where they touch a common Rail Line or Rail Station.
pub open spec fn conflict(first: InfrastructureProject, second: InfrastructureProject) -> bool {
    ||| exists|id: RailLineId| touches_line(first.kind, id) && touches_line(second.kind, id)
    ||| exists|id: RailStationId| touches_station(first.kind, id) && touches_station(second.kind, id)
}

/// The Rail Lines that a project touches.
fn touched_lines(kind: &InfrastructureProjectKind) -> (result: Vec<RailLineId>)
    ensures
        forall|id: RailLineId| result@.contains(id) <==> touches_line(*kind, id),
{
    match kind {
        InfrastructureProjectKind::NewLine { planned_lines, .. } => {
            let mut ids: Vec<RailLineId> = Vec::new();
            let mut i: usize = 0;
            while i < planned_lines.len()
                invariant
                    i <= planned_lines.len(),
                    ids@.len() == i,
                    forall|j: int| 0 <= j < i ==> #[trigger] ids@[j] == planned_lines@[j].id,
                decreases planned_lines.len() - i,
            {
                ids.push(planned_lines[i].id);
                i += 1;
            }
            assert forall|id: RailLineId| ids@.contains(id) <==> touches_line(*kind, id) by {
                if touches_line(*kind, id) {
                    let k = choose|k: int|
                        0 <= k < planned_lines@.len() && (#[trigger] planned_lines@[k]).id == id;
                    assert(ids@[k] == id);
                }
                if ids@.contains(id) {
                    let k = choose|k: int| 0 <= k < ids@.len() && ids@[k] == id;
                    assert(planned_lines@[k].id == id);
                }
            }
            ids
        },
        InfrastructureProjectKind::SpeedUpgrade { rail_line_ids, .. } => copy_line_ids(rail_line_ids),
        InfrastructureProjectKind::DoubleTracking { rail_line_ids, .. } => copy_line_ids(
            rail_line_ids,
        ),
        InfrastructureProjectKind::Electrification { rail_line_ids } => copy_line_ids(rail_line_ids),
        InfrastructureProjectKind::Renewal { rail_line_ids } => copy_line_ids(rail_line_ids),
        InfrastructureProjectKind::StationUpgrade { .. } => Vec::new(),
    }
}

/// The Rail Stations that a project touches.
fn touched_stations(kind: &InfrastructureProjectKind) -> (result: Vec<RailStationId>)
    ensures
        forall|id: RailStationId| result@.contains(id) <==> touches_station(*kind, id),
{
    match kind {
        InfrastructureProjectKind::NewLine { planned_stations, .. } => {
            let mut ids: Vec<RailStationId> = Vec::new();
            let mut i: usize = 0;
            while i < planned_stations.len()
                invariant
                    i <= planned_stations.len(),
                    ids@.len() == i,
                    forall|j: int| 0 <= j < i ==> #[trigger] ids@[j] == planned_stations@[j].id,
                decreases planned_stations.len() - i,
            {
                ids.push(planned_stations[i].id);
                i += 1;
            }
            assert forall|id: RailStationId| ids@.contains(id) <==> touches_station(*kind, id) by {
                if touches_station(*kind, id) {
                    let k = choose|k: int|
                        0 <= k < planned_stations@.len() && (#[trigger] planned_stations@[k]).id
                            == id;
                    assert(ids@[k] == id);
                }
                if ids@.contains(id) {
                    let k = choose|k: int| 0 <= k < ids@.len() && ids@[k] == id;
                    assert(planned_stations@[k].id == id);
                }
            }
            ids
        },
        InfrastructureProjectKind::StationUpgrade { rail_station_ids } => copy_station_ids(
            rail_station_ids,
        ),
        _ => Vec::new(),
    }
}

pub fn copy_line_ids(ids: &Vec<RailLineId>) -> (result: Vec<RailLineId>)
    ensures
        result@ == ids@,
{
    let mut result: Vec<RailLineId> = Vec::new();
    let mut i: usize = 0;
    while i < ids.len()
        invariant
            i <= ids.len(),
            result@ == ids@.take(i as int),
        decreases ids.len() - i,
    {
        result.push(ids[i]);
        i += 1;
        assert(result@ =~= ids@.take(i as int));
    }
    assert(result@ =~= ids@);
    result
}

pub fn copy_station_ids(ids: &Vec<RailStationId>) -> (result: Vec<RailStationId>)
    ensures
        result@ == ids@,
{
    let mut result: Vec<RailStationId> = Vec::new();
    let mut i: usize = 0;
    while i < ids.len()
        invariant
            i <= ids.len(),
            result@ == ids@.take(i as int),
        decreases ids.len() - i,
    {
        result.push(ids[i]);
        i += 1;
        assert(result@ =~= ids@.take(i as int));
    }
    assert(result@ =~= ids@);
    result
}

pub fn contains_line_id(ids: &Vec<RailLineId>, id: RailLineId) -> (result: bool)
    ensures
        result == ids@.contains(id),
{
    let mut i: usize = 0;
    while i < ids.len()
        invariant
            i <= ids.len(),
            forall|j: int| 0 <= j < i ==> #[trigger] ids@[j] != id,
        decreases ids.len() - i,
    {
        if ids[i] == id {
            assert(ids@[i as int] == id);
            return true;
        }
        i += 1;
    }
    false
}

pub fn contains_station_id(ids: &Vec<RailStationId>, id: RailStationId) -> (result: bool)
    ensures
        result == ids@.contains(id),
{
    let mut i: usize = 0;
    while i < ids.len()
        invariant
            i <= ids.len(),
            forall|j: int| 0 <= j < i ==> #[trigger] ids@[j] != id,
        decreases ids.len() - i,
    {
        if ids[i] == id {
            assert(ids@[i as int] == id);
            return true;
        }
        i += 1;
    }
    false
}

impl InfrastructureProject {
    /// Whether this project and another touch a common Rail Line or Rail Station.
    pub fn conflicts_with(&self, other: &InfrastructureProject) -> (result: bool)
        ensures
            result == conflict(*self, *other),
    {
        let own_lines = touched_lines(&self.kind);
        let other_lines = touched_lines(&other.kind);
        let mut i: usize = 0;
        while i < own_lines.len()
            invariant
                i <= own_lines.len(),
                forall|id: RailLineId| own_lines@.contains(id) <==> touches_line(self.kind, id),
                forall|id: RailLineId| other_lines@.contains(id) <==> touches_line(other.kind, id),
                forall|j: int| 0 <= j < i ==> !other_lines@.contains(#[trigger] own_lines@[j]),
            decreases own_lines.len() - i,
        {
            if contains_line_id(&other_lines, own_lines[i]) {
                assert(own_lines@.contains(own_lines@[i as int]));
                assert(touches_line(self.kind, own_lines@[i as int]) && touches_line(
                    other.kind,
                    own_lines@[i as int],
                ));
                return true;
            }
            i += 1;
        }
        assert(!exists|id: RailLineId|
            touches_line(self.kind, id) && touches_line(other.kind, id)) by {
            assert forall|id: RailLineId| touches_line(self.kind, id) implies !touches_line(
                other.kind,
                id,
            ) by {
                assert(own_lines@.contains(id));
                let k = choose|k: int| 0 <= k < own_lines@.len() && own_lines@[k] == id;
                assert(!other_lines@.contains(own_lines@[k]));
            }
        }
        let own_stations = touched_stations(&self.kind);
        let other_stations = touched_stations(&other.kind);
        let mut i: usize = 0;
        while i < own_stations.len()
            invariant
                i <= own_stations.len(),
                forall|id: RailStationId|
                    own_stations@.contains(id) <==> touches_station(self.kind, id),
                forall|id: RailStationId|
                    other_stations@.contains(id) <==> touches_station(other.kind, id),
                forall|j: int| 0 <= j < i ==> !other_stations@.contains(#[trigger] own_stations@[j]),
            decreases own_stations.len() - i,
        {
            if contains_station_id(&other_stations, own_stations[i]) {
                assert(own_stations@.contains(own_stations@[i as int]));
                assert(touches_station(self.kind, own_stations@[i as int]) && touches_station(
                    other.kind,
                    own_stations@[i as int],
                ));
                return true;
            }
            i += 1;
        }
        assert(!exists|id: RailStationId|
            touches_station(self.kind, id) && touches_station(other.kind, id)) by {
            assert forall|id: RailStationId| touches_station(self.kind, id) implies !touches_station(
                other.kind,
                id,
            ) by {
                assert(own_stations@.contains(id));
                let k = choose|k: int| 0 <= k < own_stations@.len() && own_stations@[k] == id;
                assert(!other_stations@.contains(own_stations@[k]));
            }
        }
        false
    }
}

/// Conflict goes both ways.
pub proof fn conflict_is_symmetric(first: InfrastructureProject, second: InfrastructureProject)
    ensures
        conflict(first, second) == conflict(second, first),
{
}

#[derive(Clone, Copy, Debug, PartialEq, Eq, Structural)]
pub struct RailAuthorityFinances {
    pub treasury: Money,
    pub maintenance_reserve: Money,
    pub committed_investment: Money,
    pub carried_over_funds: Money,
    pub regional_public_allocation: Money,
    pub infrastructure_access_fee_revenue: Money,
    pub next_fiscal_period_at: Option<UtcSeconds>,
}

impl RailAuthorityFinances {
    pub open spec fn uncommitted(self) -> Result<Money, CalculationError> {
        match money_sum(
            self.maintenance_reserve.cents as int,
            self.committed_investment.cents as int,
        ) {
            Ok(earmarked) => money_difference(self.treasury.cents as int, earmarked.cents as int),
            Err(error) => Err(error),
        }
    }

    /// What the treasury holds beyond the maintenance reserve and committed investment.
    pub fn uncommitted_investment(&self) -> (result: Result<Money, CalculationError>)
        ensures
            result == self.uncommitted(),
    {
        match self.maintenance_reserve.checked_add(self.committed_investment) {
            Ok(earmarked) => self.treasury.checked_sub(earmarked),
            Err(error) => Err(error),
        }
    }
}

#[derive(Clone, Debug, PartialEq, Eq)]
pub struct RailAuthority {
    pub name: String,
    pub rail_network: RailNetwork,
    pub finances: RailAuthorityFinances,
    pub construction_capacity: u32,
    pub infrastructure_projects: Vec<InfrastructureProject>,
}

/// How many of the first `count` projects are under construction.
pub open spec fn building(projects: Seq<InfrastructureProject>, count: int) -> int
    decreases count,
{
    if count <= 0 {
        0
    } else {
        building(projects, count - 1) + if projects[count - 1].status is Construction {
            1int
        } else {
            0
        }
    }
}

/// How many of the first `count` projects hold a construction slot.
pub open spec fn reserving(projects: Seq<InfrastructureProject>, count: int) -> int
    decreases count,
{
    if count <= 0 {
        0
    } else {
        reserving(projects, count - 1) + if projects[count - 1].status.reserves() {
            1int
        } else {
            0
        }
    }
}

impl RailAuthority {
    pub open spec fn active(self) -> int {
        building(self.infrastructure_projects@, self.infrastructure_projects@.len() as int)
    }

    pub open spec fn reserved(self) -> int {
        reserving(self.infrastructure_projects@, self.infrastructure_projects@.len() as int)
    }

    /// The number of projects under construction.
    pub fn active_construction_count(&self) -> (result: usize)
        ensures
            result == self.active(),
    {
        let mut count: usize = 0;
        let mut i: usize = 0;
        while i < self.infrastructure_projects.len()
            invariant
                i <= self.infrastructure_projects@.len(),
                count == building(self.infrastructure_projects@, i as int),
                count <= i,
            decreases self.infrastructure_projects.len() - i,
        {
            if matches!(self.infrastructure_projects[i].status, InfrastructureProjectStatus::Construction) {
                count += 1;
            }
            i += 1;
        }
        count
    }

    /// The number of projects scheduled or under construction.
    pub fn reserved_construction_count(&self) -> (result: usize)
        ensures
            result == self.reserved(),
    {
        let mut count: usize = 0;
        let mut i: usize = 0;
        while i < self.infrastructure_projects.len()
            invariant
                i <= self.infrastructure_projects@.len(),
                count == reserving(self.infrastructure_projects@, i as int),
                count <= i,
            decreases self.infrastructure_projects.len() - i,
        {
            if self.infrastructure_projects[i].status.reserves_construction_capacity() {
                count += 1;
            }
            i += 1;
        }
        count
    }

    /// The construction slots that no project holds.
    pub fn construction_slots_remaining(&self) -> (result: u32)
        ensures
            result == (if self.construction_capacity >= self.reserved() {
                self.construction_capacity - self.reserved()
            } else {
                0
            }),
    {
        let reserved: usize = self.reserved_construction_count();
        if reserved as u64 <= self.construction_capacity as u64 {
            self.construction_capacity - reserved as u32
        } else {
            0
        }
    }
}

pub open spec fn project_index(
    projects: Seq<InfrastructureProject>,
    id: InfrastructureProjectId,
) -> Option<int> {
    if exists|i: int| 0 <= i < projects.len() && (#[trigger] projects[i]).id == id {
        Some(
            choose|i: int|
                0 <= i < projects.len() && (#[trigger] projects[i]).id == id && forall|j: int|
                    0 <= j < i ==> (#[trigger] projects[j]).id != id,
        )
    } else {
        None
    }
}

/// The position of the first project with an identity.
pub fn find_project(projects: &Vec<InfrastructureProject>, id: InfrastructureProjectId) -> (result:
    Option<usize>)
    ensures
        match result {
            Some(i) => i < projects@.len() && projects@[i as int].id == id
                && project_index(projects@, id) == Some(i as int),
            None => project_index(projects@, id) is None,
        },
{
    let mut i: usize = 0;
    while i < projects.len()
        invariant
            i <= projects.len(),
            forall|j: int| 0 <= j < i ==> (#[trigger] projects@[j]).id != id,
        decreases projects.len() - i,
    {
        if projects[i].id == id {
            proof {
                let k = project_index(projects@, id);
                assert(projects@[i as int].id == id);
                let c = choose|c: int|
                    0 <= c < projects@.len() && (#[trigger] projects@[c]).id == id && forall|j: int|
                        0 <= j < c ==> (#[trigger] projects@[j]).id != id;
                if c < i {
                    assert(projects@[c].id != id);
                }
                if i < c {
                    assert(projects@[i as int].id != id);
                }
            }
            return Some(i);
        }
        i += 1;
    }
    None
}

} // verus!
