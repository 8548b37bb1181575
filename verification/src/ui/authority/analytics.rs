//! The programme in figures.

use vstd::prelude::*;

use crate::model::ids::InfrastructureProjectId;
use crate::model::project::{InfrastructureProject, InfrastructureProjectStatus};
use crate::model::state::GameState;
use crate::model::units::{Money, UtcSeconds};

verus! {

/// The stages of a project that the player tells apart.
#[derive(Clone, Copy, Debug, PartialEq, Eq, Structural)]
pub enum ProgrammeStage {
    Planning,
    Funding,
    Queued,
    Building,
    Open,
    Deferred,
    Closed,
}

/// The stage of a status.
pub open spec fn stage_of(status: InfrastructureProjectStatus) -> ProgrammeStage {
    match status {
        InfrastructureProjectStatus::Requested
        | InfrastructureProjectStatus::UnderReview
        | InfrastructureProjectStatus::Proposed
        | InfrastructureProjectStatus::Approved => ProgrammeStage::Planning,
        InfrastructureProjectStatus::Funding => ProgrammeStage::Funding,
        InfrastructureProjectStatus::Scheduled => ProgrammeStage::Queued,
        InfrastructureProjectStatus::Construction => ProgrammeStage::Building,
        InfrastructureProjectStatus::Open => ProgrammeStage::Open,
        InfrastructureProjectStatus::Deferred => ProgrammeStage::Deferred,
        InfrastructureProjectStatus::Rejected
        | InfrastructureProjectStatus::Cancelled => ProgrammeStage::Closed,
    }
}

impl ProgrammeStage {
    pub fn from_status(status: InfrastructureProjectStatus) -> (result: Self)
        ensures
            result == stage_of(status),
    {
        match status {
            InfrastructureProjectStatus::Requested
            | InfrastructureProjectStatus::UnderReview
            | InfrastructureProjectStatus::Proposed
            | InfrastructureProjectStatus::Approved => ProgrammeStage::Planning,
            InfrastructureProjectStatus::Funding => ProgrammeStage::Funding,
            InfrastructureProjectStatus::Scheduled => ProgrammeStage::Queued,
            InfrastructureProjectStatus::Construction => ProgrammeStage::Building,
            InfrastructureProjectStatus::Open => ProgrammeStage::Open,
            InfrastructureProjectStatus::Deferred => ProgrammeStage::Deferred,
            InfrastructureProjectStatus::Rejected
            | InfrastructureProjectStatus::Cancelled => ProgrammeStage::Closed,
        }
    }
}

/// How many of the first `count` projects are in a stage.
pub open spec fn in_stage(
    projects: Seq<InfrastructureProject>,
    stage: ProgrammeStage,
    count: int,
) -> int
    decreases count,
{
    if count <= 0 {
        0
    } else {
        in_stage(projects, stage, count - 1) + if stage_of(projects[count - 1].status) == stage {
            1int
        } else {
            0
        }
    }
}

/// The projects of a programme that are in a stage.
pub open spec fn staged(projects: Seq<InfrastructureProject>, stage: ProgrammeStage) -> int {
    in_stage(projects, stage, projects.len() as int)
}

proof fn lemma_stages(projects: Seq<InfrastructureProject>, count: int)
    requires
        0 <= count <= projects.len(),
    ensures
        in_stage(projects, ProgrammeStage::Planning, count) >= 0,
        in_stage(projects, ProgrammeStage::Funding, count) >= 0,
        in_stage(projects, ProgrammeStage::Queued, count) >= 0,
        in_stage(projects, ProgrammeStage::Building, count) >= 0,
        in_stage(projects, ProgrammeStage::Open, count) >= 0,
        in_stage(projects, ProgrammeStage::Deferred, count) >= 0,
        in_stage(projects, ProgrammeStage::Closed, count) >= 0,
        in_stage(projects, ProgrammeStage::Planning, count) + in_stage(
            projects,
            ProgrammeStage::Funding,
            count,
        ) + in_stage(projects, ProgrammeStage::Queued, count) + in_stage(
            projects,
            ProgrammeStage::Building,
            count,
        ) + in_stage(projects, ProgrammeStage::Open, count) + in_stage(
            projects,
            ProgrammeStage::Deferred,
            count,
        ) + in_stage(projects, ProgrammeStage::Closed, count) == count,
    decreases count,
{
    if count > 0 {
        lemma_stages(projects, count - 1);
    }
}

/// Every project is in exactly one stage: the stages' counts make up the programme.
pub proof fn stages_partition_the_programme(projects: Seq<InfrastructureProject>)
    ensures
        staged(projects, ProgrammeStage::Planning) + staged(projects, ProgrammeStage::Funding)
            + staged(projects, ProgrammeStage::Queued) + staged(projects, ProgrammeStage::Building)
            + staged(projects, ProgrammeStage::Open) + staged(projects, ProgrammeStage::Deferred)
            + staged(projects, ProgrammeStage::Closed) == projects.len(),
{
    lemma_stages(projects, projects.len() as int);
}

/// Projects by stage; closed ones are left out.
#[derive(Clone, Copy, Debug, PartialEq, Eq, Structural)]
pub struct ProgrammeCounts {
    pub planning: usize,
    pub funding: usize,
    pub queued: usize,
    pub building: usize,
    pub open: usize,
    pub deferred: usize,
}

impl ProgrammeCounts {
    /// Whether these are the counts of a programme.
    pub open spec fn counts(self, projects: Seq<InfrastructureProject>) -> bool {
        &&& self.planning == staged(projects, ProgrammeStage::Planning)
        &&& self.funding == staged(projects, ProgrammeStage::Funding)
        &&& self.queued == staged(projects, ProgrammeStage::Queued)
        &&& self.building == staged(projects, ProgrammeStage::Building)
        &&& self.open == staged(projects, ProgrammeStage::Open)
        &&& self.deferred == staged(projects, ProgrammeStage::Deferred)
    }

    pub open spec fn unfinished(self) -> int {
        self.planning + self.funding + self.queued + self.building + self.deferred
    }

    pub fn from_state(state: &GameState) -> (result: Self)
        ensures
            result.counts(state.region.rail_authority.infrastructure_projects@),
            result.unfinished() <= usize::MAX,
    {
        let projects = &state.region.rail_authority.infrastructure_projects;
        let mut counts = ProgrammeCounts {
            planning: 0,
            funding: 0,
            queued: 0,
            building: 0,
            open: 0,
            deferred: 0,
        };
        let mut i: usize = 0;
        while i < projects.len()
            invariant
                i <= projects@.len(),
                counts.planning == in_stage(projects@, ProgrammeStage::Planning, i as int),
                counts.funding == in_stage(projects@, ProgrammeStage::Funding, i as int),
                counts.queued == in_stage(projects@, ProgrammeStage::Queued, i as int),
                counts.building == in_stage(projects@, ProgrammeStage::Building, i as int),
                counts.open == in_stage(projects@, ProgrammeStage::Open, i as int),
                counts.deferred == in_stage(projects@, ProgrammeStage::Deferred, i as int),
            decreases projects.len() - i,
        {
            proof {
                lemma_stages(projects@, i as int);
            }
            match ProgrammeStage::from_status(projects[i].status) {
                ProgrammeStage::Planning => counts.planning = counts.planning + 1,
                ProgrammeStage::Funding => counts.funding = counts.funding + 1,
                ProgrammeStage::Queued => counts.queued = counts.queued + 1,
                ProgrammeStage::Building => counts.building = counts.building + 1,
                ProgrammeStage::Open => counts.open = counts.open + 1,
                ProgrammeStage::Deferred => counts.deferred = counts.deferred + 1,
                ProgrammeStage::Closed => {},
            }
            i += 1;
        }
        proof {
            lemma_stages(projects@, projects@.len() as int);
        }
        counts
    }

    /// The projects that are still on their way.
    pub fn pipeline(self) -> (result: usize)
        requires
            self.unfinished() <= usize::MAX,
        ensures
            result == self.unfinished(),
    {
        self.planning + self.funding + self.queued + self.building + self.deferred
    }
}

/// A project under construction and the time at which it opens.
#[derive(Clone, Copy, Debug, PartialEq, Eq, Structural)]
pub struct NextNetworkChange {
    pub project_id: InfrastructureProjectId,
    pub opens_at: UtcSeconds,
}

/// When a project changes the network: planned works under construction do.
pub open spec fn opening(project: InfrastructureProject) -> Option<UtcSeconds> {
    if project.status is Construction {
        project.timeline.planned_completion_at
    } else {
        None
    }
}

/// The first of the projects that open earliest.
pub open spec fn is_next_change(projects: Seq<InfrastructureProject>, i: int) -> bool {
    &&& 0 <= i < projects.len()
    &&& opening(projects[i]) is Some
    &&& forall|j: int|
        0 <= j < projects.len() && opening(#[trigger] projects[j]) is Some ==> opening(
            projects[i],
        ).unwrap().seconds <= opening(projects[j]).unwrap().seconds
    &&& forall|j: int|
        0 <= j < i && opening(#[trigger] projects[j]) is Some ==> opening(
            projects[i],
        ).unwrap().seconds < opening(projects[j]).unwrap().seconds
}

pub open spec fn next_change(projects: Seq<InfrastructureProject>) -> Option<NextNetworkChange> {
    if exists|i: int| is_next_change(projects, i) {
        let i = choose|i: int| is_next_change(projects, i);
        Some(
            NextNetworkChange {
                project_id: projects[i].id,
                opens_at: opening(projects[i]).unwrap(),
            },
        )
    } else {
        None
    }
}

impl NextNetworkChange {
    /// The earliest opening among the works under construction.
    pub fn from_state(state: &GameState) -> (result: Option<Self>)
        ensures
            result == next_change(state.region.rail_authority.infrastructure_projects@),
            result is None ==> forall|i: int|
                0 <= i < state.region.rail_authority.infrastructure_projects@.len() ==> opening(
                    #[trigger] state.region.rail_authority.infrastructure_projects@[i],
                ) is None,
    {
        let projects = &state.region.rail_authority.infrastructure_projects;
        let mut best: Option<usize> = None;
        let mut i: usize = 0;
        while i < projects.len()
            invariant
                i <= projects@.len(),
                match best {
                    Some(k) => k < i && is_next_change(projects@.take(i as int), k as int),
                    None => forall|j: int|
                        0 <= j < i ==> opening(#[trigger] projects@[j]) is None,
                },
            decreases projects.len() - i,
        {
            let ghost seen = projects@.take(i as int);
            let ghost longer = projects@.take(i + 1);
            assert(forall|j: int| 0 <= j < i ==> #[trigger] longer[j] == seen[j]);
            assert(forall|j: int| 0 <= j < i ==> #[trigger] projects@[j] == seen[j]);
            assert(longer[i as int] == projects@[i as int]);
            if matches!(projects[i].status, InfrastructureProjectStatus::Construction) {
                if let Some(time) = projects[i].timeline.planned_completion_at {
                    match best {
                        Some(k) => {
                            if let Some(earliest) = projects[k].timeline.planned_completion_at {
                                assert(seen[k as int] == projects@[k as int]);
                                if time.seconds < earliest.seconds {
                                    best = Some(i);
                                }
                            }
                        },
                        None => {
                            best = Some(i);
                        },
                    }
                }
            }
            i += 1;
        }
        assert(projects@.take(projects@.len() as int) =~= projects@);
        match best {
            Some(k) => {
                proof {
                    let m = choose|m: int| is_next_change(projects@, m);
                    assert(is_next_change(projects@, k as int));
                    assert(m == k);
                }
                match projects[k].timeline.planned_completion_at {
                    Some(opens_at) => Some(
                        NextNetworkChange { project_id: projects[k].id, opens_at },
                    ),
                    None => None,
                }
            },
            None => None,
        }
    }
}

/// The Authority's figures at a glance.
#[derive(Clone, Copy, Debug, PartialEq, Eq, Structural)]
pub struct AuthorityDashboardSnapshot {
    pub treasury: Money,
    pub available_investment: Option<Money>,
    pub maintenance_reserve: Money,
    pub committed_investment: Money,
    pub public_allocation: Money,
    pub access_fee_revenue: Money,
    pub next_fiscal_period_at: Option<UtcSeconds>,
    pub station_count: usize,
    pub segment_count: usize,
    pub construction_capacity: u32,
    pub reserved_construction: usize,
    pub active_construction: usize,
    pub free_construction: u32,
    pub programme: ProgrammeCounts,
    pub next_network_change: Option<NextNetworkChange>,
}

impl AuthorityDashboardSnapshot {
    /// Whether these are the figures of a game.
    pub open spec fn shows(self, state: GameState) -> bool {
        let authority = state.region.rail_authority;
        let finances = authority.finances;
        &&& self.treasury == finances.treasury
        &&& self.available_investment == (match finances.uncommitted() {
            Ok(amount) => Some(amount),
            Err(_) => None::<Money>,
        })
        &&& self.maintenance_reserve == finances.maintenance_reserve
        &&& self.committed_investment == finances.committed_investment
        &&& self.public_allocation == finances.regional_public_allocation
        &&& self.access_fee_revenue == finances.infrastructure_access_fee_revenue
        &&& self.next_fiscal_period_at == finances.next_fiscal_period_at
        &&& self.station_count == authority.rail_network.rail_stations@.len()
        &&& self.segment_count == authority.rail_network.rail_lines@.len()
        &&& self.construction_capacity == authority.construction_capacity
        &&& self.reserved_construction == authority.reserved()
        &&& self.active_construction == authority.active()
        &&& self.free_construction == (if authority.construction_capacity >= authority.reserved() {
            authority.construction_capacity - authority.reserved()
        } else {
            0
        })
        &&& self.programme.counts(authority.infrastructure_projects@)
        &&& self.programme.unfinished() <= usize::MAX
        &&& self.next_network_change == next_change(authority.infrastructure_projects@)
    }

    pub fn from_state(state: &GameState) -> (result: Self)
        ensures
            result.shows(*state),
    {
        let authority = &state.region.rail_authority;
        let finances = &authority.finances;
        AuthorityDashboardSnapshot {
            treasury: finances.treasury,
            available_investment: match finances.uncommitted_investment() {
                Ok(amount) => Some(amount),
                Err(_) => None,
            },
            maintenance_reserve: finances.maintenance_reserve,
            committed_investment: finances.committed_investment,
            public_allocation: finances.regional_public_allocation,
            access_fee_revenue: finances.infrastructure_access_fee_revenue,
            next_fiscal_period_at: finances.next_fiscal_period_at,
            station_count: authority.rail_network.rail_stations.len(),
            segment_count: authority.rail_network.rail_lines.len(),
            construction_capacity: authority.construction_capacity,
            reserved_construction: authority.reserved_construction_count(),
            active_construction: authority.active_construction_count(),
            free_construction: authority.construction_slots_remaining(),
            programme: ProgrammeCounts::from_state(state),
            next_network_change: NextNetworkChange::from_state(state),
        }
    }
}

} // verus!
