//! The order in which the programme lists its projects.

use vstd::prelude::*;

use super::analytics::{stage_of, ProgrammeStage};
use crate::model::project::{InfrastructureProject, InfrastructureProjectTimeline};
use crate::model::units::UtcSeconds;

verus! {

/// Delivery comes before planning, and history last.
pub open spec fn rank_of(stage: ProgrammeStage) -> int {
    match stage {
        ProgrammeStage::Building => 0,
        ProgrammeStage::Queued => 1,
        ProgrammeStage::Funding => 2,
        ProgrammeStage::Planning => 3,
        ProgrammeStage::Deferred => 4,
        ProgrammeStage::Open => 5,
        ProgrammeStage::Closed => 6,
    }
}

fn stage_rank(stage: ProgrammeStage) -> (result: u8)
    ensures
        result == rank_of(stage),
{
    match stage {
        ProgrammeStage::Building => 0,
        ProgrammeStage::Queued => 1,
        ProgrammeStage::Funding => 2,
        ProgrammeStage::Planning => 3,
        ProgrammeStage::Deferred => 4,
        ProgrammeStage::Open => 5,
        ProgrammeStage::Closed => 6,
    }
}

/// A time as a number; one that is not known comes before all others.
pub open spec fn moment(time: Option<UtcSeconds>) -> int {
    match time {
        Some(time) => time.seconds as int,
        None => i64::MIN - 1,
    }
}

fn moment_number(time: Option<UtcSeconds>) -> (result: i128)
    ensures
        result == moment(time),
        i64::MIN - 1 <= result <= i64::MAX,
{
    match time {
        Some(time) => time.seconds as i128,
        None => i64::MIN as i128 - 1,
    }
}

/// When a project was closed, as far as its timeline tells.
pub open spec fn closing(timeline: InfrastructureProjectTimeline) -> Option<UtcSeconds> {
    match timeline.cancelled_at {
        Some(time) => Some(time),
        None => match timeline.deferred_at {
            Some(time) => Some(time),
            None => timeline.completed_at,
        },
    }
}

/// What orders the projects of one stage: the next milestone of delivery, the request of
/// planning, and the newest first of history.
pub open spec fn milestone(project: InfrastructureProject) -> int {
    let timeline = project.timeline;
    match stage_of(project.status) {
        ProgrammeStage::Building => moment(timeline.planned_completion_at),
        ProgrammeStage::Queued => moment(timeline.scheduled_start_at),
        ProgrammeStage::Open => -moment(timeline.completed_at),
        ProgrammeStage::Closed => -moment(closing(timeline)),
        _ => timeline.requested_at.seconds as int,
    }
}

fn milestone_number(project: &InfrastructureProject) -> (result: i128)
    ensures
        result == milestone(*project),
{
    let timeline = &project.timeline;
    match ProgrammeStage::from_status(project.status) {
        ProgrammeStage::Building => moment_number(timeline.planned_completion_at),
        ProgrammeStage::Queued => moment_number(timeline.scheduled_start_at),
        ProgrammeStage::Open => -moment_number(timeline.completed_at),
        ProgrammeStage::Closed => {
            let closed_at = match timeline.cancelled_at {
                Some(time) => Some(time),
                None => match timeline.deferred_at {
                    Some(time) => Some(time),
                    None => timeline.completed_at,
                },
            };
            -moment_number(closed_at)
        },
        _ => timeline.requested_at.seconds as i128,
    }
}

/// Whether a project is listed before another whatever their places in the game.
pub open spec fn outranks(first: InfrastructureProject, second: InfrastructureProject) -> bool {
    let first_rank = rank_of(stage_of(first.status));
    let second_rank = rank_of(stage_of(second.status));
    if first_rank != second_rank {
        first_rank < second_rank
    } else if milestone(first) != milestone(second) {
        milestone(first) < milestone(second)
    } else {
        first.timeline.requested_at.seconds < second.timeline.requested_at.seconds
    }
}

fn listed_before(first: &InfrastructureProject, second: &InfrastructureProject) -> (result: bool)
    ensures
        result == outranks(*first, *second),
{
    let first_rank: u8 = stage_rank(ProgrammeStage::from_status(first.status));
    let second_rank: u8 = stage_rank(ProgrammeStage::from_status(second.status));
    if first_rank != second_rank {
        return first_rank < second_rank;
    }
    let first_milestone: i128 = milestone_number(first);
    let second_milestone: i128 = milestone_number(second);
    if first_milestone != second_milestone {
        return first_milestone < second_milestone;
    }
    first.timeline.requested_at.seconds < second.timeline.requested_at.seconds
}

/// Whether the project at one place is listed before that at another: equal ones keep the
/// order of the game.
pub open spec fn precedes(projects: Seq<InfrastructureProject>, first: int, second: int) -> bool {
    outranks(projects[first], projects[second]) || (!outranks(projects[second], projects[first])
        && first < second)
}

/// Whether an order lists every project once, each before those that it precedes.
pub open spec fn is_order(projects: Seq<InfrastructureProject>, order: Seq<usize>) -> bool {
    &&& order.len() == projects.len()
    &&& forall|i: int| 0 <= i < order.len() ==> #[trigger] order[i] < projects.len()
    &&& forall|place: usize| place < projects.len() ==> #[trigger] order.contains(place)
    &&& forall|i: int, j: int|
        0 <= i < j < order.len() ==> precedes(
            projects,
            #[trigger] order[i] as int,
            #[trigger] order[j] as int,
        )
}

/// The order in which a programme lists its projects.
pub open spec fn programme_order(projects: Seq<InfrastructureProject>) -> Seq<usize> {
    choose|order: Seq<usize>| is_order(projects, order)
}

proof fn lemma_same_start(
    projects: Seq<InfrastructureProject>,
    first: Seq<usize>,
    second: Seq<usize>,
    count: int,
)
    requires
        is_order(projects, first),
        is_order(projects, second),
        0 <= count <= projects.len(),
    ensures
        forall|i: int| 0 <= i < count ==> #[trigger] first[i] == second[i],
    decreases count,
{
    if count > 0 {
        lemma_same_start(projects, first, second, count - 1);
        let k = count - 1;
        if first[k] != second[k] {
            assert(second.contains(first[k]));
            let p = choose|p: int| 0 <= p < second.len() && second[p] == first[k];
            assert(first.contains(second[k]));
            let q = choose|q: int| 0 <= q < first.len() && first[q] == second[k];
            if p < k {
                assert(first[p] == second[p]);
                assert(precedes(projects, first[p] as int, first[k] as int));
                assert(false);
            }
            if q < k {
                assert(first[q] == second[q]);
                assert(precedes(projects, second[q] as int, second[k] as int));
                assert(false);
            }
            assert(precedes(projects, second[k] as int, second[p] as int));
            assert(precedes(projects, first[k] as int, first[q] as int));
            assert(false);
        }
    }
}

/// A programme has one order only.
pub proof fn programme_orders_agree(
    projects: Seq<InfrastructureProject>,
    first: Seq<usize>,
    second: Seq<usize>,
)
    requires
        is_order(projects, first),
        is_order(projects, second),
    ensures
        first == second,
{
    lemma_same_start(projects, first, second, projects.len() as int);
    assert(first =~= second);
}

/// Places the next project into an order of those before it.
fn place_project(projects: &Vec<InfrastructureProject>, order: &mut Vec<usize>, place: usize)
    requires
        place < projects@.len(),
        is_order(projects@.take(place as int), old(order)@),
    ensures
        is_order(projects@.take(place + 1), final(order)@),
{
    let ghost before = order@;
    let ghost seen = projects@.take(place as int);
    let ghost longer = projects@.take(place + 1);
    let mut at: usize = order.len();
    while at > 0 && listed_before(&projects[place], &projects[order[at - 1]])
        invariant
            at <= order@.len(),
            order@ == before,
            place < projects@.len(),
            before.len() == place,
            forall|i: int| 0 <= i < before.len() ==> #[trigger] before[i] < place,
            forall|i: int|
                at <= i < before.len() ==> outranks(
                    projects@[place as int],
                    projects@[#[trigger] before[i] as int],
                ),
        decreases at,
    {
        at = at - 1;
    }
    order.insert(at, place);
    let ghost after = order@;
    proof {
        assert(forall|i: int| 0 <= i < place ==> #[trigger] longer[i] == seen[i]);
        assert(longer[place as int] == projects@[place as int]);
        assert forall|p: usize| p < longer.len() implies #[trigger] after.contains(p) by {
            if p == place {
                assert(after[at as int] == place);
            } else {
                assert(before.contains(p));
                let i = choose|i: int| 0 <= i < before.len() && before[i] == p;
                if i < at {
                    assert(after[i] == p);
                } else {
                    assert(after[i + 1] == p);
                }
            }
        }
        assert forall|i: int, j: int| 0 <= i < j < after.len() implies precedes(
            longer,
            #[trigger] after[i] as int,
            #[trigger] after[j] as int,
        ) by {
            let from = if i < at {
                i
            } else {
                i - 1
            };
            let to = if j < at {
                j
            } else {
                j - 1
            };
            if i != at && j != at {
                assert(after[i] == before[from]);
                assert(after[j] == before[to]);
                assert(precedes(seen, before[from] as int, before[to] as int));
            } else if i == at {
                assert(after[j] == before[to]);
                assert(outranks(projects@[place as int], projects@[before[to] as int]));
            } else {
                assert(after[i] == before[i]);
                assert(at > 0);
                let last = at - 1;
                assert(!outranks(projects@[place as int], projects@[before[last] as int]));
                if i < last {
                    assert(precedes(seen, before[i] as int, before[last] as int));
                }
            }
        }
    }
}

/// The places of a programme's projects in the order in which they are listed.
pub fn ordered_project_indices(projects: &Vec<InfrastructureProject>) -> (result: Vec<usize>)
    ensures
        result@ == programme_order(projects@),
        is_order(projects@, result@),
{
    let mut order: Vec<usize> = Vec::new();
    let mut i: usize = 0;
    while i < projects.len()
        invariant
            i <= projects@.len(),
            is_order(projects@.take(i as int), order@),
        decreases projects.len() - i,
    {
        place_project(projects, &mut order, i);
        i += 1;
    }
    assert(projects@.take(projects@.len() as int) =~= projects@);
    proof {
        programme_orders_agree(projects@, order@, programme_order(projects@));
    }
    order
}

} // verus!
