//! What the programme says of its projects, whatever they are.

use vstd::prelude::*;

use super::analytics::{
    AuthorityDashboardSnapshot,
    in_stage, next_change, opening, stage_of, is_next_change, ProgrammeCounts,
    ProgrammeStage,
};
use super::contribution::{review_of, ContributionReview};
use super::dashboard::{delivery_page, investment_page, network_page, text_figures};
use super::format::{
    deferred_text, discount_text, heading_text, maturity_text, next_text, percent_text,
    planning_text, scope_text, status_text, ProjectOutlook,
};
use super::order::{is_order, precedes, programme_order, programme_orders_agree};
use super::programme::{
    bar_text, built_percent, funded_percent, pipeline_line, progress_text, project_cells,
    project_table, stage_text, works,
};
use super::project::{delivery_lines, track_metres};
use crate::model::ids::InfrastructureProjectId;
use crate::model::network::RailLine;
use crate::model::project::{
    building, project_index, reserving, InfrastructureAccessDiscount, InfrastructureProject,
    InfrastructureProjectFunding, InfrastructureProjectKind, InfrastructureProjectStatus,
    InfrastructureProjectTimeline, RailAuthority, RailAuthorityFinances,
};
use crate::model::state::{AuthorityRules, GameState, Region};
use crate::model::units::{DurationSeconds, Money, UtcSeconds};
use crate::text::{decimal, padded_left, repeated, zero_padded};
use crate::ui::calendar::{relative_text, timestamp_text};
use crate::ui::format::{compact_text, money_text};
use crate::ui::places::route_label;

verus! {

/// The next step of a project under construction is its opening: it is told from the planned
/// completion and from nothing else, and agrees with the next change of the network.
pub proof fn construction_leads_to_the_opening(
    first: InfrastructureProject,
    second: InfrastructureProject,
    rules: AuthorityRules,
    other_rules: AuthorityRules,
    outlook: ProjectOutlook,
    other_outlook: ProjectOutlook,
    now: UtcSeconds,
)
    requires
        first.status is Construction,
        second.status is Construction,
        first.timeline.planned_completion_at == second.timeline.planned_completion_at,
    ensures
        next_text(rules, first, outlook, now) == next_text(other_rules, second, other_outlook, now),
        opening(first) == first.timeline.planned_completion_at,
        opening(first) matches Some(time) ==> next_text(rules, first, outlook, now) == "Opens "@
            + relative_text(time, now),
        opening(first) is None <==> next_text(rules, first, outlook, now) == "Opening pending"@,
{
    reveal_strlit("Opens ");
    reveal_strlit("Opening pending");
    if let Some(time) = opening(first) {
        let text = "Opens "@ + relative_text(time, now);
        assert(text[4] == 's');
        assert("Opening pending"@[4] == 'i');
    }
}

/// The next step of a scheduled project is its start: it is told from the scheduled start and
/// from nothing else.
pub proof fn scheduled_projects_lead_to_their_start(
    project: InfrastructureProject,
    rules: AuthorityRules,
    outlook: ProjectOutlook,
    now: UtcSeconds,
)
    requires
        project.status is Scheduled,
    ensures
        project.timeline.scheduled_start_at matches Some(time) ==> next_text(
            rules,
            project,
            outlook,
            now,
        ) == "Starts "@ + relative_text(time, now),
        project.timeline.scheduled_start_at is None ==> next_text(rules, project, outlook, now)
            == "Construction slot pending"@,
{
}

/// A planning stage is ready once its delay has passed, and until then is told by the time at
/// which it does.
pub proof fn planning_waits_for_its_delay(
    label: Seq<char>,
    started_at: UtcSeconds,
    delay: DurationSeconds,
    now: UtcSeconds,
    due: UtcSeconds,
)
    requires
        due.seconds - started_at.seconds == delay.seconds,
    ensures
        now.seconds >= due.seconds ==> planning_text(label, started_at, delay, now) == label
            + " ready"@,
        now.seconds < due.seconds ==> planning_text(label, started_at, delay, now) == label + " "@
            + relative_text(due, now),
{
}

/// What a project in planning waits for: a request for its review, a review for the proposal,
/// a proposal for the decision, and an approval for a funding slot.
pub proof fn planning_steps_follow_each_other(
    project: InfrastructureProject,
    rules: AuthorityRules,
    outlook: ProjectOutlook,
    now: UtcSeconds,
    due: UtcSeconds,
)
    ensures
        project.status is Requested && due.seconds == project.timeline.requested_at.seconds
            + rules.request_queue_delay.seconds ==> next_text(rules, project, outlook, now) == if due.seconds
            <= now.seconds {
            "Review"@ + " ready"@
        } else {
            "Review"@ + " "@ + relative_text(due, now)
        },
        project.status is UnderReview && project.timeline.review_started_at is Some && due.seconds
            == project.timeline.review_started_at->0.seconds + rules.review_duration.seconds
            ==> next_text(rules, project, outlook, now) == if due.seconds <= now.seconds {
            "Proposal"@ + " ready"@
        } else {
            "Proposal"@ + " "@ + relative_text(due, now)
        },
        project.status is Proposed && project.timeline.proposed_at is Some && due.seconds
            == project.timeline.proposed_at->0.seconds + rules.proposal_duration.seconds
            ==> next_text(rules, project, outlook, now) == if due.seconds <= now.seconds {
            "Decision"@ + " ready"@
        } else {
            "Decision"@ + " "@ + relative_text(due, now)
        },
        project.status is UnderReview && project.timeline.review_started_at is None ==> next_text(
            rules,
            project,
            outlook,
            now,
        ) == "Authority review in progress"@,
        project.status is Proposed && project.timeline.proposed_at is None ==> next_text(
            rules,
            project,
            outlook,
            now,
        ) == "Authority decision pending"@,
        project.status is Approved ==> next_text(rules, project, outlook, now)
            == "Awaiting funding slot"@,
        project.status is Rejected ==> next_text(rules, project, outlook, now)
            == "Rejected · no automatic review"@,
        project.status is Open ==> next_text(rules, project, outlook, now) == "Complete"@,
        project.status is Cancelled ==> next_text(rules, project, outlook, now) == "Cancelled"@,
{
}

/// A project in funding needs what its cost exceeds the money raised by, and waits to be
/// scheduled once that is nothing.
pub proof fn funding_needs_what_is_not_raised(
    project: InfrastructureProject,
    rules: AuthorityRules,
    outlook: ProjectOutlook,
    now: UtcSeconds,
    missing: int,
)
    requires
        project.status is Funding,
        project.funding.authority_committed.cents >= 0,
        project.funding.operator_contributed.cents >= 0,
        project.funding.authority_committed.cents + project.funding.operator_contributed.cents
            <= i64::MAX,
        project.funding.estimated_cost.cents >= 0,
        project.funding.authority_committed.cents + project.funding.operator_contributed.cents
            + missing == project.funding.estimated_cost.cents,
    ensures
        missing > 0 ==> next_text(rules, project, outlook, now) == "Still needs "@ + money_text(
            missing,
        ),
        missing <= 0 ==> next_text(rules, project, outlook, now) == "Scheduling pending"@,
{
}

/// A deferred project waits for its cooldown, for local adoption, for both or for neither, and
/// for nothing once no adoption would do.
pub proof fn deferred_projects_wait_for_time_and_adoption(
    project: InfrastructureProject,
    rules: AuthorityRules,
    outlook: ProjectOutlook,
    now: UtcSeconds,
    due: UtcSeconds,
    adoption: u16,
)
    requires
        project.status is Deferred,
        project.timeline.deferred_at is Some,
        due.seconds == project.timeline.deferred_at->0.seconds
            + rules.deferred_reconsideration_delay.seconds,
        outlook.local_adoption == Some(adoption) || (outlook.local_adoption is None && adoption
            == 0),
    ensures
        next_text(rules, project, outlook, now) == deferred_text(rules, project, outlook, now),
        outlook.reconsideration_threshold > 10_000 ==> deferred_text(rules, project, outlook, now)
            == "No further automatic review"@,
        outlook.reconsideration_threshold <= 10_000 && now.seconds >= due.seconds && adoption
            >= outlook.reconsideration_threshold ==> deferred_text(rules, project, outlook, now)
            == "Reconsideration ready"@,
        outlook.reconsideration_threshold <= 10_000 && now.seconds >= due.seconds && adoption
            < outlook.reconsideration_threshold ==> deferred_text(rules, project, outlook, now)
            == "Needs "@ + percent_text(outlook.reconsideration_threshold) + " adoption"@,
        outlook.reconsideration_threshold <= 10_000 && now.seconds < due.seconds && adoption
            >= outlook.reconsideration_threshold ==> deferred_text(rules, project, outlook, now)
            == "Eligible "@ + relative_text(due, now),
        outlook.reconsideration_threshold <= 10_000 && now.seconds < due.seconds && adoption
            < outlook.reconsideration_threshold ==> deferred_text(rules, project, outlook, now)
            == "Eligible "@ + relative_text(due, now) + " · needs "@ + percent_text(
            outlook.reconsideration_threshold,
        ) + " adoption"@,
{
}

/// Basis points read as the nearest whole percent.
pub proof fn percents_are_nearest(basis_points: u16, percent: nat)
    requires
        100 * percent <= basis_points + 50 < 100 * percent + 100,
    ensures
        percent_text(basis_points) == decimal(percent) + "%"@,
{
    assert((basis_points + 50) / 100 == percent);
}

/// Maturity is told in four steps, each as wide as its name says.
pub proof fn maturity_has_four_steps(basis_points: u16)
    ensures
        basis_points < 3_500 ==> maturity_text(basis_points) == "Emerging"@,
        3_500 <= basis_points < 6_000 ==> maturity_text(basis_points) == "Growing"@,
        6_000 <= basis_points < 8_500 ==> maturity_text(basis_points) == "Established"@,
        8_500 <= basis_points ==> maturity_text(basis_points) == "Mature"@,
{
}

/// The stage of a project tells its status: works are building, a scheduled start queues,
/// and only refused or cancelled projects are closed.
pub proof fn stages_tell_the_status(status: InfrastructureProjectStatus)
    ensures
        stage_of(status) is Building <==> status is Construction,
        stage_of(status) is Queued <==> status is Scheduled,
        stage_of(status) is Funding <==> status is Funding,
        stage_of(status) is Open <==> status is Open,
        stage_of(status) is Deferred <==> status is Deferred,
        stage_of(status) is Closed <==> status is Rejected || status is Cancelled,
        stage_of(status) is Planning <==> status is Requested || status is UnderReview || status
            is Proposed || status is Approved,
{
}

/// Works come first in the programme, then scheduled, funded, planned and deferred projects,
/// and what is open or closed last.
pub proof fn delivery_is_listed_before_planning(
    projects: Seq<InfrastructureProject>,
    order: Seq<usize>,
    i: int,
    j: int,
)
    requires
        is_order(projects, order),
        0 <= i < j < order.len(),
    ensures
        projects[order[j] as int].status is Construction ==> projects[order[i] as int].status
            is Construction,
        projects[order[j] as int].status is Scheduled ==> projects[order[i] as int].status
            is Construction || projects[order[i] as int].status is Scheduled,
        projects[order[j] as int].status is Funding ==> projects[order[i] as int].status
            is Construction || projects[order[i] as int].status is Scheduled
            || projects[order[i] as int].status is Funding,
        projects[order[i] as int].status is Deferred ==> projects[order[j] as int].status
            is Deferred || projects[order[j] as int].status is Open
            || projects[order[j] as int].status is Rejected || projects[order[j] as int].status
            is Cancelled,
        projects[order[i] as int].status is Open ==> projects[order[j] as int].status is Open
            || projects[order[j] as int].status is Rejected || projects[order[j] as int].status
            is Cancelled,
        projects[order[i] as int].status is Rejected || projects[order[i] as int].status
            is Cancelled ==> projects[order[j] as int].status is Rejected
            || projects[order[j] as int].status is Cancelled,
{
    assert(precedes(projects, order[i] as int, order[j] as int));
}

/// Within a stage, works are listed by their opening, scheduled projects by their start, what
/// is open by its opening, newest first, and all others by their request.
pub proof fn stages_are_listed_in_time(
    projects: Seq<InfrastructureProject>,
    order: Seq<usize>,
    i: int,
    j: int,
)
    requires
        is_order(projects, order),
        0 <= i < j < order.len(),
    ensures
        ({
            let first = projects[order[i] as int];
            let second = projects[order[j] as int];
            &&& first.status is Construction && second.status is Construction
                && second.timeline.planned_completion_at is Some
                && first.timeline.planned_completion_at is Some
                ==> first.timeline.planned_completion_at->0.seconds
                <= second.timeline.planned_completion_at->0.seconds
            &&& first.status is Construction && second.status is Construction
                && second.timeline.planned_completion_at is None
                ==> first.timeline.planned_completion_at is None
            &&& first.status is Scheduled && second.status is Scheduled
                && second.timeline.scheduled_start_at is Some && first.timeline.scheduled_start_at
                is Some ==> first.timeline.scheduled_start_at->0.seconds
                <= second.timeline.scheduled_start_at->0.seconds
            &&& first.status is Scheduled && second.status is Scheduled
                && second.timeline.scheduled_start_at is None ==> first.timeline.scheduled_start_at
                is None
            &&& first.status is Open && second.status is Open && first.timeline.completed_at is Some
                && second.timeline.completed_at is Some ==> first.timeline.completed_at->0.seconds
                >= second.timeline.completed_at->0.seconds
            &&& first.status is Open && second.status is Open && first.timeline.completed_at is None
                ==> second.timeline.completed_at is None
            &&& first.status is Cancelled && second.status is Cancelled
                && first.timeline.cancelled_at is Some && second.timeline.cancelled_at is Some
                ==> first.timeline.cancelled_at->0.seconds
                >= second.timeline.cancelled_at->0.seconds
            &&& first.status is Funding && second.status is Funding
                ==> first.timeline.requested_at.seconds <= second.timeline.requested_at.seconds
            &&& first.status is Deferred && second.status is Deferred
                ==> first.timeline.requested_at.seconds <= second.timeline.requested_at.seconds
            &&& (first.status is Requested || first.status is UnderReview || first.status
                is Proposed || first.status is Approved) && (second.status is Requested
                || second.status is UnderReview || second.status is Proposed || second.status
                is Approved) ==> first.timeline.requested_at.seconds
                <= second.timeline.requested_at.seconds
        }),
{
    assert(precedes(projects, order[i] as int, order[j] as int));
}

/// Projects that their stage and its times do not tell apart are listed by their request, and
/// then as the game holds them.
pub proof fn equals_keep_their_order(
    projects: Seq<InfrastructureProject>,
    order: Seq<usize>,
    i: int,
    j: int,
)
    requires
        is_order(projects, order),
        0 <= i < j < order.len(),
        projects[order[i] as int].status == projects[order[j] as int].status,
        projects[order[i] as int].timeline.planned_completion_at
            == projects[order[j] as int].timeline.planned_completion_at,
        projects[order[i] as int].timeline.scheduled_start_at
            == projects[order[j] as int].timeline.scheduled_start_at,
        projects[order[i] as int].timeline.completed_at
            == projects[order[j] as int].timeline.completed_at,
        projects[order[i] as int].timeline.cancelled_at
            == projects[order[j] as int].timeline.cancelled_at,
        projects[order[i] as int].timeline.deferred_at
            == projects[order[j] as int].timeline.deferred_at,
    ensures
        projects[order[i] as int].timeline.requested_at.seconds
            <= projects[order[j] as int].timeline.requested_at.seconds,
        projects[order[i] as int].timeline.requested_at.seconds
            == projects[order[j] as int].timeline.requested_at.seconds ==> order[i] < order[j],
{
    assert(precedes(projects, order[i] as int, order[j] as int));
}

proof fn lemma_earliest(projects: Seq<InfrastructureProject>, count: int) -> (at: Option<int>)
    requires
        0 <= count <= projects.len(),
    ensures
        match at {
            Some(k) => is_next_change(projects.take(count), k),
            None => forall|j: int| 0 <= j < count ==> opening(#[trigger] projects[j]) is None,
        },
    decreases count,
{
    if count <= 0 {
        None
    } else {
        let before = lemma_earliest(projects, count - 1);
        let shorter = projects.take(count - 1);
        let longer = projects.take(count);
        assert(forall|j: int| 0 <= j < count - 1 ==> #[trigger] longer[j] == shorter[j]);
        assert(forall|j: int| 0 <= j < count - 1 ==> #[trigger] longer[j] == projects[j]);
        assert(longer[count - 1] == projects[count - 1]);
        match (before, opening(projects[count - 1])) {
            (None, None) => {
                None
            },
            (None, Some(_)) => {
                assert forall|j: int| 0 <= j < count - 1 implies opening(#[trigger] longer[j])
                    is None by {
                    assert(opening(projects[j]) is None);
                }
                assert(is_next_change(longer, count - 1));
                Some(count - 1)
            },
            (Some(k), None) => {
                assert(is_next_change(longer, k));
                Some(k)
            },
            (Some(k), Some(time)) => {
                assert(longer[k] == shorter[k]);
                if time.seconds < opening(shorter[k])->0.seconds {
                    assert(is_next_change(longer, count - 1));
                    Some(count - 1)
                } else {
                    assert(is_next_change(longer, k));
                    Some(k)
                }
            },
        }
    }
}

/// The next change of the network is the earliest opening among the works under construction,
/// and there is one wherever works have a planned completion.
pub proof fn the_next_change_is_the_earliest_opening(projects: Seq<InfrastructureProject>, j: int)
    requires
        0 <= j < projects.len(),
        projects[j].status is Construction,
        projects[j].timeline.planned_completion_at is Some,
    ensures
        next_change(projects) is Some,
        next_change(projects)->0.opens_at.seconds
            <= projects[j].timeline.planned_completion_at->0.seconds,
        exists|i: int|
            0 <= i < projects.len() && (#[trigger] projects[i]).status is Construction
                && projects[i].id == next_change(projects)->0.project_id
                && projects[i].timeline.planned_completion_at == Some(
                next_change(projects)->0.opens_at,
            ),
{
    let found = lemma_earliest(projects, projects.len() as int);
    assert(projects.take(projects.len() as int) =~= projects);
    assert(opening(projects[j]) is Some);
    assert(found is Some);
    assert(is_next_change(projects, found->0));
    let i = choose|i: int| is_next_change(projects, i);
    assert(is_next_change(projects, i));
    assert(projects[i].status is Construction);
}

proof fn lemma_in_stage(
    projects: Seq<InfrastructureProject>,
    project: InfrastructureProject,
    stage: ProgrammeStage,
    count: int,
)
    requires
        0 <= count <= projects.len(),
    ensures
        in_stage(projects.push(project), stage, count) == in_stage(projects, stage, count),
    decreases count,
{
    if count > 0 {
        lemma_in_stage(projects, project, stage, count - 1);
        assert(projects.push(project)[count - 1] == projects[count - 1]);
    }
}

/// A project counts in one column of the pipeline, that of its status, and in none once it is
/// refused or cancelled; an empty programme counts nothing.
pub proof fn a_project_counts_once(
    projects: Seq<InfrastructureProject>,
    project: InfrastructureProject,
    before: ProgrammeCounts,
    after: ProgrammeCounts,
)
    requires
        before.counts(projects),
        after.counts(projects.push(project)),
    ensures
        after.building == before.building + if project.status is Construction {
            1int
        } else {
            0
        },
        after.queued == before.queued + if project.status is Scheduled {
            1int
        } else {
            0
        },
        after.funding == before.funding + if project.status is Funding {
            1int
        } else {
            0
        },
        after.open == before.open + if project.status is Open {
            1int
        } else {
            0
        },
        after.deferred == before.deferred + if project.status is Deferred {
            1int
        } else {
            0
        },
        after.planning == before.planning + if project.status is Requested || project.status
            is UnderReview || project.status is Proposed || project.status is Approved {
            1int
        } else {
            0
        },
        projects.len() == 0 ==> before.planning == 0 && before.funding == 0 && before.queued == 0
            && before.building == 0 && before.open == 0 && before.deferred == 0,
        before.unfinished() == before.planning + before.funding + before.queued + before.building
            + before.deferred,
{
    let count = projects.len() as int;
    lemma_in_stage(projects, project, ProgrammeStage::Planning, count);
    lemma_in_stage(projects, project, ProgrammeStage::Funding, count);
    lemma_in_stage(projects, project, ProgrammeStage::Queued, count);
    lemma_in_stage(projects, project, ProgrammeStage::Building, count);
    lemma_in_stage(projects, project, ProgrammeStage::Open, count);
    lemma_in_stage(projects, project, ProgrammeStage::Deferred, count);
    assert(projects.push(project)[count] == project);
}

proof fn lemma_slots(
    projects: Seq<InfrastructureProject>,
    project: InfrastructureProject,
    count: int,
)
    requires
        0 <= count <= projects.len(),
    ensures
        building(projects.push(project), count) == building(projects, count),
        reserving(projects.push(project), count) == reserving(projects, count),
    decreases count,
{
    if count > 0 {
        lemma_slots(projects, project, count - 1);
        assert(projects.push(project)[count - 1] == projects[count - 1]);
    }
}

/// Works under construction are active, and they and scheduled projects hold a slot each.
pub proof fn projects_hold_slots(
    before: RailAuthority,
    after: RailAuthority,
    project: InfrastructureProject,
)
    requires
        after.infrastructure_projects@ == before.infrastructure_projects@.push(project),
    ensures
        before.infrastructure_projects@.len() == 0 ==> before.active() == 0 && before.reserved()
            == 0,
        after.active() == before.active() + if project.status is Construction {
            1int
        } else {
            0
        },
        after.reserved() == before.reserved() + if project.status is Construction || project.status
            is Scheduled {
            1int
        } else {
            0
        },
{
    let projects = before.infrastructure_projects@;
    lemma_slots(projects, project, projects.len() as int);
    assert(projects.push(project)[projects.len() as int] == project);
}

/// What the Authority can still invest is its treasury without reserve and commitments.
pub proof fn investment_is_what_is_not_bound(finances: RailAuthorityFinances, free: Money)
    requires
        finances.uncommitted() matches Ok(amount) && amount == free,
    ensures
        free.cents + finances.maintenance_reserve.cents + finances.committed_investment.cents
            == finances.treasury.cents,
{
}

/// Funding is told in whole percent of the cost, at most a hundred.
pub proof fn funding_is_a_share_of_the_cost(funding: InfrastructureProjectFunding, percent: int)
    requires
        funding.estimated_cost.cents > 0,
        funding.authority_committed.cents >= 0,
        funding.operator_contributed.cents >= 0,
        funding.authority_committed.cents + funding.operator_contributed.cents <= i64::MAX,
        percent * funding.estimated_cost.cents <= 100 * (funding.authority_committed.cents
            + funding.operator_contributed.cents) < (percent + 1) * funding.estimated_cost.cents,
    ensures
        percent <= 100 ==> funded_percent(funding) == percent,
        percent > 100 ==> funded_percent(funding) == 100,
{
    let raised = funding.authority_committed.cents + funding.operator_contributed.cents;
    let cost = funding.estimated_cost.cents as int;
    assert(raised * 100 / cost == percent) by (nonlinear_arith)
        requires
            cost > 0,
            percent * cost <= 100 * raised < (percent + 1) * cost,
    ;
}

/// Works are told in whole percent of the time between their start and their planned
/// completion: nothing before the start, all from the completion on.
pub proof fn works_are_a_share_of_their_time(
    started: UtcSeconds,
    completion: UtcSeconds,
    now: UtcSeconds,
    percent: int,
)
    requires
        started.seconds < completion.seconds,
        completion.seconds - started.seconds <= i64::MAX,
        i64::MIN <= now.seconds - started.seconds <= i64::MAX,
    ensures
        now.seconds <= started.seconds ==> built_percent(started, completion, now) == 0,
        now.seconds >= completion.seconds ==> built_percent(started, completion, now) == 100,
        started.seconds <= now.seconds <= completion.seconds && percent * (completion.seconds
            - started.seconds) <= 100 * (now.seconds - started.seconds) < (percent + 1) * (
        completion.seconds - started.seconds) ==> built_percent(started, completion, now)
            == percent,
{
    let whole = completion.seconds - started.seconds;
    let part = now.seconds - started.seconds;
    assert(whole * 100 / whole == 100) by (nonlinear_arith)
        requires
            whole > 0,
    ;
    if 0 <= part <= whole && percent * whole <= 100 * part < (percent + 1) * whole {
        assert(part * 100 / whole == percent && percent <= 100) by (nonlinear_arith)
            requires
                whole > 0,
                0 <= part <= whole,
                percent * whole <= 100 * part < (percent + 1) * whole,
        ;
    }
}

/// The progress of works is told from their start and planned completion.
pub proof fn works_run_from_start_to_completion(
    timeline: InfrastructureProjectTimeline,
    now: UtcSeconds,
)
    ensures
        works(timeline, now) is Some <==> timeline.construction_started_at is Some
            && timeline.planned_completion_at is Some,
        works(timeline, now) matches Some((percent, remaining)) ==> {
            &&& percent == built_percent(
                timeline.construction_started_at->0,
                timeline.planned_completion_at->0,
                now,
            )
            &&& now.seconds >= timeline.planned_completion_at->0.seconds ==> remaining == 0
            &&& now.seconds <= timeline.planned_completion_at->0.seconds
                && timeline.planned_completion_at->0.seconds - now.seconds <= i64::MAX
                ==> remaining == timeline.planned_completion_at->0.seconds - now.seconds
        },
{
}

/// A bar fills one of its six cells for each full sixth, and tells the percent.
pub proof fn bars_have_six_cells(percent: u8, filled: nat)
    requires
        percent <= 100,
        100 * filled <= 6 * percent < 100 * (filled + 1),
    ensures
        filled <= 6,
        bar_text(percent) == repeated('█', filled) + repeated('░', (6 - filled) as nat) + " "@
            + padded_left(decimal(percent as nat), 3, ' ') + "%"@,
{
    assert(percent * 6 / 100 == filled);
}

/// Progress is a bar of the money raised while in funding and of the time passed while in
/// construction, and otherwise names the stage.
pub proof fn progress_tells_the_stage(project: InfrastructureProject, now: UtcSeconds)
    ensures
        project.status is Funding && project.funding.estimated_cost.cents > 0 ==> progress_text(
            project,
            now,
        ) == bar_text(funded_percent(project.funding) as u8),
        project.status is Funding && project.funding.estimated_cost.cents <= 0 ==> progress_text(
            project,
            now,
        ) == "Funding pending"@,
        project.status is Construction && project.timeline.construction_started_at is Some
            && project.timeline.planned_completion_at is Some ==> progress_text(project, now)
            == bar_text(
            built_percent(
                project.timeline.construction_started_at->0,
                project.timeline.planned_completion_at->0,
                now,
            ) as u8,
        ),
        project.status is Construction && project.timeline.construction_started_at is None
            ==> progress_text(project, now) == "Mobilising"@,
        project.status is Construction && project.timeline.construction_started_at is Some
            && project.timeline.planned_completion_at is None ==> progress_text(project, now)
            == "In progress"@,
        project.status is Requested ==> progress_text(project, now) == "Awaiting review"@,
        project.status is UnderReview ==> progress_text(project, now) == "In review"@,
        project.status is Proposed ==> progress_text(project, now) == "Proposal"@,
        project.status is Approved ==> progress_text(project, now) == "Approved"@,
        project.status is Deferred ==> progress_text(project, now) == "On hold"@,
        project.status is Rejected ==> progress_text(project, now) == "Rejected"@,
        project.status is Scheduled ==> progress_text(project, now) == "Ready to build"@,
        project.status is Open ==> progress_text(project, now) == "Complete"@,
        project.status is Cancelled ==> progress_text(project, now) == "Cancelled"@,
{
}

/// A contribution is a tenth of the cost, or less where the gap, the operator's remaining fifth
/// or the Company's funds are less; it is nothing less than the least of these.
pub proof fn contributions_are_the_least_of_four(
    funding: InfrastructureProjectFunding,
    funds: Money,
    amount: Money,
    tenth: int,
    fifth: int,
)
    requires
        funding.estimated_cost.cents >= 0,
        10 * tenth <= funding.estimated_cost.cents < 10 * (tenth + 1),
        5 * fifth <= funding.estimated_cost.cents < 5 * (fifth + 1),
        funding.suggestion(funds) matches Ok(suggested) && suggested == amount,
    ensures
        ({
            let gap = funding.estimated_cost.cents - funding.authority_committed.cents
                - funding.operator_contributed.cents;
            let room = fifth - funding.operator_contributed.cents;
            &&& amount.cents <= tenth && amount.cents <= gap && amount.cents <= room && amount.cents
                <= funds.cents
            &&& amount.cents == tenth || amount.cents == gap || amount.cents == room || amount.cents
                == funds.cents
        }),
{
    assert(funding.estimated_cost.cents * 10 / 100 == tenth);
    assert(funding.estimated_cost.cents * 20 / 100 == fifth);
}

/// Contributions go only to projects in funding, and the review proposes just that amount.
pub proof fn only_funding_takes_contributions(
    state: GameState,
    id: InfrastructureProjectId,
    place: int,
)
    requires
        project_index(state.region.rail_authority.infrastructure_projects@, id) == Some(place),
    ensures
        ({
            let project = state.region.rail_authority.infrastructure_projects@[place];
            let funds = state.player_company.funds;
            &&& !(project.status is Funding) ==> review_of(state, id) is Err
            &&& project.status is Funding ==> (project.funding.suggestion(funds) matches Ok(amount)
                ==> (amount.cents > 0 ==> review_of(state, id) == Ok::<ContributionReview, Seq<char>>(
                ContributionReview { project_id: id, amount },
            )) && (amount.cents <= 0 ==> review_of(state, id) is Err))
        }),
{
}

/// The pipeline tells each stage's count behind its name, from planning to open, and what is on
/// hold only where there is some.
pub proof fn the_pipeline_tells_each_stage(counts: ProgrammeCounts)
    ensures
        ({
            let line = pipeline_line(counts);
            &&& line[0].0 == "PLANNING"@ + " "@ + decimal(counts.planning as nat)
            &&& line[2].0 == "FUNDING"@ + " "@ + decimal(counts.funding as nat)
            &&& line[4].0 == "QUEUED"@ + " "@ + decimal(counts.queued as nat)
            &&& line[6].0 == "BUILDING"@ + " "@ + decimal(counts.building as nat)
            &&& line[8].0 == "OPEN"@ + " "@ + decimal(counts.open as nat)
            &&& counts.deferred == 0 ==> line.len() == 9
            &&& counts.deferred > 0 ==> line.len() == 11 && line[10].0 == "HOLD"@ + " "@ + decimal(
                counts.deferred as nat,
            )
        }),
{
}

/// A row of the programme tells a project's number, stage, scope, cost, progress and next step;
/// what is open or closed has no next step.
pub proof fn rows_tell_their_project(
    state: GameState,
    outlooks: Seq<ProjectOutlook>,
    now: UtcSeconds,
    place: int,
)
    requires
        0 <= place < state.region.rail_authority.infrastructure_projects@.len(),
    ensures
        ({
            let project = state.region.rail_authority.infrastructure_projects@[place];
            let cells = project_cells(state, outlooks, now, place, false);
            let small = project_cells(state, outlooks, now, place, true);
            &&& cells.len() == 6
            &&& cells[0].0 == zero_padded((place + 1) as nat, 2)
            &&& cells[1].0 == stage_text(stage_of(project.status))
            &&& cells[2].0 == scope_text(state.region, project.kind)
            &&& cells[3].0 == money_text(project.funding.estimated_cost.cents as int)
            &&& cells[4].0 == progress_text(project, now)
            &&& project.status is Open || project.status is Rejected || project.status is Cancelled
                ==> cells[5].0 == "—"@
            &&& !(project.status is Open || project.status is Rejected || project.status
                is Cancelled) ==> cells[5].0 == next_text(
                state.rules.authority,
                project,
                outlooks[place],
                now,
            )
            &&& small.len() == 4
            &&& small[0].0 == cells[0].0 && small[1].0 == cells[2].0 && small[2].0 == cells[1].0
                && small[3].0 == cells[4].0
        }),
        stage_text(ProgrammeStage::Planning) == "PLANNING"@,
        stage_text(ProgrammeStage::Funding) == "FUNDING"@,
        stage_text(ProgrammeStage::Queued) == "QUEUED"@,
        stage_text(ProgrammeStage::Building) == "BUILDING"@,
        stage_text(ProgrammeStage::Open) == "OPEN"@,
        stage_text(ProgrammeStage::Deferred) == "HOLD"@,
        stage_text(ProgrammeStage::Closed) == "CLOSED"@,
{
}

/// The table lists the programme in its order, one row for each project.
pub proof fn the_table_follows_the_order(
    state: GameState,
    outlooks: Seq<ProjectOutlook>,
    now: UtcSeconds,
    order: Seq<usize>,
    i: int,
)
    requires
        is_order(state.region.rail_authority.infrastructure_projects@, order),
        0 <= i < order.len(),
    ensures
        project_table(state, outlooks, now, false).len()
            == state.region.rail_authority.infrastructure_projects@.len(),
        project_table(state, outlooks, now, false)[i].0 == project_cells(
            state,
            outlooks,
            now,
            order[i] as int,
            false,
        ),
{
    let projects = state.region.rail_authority.infrastructure_projects@;
    assert(is_order(projects, programme_order(projects)));
    programme_orders_agree(projects, order, programme_order(projects));
}

/// A project's scope names what it does and how much of the network it takes.
pub proof fn scopes_tell_kind_and_extent(region: Region, kind: InfrastructureProjectKind)
    ensures
        kind matches InfrastructureProjectKind::SpeedUpgrade { rail_line_ids, .. } ==> scope_text(
            region,
            kind,
        ) == "Speed upgrade · "@ + decimal(rail_line_ids@.len()) + " segment(s)"@,
        kind matches InfrastructureProjectKind::DoubleTracking { rail_line_ids, .. } ==> scope_text(
            region,
            kind,
        ) == "Double tracking · "@ + decimal(rail_line_ids@.len()) + " segment(s)"@,
        kind matches InfrastructureProjectKind::Electrification { rail_line_ids } ==> scope_text(
            region,
            kind,
        ) == "Electrification · "@ + decimal(rail_line_ids@.len()) + " segment(s)"@,
        kind matches InfrastructureProjectKind::Renewal { rail_line_ids } ==> scope_text(
            region,
            kind,
        ) == "Renewal · "@ + decimal(rail_line_ids@.len()) + " segment(s)"@,
        kind matches InfrastructureProjectKind::StationUpgrade { rail_station_ids } ==> scope_text(
            region,
            kind,
        ) == "Station upgrade · "@ + decimal(rail_station_ids@.len()) + " station(s)"@,
        kind matches InfrastructureProjectKind::NewLine { planned_stations, planned_lines } ==> (
        route_label(region, planned_stations@, planned_lines@) matches Some(route) ==> scope_text(
            region,
            kind,
        ) == "New line · "@ + route && heading_text(region, kind) == route),
{
}

/// A status reads as its name in capitals.
pub proof fn statuses_have_their_names(status: InfrastructureProjectStatus)
    ensures
        status is Requested ==> status_text(status) == "REQUESTED"@,
        status is UnderReview ==> status_text(status) == "UNDER REVIEW"@,
        status is Proposed ==> status_text(status) == "PROPOSED"@,
        status is Approved ==> status_text(status) == "APPROVED"@,
        status is Deferred ==> status_text(status) == "DEFERRED"@,
        status is Rejected ==> status_text(status) == "REJECTED"@,
        status is Funding ==> status_text(status) == "FUNDING"@,
        status is Scheduled ==> status_text(status) == "SCHEDULED"@,
        status is Construction ==> status_text(status) == "CONSTRUCTION"@,
        status is Open ==> status_text(status) == "OPEN"@,
        status is Cancelled ==> status_text(status) == "CANCELLED"@,
{
}

/// A discount is told in percent with what is left of it until it ends.
pub proof fn discounts_run_until_they_end(
    discount: InfrastructureAccessDiscount,
    now: UtcSeconds,
    percent: nat,
)
    requires
        100 * percent <= discount.basis_points < 100 * (percent + 1),
    ensures
        now.seconds >= discount.expires_at.seconds ==> discount_text(discount, now) == decimal(
            percent,
        ) + "% · "@ + "expired"@,
        now.seconds < discount.expires_at.seconds && discount.expires_at.seconds - now.seconds
            <= i64::MAX ==> discount_text(discount, now) == decimal(percent) + "% · "@
            + compact_text((discount.expires_at.seconds - now.seconds) as nat) + " remaining"@,
{
    assert(discount.basis_points / 100 == percent);
}

/// The delivery of works tells their start and their opening, each from its own time, and an
/// open project when it opened.
pub proof fn delivery_tells_start_and_opening(project: InfrastructureProject, now: UtcSeconds)
    ensures
        project.status is Construction && project.timeline.construction_started_at is Some
            && project.timeline.planned_completion_at is Some ==> {
            let lines = delivery_lines(project, now);
            &&& lines.len() == 5
            &&& lines[3][1].0 == relative_text(project.timeline.construction_started_at->0, now)
            &&& lines[4][1].0 == timestamp_text(project.timeline.planned_completion_at->0, now)
        },
        project.status is Open && project.timeline.completed_at is Some ==> delivery_lines(
            project,
            now,
        )[1][1].0 == timestamp_text(project.timeline.completed_at->0, now) + " · "@ + relative_text(
            project.timeline.completed_at->0,
            now,
        ),
        project.status is Scheduled && project.timeline.scheduled_start_at is Some
            ==> delivery_lines(project, now)[1][1].0 == timestamp_text(
            project.timeline.scheduled_start_at->0,
            now,
        ) + " · "@ + relative_text(project.timeline.scheduled_start_at->0, now),
{
}

proof fn lemma_track(lines: Seq<RailLine>, line: RailLine, count: int)
    requires
        0 <= count <= lines.len(),
    ensures
        track_metres(lines.push(line), count) == track_metres(lines, count),
    decreases count,
{
    if count > 0 {
        lemma_track(lines, line, count - 1);
        assert(lines.push(line)[count - 1] == lines[count - 1]);
    }
}

/// New track adds up: each planned line adds its length.
pub proof fn new_track_adds_up(lines: Seq<RailLine>, line: RailLine)
    ensures
        track_metres(Seq::empty(), 0) == 0,
        track_metres(lines.push(line), (lines.len() + 1) as int) == track_metres(
            lines,
            lines.len() as int,
        ) + line.distance.metres,
{
    lemma_track(lines, line, lines.len() as int);
    assert(lines.push(line)[lines.len() as int] == line);
}

/// The figures of the Authority are those of its finances, its network and its programme.
pub proof fn snapshots_show_the_authority(
    state: GameState,
    snapshot: AuthorityDashboardSnapshot,
)
    requires
        snapshot.shows(state),
    ensures
        ({
            let authority = state.region.rail_authority;
            let finances = authority.finances;
            &&& snapshot.treasury == finances.treasury
            &&& snapshot.maintenance_reserve == finances.maintenance_reserve
            &&& snapshot.committed_investment == finances.committed_investment
            &&& snapshot.public_allocation == finances.regional_public_allocation
            &&& snapshot.access_fee_revenue == finances.infrastructure_access_fee_revenue
            &&& snapshot.next_fiscal_period_at == finances.next_fiscal_period_at
            &&& snapshot.available_investment is Some ==> snapshot.available_investment->0.cents
                + finances.maintenance_reserve.cents + finances.committed_investment.cents
                == finances.treasury.cents
            &&& snapshot.station_count == authority.rail_network.rail_stations@.len()
            &&& snapshot.segment_count == authority.rail_network.rail_lines@.len()
            &&& snapshot.construction_capacity == authority.construction_capacity
            &&& snapshot.reserved_construction == authority.reserved()
            &&& snapshot.active_construction == authority.active()
            &&& authority.reserved() <= authority.construction_capacity
                ==> snapshot.free_construction + snapshot.reserved_construction
                == snapshot.construction_capacity
            &&& authority.reserved() > authority.construction_capacity
                ==> snapshot.free_construction == 0
        }),
{
}

/// The cards of the dashboard tell the Authority's money, its slots and its network.
pub proof fn cards_tell_the_authority(
    state: GameState,
    snapshot: AuthorityDashboardSnapshot,
    now: UtcSeconds,
)
    ensures
        ({
            let money = investment_page(snapshot);
            let slots = delivery_page(snapshot, now);
            let network = network_page(state, snapshot);
            &&& snapshot.available_investment is Some ==> money[0][0].0 == money_text(
                snapshot.available_investment->0.cents as int,
            ) + " available"@
            &&& snapshot.available_investment is None ==> money[0][0].0 == "—"@ + " available"@
            &&& money[1][0].0 == "Treasury "@ + money_text(snapshot.treasury.cents as int)
            &&& money[2][0].0 == "Reserve "@ + money_text(snapshot.maintenance_reserve.cents as int)
            &&& money[3][0].0 == "Committed "@ + money_text(
                snapshot.committed_investment.cents as int,
            )
            &&& slots[0][0].0 == decimal(snapshot.reserved_construction as nat) + " / "@ + decimal(
                snapshot.construction_capacity as nat,
            )
            &&& snapshot.free_construction > 0 ==> slots[2][0].0 == decimal(
                snapshot.free_construction as nat,
            ) + " slots free"@
            &&& snapshot.free_construction == 0 && snapshot.construction_capacity > 0
                ==> slots[2][0].0 == "CAPACITY FULL"@
            &&& snapshot.next_network_change is Some ==> slots[3][0].0 == "Next release "@
                + relative_text(snapshot.next_network_change->0.opens_at, now)
            &&& network[0][0].0 == decimal(snapshot.station_count as nat) + " stations"@
            &&& network[1][0].0 == decimal(snapshot.segment_count as nat) + " segments in service"@
            &&& network[3][0].0 == decimal(snapshot.programme.unfinished() as nat)
                + " projects in pipeline"@
        }),
{
}

/// The plain text of the Authority tells its figures in order.
pub proof fn the_text_tells_the_authority(state: GameState, now: UtcSeconds)
    ensures
        ({
            let lines = text_figures(state, now);
            let finances = state.region.rail_authority.finances;
            &&& lines[0] == state.region.rail_authority.name@
            &&& lines[1] == "Treasury: "@ + money_text(finances.treasury.cents as int)
            &&& finances.uncommitted() is Ok ==> lines[2] == "Available investment: "@ + money_text(
                finances.treasury.cents - finances.maintenance_reserve.cents
                    - finances.committed_investment.cents,
            )
            &&& lines[3] == "Maintenance reserve: "@ + money_text(
                finances.maintenance_reserve.cents as int,
            )
            &&& lines[4] == "Committed projects: "@ + money_text(
                finances.committed_investment.cents as int,
            )
            &&& finances.next_fiscal_period_at is Some ==> lines[5] == "Next fiscal period: +"@
                + money_text(finances.regional_public_allocation.cents as int) + " · "@
                + relative_text(finances.next_fiscal_period_at->0, now)
        }),
{
}

} // verus!
