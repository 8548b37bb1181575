//! What the pages of a project say, whatever the project is.

use vstd::prelude::*;

use super::analytics::{stage_of, AuthorityDashboardSnapshot, NextNetworkChange};
use super::contribution::{review_page, ContributionReview};
use super::dashboard::{
    change_line, changing_project, footprint_text, layout_of, overview_page, plain_status,
    table_height, text_row,
};
use super::format::{
    deferred_text, heading_text, next_text, operator_days, operator_percent, percent_text,
    scope_text, status_text, ProjectOutlook, ReviewScore,
};
use super::order::programme_order;
use super::programme::{page_rows, parting_row, stage_text};
use super::project::{
    budget_line, contribution_room, decision_page, detail_height, development_case, focus_page,
    header_page, involvement_lines, milestone_line, progress_spans, review_lines, scope_lines,
    track_metres,
};
use super::selection::{chosen_row, ongoing_row, row_of, synchronized, ProjectSelection};
use super::workspace::{pressed, AuthorityOutcome, AuthorityWorkspace};
use crate::model::ids::InfrastructureProjectId;
use crate::model::project::{
    InfrastructureProject, InfrastructureProjectFunding, InfrastructureProjectKind,
    InfrastructureProjectStatus, InfrastructureProjectTimeline,
};
use crate::model::state::{GameState, Region};
use crate::model::units::UtcSeconds;
use crate::text::{decimal, padded_right, repeated, zero_padded};
use crate::ui::calendar::relative_text;
use crate::ui::format::{distance_text, money_text};
use crate::ui::geometry::Rect;
use crate::ui::keys::KeyCode;
use crate::ui::places::settlement_label;
use crate::ui::style::{plain, Tone};

verus! {

/// A project's header tells its number, what it is, its stage and its next step.
pub proof fn headers_tell_stage_and_next_step(
    state: GameState,
    place: int,
    project: InfrastructureProject,
    outlook: ProjectOutlook,
    now: UtcSeconds,
)
    requires
        0 <= place,
    ensures
        ({
            let page = header_page(state, place, project, outlook, now);
            &&& page.len() == 2
            &&& page[0][0].0 == "PROJECT "@ + zero_padded((place + 1) as nat, 2) + " · "@
                + heading_text(state.region, project.kind)
            &&& page[1][0].0 == stage_text(stage_of(project.status))
            &&& page[1][2].0 == next_text(state.rules.authority, project, outlook, now)
        }),
        budget_line(project.funding)[1].0 == money_text(project.funding.estimated_cost.cents as int),
        budget_line(project.funding)[3].0 == money_text(
            project.funding.operator_contributed.cents as int,
        ),
{
}

/// A project that is still to be decided, or was turned down, is shown with the decision.
#[verifier::spinoff_prover]
pub proof fn undecided_projects_show_the_decision(
    state: GameState,
    project: InfrastructureProject,
    outlook: ProjectOutlook,
    now: UtcSeconds,
)
    requires
        project.status is Requested || project.status is UnderReview || project.status is Proposed
            || project.status is Approved || project.status is Deferred || project.status
            is Rejected,
    ensures
        ({
            let page = focus_page(state, project, outlook, now);
            &&& page == decision_page(state, project, outlook, now)
            &&& page[1][1].0 == status_text(project.status)
            &&& page[2][1].0 == next_text(state.rules.authority, project, outlook, now)
        }),
{
}

/// A project that is being funded is shown with its money: the budget, what the Authority gives
/// and what neither side has paid yet.
#[verifier::spinoff_prover]
pub proof fn funded_projects_show_the_money(
    state: GameState,
    project: InfrastructureProject,
    outlook: ProjectOutlook,
    now: UtcSeconds,
)
    requires
        project.status is Funding,
    ensures
        ({
            let page = focus_page(state, project, outlook, now);
            &&& page[2][1].0 == money_text(project.funding.estimated_cost.cents as int)
            &&& page[3][1].0 == money_text(project.funding.authority_committed.cents as int)
            &&& project.funding.gap() is Ok ==> page[4][1].0 == money_text(
                project.funding.estimated_cost.cents - project.funding.authority_committed.cents
                    - project.funding.operator_contributed.cents,
            )
        }),
{
}

/// A deferred project tells what it waits for, and a rejected one that nothing follows.
pub proof fn decisions_tell_what_follows(
    state: GameState,
    project: InfrastructureProject,
    outlook: ProjectOutlook,
    now: UtcSeconds,
)
    requires
        outlook.review is None,
    ensures
        ({
            let page = decision_page(state, project, outlook, now);
            &&& project.status is Deferred ==> page[3][1].0 == deferred_text(
                state.rules.authority,
                project,
                outlook,
                now,
            )
            &&& project.status is Rejected ==> page[3][1].0 == "Not automatic"@
            &&& project.status is Requested && project.timeline.reconsideration_count > 0
                ==> page[3][1].0 == decimal(project.timeline.reconsideration_count as nat)
                + " time(s)"@
            &&& project.status is Requested && project.timeline.reconsideration_count == 0
                ==> page.len() == 3
        }),
{
}

/// A case is shown as won exactly from the approval threshold on.
pub proof fn cases_are_won_from_the_threshold(score: ReviewScore)
    ensures
        review_lines(score).len() == 4,
        score.total >= score.approval_threshold ==> review_lines(score)[0][1].1 == plain(
            Tone::Success,
        ),
        score.total < score.approval_threshold ==> review_lines(score)[0][1].1 == plain(
            Tone::Warning,
        ),
{
}

/// Milestones are told in the order of a project's life, each from its own time, and the
/// opening from the completion once there is one.
pub proof fn milestones_are_told_in_order(timeline: InfrastructureProjectTimeline, now: UtcSeconds)
    requires
        timeline.approved_at is Some,
        timeline.funding_completed_at is Some,
        timeline.construction_started_at is Some,
        timeline.planned_completion_at is Some,
    ensures
        ({
            let line = milestone_line(timeline, now);
            &&& line.len() == 15
            &&& line[1].0 == "Requested"@ + " "@ && line[2].0 == relative_text(
                timeline.requested_at,
                now,
            )
            &&& line[4].0 == "Approved"@ + " "@ && line[5].0 == relative_text(
                timeline.approved_at->0,
                now,
            )
            &&& line[7].0 == "Funded"@ + " "@ && line[8].0 == relative_text(
                timeline.funding_completed_at->0,
                now,
            )
            &&& line[10].0 == "Build"@ + " "@ && line[11].0 == relative_text(
                timeline.construction_started_at->0,
                now,
            )
            &&& line[13].0 == "Open"@ + " "@
            &&& timeline.completed_at is Some ==> line[14].0 == relative_text(
                timeline.completed_at->0,
                now,
            )
            &&& timeline.completed_at is None ==> line[14].0 == relative_text(
                timeline.planned_completion_at->0,
                now,
            )
        }),
{
}

/// A progress line fills one of ten cells for each tenth, to the nearest, and tells the percent.
pub proof fn progress_has_ten_cells(label: Seq<char>, percent: u8, filled: int)
    requires
        percent <= 100,
        100 * filled <= 10 * percent + 50 < 100 * (filled + 1),
    ensures
        progress_spans(label, percent)[1].0 == repeated('█', filled as nat),
        progress_spans(label, percent)[2].0 == repeated('░', (10 - filled) as nat),
        progress_spans(label, percent)[3].0 == "  "@ + decimal(percent as nat) + "%"@,
{
    assert((percent * 10 + 50) / 100 == filled);
}

/// The operator's part is told as it is: what was given, what may still be given while in
/// funding, and the benefit that follows.
pub proof fn involvement_tells_the_operators_part(
    status: InfrastructureProjectStatus,
    funding: InfrastructureProjectFunding,
    now: UtcSeconds,
    room: int,
)
    requires
        contribution_room(funding) == Some(room),
    ensures
        ({
            let lines = involvement_lines(status, funding, now);
            &&& lines[2][1].0 == money_text(funding.operator_contributed.cents as int)
            &&& status is Funding && room > 0 ==> lines[3][1].0 == money_text(room)
            &&& status is Funding && room == 0 ==> lines[3][1].0 == "Reached"@
            &&& !(status is Funding) ==> lines.len() == 4
            &&& funding.access_fee_discount is None && funding.operator_contributed.cents > 0
                ==> lines.last()[1].0 == operator_percent() + " · "@ + operator_days()
                + " fiscal days after opening"@
            &&& funding.access_fee_discount is None && funding.operator_contributed.cents <= 0
                && !(status is Funding) ==> lines.last()[1].0 == "Normal rates apply"@
        }),
        funding.operator_room() is Ok && funding.operator_cap()
            >= funding.operator_contributed.cents ==> room + funding.operator_contributed.cents
            == funding.operator_cap(),
        room >= 0,
{
}

/// A contributing operator's discount is half the fee for seven days.
pub proof fn the_operators_discount_is_half()
    ensures
        operator_percent() == decimal(50) + "%"@,
        operator_days() == decimal(7),
{
}

/// A new line is asked for by the place it reaches first, and tells its track and what it can
/// carry.
pub proof fn new_lines_tell_who_asked(
    region: Region,
    kind: InfrastructureProjectKind,
    outlook: ProjectOutlook,
)
    ensures
        kind matches InfrastructureProjectKind::NewLine { planned_stations, .. } ==> (
        planned_stations@.len() > 0 ==> development_case(region, kind, outlook)[1][1].0
            == settlement_label(region.settlements@, planned_stations@[0].settlement_id)
            + " Council"@),
        kind matches InfrastructureProjectKind::NewLine { planned_stations, .. } ==> (
        planned_stations@.len() > 0 && outlook.local_adoption is Some ==> development_case(
            region,
            kind,
            outlook,
        )[2][1].0 == percent_text(outlook.local_adoption->0) + " · "@
            + super::format::maturity_text(outlook.local_adoption->0)),
        kind matches InfrastructureProjectKind::SpeedUpgrade { rail_line_ids, target_speed_limit }
            ==> scope_lines(region, kind)[0][1].0 == decimal(rail_line_ids@.len())
            + " segment(s) → "@ + decimal(target_speed_limit.kilometres_per_hour as nat)
            + " km/h"@,
        kind matches InfrastructureProjectKind::DoubleTracking {
            rail_line_ids,
            target_track_count,
        } ==> scope_lines(region, kind)[0][1].0 == decimal(rail_line_ids@.len())
            + " segment(s) → "@ + decimal(target_track_count.tracks as nat) + " tracks"@,
{
}

/// The next change names the project that opens and when, and is quiet where none does.
pub proof fn the_next_change_names_its_project(
    state: GameState,
    change: NextNetworkChange,
    now: UtcSeconds,
    label: Seq<char>,
    quiet: Seq<char>,
    joint: Seq<char>,
)
    ensures
        change_line(state, None, now, label, quiet, joint)[1].0 == quiet,
        changing_project(state, change) matches Some(project) ==> {
            let line = change_line(state, Some(change), now, label, quiet, joint);
            &&& line[1].0 == heading_text(state.region, project.kind)
            &&& line[2].0 == joint + relative_text(change.opens_at, now)
        },
        changing_project(state, change) matches Some(project) ==> project.id == change.project_id,
{
    let projects = state.region.rail_authority.infrastructure_projects@;
    if exists|i: int| 0 <= i < projects.len() && (#[trigger] projects[i]).id == change.project_id {
        let k = choose|k: int|
            0 <= k < projects.len() && (#[trigger] projects[k]).id == change.project_id;
        let first = lemma_first_project(projects, change.project_id, k);
        assert(projects[first].id == change.project_id);
    }
}

proof fn lemma_first_project(
    projects: Seq<InfrastructureProject>,
    id: InfrastructureProjectId,
    k: int,
) -> (first: int)
    requires
        0 <= k < projects.len(),
        projects[k].id == id,
    ensures
        0 <= first < projects.len(),
        projects[first].id == id,
        forall|j: int| 0 <= j < first ==> (#[trigger] projects[j]).id != id,
    decreases k,
{
    if exists|j: int| 0 <= j < k && (#[trigger] projects[j]).id == id {
        let j = choose|j: int| 0 <= j < k && (#[trigger] projects[j]).id == id;
        lemma_first_project(projects, id, j)
    } else {
        k
    }
}

/// The overview tells how much is building, in funding and open, and is quiet where nothing is
/// on its way.
pub proof fn the_overview_tells_the_programme(
    state: GameState,
    snapshot: AuthorityDashboardSnapshot,
    now: UtcSeconds,
)
    ensures
        ({
            let page = overview_page(state, snapshot, now);
            &&& snapshot.programme.unfinished() == 0 ==> page[0][0].0 == "PROGRAMME QUIET"@
            &&& snapshot.programme.unfinished() != 0 ==> page[0][0].0 == "PROGRAMME ACTIVE"@
            &&& page[0][1].0 == " · "@ + decimal(snapshot.active_construction as nat)
                + " building · "@ + decimal(snapshot.programme.funding as nat) + " funding · "@
                + decimal(snapshot.programme.open as nat) + " open"@
        }),
{
}

/// A row of the plain text tells number, status, scope and next step.
pub proof fn text_rows_tell_their_project(
    state: GameState,
    outlooks: Seq<ProjectOutlook>,
    now: UtcSeconds,
    place: int,
)
    ensures
        ({
            let project = state.region.rail_authority.infrastructure_projects@[place];
            &&& text_row(state, outlooks, now, place) == zero_padded((place + 1) as nat, 2) + "  "@
                + padded_right(plain_status(project.status), 14) + "  "@ + scope_text(
                state.region,
                project.kind,
            ) + "  "@ + next_text(state.rules.authority, project, outlooks[place], now)
            &&& project.status is Requested ==> plain_status(project.status) == "Council request"@
            &&& !(project.status is Requested) ==> plain_status(project.status) == status_text(
                project.status,
            )
        }),
{
}

/// A review of a contribution tells the funds, the amount and what was given before.
pub proof fn reviews_tell_the_amount(
    state: GameState,
    project: InfrastructureProject,
    review: ContributionReview,
)
    ensures
        ({
            let page = review_page(state, project, review);
            &&& page[0][1].0 == scope_text(state.region, project.kind)
            &&& page[2][1].0 == money_text(state.player_company.funds.cents as int)
            &&& page[3][1].0 == money_text(review.amount.cents as int)
            &&& page[4][1].0 == money_text(project.funding.operator_contributed.cents as int)
        }),
{
}

/// A line parts what is on its way from what is history, in front of the first historic row.
pub proof fn history_is_parted_from_delivery(
    projects: Seq<InfrastructureProject>,
    order: Seq<usize>,
    from: int,
    row: int,
)
    requires
        0 <= from <= row < order.len(),
        projects[order[row] as int].status is Open || projects[order[row] as int].status
            is Rejected || projects[order[row] as int].status is Cancelled,
        forall|i: int|
            from <= i < row ==> !(projects[#[trigger] order[i] as int].status is Open
                || projects[order[i] as int].status is Rejected
                || projects[order[i] as int].status is Cancelled),
    ensures
        row > 0 ==> parting_row(projects, order, from) == Some(row - 1),
        row == 0 ==> parting_row(projects, order, from) is None,
    decreases row - from,
{
    if from < row {
        assert(!(projects[order[from] as int].status is Open));
        history_is_parted_from_delivery(projects, order, from + 1, row);
    }
}

/// A page of the programme has a row for each line between its frame, less one where history is
/// parted, and at least one.
pub proof fn pages_fill_their_frame(
    height: u16,
    projects: Seq<InfrastructureProject>,
    count: int,
    lines: int,
)
    ensures
        page_rows(height, projects) >= 1,
        height >= 5 && parting_row(projects, programme_order(projects), 0) is None ==> page_rows(
            height,
            projects,
        ) == height - 3,
        height >= 5 && parting_row(projects, programme_order(projects), 0) is Some ==> page_rows(
            height,
            projects,
        ) == height - 4,
        3 <= count <= 7 ==> table_height(count) == count + 3,
        6 <= table_height(count) <= 10,
        7 <= lines <= 13 ==> detail_height(Some(lines)) == lines + 7,
        14 <= detail_height(Some(lines)) <= 20,
{
}

proof fn lemma_ongoing(
    projects: Seq<InfrastructureProject>,
    order: Seq<usize>,
    from: int,
    row: int,
)
    requires
        0 <= from <= row < order.len(),
        !(projects[order[row] as int].status is Open || projects[order[row] as int].status
            is Rejected || projects[order[row] as int].status is Cancelled),
        forall|i: int|
            from <= i < row ==> projects[#[trigger] order[i] as int].status is Open
                || projects[order[i] as int].status is Rejected || projects[order[i] as int].status
                is Cancelled,
    ensures
        ongoing_row(projects, order, from) == Some(row),
    decreases row - from,
{
    if from < row {
        assert(projects[order[from] as int].status is Open || projects[order[from] as int].status
            is Rejected || projects[order[from] as int].status is Cancelled);
        lemma_ongoing(projects, order, from + 1, row);
    }
}

/// A fresh selection falls on the first project that is still on its way, and keys move it as
/// they move any selection.
pub proof fn selections_start_with_what_is_on_its_way(
    selection: ProjectSelection,
    projects: Seq<InfrastructureProject>,
    row: int,
    key: KeyCode,
)
    requires
        selection.focus is None,
        selection.table.selected is None,
        0 <= row < programme_order(projects).len(),
        projects.len() <= usize::MAX,
        !(projects[programme_order(projects)[row] as int].status is Open
            || projects[programme_order(projects)[row] as int].status is Rejected
            || projects[programme_order(projects)[row] as int].status is Cancelled),
        forall|i: int|
            0 <= i < row ==> projects[#[trigger] programme_order(projects)[i] as int].status is Open
                || projects[programme_order(projects)[i] as int].status is Rejected
                || projects[programme_order(projects)[i] as int].status is Cancelled,
    ensures
        chosen_row(selection, projects) == Some(row),
        synchronized(selection, projects).focus == Some(
            projects[programme_order(projects)[row] as int].id,
        ),
{
    lemma_ongoing(projects, programme_order(projects), 0, row);
}

/// Confirming a review contributes just what was reviewed, leaving it contributes nothing, and
/// any other key changes nothing.
pub proof fn reviews_are_confirmed_or_left(
    workspace: AuthorityWorkspace,
    key: KeyCode,
    state: GameState,
)
    requires
        workspace.contribution_review is Some,
    ensures
        pressed(workspace, KeyCode::Enter, state).1 == AuthorityOutcome::Contribute(
            workspace.contribution_review->0.project_id,
            workspace.contribution_review->0.amount,
        ),
        pressed(workspace, KeyCode::Esc, state).0.contribution_review is None,
        pressed(workspace, KeyCode::Esc, state).1 is Notice,
        key != KeyCode::Enter && key != KeyCode::Esc ==> pressed(workspace, key, state) == (
            workspace,
            AuthorityOutcome::Continue,
        ),
{
}

/// A larger area never gets a smaller layout, and the widest needs a hundred columns and
/// twenty-four rows.
pub proof fn larger_areas_show_more(area: Rect, larger: Rect)
    requires
        area.width <= larger.width,
        area.height <= larger.height,
    ensures
        layout_of(area) is Wide ==> layout_of(larger) is Wide,
        layout_of(area) is Compact ==> !(layout_of(larger) is Tiny),
        layout_of(area) is Wide <==> area.width >= 100 && area.height >= 24,
        layout_of(area) is Tiny <==> area.width < 72 || area.height < 16,
{
}

/// A project's footprint tells what it adds: stations and track, or what is being upgraded.
pub proof fn footprints_tell_what_is_added(kind: InfrastructureProjectKind)
    ensures
        kind matches InfrastructureProjectKind::NewLine { planned_stations, planned_lines } ==> (
        track_metres(planned_lines@, planned_lines@.len() as int) <= u64::MAX ==> footprint_text(
            kind,
        ) == "+"@ + decimal(planned_stations@.len()) + (if planned_stations@.len() == 1 {
            " station · +"@
        } else {
            " stations · +"@
        }) + distance_text(track_metres(planned_lines@, planned_lines@.len() as int) as nat)
            + " underway"@),
        kind matches InfrastructureProjectKind::Renewal { rail_line_ids } ==> footprint_text(kind)
            == decimal(rail_line_ids@.len()) + " segment(s) being upgraded"@,
        kind matches InfrastructureProjectKind::StationUpgrade { rail_station_ids }
            ==> footprint_text(kind) == decimal(rail_station_ids@.len())
            + " station(s) being upgraded"@,
{
}

/// A selected project is followed to its row, wherever the order puts it.
pub proof fn projects_are_followed(
    selection: ProjectSelection,
    projects: Seq<InfrastructureProject>,
    row: int,
)
    requires
        0 <= row < programme_order(projects).len() <= usize::MAX,
        selection.focus == Some(projects[programme_order(projects)[row] as int].id),
        forall|j: int|
            0 <= j < row ==> projects[#[trigger] programme_order(projects)[j] as int].id
                != projects[programme_order(projects)[row] as int].id,
    ensures
        chosen_row(selection, projects) == Some(row),
        synchronized(selection, projects).focus == selection.focus,
{
    lemma_row(projects, programme_order(projects), selection.focus->0, 0, row);
}

proof fn lemma_row(
    projects: Seq<InfrastructureProject>,
    order: Seq<usize>,
    id: InfrastructureProjectId,
    from: int,
    row: int,
)
    requires
        0 <= from <= row < order.len(),
        projects[order[row] as int].id == id,
        forall|j: int| from <= j < row ==> projects[#[trigger] order[j] as int].id != id,
    ensures
        row_of(projects, order, id, from) == Some(row),
    decreases row - from,
{
    if from < row {
        assert(projects[order[from] as int].id != id);
        lemma_row(projects, order, id, from + 1, row);
    }
}

} // verus!
