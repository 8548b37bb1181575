//! The development programme: its pipeline and its table of projects.

use vstd::prelude::*;
use vstd::string::StringExecFns;

use super::analytics::{stage_of, ProgrammeCounts, ProgrammeStage};
use super::format::{next_text, project_next, project_scope, scope_text, ProjectOutlook};
use super::order::{is_order, ordered_project_indices, programme_order};
use crate::model::project::{
    InfrastructureProject, InfrastructureProjectFunding, InfrastructureProjectStatus,
    InfrastructureProjectTimeline,
};
use crate::model::state::GameState;
use crate::model::units::UtcSeconds;
use crate::text::{
    decimal, decimal_text, pad_left, padded_left, repeat, repeated, zero_pad, zero_padded,
};
use crate::ui::calendar::{seconds_between, seconds_until};
use crate::ui::format::{money, money_text};
use crate::ui::style::{
    line_of, plain, row_views, CellView, Page, RowView, Style, StyledLine, TableRow, Tone,
};

verus! {

pub open spec fn stage_text(stage: ProgrammeStage) -> Seq<char> {
    match stage {
        ProgrammeStage::Planning => "PLANNING"@,
        ProgrammeStage::Funding => "FUNDING"@,
        ProgrammeStage::Queued => "QUEUED"@,
        ProgrammeStage::Building => "BUILDING"@,
        ProgrammeStage::Open => "OPEN"@,
        ProgrammeStage::Deferred => "HOLD"@,
        ProgrammeStage::Closed => "CLOSED"@,
    }
}

pub fn stage_label(stage: ProgrammeStage) -> (result: &'static str)
    ensures
        result@ == stage_text(stage),
{
    match stage {
        ProgrammeStage::Planning => "PLANNING",
        ProgrammeStage::Funding => "FUNDING",
        ProgrammeStage::Queued => "QUEUED",
        ProgrammeStage::Building => "BUILDING",
        ProgrammeStage::Open => "OPEN",
        ProgrammeStage::Deferred => "HOLD",
        ProgrammeStage::Closed => "CLOSED",
    }
}

pub open spec fn stage_tone(stage: ProgrammeStage) -> Style {
    match stage {
        ProgrammeStage::Open => plain(Tone::Success),
        ProgrammeStage::Funding
        | ProgrammeStage::Queued
        | ProgrammeStage::Building
        | ProgrammeStage::Deferred => plain(Tone::Warning),
        ProgrammeStage::Closed => plain(Tone::Error),
        ProgrammeStage::Planning => plain(Tone::PrimaryValue),
    }
}

pub fn stage_style(stage: ProgrammeStage) -> (result: Style)
    ensures
        result == stage_tone(stage),
{
    match stage {
        ProgrammeStage::Open => Style::plain(Tone::Success),
        ProgrammeStage::Funding
        | ProgrammeStage::Queued
        | ProgrammeStage::Building
        | ProgrammeStage::Deferred => Style::plain(Tone::Warning),
        ProgrammeStage::Closed => Style::plain(Tone::Error),
        ProgrammeStage::Planning => Style::plain(Tone::PrimaryValue),
    }
}

/// A stage and how many projects it holds.
pub open spec fn stage_count(label: Seq<char>, count: nat, stage: ProgrammeStage) -> (
    Seq<char>,
    Style,
) {
    (label + " "@ + decimal(count), stage_tone(stage).emboldened())
}

fn push_stage_count(line: &mut StyledLine, label: &str, count: usize, stage: ProgrammeStage)
    ensures
        final(line)@ == old(line)@.push(stage_count(label@, count as nat, stage)),
{
    let number = decimal_text(count as u64);
    let text = label.to_owned().concat(" ").concat(number.as_str());
    line.push(text.as_str(), stage_style(stage).bold());
}

pub open spec fn stage_arrow() -> (Seq<char>, Style) {
    ("  →  "@, plain(Tone::Secondary))
}

/// The stages from planning to opening with their counts, and what is on hold.
pub open spec fn pipeline_line(counts: ProgrammeCounts) -> Seq<(Seq<char>, Style)> {
    let lifecycle = seq![
        stage_count("PLANNING"@, counts.planning as nat, ProgrammeStage::Planning),
        stage_arrow(),
        stage_count("FUNDING"@, counts.funding as nat, ProgrammeStage::Funding),
        stage_arrow(),
        stage_count("QUEUED"@, counts.queued as nat, ProgrammeStage::Queued),
        stage_arrow(),
        stage_count("BUILDING"@, counts.building as nat, ProgrammeStage::Building),
        stage_arrow(),
        stage_count("OPEN"@, counts.open as nat, ProgrammeStage::Open),
    ];
    if counts.deferred > 0 {
        lifecycle.push(("   ·   "@, plain(Tone::Secondary))).push(
            stage_count("HOLD"@, counts.deferred as nat, ProgrammeStage::Deferred),
        )
    } else {
        lifecycle
    }
}

pub fn programme_pipeline(counts: ProgrammeCounts) -> (result: Page)
    ensures
        result@ == seq![
            line_of("DEVELOPMENT PIPELINE"@, plain(Tone::TableHeader)),
            pipeline_line(counts),
        ],
{
    let arrow = Style::plain(Tone::Secondary);
    let mut line = StyledLine::new();
    push_stage_count(&mut line, "PLANNING", counts.planning, ProgrammeStage::Planning);
    line.push("  →  ", arrow);
    push_stage_count(&mut line, "FUNDING", counts.funding, ProgrammeStage::Funding);
    line.push("  →  ", arrow);
    push_stage_count(&mut line, "QUEUED", counts.queued, ProgrammeStage::Queued);
    line.push("  →  ", arrow);
    push_stage_count(&mut line, "BUILDING", counts.building, ProgrammeStage::Building);
    line.push("  →  ", arrow);
    push_stage_count(&mut line, "OPEN", counts.open, ProgrammeStage::Open);
    if counts.deferred > 0 {
        line.push("   ·   ", arrow);
        push_stage_count(&mut line, "HOLD", counts.deferred, ProgrammeStage::Deferred);
    }
    assert(line@ =~= pipeline_line(counts));
    let mut page = Page::new();
    page.push_styled("DEVELOPMENT PIPELINE", Style::plain(Tone::TableHeader));
    page.push(line);
    page
}

pub open spec fn positive(value: int) -> int {
    if value > 0 {
        value
    } else {
        0
    }
}

/// A part of a whole in whole percent, rounded down and never more than the whole.
pub open spec fn share(part: int, whole: int) -> int {
    if part * 100 / whole > 100 {
        100
    } else {
        part * 100 / whole
    }
}

fn share_percent(part: u64, whole: u64) -> (result: u8)
    requires
        whole > 0,
    ensures
        result == share(part as int, whole as int),
        result <= 100,
{
    let quotient: u128 = part as u128 * 100 / whole as u128;
    if quotient > 100 {
        100
    } else {
        quotient as u8
    }
}

/// The raised share of a project's cost.
pub open spec fn funded_percent(funding: InfrastructureProjectFunding) -> int {
    let raised = match funding.funded() {
        Ok(total) => positive(total.cents as int),
        Err(_) => 0,
    };
    if funding.estimated_cost.cents <= 0 {
        0
    } else {
        share(raised, funding.estimated_cost.cents as int)
    }
}

pub fn funding_percent(funding: &InfrastructureProjectFunding) -> (result: u8)
    ensures
        result == funded_percent(*funding),
        result <= 100,
{
    if funding.estimated_cost.cents <= 0 {
        return 0;
    }
    let raised: u64 = match funding.total_funded() {
        Ok(total) => if total.cents > 0 {
            total.cents as u64
        } else {
            0
        },
        Err(_) => 0,
    };
    share_percent(raised, funding.estimated_cost.cents as u64)
}

/// The elapsed share of a construction time, and the seconds that are left of it.
pub open spec fn built_percent(started: UtcSeconds, completion: UtcSeconds, now: UtcSeconds) -> int {
    let duration = positive(seconds_until(completion, started));
    let elapsed = positive(seconds_until(now, started));
    if duration == 0 {
        100
    } else {
        share(
            if elapsed < duration {
                elapsed
            } else {
                duration
            },
            duration,
        )
    }
}

fn positive_seconds(time: UtcSeconds, from: UtcSeconds) -> (result: u64)
    ensures
        result == positive(seconds_until(time, from)),
{
    let seconds: i64 = seconds_between(time, from);
    if seconds > 0 {
        seconds as u64
    } else {
        0
    }
}

fn construction_percent(started: UtcSeconds, completion: UtcSeconds, now: UtcSeconds) -> (result:
    u8)
    ensures
        result == built_percent(started, completion, now),
        result <= 100,
{
    let duration: u64 = positive_seconds(completion, started);
    let elapsed: u64 = positive_seconds(now, started);
    if duration == 0 {
        return 100;
    }
    share_percent(
        if elapsed < duration {
            elapsed
        } else {
            duration
        },
        duration,
    )
}

/// How far construction is and what is left of it, once it started and its end is planned.
pub open spec fn works(timeline: InfrastructureProjectTimeline, now: UtcSeconds) -> Option<
    (int, int),
> {
    match (timeline.construction_started_at, timeline.planned_completion_at) {
        (Some(started), Some(completion)) => Some(
            (built_percent(started, completion, now), positive(seconds_until(completion, now))),
        ),
        _ => None,
    }
}

pub fn construction_progress(timeline: &InfrastructureProjectTimeline, now: UtcSeconds) -> (result:
    Option<(u8, u64)>)
    ensures
        match result {
            Some((percent, remaining)) => works(*timeline, now) == Some(
                (percent as int, remaining as int),
            ) && percent <= 100,
            None => works(*timeline, now) is None,
        },
{
    match timeline.construction_started_at {
        Some(started) => match timeline.planned_completion_at {
            Some(completion) => Some(
                (
                    construction_percent(started, completion, now),
                    positive_seconds(completion, now),
                ),
            ),
            None => None,
        },
        None => None,
    }
}

/// A bar of six blocks and the percentage.
pub open spec fn bar_text(percent: u8) -> Seq<char> {
    let filled = (percent * 6 / 100) as nat;
    let empty = if filled < 6 {
        (6 - filled) as nat
    } else {
        0
    };
    repeated('█', filled) + repeated('░', empty) + " "@ + padded_left(decimal(percent as nat), 3, ' ')
        + "%"@
}

pub fn progress_bar(percent: u8) -> (result: String)
    ensures
        result@ == bar_text(percent),
{
    let filled: usize = percent as usize * 6 / 100;
    let empty: usize = if filled < 6 {
        6 - filled
    } else {
        0
    };
    let blank = repeat('░', empty);
    let number = decimal_text(percent as u64);
    let padded = pad_left(number.as_str(), 3, ' ');
    repeat('█', filled).concat(blank.as_str()).concat(" ").concat(padded.as_str()).concat("%")
}

/// How far a project is.
pub open spec fn progress_text(project: InfrastructureProject, now: UtcSeconds) -> Seq<char> {
    let timeline = project.timeline;
    match project.status {
        InfrastructureProjectStatus::Requested => "Awaiting review"@,
        InfrastructureProjectStatus::UnderReview => "In review"@,
        InfrastructureProjectStatus::Proposed => "Proposal"@,
        InfrastructureProjectStatus::Approved => "Approved"@,
        InfrastructureProjectStatus::Deferred => "On hold"@,
        InfrastructureProjectStatus::Rejected => "Rejected"@,
        InfrastructureProjectStatus::Funding => if project.funding.estimated_cost.cents <= 0 {
            "Funding pending"@
        } else {
            bar_text(funded_percent(project.funding) as u8)
        },
        InfrastructureProjectStatus::Scheduled => "Ready to build"@,
        InfrastructureProjectStatus::Construction => match timeline.construction_started_at {
            None => "Mobilising"@,
            Some(started) => match timeline.planned_completion_at {
                None => "In progress"@,
                Some(completion) => bar_text(built_percent(started, completion, now) as u8),
            },
        },
        InfrastructureProjectStatus::Open => "Complete"@,
        InfrastructureProjectStatus::Cancelled => "Cancelled"@,
    }
}

pub fn stage_progress(project: &InfrastructureProject, now: UtcSeconds) -> (result: String)
    ensures
        result@ == progress_text(*project, now),
{
    match project.status {
        InfrastructureProjectStatus::Requested => "Awaiting review".to_owned(),
        InfrastructureProjectStatus::UnderReview => "In review".to_owned(),
        InfrastructureProjectStatus::Proposed => "Proposal".to_owned(),
        InfrastructureProjectStatus::Approved => "Approved".to_owned(),
        InfrastructureProjectStatus::Deferred => "On hold".to_owned(),
        InfrastructureProjectStatus::Rejected => "Rejected".to_owned(),
        InfrastructureProjectStatus::Funding => if project.funding.estimated_cost.cents <= 0 {
            "Funding pending".to_owned()
        } else {
            progress_bar(funding_percent(&project.funding))
        },
        InfrastructureProjectStatus::Scheduled => "Ready to build".to_owned(),
        InfrastructureProjectStatus::Construction => match project.timeline.construction_started_at {
            None => "Mobilising".to_owned(),
            Some(started) => match project.timeline.planned_completion_at {
                None => "In progress".to_owned(),
                Some(completion) => progress_bar(construction_percent(started, completion, now)),
            },
        },
        InfrastructureProjectStatus::Open => "Complete".to_owned(),
        InfrastructureProjectStatus::Cancelled => "Cancelled".to_owned(),
    }
}

/// What happens next with a project of the table: nothing with history.
pub open spec fn upcoming_text(
    state: GameState,
    project: InfrastructureProject,
    outlook: ProjectOutlook,
    now: UtcSeconds,
) -> Seq<char> {
    match project.status {
        InfrastructureProjectStatus::Open
        | InfrastructureProjectStatus::Rejected
        | InfrastructureProjectStatus::Cancelled => "—"@,
        _ => next_text(state.rules.authority, project, outlook, now),
    }
}

pub fn programme_next(
    state: &GameState,
    project: &InfrastructureProject,
    outlook: &ProjectOutlook,
    now: UtcSeconds,
) -> (result: String)
    ensures
        result@ == upcoming_text(*state, *project, *outlook, now),
{
    match project.status {
        InfrastructureProjectStatus::Open
        | InfrastructureProjectStatus::Rejected
        | InfrastructureProjectStatus::Cancelled => "—".to_owned(),
        _ => project_next(state, project, outlook, now),
    }
}

/// The cells of a project.
pub open spec fn project_cells(
    state: GameState,
    outlooks: Seq<ProjectOutlook>,
    now: UtcSeconds,
    place: int,
    compact: bool,
) -> Seq<CellView> {
    let project = state.region.rail_authority.infrastructure_projects@[place];
    let stage = stage_of(project.status);
    let number = (zero_padded((place + 1) as nat, 2), plain(Tone::Plain), false);
    let name = (scope_text(state.region, project.kind), plain(Tone::Plain), false);
    let label = (stage_text(stage), stage_tone(stage), false);
    let progress = (progress_text(project, now), plain(Tone::Plain), false);
    if compact {
        seq![number, name, label, progress]
    } else {
        seq![
            number,
            label,
            name,
            (
                money_text(project.funding.estimated_cost.cents as int),
                plain(Tone::Plain),
                true,
            ),
            progress,
            (upcoming_text(state, project, outlooks[place], now), plain(Tone::Plain), false),
        ]
    }
}

fn project_row(
    state: &GameState,
    outlooks: &Vec<ProjectOutlook>,
    now: UtcSeconds,
    place: usize,
    compact: bool,
) -> (result: TableRow)
    requires
        place < state.region.rail_authority.infrastructure_projects@.len(),
        outlooks@.len() == state.region.rail_authority.infrastructure_projects@.len(),
    ensures
        result@ == (project_cells(*state, outlooks@, now, place as int, compact), false),
{
    let project = &state.region.rail_authority.infrastructure_projects[place];
    let stage = ProgrammeStage::from_status(project.status);
    let count: usize = outlooks.len();
    assert(place < count);
    let number = zero_pad(place as u64 + 1, 2);
    let scope = project_scope(&state.region, project);
    let progress = stage_progress(project, now);
    let normal = Style::plain(Tone::Plain);
    let mut row = TableRow::new();
    row.push(number.as_str(), normal);
    if compact {
        row.push(scope.as_str(), normal);
        row.push(stage_label(stage), stage_style(stage));
        row.push(progress.as_str(), normal);
    } else {
        let budget = money(project.funding.estimated_cost);
        let next = programme_next(state, project, &outlooks[place], now);
        row.push(stage_label(stage), stage_style(stage));
        row.push(scope.as_str(), normal);
        row.push_right(budget.as_str(), normal);
        row.push(progress.as_str(), normal);
        row.push(next.as_str(), normal);
    }
    row
}

/// Whether a project is history: opened or closed.
pub open spec fn historic(project: InfrastructureProject) -> bool {
    let stage = stage_of(project.status);
    stage is Open || stage is Closed
}

/// The row above the first one that holds history, where there is one.
pub open spec fn parting_row(
    projects: Seq<InfrastructureProject>,
    order: Seq<usize>,
    from: int,
) -> Option<int>
    decreases order.len() - from,
{
    if from < 0 || from >= order.len() {
        None
    } else if historic(projects[order[from] as int]) {
        if from > 0 {
            Some(from - 1)
        } else {
            None
        }
    } else {
        parting_row(projects, order, from + 1)
    }
}

fn find_parting_row(projects: &Vec<InfrastructureProject>, order: &Vec<usize>) -> (result: Option<
    usize,
>)
    requires
        is_order(projects@, order@),
    ensures
        match result {
            Some(row) => row < order@.len() && parting_row(projects@, order@, 0) == Some(
                row as int,
            ),
            None => parting_row(projects@, order@, 0) is None,
        },
{
    let mut row: usize = 0;
    while row < order.len()
        invariant
            row <= order@.len(),
            is_order(projects@, order@),
            parting_row(projects@, order@, 0) == parting_row(projects@, order@, row as int),
        decreases order.len() - row,
    {
        if matches!(
            ProgrammeStage::from_status(projects[order[row]].status),
            ProgrammeStage::Open | ProgrammeStage::Closed
        ) {
            return if row > 0 {
                Some(row - 1)
            } else {
                None
            };
        }
        row += 1;
    }
    None
}

/// The rows of the table in the order of the programme, parted above history.
pub open spec fn project_table(
    state: GameState,
    outlooks: Seq<ProjectOutlook>,
    now: UtcSeconds,
    compact: bool,
) -> Seq<RowView> {
    let projects = state.region.rail_authority.infrastructure_projects@;
    let order = programme_order(projects);
    Seq::new(
        order.len(),
        |i: int|
            (
                project_cells(state, outlooks, now, order[i] as int, compact),
                parting_row(projects, order, 0) == Some(i),
            ),
    )
}

pub fn programme_rows(
    state: &GameState,
    outlooks: &Vec<ProjectOutlook>,
    now: UtcSeconds,
    compact: bool,
) -> (result: Vec<TableRow>)
    requires
        outlooks@.len() == state.region.rail_authority.infrastructure_projects@.len(),
    ensures
        row_views(result@) == project_table(*state, outlooks@, now, compact),
{
    let projects = &state.region.rail_authority.infrastructure_projects;
    let order = ordered_project_indices(projects);
    let parting = find_parting_row(projects, &order);
    let ghost table = project_table(*state, outlooks@, now, compact);
    let mut rows: Vec<TableRow> = Vec::new();
    let mut i: usize = 0;
    while i < order.len()
        invariant
            i <= order@.len(),
            rows@.len() == i,
            *projects == state.region.rail_authority.infrastructure_projects,
            is_order(projects@, order@),
            order@ == programme_order(projects@),
            outlooks@.len() == projects@.len(),
            table == project_table(*state, outlooks@, now, compact),
            match parting {
                Some(row) => parting_row(projects@, order@, 0) == Some(row as int),
                None => parting_row(projects@, order@, 0) is None,
            },
            forall|j: int| 0 <= j < i ==> (#[trigger] rows@[j])@ == table[j],
        decreases order.len() - i,
    {
        let mut row = project_row(state, outlooks, now, order[i], compact);
        row.part_below(
            match parting {
                Some(at) => at == i,
                None => false,
            },
        );
        rows.push(row);
        i += 1;
    }
    assert(row_views(rows@) =~= table);
    rows
}

/// The rows that one page of the table shows in an area: its border and header take three,
/// and the parting one more.
pub open spec fn page_rows(height: u16, projects: Seq<InfrastructureProject>) -> int {
    let inner = positive(height - 3);
    let parted = parting_row(projects, programme_order(projects), 0) is Some;
    let rows = positive(
        if parted {
            inner - 1
        } else {
            inner
        },
    );
    if rows == 0 {
        1
    } else {
        rows
    }
}

pub fn programme_page_size(height: u16, projects: &Vec<InfrastructureProject>) -> (result: usize)
    ensures
        result == page_rows(height, projects@),
{
    let order = ordered_project_indices(projects);
    let parted = find_parting_row(projects, &order).is_some();
    let inner: usize = if height > 3 {
        height as usize - 3
    } else {
        0
    };
    let rows: usize = if parted && inner > 0 {
        inner - 1
    } else {
        inner
    };
    if rows == 0 {
        1
    } else {
        rows
    }
}

} // verus!
