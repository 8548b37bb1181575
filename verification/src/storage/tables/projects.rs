//! Tables of the Rail Authority's Infrastructure Projects: one row per project, and the
//! entries that name what each project builds or improves.

use vstd::prelude::*;

use super::targets::{flat, has_items, items_of, others_of, spread, take_items};
use super::world::{
    lemma_line_of, line_fault, line_of, line_text_fault, line_written, read_line, read_line_words,
    read_station, station_fault, station_of, station_written, write_line, write_station, LineFields,
    LineRow, StationRow,
};
use crate::model::ids::{spells, uuid_of_text, InfrastructureProjectId, RailLineId, RailStationId};
use crate::model::network::{RailLine, RailStation};
use crate::model::project::{
    InfrastructureAccessDiscount, InfrastructureProject, InfrastructureProjectFunding,
    InfrastructureProjectKind, InfrastructureProjectStatus, InfrastructureProjectTimeline,
};
use crate::model::units::{Money, SpeedKilometresPerHour, TrackCount, UtcSeconds};
use crate::storage::codec::{
    failed_row, invalid_value, optional_seconds, read_time, refused, row_fault, store_position,
    store_time, stored_position, undecoded, unloaded, value_fault, LoadError, RowError,
    SaveCodecError, DECODE_ROW,
};
use crate::text::same_text;

verus! {

/// A row of `infrastructure_projects`.
#[derive(Clone, Debug, PartialEq, Eq)]
pub struct ProjectRow {
    pub id: String,
    pub sequence: i64,
    pub kind: String,
    pub status: String,
    pub estimated_cost_cents: i64,
    pub authority_committed_cents: i64,
    pub operator_contributed_cents: i64,
    pub access_fee_discount_basis_points: i64,
    pub access_fee_discount_expires_at: Option<i64>,
    pub requested_at: i64,
    pub review_started_at: Option<i64>,
    pub proposed_at: Option<i64>,
    pub approved_at: Option<i64>,
    pub funding_completed_at: Option<i64>,
    pub scheduled_start_at: Option<i64>,
    pub construction_started_at: Option<i64>,
    pub planned_completion_at: Option<i64>,
    pub completed_at: Option<i64>,
    pub deferred_at: Option<i64>,
    pub cancelled_at: Option<i64>,
    pub reconsideration_count: i64,
    pub target_speed_limit_kmh: Option<i64>,
    pub target_track_count: Option<i64>,
}

/// A row of `infrastructure_project_rail_lines`.
#[derive(Clone, Debug, PartialEq, Eq)]
pub struct ProjectLineRow {
    pub project_id: String,
    pub sequence: i64,
    pub rail_line_id: String,
}

/// A row of `infrastructure_project_rail_stations`.
#[derive(Clone, Debug, PartialEq, Eq)]
pub struct ProjectStationRow {
    pub project_id: String,
    pub sequence: i64,
    pub rail_station_id: String,
}

/// A row of `infrastructure_project_planned_stations`.
#[derive(Clone, Debug, PartialEq, Eq)]
pub struct PlannedStationRow {
    pub project_id: String,
    pub station: StationRow,
}

/// A row of `infrastructure_project_planned_lines`.
#[derive(Clone, Debug, PartialEq, Eq)]
pub struct PlannedLineRow {
    pub project_id: String,
    pub line: LineRow,
}

/// The five project tables.
#[derive(Clone, Debug, PartialEq, Eq)]
pub struct ProjectRows {
    pub projects: Vec<ProjectRow>,
    pub rail_lines: Vec<ProjectLineRow>,
    pub rail_stations: Vec<ProjectStationRow>,
    pub planned_stations: Vec<PlannedStationRow>,
    pub planned_lines: Vec<PlannedLineRow>,
}

pub open spec fn status_text(status: InfrastructureProjectStatus) -> Seq<char> {
    match status {
        InfrastructureProjectStatus::Requested => "requested"@,
        InfrastructureProjectStatus::UnderReview => "under_review"@,
        InfrastructureProjectStatus::Proposed => "proposed"@,
        InfrastructureProjectStatus::Approved => "approved"@,
        InfrastructureProjectStatus::Deferred => "deferred"@,
        InfrastructureProjectStatus::Rejected => "rejected"@,
        InfrastructureProjectStatus::Funding => "funding"@,
        InfrastructureProjectStatus::Scheduled => "scheduled"@,
        InfrastructureProjectStatus::Construction => "construction"@,
        InfrastructureProjectStatus::Open => "open"@,
        InfrastructureProjectStatus::Cancelled => "cancelled"@,
    }
}

proof fn lemma_status_texts()
    ensures
        forall|a: InfrastructureProjectStatus, b: InfrastructureProjectStatus|
            #[trigger] status_text(a) == #[trigger] status_text(b) ==> a == b,
{
    reveal_strlit("requested");
    reveal_strlit("under_review");
    reveal_strlit("proposed");
    reveal_strlit("approved");
    reveal_strlit("deferred");
    reveal_strlit("rejected");
    reveal_strlit("funding");
    reveal_strlit("scheduled");
    reveal_strlit("construction");
    reveal_strlit("open");
    reveal_strlit("cancelled");
    assert("requested"@.len() == 9 && "requested"@[0] == 'r');
    assert("under_review"@.len() == 12 && "under_review"@[0] == 'u');
    assert("proposed"@.len() == 8 && "proposed"@[0] == 'p');
    assert("approved"@.len() == 8 && "approved"@[0] == 'a');
    assert("deferred"@.len() == 8 && "deferred"@[0] == 'd');
    assert("rejected"@.len() == 8 && "rejected"@[0] == 'r');
    assert("funding"@.len() == 7);
    assert("scheduled"@.len() == 9 && "scheduled"@[0] == 's');
    assert("construction"@.len() == 12 && "construction"@[0] == 'c');
    assert("open"@.len() == 4);
    assert("cancelled"@.len() == 9 && "cancelled"@[0] == 'c');
}

/// No two statuses are stored under one text.
pub proof fn lemma_status_injective(
    first: InfrastructureProjectStatus,
    second: InfrastructureProjectStatus,
)
    ensures
        status_text(first) == status_text(second) ==> first == second,
{
    lemma_status_texts();
}

pub open spec fn is_status(text: Seq<char>) -> bool {
    exists|status: InfrastructureProjectStatus| text == #[trigger] status_text(status)
}

fn read_status(text: &str) -> (result: Option<InfrastructureProjectStatus>)
    ensures
        match result {
            Some(status) => text@ == status_text(status),
            None => !is_status(text@),
        },
{
    if same_text(text, "requested") {
        return Some(InfrastructureProjectStatus::Requested);
    }
    if same_text(text, "under_review") {
        return Some(InfrastructureProjectStatus::UnderReview);
    }
    if same_text(text, "proposed") {
        return Some(InfrastructureProjectStatus::Proposed);
    }
    if same_text(text, "approved") {
        return Some(InfrastructureProjectStatus::Approved);
    }
    if same_text(text, "deferred") {
        return Some(InfrastructureProjectStatus::Deferred);
    }
    if same_text(text, "rejected") {
        return Some(InfrastructureProjectStatus::Rejected);
    }
    if same_text(text, "funding") {
        return Some(InfrastructureProjectStatus::Funding);
    }
    if same_text(text, "scheduled") {
        return Some(InfrastructureProjectStatus::Scheduled);
    }
    if same_text(text, "construction") {
        return Some(InfrastructureProjectStatus::Construction);
    }
    if same_text(text, "open") {
        return Some(InfrastructureProjectStatus::Open);
    }
    if same_text(text, "cancelled") {
        return Some(InfrastructureProjectStatus::Cancelled);
    }
    proof {
        assert forall|status: InfrastructureProjectStatus| text@ != #[trigger] status_text(
            status,
        ) by {
            match status {
                InfrastructureProjectStatus::Requested => {},
                _ => {},
            }
        }
    }
    None
}

pub open spec fn kind_text(kind: InfrastructureProjectKind) -> Seq<char> {
    match kind {
        InfrastructureProjectKind::NewLine { .. } => "new_line"@,
        InfrastructureProjectKind::SpeedUpgrade { .. } => "speed_upgrade"@,
        InfrastructureProjectKind::DoubleTracking { .. } => "double_tracking"@,
        InfrastructureProjectKind::Electrification { .. } => "electrification"@,
        InfrastructureProjectKind::Renewal { .. } => "renewal"@,
        InfrastructureProjectKind::StationUpgrade { .. } => "station_upgrade"@,
    }
}

proof fn lemma_kind_texts()
    ensures
        "new_line"@ != "speed_upgrade"@,
        "new_line"@ != "double_tracking"@,
        "new_line"@ != "electrification"@,
        "new_line"@ != "renewal"@,
        "new_line"@ != "station_upgrade"@,
        "speed_upgrade"@ != "double_tracking"@,
        "speed_upgrade"@ != "electrification"@,
        "speed_upgrade"@ != "renewal"@,
        "speed_upgrade"@ != "station_upgrade"@,
        "double_tracking"@ != "electrification"@,
        "double_tracking"@ != "renewal"@,
        "double_tracking"@ != "station_upgrade"@,
        "electrification"@ != "renewal"@,
        "electrification"@ != "station_upgrade"@,
        "renewal"@ != "station_upgrade"@,
{
    reveal_strlit("new_line");
    reveal_strlit("speed_upgrade");
    reveal_strlit("double_tracking");
    reveal_strlit("electrification");
    reveal_strlit("renewal");
    reveal_strlit("station_upgrade");
    assert("new_line"@.len() == 8);
    assert("speed_upgrade"@.len() == 13);
    assert("double_tracking"@.len() == 15 && "double_tracking"@[0] == 'd');
    assert("electrification"@.len() == 15 && "electrification"@[0] == 'e');
    assert("renewal"@.len() == 7);
    assert("station_upgrade"@.len() == 15 && "station_upgrade"@[0] == 's');
}

/// The Rail Lines that an upgrade names.
pub open spec fn named_lines(kind: InfrastructureProjectKind) -> Seq<RailLineId> {
    match kind {
        InfrastructureProjectKind::SpeedUpgrade { rail_line_ids, .. } => rail_line_ids@,
        InfrastructureProjectKind::DoubleTracking { rail_line_ids, .. } => rail_line_ids@,
        InfrastructureProjectKind::Electrification { rail_line_ids } => rail_line_ids@,
        InfrastructureProjectKind::Renewal { rail_line_ids } => rail_line_ids@,
        _ => Seq::empty(),
    }
}

/// The Rail Stations that an upgrade names.
pub open spec fn named_stations(kind: InfrastructureProjectKind) -> Seq<RailStationId> {
    match kind {
        InfrastructureProjectKind::StationUpgrade { rail_station_ids } => rail_station_ids@,
        _ => Seq::empty(),
    }
}

/// The Rail Stations that a new line plans.
pub open spec fn planned_stations(kind: InfrastructureProjectKind) -> Seq<RailStation> {
    match kind {
        InfrastructureProjectKind::NewLine { planned_stations, .. } => planned_stations@,
        _ => Seq::empty(),
    }
}

/// The Rail Lines that a new line plans.
pub open spec fn planned_lines(kind: InfrastructureProjectKind) -> Seq<RailLine> {
    match kind {
        InfrastructureProjectKind::NewLine { planned_lines, .. } => planned_lines@,
        _ => Seq::empty(),
    }
}

pub open spec fn target_speed(kind: InfrastructureProjectKind) -> Option<i64> {
    match kind {
        InfrastructureProjectKind::SpeedUpgrade { target_speed_limit, .. } => Some(
            target_speed_limit.kilometres_per_hour as i64,
        ),
        _ => None,
    }
}

pub open spec fn target_tracks(kind: InfrastructureProjectKind) -> Option<i64> {
    match kind {
        InfrastructureProjectKind::DoubleTracking { target_track_count, .. } => Some(
            target_track_count.tracks as i64,
        ),
        _ => None,
    }
}

/// Whether a row's times are those of a timeline.
pub open spec fn timeline_stored(row: ProjectRow, timeline: InfrastructureProjectTimeline) -> bool {
    &&& row.requested_at == timeline.requested_at.seconds
    &&& row.review_started_at == optional_seconds(timeline.review_started_at)
    &&& row.proposed_at == optional_seconds(timeline.proposed_at)
    &&& row.approved_at == optional_seconds(timeline.approved_at)
    &&& row.funding_completed_at == optional_seconds(timeline.funding_completed_at)
    &&& row.scheduled_start_at == optional_seconds(timeline.scheduled_start_at)
    &&& row.construction_started_at == optional_seconds(timeline.construction_started_at)
    &&& row.planned_completion_at == optional_seconds(timeline.planned_completion_at)
    &&& row.completed_at == optional_seconds(timeline.completed_at)
    &&& row.deferred_at == optional_seconds(timeline.deferred_at)
    &&& row.cancelled_at == optional_seconds(timeline.cancelled_at)
    &&& row.reconsideration_count == timeline.reconsideration_count
}

/// Whether a row's amounts and discount are those of a funding.
pub open spec fn funding_stored(row: ProjectRow, funding: InfrastructureProjectFunding) -> bool {
    &&& row.estimated_cost_cents == funding.estimated_cost.cents
    &&& row.authority_committed_cents == funding.authority_committed.cents
    &&& row.operator_contributed_cents == funding.operator_contributed.cents
    &&& match funding.access_fee_discount {
        Some(discount) => row.access_fee_discount_basis_points == discount.basis_points
            && row.access_fee_discount_expires_at == Some(discount.expires_at.seconds),
        None => row.access_fee_discount_basis_points == 0 && row.access_fee_discount_expires_at
            is None,
    }
}

/// Whether a row was written for a project.
pub open spec fn project_written(row: ProjectRow, index: int, project: InfrastructureProject) -> bool {
    &&& spells(row.id@, project.id.value)
    &&& row.sequence == stored_position(index)
    &&& row.kind@ == kind_text(project.kind)
    &&& row.status@ == status_text(project.status)
    &&& funding_stored(row, project.funding)
    &&& timeline_stored(row, project.timeline)
    &&& row.target_speed_limit_kmh == target_speed(project.kind)
    &&& row.target_track_count == target_tracks(project.kind)
}

pub open spec fn line_row_spells(
    row: ProjectLineRow,
    entry: (InfrastructureProjectId, int, RailLineId),
) -> bool {
    &&& spells(row.project_id@, entry.0.value)
    &&& row.sequence == stored_position(entry.1)
    &&& spells(row.rail_line_id@, entry.2.value)
}

pub open spec fn station_row_spells(
    row: ProjectStationRow,
    entry: (InfrastructureProjectId, int, RailStationId),
) -> bool {
    &&& spells(row.project_id@, entry.0.value)
    &&& row.sequence == stored_position(entry.1)
    &&& spells(row.rail_station_id@, entry.2.value)
}

pub open spec fn planned_station_row_spells(
    row: PlannedStationRow,
    entry: (InfrastructureProjectId, int, RailStation),
) -> bool {
    spells(row.project_id@, entry.0.value) && station_written(row.station, entry.1, entry.2)
}

pub open spec fn planned_line_row_spells(
    row: PlannedLineRow,
    entry: (InfrastructureProjectId, int, RailLine),
) -> bool {
    spells(row.project_id@, entry.0.value) && line_written(row.line, entry.1, entry.2)
}

pub open spec fn line_owners(projects: Seq<InfrastructureProject>) -> Seq<
    (InfrastructureProjectId, Seq<RailLineId>),
> {
    Seq::new(projects.len(), |i: int| (projects[i].id, named_lines(projects[i].kind)))
}

pub open spec fn station_owners(projects: Seq<InfrastructureProject>) -> Seq<
    (InfrastructureProjectId, Seq<RailStationId>),
> {
    Seq::new(projects.len(), |i: int| (projects[i].id, named_stations(projects[i].kind)))
}

pub open spec fn planned_station_owners(projects: Seq<InfrastructureProject>) -> Seq<
    (InfrastructureProjectId, Seq<RailStation>),
> {
    Seq::new(projects.len(), |i: int| (projects[i].id, planned_stations(projects[i].kind)))
}

pub open spec fn planned_line_owners(projects: Seq<InfrastructureProject>) -> Seq<
    (InfrastructureProjectId, Seq<RailLine>),
> {
    Seq::new(projects.len(), |i: int| (projects[i].id, planned_lines(projects[i].kind)))
}

/// Whether the five tables were written for a list of projects.
pub open spec fn projects_written(rows: ProjectRows, projects: Seq<InfrastructureProject>) -> bool {
    let lines = flat(line_owners(projects));
    let stations = flat(station_owners(projects));
    let new_stations = flat(planned_station_owners(projects));
    let new_lines = flat(planned_line_owners(projects));
    &&& rows.projects@.len() == projects.len()
    &&& forall|i: int|
        0 <= i < projects.len() ==> project_written(#[trigger] rows.projects@[i], i, projects[i])
    &&& rows.rail_lines@.len() == lines.len()
    &&& forall|i: int|
        0 <= i < lines.len() ==> line_row_spells(#[trigger] rows.rail_lines@[i], lines[i])
    &&& rows.rail_stations@.len() == stations.len()
    &&& forall|i: int|
        0 <= i < stations.len() ==> station_row_spells(
            #[trigger] rows.rail_stations@[i],
            stations[i],
        )
    &&& rows.planned_stations@.len() == new_stations.len()
    &&& forall|i: int|
        0 <= i < new_stations.len() ==> planned_station_row_spells(
            #[trigger] rows.planned_stations@[i],
            new_stations[i],
        )
    &&& rows.planned_lines@.len() == new_lines.len()
    &&& forall|i: int|
        0 <= i < new_lines.len() ==> planned_line_row_spells(
            #[trigger] rows.planned_lines@[i],
            new_lines[i],
        )
}

/// Whether a project plans a Rail Line longer than the database can store.
pub open spec fn overlong(project: InfrastructureProject) -> bool {
    exists|i: int|
        0 <= i < planned_lines(project.kind).len() && (#[trigger] planned_lines(
            project.kind,
        )[i]).distance.metres > i64::MAX
}

fn write_project_row(index: usize, project: &InfrastructureProject) -> (row: ProjectRow)
    ensures
        project_written(row, index as int, *project),
{
    let (kind, target_speed_limit_kmh, target_track_count): (
        &'static str,
        Option<i64>,
        Option<i64>,
    ) = match &project.kind {
        InfrastructureProjectKind::NewLine { .. } => ("new_line", None, None),
        InfrastructureProjectKind::SpeedUpgrade { target_speed_limit, .. } => (
            "speed_upgrade",
            Some(target_speed_limit.kilometres_per_hour as i64),
            None,
        ),
        InfrastructureProjectKind::DoubleTracking { target_track_count, .. } => (
            "double_tracking",
            None,
            Some(target_track_count.tracks as i64),
        ),
        InfrastructureProjectKind::Electrification { .. } => ("electrification", None, None),
        InfrastructureProjectKind::Renewal { .. } => ("renewal", None, None),
        InfrastructureProjectKind::StationUpgrade { .. } => ("station_upgrade", None, None),
    };
    let status = match project.status {
        InfrastructureProjectStatus::Requested => "requested",
        InfrastructureProjectStatus::UnderReview => "under_review",
        InfrastructureProjectStatus::Proposed => "proposed",
        InfrastructureProjectStatus::Approved => "approved",
        InfrastructureProjectStatus::Deferred => "deferred",
        InfrastructureProjectStatus::Rejected => "rejected",
        InfrastructureProjectStatus::Funding => "funding",
        InfrastructureProjectStatus::Scheduled => "scheduled",
        InfrastructureProjectStatus::Construction => "construction",
        InfrastructureProjectStatus::Open => "open",
        InfrastructureProjectStatus::Cancelled => "cancelled",
    };
    let (basis_points, expires_at): (i64, Option<i64>) = match project.funding.access_fee_discount {
        Some(discount) => (discount.basis_points as i64, Some(discount.expires_at.seconds)),
        None => (0, None),
    };
    let timeline = &project.timeline;
    ProjectRow {
        id: project.id.text(),
        sequence: store_position(index),
        kind: kind.to_owned(),
        status: status.to_owned(),
        estimated_cost_cents: project.funding.estimated_cost.cents,
        authority_committed_cents: project.funding.authority_committed.cents,
        operator_contributed_cents: project.funding.operator_contributed.cents,
        access_fee_discount_basis_points: basis_points,
        access_fee_discount_expires_at: expires_at,
        requested_at: timeline.requested_at.seconds,
        review_started_at: store_time(timeline.review_started_at),
        proposed_at: store_time(timeline.proposed_at),
        approved_at: store_time(timeline.approved_at),
        funding_completed_at: store_time(timeline.funding_completed_at),
        scheduled_start_at: store_time(timeline.scheduled_start_at),
        construction_started_at: store_time(timeline.construction_started_at),
        planned_completion_at: store_time(timeline.planned_completion_at),
        completed_at: store_time(timeline.completed_at),
        deferred_at: store_time(timeline.deferred_at),
        cancelled_at: store_time(timeline.cancelled_at),
        reconsideration_count: timeline.reconsideration_count as i64,
        target_speed_limit_kmh,
        target_track_count,
    }
}

fn write_line_targets(
    rows: &mut Vec<ProjectLineRow>,
    id: InfrastructureProjectId,
    ids: &Vec<RailLineId>,
)
    ensures
        final(rows)@.len() == old(rows)@.len() + ids@.len(),
        forall|i: int| 0 <= i < old(rows)@.len() ==> final(rows)@[i] == old(rows)@[i],
        forall|k: int|
            0 <= k < ids@.len() ==> line_row_spells(
                #[trigger] final(rows)@[old(rows)@.len() + k],
                spread(id, ids@)[k],
            ),
{
    let ghost before = rows@;
    let mut k: usize = 0;
    while k < ids.len()
        invariant
            k <= ids@.len(),
            before == old(rows)@,
            rows@.len() == before.len() + k,
            forall|i: int| 0 <= i < before.len() ==> rows@[i] == before[i],
            forall|j: int|
                0 <= j < k ==> line_row_spells(
                    #[trigger] rows@[before.len() + j],
                    spread(id, ids@)[j],
                ),
        decreases ids.len() - k,
    {
        rows.push(
            ProjectLineRow {
                project_id: id.text(),
                sequence: store_position(k),
                rail_line_id: ids[k].text(),
            },
        );
        k += 1;
    }
}

fn write_station_targets(
    rows: &mut Vec<ProjectStationRow>,
    id: InfrastructureProjectId,
    ids: &Vec<RailStationId>,
)
    ensures
        final(rows)@.len() == old(rows)@.len() + ids@.len(),
        forall|i: int| 0 <= i < old(rows)@.len() ==> final(rows)@[i] == old(rows)@[i],
        forall|k: int|
            0 <= k < ids@.len() ==> station_row_spells(
                #[trigger] final(rows)@[old(rows)@.len() + k],
                spread(id, ids@)[k],
            ),
{
    let ghost before = rows@;
    let mut k: usize = 0;
    while k < ids.len()
        invariant
            k <= ids@.len(),
            before == old(rows)@,
            rows@.len() == before.len() + k,
            forall|i: int| 0 <= i < before.len() ==> rows@[i] == before[i],
            forall|j: int|
                0 <= j < k ==> station_row_spells(
                    #[trigger] rows@[before.len() + j],
                    spread(id, ids@)[j],
                ),
        decreases ids.len() - k,
    {
        rows.push(
            ProjectStationRow {
                project_id: id.text(),
                sequence: store_position(k),
                rail_station_id: ids[k].text(),
            },
        );
        k += 1;
    }
}

fn write_planned_stations(
    rows: &mut Vec<PlannedStationRow>,
    id: InfrastructureProjectId,
    stations: &Vec<RailStation>,
)
    ensures
        final(rows)@.len() == old(rows)@.len() + stations@.len(),
        forall|i: int| 0 <= i < old(rows)@.len() ==> final(rows)@[i] == old(rows)@[i],
        forall|k: int|
            0 <= k < stations@.len() ==> planned_station_row_spells(
                #[trigger] final(rows)@[old(rows)@.len() + k],
                spread(id, stations@)[k],
            ),
{
    let ghost before = rows@;
    let mut k: usize = 0;
    while k < stations.len()
        invariant
            k <= stations@.len(),
            before == old(rows)@,
            rows@.len() == before.len() + k,
            forall|i: int| 0 <= i < before.len() ==> rows@[i] == before[i],
            forall|j: int|
                0 <= j < k ==> planned_station_row_spells(
                    #[trigger] rows@[before.len() + j],
                    spread(id, stations@)[j],
                ),
        decreases stations.len() - k,
    {
        rows.push(
            PlannedStationRow {
                project_id: id.text(),
                station: write_station(k, &stations[k]),
            },
        );
        k += 1;
    }
}

fn write_planned_lines(
    rows: &mut Vec<PlannedLineRow>,
    id: InfrastructureProjectId,
    lines: &Vec<RailLine>,
) -> (result: Result<(), SaveCodecError>)
    ensures
        refused(
            result,
            if exists|i: int| 0 <= i < lines@.len() && (#[trigger] lines@[i]).distance.metres
                > i64::MAX {
                Some("planned Rail Line distance")
            } else {
                None
            },
        ),
        result is Ok ==> {
            &&& final(rows)@.len() == old(rows)@.len() + lines@.len()
            &&& forall|i: int| 0 <= i < old(rows)@.len() ==> final(rows)@[i] == old(rows)@[i]
            &&& forall|k: int|
                0 <= k < lines@.len() ==> planned_line_row_spells(
                    #[trigger] final(rows)@[old(rows)@.len() + k],
                    spread(id, lines@)[k],
                )
        },
{
    let ghost before = rows@;
    let mut k: usize = 0;
    while k < lines.len()
        invariant
            k <= lines@.len(),
            before == old(rows)@,
            rows@.len() == before.len() + k,
            forall|i: int| 0 <= i < k ==> (#[trigger] lines@[i]).distance.metres <= i64::MAX,
            forall|i: int| 0 <= i < before.len() ==> rows@[i] == before[i],
            forall|j: int|
                0 <= j < k ==> planned_line_row_spells(
                    #[trigger] rows@[before.len() + j],
                    spread(id, lines@)[j],
                ),
        decreases lines.len() - k,
    {
        let line = match write_line(k, &lines[k], "planned Rail Line distance") {
            Ok(line) => line,
            Err(error) => {
                assert(lines@[k as int].distance.metres > i64::MAX);
                return Err(error);
            },
        };
        rows.push(PlannedLineRow { project_id: id.text(), line });
        k += 1;
    }
    Ok(())
}

proof fn lemma_extend_owners(projects: Seq<InfrastructureProject>, count: int)
    requires
        0 <= count < projects.len(),
    ensures
        flat(line_owners(projects.take(count + 1))) == flat(line_owners(projects.take(count)))
            + spread(projects[count].id, named_lines(projects[count].kind)),
        flat(station_owners(projects.take(count + 1))) == flat(station_owners(projects.take(count)))
            + spread(projects[count].id, named_stations(projects[count].kind)),
        flat(planned_station_owners(projects.take(count + 1))) == flat(
            planned_station_owners(projects.take(count)),
        ) + spread(projects[count].id, planned_stations(projects[count].kind)),
        flat(planned_line_owners(projects.take(count + 1))) == flat(
            planned_line_owners(projects.take(count)),
        ) + spread(projects[count].id, planned_lines(projects[count].kind)),
{
    let longer = projects.take(count + 1);
    let shorter = projects.take(count);
    assert(line_owners(longer).drop_last() =~= line_owners(shorter));
    assert(station_owners(longer).drop_last() =~= station_owners(shorter));
    assert(planned_station_owners(longer).drop_last() =~= planned_station_owners(shorter));
    assert(planned_line_owners(longer).drop_last() =~= planned_line_owners(shorter));
}

/// Adds a project to the five tables.
fn write_project(
    rows: &mut ProjectRows,
    projects: &Vec<InfrastructureProject>,
    index: usize,
) -> (result: Result<(), SaveCodecError>)
    requires
        index < projects@.len(),
        projects_written(*old(rows), projects@.take(index as int)),
    ensures
        refused(
            result,
            if overlong(projects@[index as int]) {
                Some("planned Rail Line distance")
            } else {
                None
            },
        ),
        result is Ok ==> projects_written(*final(rows), projects@.take(index + 1)),
{
    let project = &projects[index];
    let ghost shorter = projects@.take(index as int);
    let ghost longer = projects@.take(index + 1);
    proof {
        lemma_extend_owners(projects@, index as int);
        assert(longer.drop_last() =~= shorter);
    }
    let row = write_project_row(index, project);
    rows.projects.push(row);
    match &project.kind {
        InfrastructureProjectKind::NewLine { planned_stations, planned_lines } => {
            write_planned_stations(&mut rows.planned_stations, project.id, planned_stations);
            if let Err(error) = write_planned_lines(
                &mut rows.planned_lines,
                project.id,
                planned_lines,
            ) {
                assert(overlong(projects@[index as int])) by {
                    let i = choose|i: int|
                        0 <= i < planned_lines@.len() && (
                        #[trigger] planned_lines@[i]).distance.metres > i64::MAX;
                    assert(self::planned_lines(project.kind)[i] == planned_lines@[i]);
                }
                return Err(error);
            }
        },
        InfrastructureProjectKind::SpeedUpgrade { rail_line_ids, .. } => {
            write_line_targets(&mut rows.rail_lines, project.id, rail_line_ids);
        },
        InfrastructureProjectKind::DoubleTracking { rail_line_ids, .. } => {
            write_line_targets(&mut rows.rail_lines, project.id, rail_line_ids);
        },
        InfrastructureProjectKind::Electrification { rail_line_ids } => {
            write_line_targets(&mut rows.rail_lines, project.id, rail_line_ids);
        },
        InfrastructureProjectKind::Renewal { rail_line_ids } => {
            write_line_targets(&mut rows.rail_lines, project.id, rail_line_ids);
        },
        InfrastructureProjectKind::StationUpgrade { rail_station_ids } => {
            write_station_targets(&mut rows.rail_stations, project.id, rail_station_ids);
        },
    }
    proof {
        let old_lines = flat(line_owners(shorter));
        let old_stations = flat(station_owners(shorter));
        let old_new_stations = flat(planned_station_owners(shorter));
        let old_new_lines = flat(planned_line_owners(shorter));
        let lines = flat(line_owners(longer));
        let stations = flat(station_owners(longer));
        let new_stations = flat(planned_station_owners(longer));
        let new_lines = flat(planned_line_owners(longer));
        assert forall|i: int| 0 <= i < longer.len() implies project_written(
            #[trigger] rows.projects@[i],
            i,
            longer[i],
        ) by {
            if i < index {
                assert(project_written(old(rows).projects@[i], i, shorter[i]));
            }
        }
        assert forall|i: int| 0 <= i < lines.len() implies line_row_spells(
            #[trigger] rows.rail_lines@[i],
            lines[i],
        ) by {
            if i < old_lines.len() {
                assert(line_row_spells(old(rows).rail_lines@[i], old_lines[i]));
            } else {
                let k = i - old_lines.len();
                assert(rows.rail_lines@[old_lines.len() + k] == rows.rail_lines@[i]);
            }
        }
        assert forall|i: int| 0 <= i < stations.len() implies station_row_spells(
            #[trigger] rows.rail_stations@[i],
            stations[i],
        ) by {
            if i < old_stations.len() {
                assert(station_row_spells(old(rows).rail_stations@[i], old_stations[i]));
            } else {
                let k = i - old_stations.len();
                assert(rows.rail_stations@[old_stations.len() + k] == rows.rail_stations@[i]);
            }
        }
        assert forall|i: int| 0 <= i < new_stations.len() implies planned_station_row_spells(
            #[trigger] rows.planned_stations@[i],
            new_stations[i],
        ) by {
            if i < old_new_stations.len() {
                assert(planned_station_row_spells(
                    old(rows).planned_stations@[i],
                    old_new_stations[i],
                ));
            } else {
                let k = i - old_new_stations.len();
                assert(rows.planned_stations@[old_new_stations.len() + k]
                    == rows.planned_stations@[i]);
            }
        }
        assert forall|i: int| 0 <= i < new_lines.len() implies planned_line_row_spells(
            #[trigger] rows.planned_lines@[i],
            new_lines[i],
        ) by {
            if i < old_new_lines.len() {
                assert(planned_line_row_spells(old(rows).planned_lines@[i], old_new_lines[i]));
            } else {
                let k = i - old_new_lines.len();
                assert(rows.planned_lines@[old_new_lines.len() + k] == rows.planned_lines@[i]);
            }
        }
        if overlong(projects@[index as int]) {
            let kind = projects@[index as int].kind;
            let i = choose|i: int|
                0 <= i < planned_lines(kind).len() && (#[trigger] planned_lines(
                    kind,
                )[i]).distance.metres > i64::MAX;
            assert(kind is NewLine);
            assert(kind->planned_lines@[i].distance.metres > i64::MAX);
        }
    }
    Ok(())
}

/// Whether some project plans a Rail Line longer than the database can store.
pub open spec fn any_overlong(projects: Seq<InfrastructureProject>) -> bool {
    exists|i: int| 0 <= i < projects.len() && overlong(#[trigger] projects[i])
}

/// The five tables of a list of projects.
pub fn write_projects(projects: &Vec<InfrastructureProject>) -> (result: Result<
    ProjectRows,
    SaveCodecError,
>)
    ensures
        refused(
            result,
            if any_overlong(projects@) {
                Some("planned Rail Line distance")
            } else {
                None
            },
        ),
        result matches Ok(rows) ==> projects_written(rows, projects@),
{
    let mut rows = ProjectRows {
        projects: Vec::new(),
        rail_lines: Vec::new(),
        rail_stations: Vec::new(),
        planned_stations: Vec::new(),
        planned_lines: Vec::new(),
    };
    let mut i: usize = 0;
    proof {
        let none = projects@.take(0);
        assert(line_owners(none) =~= Seq::empty());
        assert(station_owners(none) =~= Seq::empty());
        assert(planned_station_owners(none) =~= Seq::empty());
        assert(planned_line_owners(none) =~= Seq::empty());
    }
    while i < projects.len()
        invariant
            i <= projects@.len(),
            projects_written(rows, projects@.take(i as int)),
            forall|j: int| 0 <= j < i ==> !overlong(#[trigger] projects@[j]),
        decreases projects.len() - i,
    {
        if let Err(error) = write_project(&mut rows, projects, i) {
            assert(overlong(projects@[i as int]));
            return Err(error);
        }
        i += 1;
    }
    assert(projects@.take(projects@.len() as int) =~= projects@);
    Ok(rows)
}

/// What is wrong with a project row on its own.
pub open spec fn head_fault(row: ProjectRow) -> Option<&'static str> {
    if uuid_of_text(row.id@) is None {
        Some("Infrastructure Project ID")
    } else if !(0 <= row.reconsideration_count <= 255) {
        Some("Infrastructure Project reconsideration count")
    } else if !((row.access_fee_discount_basis_points == 0 && row.access_fee_discount_expires_at
        is None) || (0 < row.access_fee_discount_basis_points <= u16::MAX
        && row.access_fee_discount_expires_at is Some)) {
        Some("Infrastructure Project access discount")
    } else {
        None
    }
}

pub open spec fn row_id(row: ProjectRow) -> InfrastructureProjectId {
    InfrastructureProjectId { value: uuid_of_text(row.id@)->0 }
}

/// The first fault among the first `count` project rows on their own.
pub open spec fn heads_fault(rows: Seq<ProjectRow>, count: int) -> Option<&'static str>
    decreases count,
{
    if count <= 0 {
        None
    } else if heads_fault(rows, count - 1) is Some {
        heads_fault(rows, count - 1)
    } else {
        head_fault(rows[count - 1])
    }
}

proof fn lemma_heads_fault(rows: Seq<ProjectRow>, low: int, high: int)
    requires
        low <= high,
        heads_fault(rows, low) is Some,
    ensures
        heads_fault(rows, high) == heads_fault(rows, low),
    decreases high - low,
{
    if low < high {
        lemma_heads_fault(rows, low, high - 1);
    }
}

proof fn lemma_no_head_fault(rows: Seq<ProjectRow>, count: int, i: int)
    requires
        0 <= i < count,
        heads_fault(rows, count) is None,
    ensures
        head_fault(rows[i]) is None,
    decreases count,
{
    if i < count - 1 {
        lemma_no_head_fault(rows, count - 1, i);
    }
}

/// What a project row says of itself.
struct ProjectHead {
    id: InfrastructureProjectId,
    funding: InfrastructureProjectFunding,
    timeline: InfrastructureProjectTimeline,
}

spec fn head_read(row: ProjectRow, head: ProjectHead) -> bool {
    &&& head.id == row_id(row)
    &&& funding_stored(row, head.funding)
    &&& timeline_stored(row, head.timeline)
}

fn read_head(row: &ProjectRow) -> (result: Result<ProjectHead, RowError>)
    ensures
        undecoded(result, head_fault(*row)),
        result matches Ok(head) ==> head_read(*row, head),
{
    let id = match InfrastructureProjectId::parse(row.id.as_str()) {
        Some(id) => id,
        None => return Err(RowError { field: "Infrastructure Project ID" }),
    };
    if row.reconsideration_count < 0 || row.reconsideration_count > 255 {
        return Err(
            RowError { field: "Infrastructure Project reconsideration count" },
        );
    }
    let points: i64 = row.access_fee_discount_basis_points;
    let access_fee_discount = match row.access_fee_discount_expires_at {
        None => {
            if points != 0 {
                return Err(
                    RowError {
                        field: "Infrastructure Project access discount",
                    },
                );
            }
            None
        },
        Some(seconds) => {
            if points <= 0 || points > u16::MAX as i64 {
                return Err(
                    RowError {
                        field: "Infrastructure Project access discount",
                    },
                );
            }
            Some(
                InfrastructureAccessDiscount {
                    basis_points: points as u16,
                    expires_at: UtcSeconds { seconds },
                },
            )
        },
    };
    Ok(
        ProjectHead {
            id,
            funding: InfrastructureProjectFunding {
                estimated_cost: Money { cents: row.estimated_cost_cents },
                authority_committed: Money { cents: row.authority_committed_cents },
                operator_contributed: Money { cents: row.operator_contributed_cents },
                access_fee_discount,
            },
            timeline: InfrastructureProjectTimeline {
                requested_at: UtcSeconds { seconds: row.requested_at },
                review_started_at: read_time(row.review_started_at),
                proposed_at: read_time(row.proposed_at),
                approved_at: read_time(row.approved_at),
                funding_completed_at: read_time(row.funding_completed_at),
                scheduled_start_at: read_time(row.scheduled_start_at),
                construction_started_at: read_time(row.construction_started_at),
                planned_completion_at: read_time(row.planned_completion_at),
                completed_at: read_time(row.completed_at),
                deferred_at: read_time(row.deferred_at),
                cancelled_at: read_time(row.cancelled_at),
                reconsideration_count: row.reconsideration_count as u8,
            },
        },
    )
}

pub open spec fn line_target_fault(row: ProjectLineRow) -> Option<&'static str> {
    if uuid_of_text(row.project_id@) is None {
        Some("Infrastructure Project ID")
    } else if uuid_of_text(row.rail_line_id@) is None {
        Some("Rail Line ID")
    } else {
        None
    }
}

pub open spec fn line_targets_fault(rows: Seq<ProjectLineRow>, count: int) -> Option<&'static str>
    decreases count,
{
    if count <= 0 {
        None
    } else if line_targets_fault(rows, count - 1) is Some {
        line_targets_fault(rows, count - 1)
    } else {
        line_target_fault(rows[count - 1])
    }
}

proof fn lemma_line_targets_fault(rows: Seq<ProjectLineRow>, low: int, high: int)
    requires
        low <= high,
        line_targets_fault(rows, low) is Some,
    ensures
        line_targets_fault(rows, high) == line_targets_fault(rows, low),
    decreases high - low,
{
    if low < high {
        lemma_line_targets_fault(rows, low, high - 1);
    }
}

pub open spec fn line_entries(rows: Seq<ProjectLineRow>) -> Seq<
    (InfrastructureProjectId, RailLineId),
> {
    Seq::new(
        rows.len(),
        |i: int|
            (
                InfrastructureProjectId { value: uuid_of_text(rows[i].project_id@)->0 },
                RailLineId { value: uuid_of_text(rows[i].rail_line_id@)->0 },
            ),
    )
}

fn read_line_entries(rows: &Vec<ProjectLineRow>) -> (result: Result<
    Vec<(InfrastructureProjectId, RailLineId)>,
    RowError,
>)
    ensures
        undecoded(result, line_targets_fault(rows@, rows@.len() as int)),
        result matches Ok(entries) ==> entries@ == line_entries(rows@),
{
    let mut entries: Vec<(InfrastructureProjectId, RailLineId)> = Vec::new();
    let mut i: usize = 0;
    while i < rows.len()
        invariant
            i <= rows@.len(),
            line_targets_fault(rows@, i as int) is None,
            entries@.len() == i,
            forall|j: int| 0 <= j < i ==> #[trigger] entries@[j] == line_entries(rows@)[j],
        decreases rows.len() - i,
    {
        let project_id = match InfrastructureProjectId::parse(rows[i].project_id.as_str()) {
            Some(id) => id,
            None => {
                proof {
                    lemma_line_targets_fault(rows@, i + 1, rows@.len() as int);
                }
                return Err(RowError { field: "Infrastructure Project ID" });
            },
        };
        let rail_line_id = match RailLineId::parse(rows[i].rail_line_id.as_str()) {
            Some(id) => id,
            None => {
                proof {
                    lemma_line_targets_fault(rows@, i + 1, rows@.len() as int);
                }
                return Err(RowError { field: "Rail Line ID" });
            },
        };
        entries.push((project_id, rail_line_id));
        i += 1;
    }
    assert(entries@ =~= line_entries(rows@));
    Ok(entries)
}

pub open spec fn station_target_fault(row: ProjectStationRow) -> Option<&'static str> {
    if uuid_of_text(row.project_id@) is None {
        Some("Infrastructure Project ID")
    } else if uuid_of_text(row.rail_station_id@) is None {
        Some("Rail Station ID")
    } else {
        None
    }
}

pub open spec fn station_targets_fault(rows: Seq<ProjectStationRow>, count: int) -> Option<
    &'static str,
>
    decreases count,
{
    if count <= 0 {
        None
    } else if station_targets_fault(rows, count - 1) is Some {
        station_targets_fault(rows, count - 1)
    } else {
        station_target_fault(rows[count - 1])
    }
}

proof fn lemma_station_targets_fault(rows: Seq<ProjectStationRow>, low: int, high: int)
    requires
        low <= high,
        station_targets_fault(rows, low) is Some,
    ensures
        station_targets_fault(rows, high) == station_targets_fault(rows, low),
    decreases high - low,
{
    if low < high {
        lemma_station_targets_fault(rows, low, high - 1);
    }
}

pub open spec fn station_entries(rows: Seq<ProjectStationRow>) -> Seq<
    (InfrastructureProjectId, RailStationId),
> {
    Seq::new(
        rows.len(),
        |i: int|
            (
                InfrastructureProjectId { value: uuid_of_text(rows[i].project_id@)->0 },
                RailStationId { value: uuid_of_text(rows[i].rail_station_id@)->0 },
            ),
    )
}

fn read_station_entries(rows: &Vec<ProjectStationRow>) -> (result: Result<
    Vec<(InfrastructureProjectId, RailStationId)>,
    RowError,
>)
    ensures
        undecoded(result, station_targets_fault(rows@, rows@.len() as int)),
        result matches Ok(entries) ==> entries@ == station_entries(rows@),
{
    let mut entries: Vec<(InfrastructureProjectId, RailStationId)> = Vec::new();
    let mut i: usize = 0;
    while i < rows.len()
        invariant
            i <= rows@.len(),
            station_targets_fault(rows@, i as int) is None,
            entries@.len() == i,
            forall|j: int| 0 <= j < i ==> #[trigger] entries@[j] == station_entries(rows@)[j],
        decreases rows.len() - i,
    {
        let project_id = match InfrastructureProjectId::parse(rows[i].project_id.as_str()) {
            Some(id) => id,
            None => {
                proof {
                    lemma_station_targets_fault(rows@, i + 1, rows@.len() as int);
                }
                return Err(RowError { field: "Infrastructure Project ID" });
            },
        };
        let rail_station_id = match RailStationId::parse(rows[i].rail_station_id.as_str()) {
            Some(id) => id,
            None => {
                proof {
                    lemma_station_targets_fault(rows@, i + 1, rows@.len() as int);
                }
                return Err(RowError { field: "Rail Station ID" });
            },
        };
        entries.push((project_id, rail_station_id));
        i += 1;
    }
    assert(entries@ =~= station_entries(rows@));
    Ok(entries)
}

pub open spec fn planned_station_fault(row: PlannedStationRow) -> Option<&'static str> {
    if uuid_of_text(row.project_id@) is None {
        Some("Infrastructure Project ID")
    } else {
        station_fault(row.station, "planned Rail Station ID")
    }
}

pub open spec fn planned_stations_fault(rows: Seq<PlannedStationRow>, count: int) -> Option<
    &'static str,
>
    decreases count,
{
    if count <= 0 {
        None
    } else if planned_stations_fault(rows, count - 1) is Some {
        planned_stations_fault(rows, count - 1)
    } else {
        planned_station_fault(rows[count - 1])
    }
}

proof fn lemma_planned_stations_fault(rows: Seq<PlannedStationRow>, low: int, high: int)
    requires
        low <= high,
        planned_stations_fault(rows, low) is Some,
    ensures
        planned_stations_fault(rows, high) == planned_stations_fault(rows, low),
    decreases high - low,
{
    if low < high {
        lemma_planned_stations_fault(rows, low, high - 1);
    }
}

pub open spec fn planned_station_entries(rows: Seq<PlannedStationRow>) -> Seq<
    (InfrastructureProjectId, RailStation),
> {
    Seq::new(
        rows.len(),
        |i: int|
            (
                InfrastructureProjectId { value: uuid_of_text(rows[i].project_id@)->0 },
                station_of(rows[i].station),
            ),
    )
}

fn read_planned_station_entries(rows: &Vec<PlannedStationRow>) -> (result: Result<
    Vec<(InfrastructureProjectId, RailStation)>,
    RowError,
>)
    ensures
        undecoded(result, planned_stations_fault(rows@, rows@.len() as int)),
        result matches Ok(entries) ==> entries@ == planned_station_entries(rows@),
{
    let mut entries: Vec<(InfrastructureProjectId, RailStation)> = Vec::new();
    let mut i: usize = 0;
    while i < rows.len()
        invariant
            i <= rows@.len(),
            planned_stations_fault(rows@, i as int) is None,
            entries@.len() == i,
            forall|j: int|
                0 <= j < i ==> #[trigger] entries@[j] == planned_station_entries(rows@)[j],
        decreases rows.len() - i,
    {
        let project_id = match InfrastructureProjectId::parse(rows[i].project_id.as_str()) {
            Some(id) => id,
            None => {
                proof {
                    lemma_planned_stations_fault(rows@, i + 1, rows@.len() as int);
                }
                return Err(RowError { field: "Infrastructure Project ID" });
            },
        };
        let station = match read_station(&rows[i].station, "planned Rail Station ID") {
            Ok(station) => station,
            Err(error) => {
                proof {
                    lemma_planned_stations_fault(rows@, i + 1, rows@.len() as int);
                }
                return Err(error);
            },
        };
        entries.push((project_id, station));
        i += 1;
    }
    assert(entries@ =~= planned_station_entries(rows@));
    Ok(entries)
}

pub open spec fn planned_line_fields() -> LineFields {
    LineFields { id: "planned Rail Line ID", endpoint: "planned Rail Line endpoint" }
}

pub open spec fn planned_line_fault(row: PlannedLineRow) -> Option<&'static str> {
    if line_text_fault(row.line) is Some {
        line_text_fault(row.line)
    } else if uuid_of_text(row.project_id@) is None {
        Some("Infrastructure Project ID")
    } else {
        line_fault(row.line, planned_line_fields())
    }
}

pub open spec fn planned_lines_fault(rows: Seq<PlannedLineRow>, count: int) -> Option<&'static str>
    decreases count,
{
    if count <= 0 {
        None
    } else if planned_lines_fault(rows, count - 1) is Some {
        planned_lines_fault(rows, count - 1)
    } else {
        planned_line_fault(rows[count - 1])
    }
}

proof fn lemma_planned_lines_fault(rows: Seq<PlannedLineRow>, low: int, high: int)
    requires
        low <= high,
        planned_lines_fault(rows, low) is Some,
    ensures
        planned_lines_fault(rows, high) == planned_lines_fault(rows, low),
    decreases high - low,
{
    if low < high {
        lemma_planned_lines_fault(rows, low, high - 1);
    }
}

pub open spec fn planned_line_entries(rows: Seq<PlannedLineRow>) -> Seq<
    (InfrastructureProjectId, RailLine),
> {
    Seq::new(
        rows.len(),
        |i: int|
            (
                InfrastructureProjectId { value: uuid_of_text(rows[i].project_id@)->0 },
                line_of(rows[i].line),
            ),
    )
}

fn read_planned_line_entries(rows: &Vec<PlannedLineRow>) -> (result: Result<
    Vec<(InfrastructureProjectId, RailLine)>,
    RowError,
>)
    ensures
        undecoded(result, planned_lines_fault(rows@, rows@.len() as int)),
        result matches Ok(entries) ==> entries@ == planned_line_entries(rows@),
{
    let mut entries: Vec<(InfrastructureProjectId, RailLine)> = Vec::new();
    let mut i: usize = 0;
    while i < rows.len()
        invariant
            i <= rows@.len(),
            planned_lines_fault(rows@, i as int) is None,
            entries@.len() == i,
            forall|j: int| 0 <= j < i ==> #[trigger] entries@[j] == planned_line_entries(rows@)[j],
        decreases rows.len() - i,
    {
        match read_line_words(&rows[i].line) {
            Ok(_) => {},
            Err(error) => {
                proof {
                    lemma_planned_lines_fault(rows@, i + 1, rows@.len() as int);
                }
                return Err(error);
            },
        }
        let project_id = match InfrastructureProjectId::parse(rows[i].project_id.as_str()) {
            Some(id) => id,
            None => {
                proof {
                    lemma_planned_lines_fault(rows@, i + 1, rows@.len() as int);
                }
                return Err(RowError { field: "Infrastructure Project ID" });
            },
        };
        let fields = LineFields {
            id: "planned Rail Line ID",
            endpoint: "planned Rail Line endpoint",
        };
        let line = match read_line(&rows[i].line, fields) {
            Ok(line) => line,
            Err(error) => {
                proof {
                    lemma_planned_lines_fault(rows@, i + 1, rows@.len() as int);
                }
                return Err(error);
            },
        };
        proof {
            lemma_line_of(rows@[i as int].line, line);
        }
        entries.push((project_id, line));
        i += 1;
    }
    assert(entries@ =~= planned_line_entries(rows@));
    Ok(entries)
}

/// The entries that no project has claimed yet.
struct TargetTables {
    lines: Vec<(InfrastructureProjectId, RailLineId)>,
    stations: Vec<(InfrastructureProjectId, RailStationId)>,
    planned_stations: Vec<(InfrastructureProjectId, RailStation)>,
    planned_lines: Vec<(InfrastructureProjectId, RailLine)>,
}

/// The entries that no project has claimed yet, as sequences.
#[verifier::ext_equal]
pub ghost struct Targets {
    pub lines: Seq<(InfrastructureProjectId, RailLineId)>,
    pub stations: Seq<(InfrastructureProjectId, RailStationId)>,
    pub planned_stations: Seq<(InfrastructureProjectId, RailStation)>,
    pub planned_lines: Seq<(InfrastructureProjectId, RailLine)>,
}

impl TargetTables {
    spec fn targets(self) -> Targets {
        Targets {
            lines: self.lines@,
            stations: self.stations@,
            planned_stations: self.planned_stations@,
            planned_lines: self.planned_lines@,
        }
    }
}

impl Targets {
    pub open spec fn has_line(self, id: InfrastructureProjectId) -> bool {
        items_of(self.lines, id).len() > 0
    }

    pub open spec fn has_station(self, id: InfrastructureProjectId) -> bool {
        items_of(self.stations, id).len() > 0
    }

    pub open spec fn has_planned(self, id: InfrastructureProjectId) -> bool {
        items_of(self.planned_stations, id).len() > 0 || items_of(self.planned_lines, id).len() > 0
    }

    /// What is left when a project of the given sort has claimed its entries.
    pub open spec fn without(self, kind: Seq<char>, id: InfrastructureProjectId) -> Targets {
        if kind == "new_line"@ {
            Targets {
                planned_stations: others_of(self.planned_stations, id),
                planned_lines: others_of(self.planned_lines, id),
                ..self
            }
        } else if kind == "station_upgrade"@ {
            Targets { stations: others_of(self.stations, id), ..self }
        } else {
            Targets { lines: others_of(self.lines, id), ..self }
        }
    }

    pub open spec fn all_claimed(self) -> bool {
        self.lines.len() == 0 && self.stations.len() == 0 && self.planned_stations.len() == 0
            && self.planned_lines.len() == 0
    }
}

/// What is wrong with a project row together with the entries that are left.
pub open spec fn body_fault(row: ProjectRow, targets: Targets) -> Option<&'static str> {
    let id = row_id(row);
    let kind = row.kind@;
    if !is_status(row.status@) {
        Some("Infrastructure Project status")
    } else if kind == "new_line"@ {
        if row.target_speed_limit_kmh is Some || row.target_track_count is Some
            || targets.has_line(id) || targets.has_station(id) {
            Some("New Line project payload")
        } else {
            None
        }
    } else if kind == "speed_upgrade"@ {
        if row.target_track_count is Some || targets.has_planned(id) || targets.has_station(id) {
            Some("Speed Upgrade project payload")
        } else if row.target_speed_limit_kmh is None || !(0 < row.target_speed_limit_kmh->0
            <= u32::MAX) {
            Some("Speed Upgrade target speed")
        } else {
            None
        }
    } else if kind == "double_tracking"@ {
        if row.target_speed_limit_kmh is Some || targets.has_planned(id) || targets.has_station(
            id,
        ) {
            Some("Double Tracking project payload")
        } else if row.target_track_count is None || !(0 < row.target_track_count->0 <= u32::MAX) {
            Some("Double Tracking target tracks")
        } else {
            None
        }
    } else if kind == "electrification"@ || kind == "renewal"@ {
        if row.target_speed_limit_kmh is Some || row.target_track_count is Some
            || targets.has_planned(id) || targets.has_station(id) {
            Some("Rail Line project payload")
        } else {
            None
        }
    } else if kind == "station_upgrade"@ {
        if row.target_speed_limit_kmh is Some || row.target_track_count is Some
            || targets.has_planned(id) || targets.has_line(id) {
            Some("Station Upgrade project payload")
        } else {
            None
        }
    } else {
        Some("Infrastructure Project kind")
    }
}

/// Whether a project is what a row and the entries that were left describe.
pub open spec fn project_read(
    row: ProjectRow,
    targets: Targets,
    project: InfrastructureProject,
) -> bool {
    let id = row_id(row);
    &&& project.id == id
    &&& row.status@ == status_text(project.status)
    &&& funding_stored(row, project.funding)
    &&& timeline_stored(row, project.timeline)
    &&& row.kind@ == kind_text(project.kind)
    &&& row.target_speed_limit_kmh == target_speed(project.kind)
    &&& row.target_track_count == target_tracks(project.kind)
    &&& match project.kind {
        InfrastructureProjectKind::NewLine { planned_stations, planned_lines } => {
            &&& planned_stations@ == items_of(targets.planned_stations, id)
            &&& planned_lines@ == items_of(targets.planned_lines, id)
        },
        InfrastructureProjectKind::StationUpgrade { rail_station_ids } => rail_station_ids@
            == items_of(targets.stations, id),
        _ => named_lines(project.kind) == items_of(targets.lines, id),
    }
}

fn read_kind(
    row: &ProjectRow,
    id: InfrastructureProjectId,
    tables: &mut TargetTables,
) -> (result: Result<InfrastructureProjectKind, SaveCodecError>)
    requires
        is_status(row.status@),
        id == row_id(*row),
    ensures
        refused(result, body_fault(*row, old(tables).targets())),
        result matches Ok(kind) ==> {
            &&& final(tables).targets() == old(tables).targets().without(row.kind@, id)
            &&& row.kind@ == kind_text(kind)
            &&& row.target_speed_limit_kmh == target_speed(kind)
            &&& row.target_track_count == target_tracks(kind)
            &&& match kind {
                InfrastructureProjectKind::NewLine { planned_stations, planned_lines } => {
                    &&& planned_stations@ == items_of(old(tables).planned_stations@, id)
                    &&& planned_lines@ == items_of(old(tables).planned_lines@, id)
                },
                InfrastructureProjectKind::StationUpgrade { rail_station_ids } => rail_station_ids@
                    == items_of(old(tables).stations@, id),
                _ => named_lines(kind) == items_of(old(tables).lines@, id),
            }
        },
{
    proof {
        lemma_kind_texts();
    }
    let kind = row.kind.as_str();
    let has_line = has_items(&tables.lines, id);
    let has_station = has_items(&tables.stations, id);
    let has_planned_station = has_items(&tables.planned_stations, id);
    let has_planned_line = has_items(&tables.planned_lines, id);
    let has_planned = has_planned_station || has_planned_line;
    if same_text(kind, "new_line") {
        if row.target_speed_limit_kmh.is_some() || row.target_track_count.is_some() || has_line
            || has_station {
            return Err(SaveCodecError::InvalidValue { field: "New Line project payload" });
        }
        let planned_stations = take_items(&mut tables.planned_stations, id);
        let planned_lines = take_items(&mut tables.planned_lines, id);
        return Ok(InfrastructureProjectKind::NewLine { planned_stations, planned_lines });
    }
    if same_text(kind, "speed_upgrade") {
        if row.target_track_count.is_some() || has_planned || has_station {
            return Err(SaveCodecError::InvalidValue { field: "Speed Upgrade project payload" });
        }
        let target_speed_limit = match row.target_speed_limit_kmh {
            Some(speed) => match SpeedKilometresPerHour::new(speed) {
                Ok(speed) => speed,
                Err(_) => {
                    return Err(
                        SaveCodecError::InvalidValue { field: "Speed Upgrade target speed" },
                    );
                },
            },
            None => {
                return Err(SaveCodecError::InvalidValue { field: "Speed Upgrade target speed" });
            },
        };
        let rail_line_ids = take_items(&mut tables.lines, id);
        return Ok(InfrastructureProjectKind::SpeedUpgrade { rail_line_ids, target_speed_limit });
    }
    if same_text(kind, "double_tracking") {
        if row.target_speed_limit_kmh.is_some() || has_planned || has_station {
            return Err(SaveCodecError::InvalidValue { field: "Double Tracking project payload" });
        }
        let target_track_count = match row.target_track_count {
            Some(tracks) => match TrackCount::new(tracks) {
                Ok(tracks) => tracks,
                Err(_) => {
                    return Err(
                        SaveCodecError::InvalidValue { field: "Double Tracking target tracks" },
                    );
                },
            },
            None => {
                return Err(SaveCodecError::InvalidValue { field: "Double Tracking target tracks" });
            },
        };
        let rail_line_ids = take_items(&mut tables.lines, id);
        return Ok(InfrastructureProjectKind::DoubleTracking { rail_line_ids, target_track_count });
    }
    if same_text(kind, "electrification") || same_text(kind, "renewal") {
        if row.target_speed_limit_kmh.is_some() || row.target_track_count.is_some() || has_planned
            || has_station {
            return Err(SaveCodecError::InvalidValue { field: "Rail Line project payload" });
        }
        let rail_line_ids = take_items(&mut tables.lines, id);
        if same_text(kind, "electrification") {
            return Ok(InfrastructureProjectKind::Electrification { rail_line_ids });
        }
        return Ok(InfrastructureProjectKind::Renewal { rail_line_ids });
    }
    if same_text(kind, "station_upgrade") {
        if row.target_speed_limit_kmh.is_some() || row.target_track_count.is_some() || has_planned
            || has_line {
            return Err(SaveCodecError::InvalidValue { field: "Station Upgrade project payload" });
        }
        let rail_station_ids = take_items(&mut tables.stations, id);
        return Ok(InfrastructureProjectKind::StationUpgrade { rail_station_ids });
    }
    Err(SaveCodecError::InvalidValue { field: "Infrastructure Project kind" })
}

/// The entries that are left when the first `count` project rows have claimed theirs.
pub open spec fn left_over(rows: Seq<ProjectRow>, targets: Targets, count: int) -> Targets
    decreases count,
{
    if count <= 0 {
        targets
    } else {
        left_over(rows, targets, count - 1).without(rows[count - 1].kind@, row_id(rows[count - 1]))
    }
}

/// The first fault among the first `count` project rows with their entries.
pub open spec fn bodies_fault(rows: Seq<ProjectRow>, targets: Targets, count: int) -> Option<
    &'static str,
>
    decreases count,
{
    if count <= 0 {
        None
    } else if bodies_fault(rows, targets, count - 1) is Some {
        bodies_fault(rows, targets, count - 1)
    } else {
        body_fault(rows[count - 1], left_over(rows, targets, count - 1))
    }
}

proof fn lemma_bodies_fault(rows: Seq<ProjectRow>, targets: Targets, low: int, high: int)
    requires
        low <= high,
        bodies_fault(rows, targets, low) is Some,
    ensures
        bodies_fault(rows, targets, high) == bodies_fault(rows, targets, low),
    decreases high - low,
{
    if low < high {
        lemma_bodies_fault(rows, targets, low, high - 1);
    }
}

pub open spec fn targets_of(rows: ProjectRows) -> Targets {
    Targets {
        lines: line_entries(rows.rail_lines@),
        stations: station_entries(rows.rail_stations@),
        planned_stations: planned_station_entries(rows.planned_stations@),
        planned_lines: planned_line_entries(rows.planned_lines@),
    }
}

/// Why the five tables cannot be read, if so: a row that cannot be decoded comes before any
/// project that its entries do not suit.
pub open spec fn projects_failure(rows: ProjectRows) -> Option<LoadError> {
    let count = rows.projects@.len() as int;
    let targets = targets_of(rows);
    let lines = line_targets_fault(rows.rail_lines@, rows.rail_lines@.len() as int);
    let stations = station_targets_fault(rows.rail_stations@, rows.rail_stations@.len() as int);
    let new_stations = planned_stations_fault(
        rows.planned_stations@,
        rows.planned_stations@.len() as int,
    );
    let new_lines = planned_lines_fault(rows.planned_lines@, rows.planned_lines@.len() as int);
    if heads_fault(rows.projects@, count) is Some {
        row_fault(DECODE_ROW, heads_fault(rows.projects@, count))
    } else if lines is Some {
        row_fault(DECODE_ROW, lines)
    } else if stations is Some {
        row_fault(DECODE_ROW, stations)
    } else if new_stations is Some {
        row_fault(DECODE_ROW, new_stations)
    } else if new_lines is Some {
        row_fault(DECODE_ROW, new_lines)
    } else if bodies_fault(rows.projects@, targets, count) is Some {
        value_fault(bodies_fault(rows.projects@, targets, count))
    } else if !left_over(rows.projects@, targets, count).all_claimed() {
        value_fault(Some("orphan infrastructure project payload"))
    } else {
        None
    }
}

/// Whether a list of projects is what the five tables describe.
pub open spec fn projects_read(rows: ProjectRows, projects: Seq<InfrastructureProject>) -> bool {
    &&& projects.len() == rows.projects@.len()
    &&& forall|i: int|
        0 <= i < projects.len() ==> project_read(
            rows.projects@[i],
            left_over(rows.projects@, targets_of(rows), i),
            #[trigger] projects[i],
        )
}

fn check_heads(rows: &Vec<ProjectRow>) -> (result: Result<(), RowError>)
    ensures
        undecoded(result, heads_fault(rows@, rows@.len() as int)),
{
    let mut i: usize = 0;
    while i < rows.len()
        invariant
            i <= rows@.len(),
            heads_fault(rows@, i as int) is None,
        decreases rows.len() - i,
    {
        match read_head(&rows[i]) {
            Ok(_) => {},
            Err(error) => {
                proof {
                    lemma_heads_fault(rows@, i + 1, rows@.len() as int);
                }
                return Err(error);
            },
        }
        i += 1;
    }
    Ok(())
}

/// Reads the projects from their five tables.
pub fn load_infrastructure_projects(rows: &ProjectRows) -> (result: Result<
    Vec<InfrastructureProject>,
    LoadError,
>)
    ensures
        unloaded(result, projects_failure(*rows)),
        result matches Ok(projects) ==> projects_read(*rows, projects@),
{
    let project_rows = &rows.projects;
    match check_heads(project_rows) {
        Ok(()) => {},
        Err(error) => return Err(failed_row(DECODE_ROW, error)),
    }
    let lines = match read_line_entries(&rows.rail_lines) {
        Ok(entries) => entries,
        Err(error) => return Err(failed_row(DECODE_ROW, error)),
    };
    let stations = match read_station_entries(&rows.rail_stations) {
        Ok(entries) => entries,
        Err(error) => return Err(failed_row(DECODE_ROW, error)),
    };
    let planned_stations = match read_planned_station_entries(&rows.planned_stations) {
        Ok(entries) => entries,
        Err(error) => return Err(failed_row(DECODE_ROW, error)),
    };
    let planned_lines = match read_planned_line_entries(&rows.planned_lines) {
        Ok(entries) => entries,
        Err(error) => return Err(failed_row(DECODE_ROW, error)),
    };
    let mut tables = TargetTables { lines, stations, planned_stations, planned_lines };
    let ghost targets = targets_of(*rows);
    assert(tables.targets() == targets);
    let mut projects: Vec<InfrastructureProject> = Vec::new();
    let mut i: usize = 0;
    while i < project_rows.len()
        invariant
            i <= project_rows@.len(),
            project_rows == rows.projects,
            targets == targets_of(*rows),
            heads_fault(project_rows@, project_rows@.len() as int) is None,
            line_targets_fault(rows.rail_lines@, rows.rail_lines@.len() as int) is None,
            station_targets_fault(rows.rail_stations@, rows.rail_stations@.len() as int) is None,
            planned_stations_fault(rows.planned_stations@, rows.planned_stations@.len() as int)
                is None,
            planned_lines_fault(rows.planned_lines@, rows.planned_lines@.len() as int) is None,
            bodies_fault(project_rows@, targets, i as int) is None,
            tables.targets() == left_over(project_rows@, targets, i as int),
            projects@.len() == i,
            forall|j: int|
                0 <= j < i ==> project_read(
                    project_rows@[j],
                    left_over(project_rows@, targets, j),
                    #[trigger] projects@[j],
                ),
        decreases project_rows.len() - i,
    {
        let row = &project_rows[i];
        let ghost count = project_rows@.len() as int;
        proof {
            lemma_no_head_fault(project_rows@, count, i as int);
        }
        let head = match read_head(row) {
            Ok(head) => head,
            Err(error) => return Err(failed_row(DECODE_ROW, error)),
        };
        let status = match read_status(row.status.as_str()) {
            Some(status) => status,
            None => {
                proof {
                    lemma_bodies_fault(project_rows@, targets, i + 1, count);
                }
                return Err(invalid_value("Infrastructure Project status"));
            },
        };
        let kind = match read_kind(row, head.id, &mut tables) {
            Ok(kind) => kind,
            Err(error) => {
                proof {
                    lemma_bodies_fault(project_rows@, targets, i + 1, count);
                }
                return Err(LoadError::Save(error));
            },
        };
        projects.push(
            InfrastructureProject {
                id: head.id,
                kind,
                status,
                timeline: head.timeline,
                funding: head.funding,
            },
        );
        i += 1;
    }
    if tables.lines.len() != 0 || tables.stations.len() != 0 || tables.planned_stations.len() != 0
        || tables.planned_lines.len() != 0 {
        return Err(invalid_value("orphan infrastructure project payload"));
    }
    Ok(projects)
}

} // verus!
