//! What the project tables keep: projects that are written read back as they were.

use vstd::prelude::*;

use super::projects::{
    body_fault, bodies_fault, head_fault, heads_fault, kind_text, left_over, line_owners,
    line_row_spells, line_target_fault, line_targets_fault, named_lines, named_stations,
    planned_line_fault, planned_line_fields, planned_line_owners, planned_line_row_spells,
    planned_lines, planned_lines_fault, planned_station_fault, planned_station_owners,
    planned_station_row_spells, planned_stations, planned_stations_fault, project_read,
    project_written, projects_failure, projects_read, projects_written, row_id, station_owners,
    station_row_spells, station_target_fault, station_targets_fault, status_text, targets_of,
    PlannedLineRow, PlannedStationRow, ProjectLineRow, ProjectRows, ProjectStationRow, Targets,
};
use super::targets::{
    flat, items_of, lemma_items_of_flat, lemma_items_of_others, lemma_no_items, spread, unplaced,
};
use super::world::{lemma_line_of, line_round_trip};
use crate::model::ids::InfrastructureProjectId;
use crate::model::project::{InfrastructureProject, InfrastructureProjectKind};

verus! {

/// A project whose values lie in the domains of their units.
pub open spec fn project_wf(project: InfrastructureProject) -> bool {
    &&& project.funding.access_fee_discount is Some ==> project.funding.access_fee_discount->0.basis_points
        > 0
    &&& match project.kind {
        InfrastructureProjectKind::NewLine { planned_lines, .. } => forall|i: int|
            0 <= i < planned_lines@.len() ==> (#[trigger] planned_lines@[i]).wf(),
        InfrastructureProjectKind::SpeedUpgrade { target_speed_limit, .. } =>
            target_speed_limit.wf(),
        InfrastructureProjectKind::DoubleTracking { target_track_count, .. } =>
            target_track_count.wf(),
        _ => true,
    }
}

/// Whether two projects build or improve the same things.
pub open spec fn same_kind(
    first: InfrastructureProjectKind,
    second: InfrastructureProjectKind,
) -> bool {
    match (first, second) {
        (
            InfrastructureProjectKind::NewLine { planned_stations: a, planned_lines: b },
            InfrastructureProjectKind::NewLine { planned_stations: c, planned_lines: d },
        ) => a@ == c@ && b@ == d@,
        (
            InfrastructureProjectKind::SpeedUpgrade { rail_line_ids: a, target_speed_limit: b },
            InfrastructureProjectKind::SpeedUpgrade { rail_line_ids: c, target_speed_limit: d },
        ) => a@ == c@ && b == d,
        (
            InfrastructureProjectKind::DoubleTracking { rail_line_ids: a, target_track_count: b },
            InfrastructureProjectKind::DoubleTracking { rail_line_ids: c, target_track_count: d },
        ) => a@ == c@ && b == d,
        (
            InfrastructureProjectKind::Electrification { rail_line_ids: a },
            InfrastructureProjectKind::Electrification { rail_line_ids: b },
        ) => a@ == b@,
        (
            InfrastructureProjectKind::Renewal { rail_line_ids: a },
            InfrastructureProjectKind::Renewal { rail_line_ids: b },
        ) => a@ == b@,
        (
            InfrastructureProjectKind::StationUpgrade { rail_station_ids: a },
            InfrastructureProjectKind::StationUpgrade { rail_station_ids: b },
        ) => a@ == b@,
        _ => false,
    }
}

pub open spec fn same_project(first: InfrastructureProject, second: InfrastructureProject) -> bool {
    &&& first.id == second.id
    &&& first.status == second.status
    &&& first.timeline == second.timeline
    &&& first.funding == second.funding
    &&& same_kind(first.kind, second.kind)
}

/// The same project rows, and the same entries in an order that may mix the projects but
/// keeps each project's own entries in order.
pub open spec fn regrouped(written: ProjectRows, read: ProjectRows) -> bool {
    &&& read.projects@ == written.projects@
    &&& forall|i: int|
        0 <= i < read.rail_lines@.len() ==> written.rail_lines@.contains(
            #[trigger] read.rail_lines@[i],
        )
    &&& forall|i: int|
        0 <= i < read.rail_stations@.len() ==> written.rail_stations@.contains(
            #[trigger] read.rail_stations@[i],
        )
    &&& forall|i: int|
        0 <= i < read.planned_stations@.len() ==> written.planned_stations@.contains(
            #[trigger] read.planned_stations@[i],
        )
    &&& forall|i: int|
        0 <= i < read.planned_lines@.len() ==> written.planned_lines@.contains(
            #[trigger] read.planned_lines@[i],
        )
    &&& forall|id: InfrastructureProjectId|
        {
            &&& #[trigger] items_of(targets_of(read).lines, id) == items_of(
                targets_of(written).lines,
                id,
            )
        }
    &&& forall|id: InfrastructureProjectId|
        {
            &&& #[trigger] items_of(targets_of(read).stations, id) == items_of(
                targets_of(written).stations,
                id,
            )
        }
    &&& forall|id: InfrastructureProjectId|
        {
            &&& #[trigger] items_of(targets_of(read).planned_stations, id) == items_of(
                targets_of(written).planned_stations,
                id,
            )
        }
    &&& forall|id: InfrastructureProjectId|
        {
            &&& #[trigger] items_of(targets_of(read).planned_lines, id) == items_of(
                targets_of(written).planned_lines,
                id,
            )
        }
}

/// Whether the entries of a project in the tables are the project's own.
spec fn owns_items(targets: Targets, project: InfrastructureProject) -> bool {
    &&& items_of(targets.lines, project.id) == named_lines(project.kind)
    &&& items_of(targets.stations, project.id) == named_stations(project.kind)
    &&& items_of(targets.planned_stations, project.id) == planned_stations(project.kind)
    &&& items_of(targets.planned_lines, project.id) == planned_lines(project.kind)
}

spec fn has_nothing(targets: Targets, id: InfrastructureProjectId) -> bool {
    &&& items_of(targets.lines, id).len() == 0
    &&& items_of(targets.stations, id).len() == 0
    &&& items_of(targets.planned_stations, id).len() == 0
    &&& items_of(targets.planned_lines, id).len() == 0
}

spec fn distinct(projects: Seq<InfrastructureProject>) -> bool {
    forall|i: int, j: int|
        0 <= i < j < projects.len() ==> (#[trigger] projects[i]).id != (#[trigger] projects[j]).id
}

spec fn all_wf(projects: Seq<InfrastructureProject>) -> bool {
    forall|i: int| 0 <= i < projects.len() ==> project_wf(#[trigger] projects[i])
}

/// The rows of planned Rail Lines hold Rail Lines of some project.
proof fn lemma_flat_lines_wf(projects: Seq<InfrastructureProject>, k: int)
    requires
        all_wf(projects),
        0 <= k < flat(planned_line_owners(projects)).len(),
    ensures
        flat(planned_line_owners(projects))[k].2.wf(),
    decreases projects.len(),
{
    let owners = planned_line_owners(projects);
    if projects.len() > 0 {
        let shorter = projects.drop_last();
        assert(owners.drop_last() =~= planned_line_owners(shorter));
        let front = flat(owners.drop_last());
        if k < front.len() {
            assert forall|i: int| 0 <= i < shorter.len() implies project_wf(
                #[trigger] shorter[i],
            ) by {
                assert(shorter[i] == projects[i]);
            }
            lemma_flat_lines_wf(shorter, k);
        } else {
            let last = projects.last();
            assert(project_wf(projects[projects.len() - 1]));
            let items = planned_lines(last.kind);
            assert(owners.last() == (last.id, items));
            let m = k - front.len();
            assert(flat(owners)[k] == spread(last.id, items)[m]);
            assert(items[m].wf());
        }
    } else {
        assert(owners =~= Seq::empty());
    }
}

/// The entries of the written tables are those of the projects, one after the other.
proof fn lemma_written_entries(rows: ProjectRows, projects: Seq<InfrastructureProject>)
    requires
        projects_written(rows, projects),
        all_wf(projects),
    ensures
        targets_of(rows).lines == unplaced(flat(line_owners(projects))),
        targets_of(rows).stations == unplaced(flat(station_owners(projects))),
        targets_of(rows).planned_stations == unplaced(flat(planned_station_owners(projects))),
        targets_of(rows).planned_lines == unplaced(flat(planned_line_owners(projects))),
        forall|i: int|
            0 <= i < rows.rail_lines@.len() ==> line_target_fault(#[trigger] rows.rail_lines@[i])
                is None,
        forall|i: int|
            0 <= i < rows.rail_stations@.len() ==> station_target_fault(
                #[trigger] rows.rail_stations@[i],
            ) is None,
        forall|i: int|
            0 <= i < rows.planned_stations@.len() ==> planned_station_fault(
                #[trigger] rows.planned_stations@[i],
            ) is None,
        forall|i: int|
            0 <= i < rows.planned_lines@.len() ==> planned_line_fault(
                #[trigger] rows.planned_lines@[i],
            ) is None,
{
    let lines = flat(line_owners(projects));
    let stations = flat(station_owners(projects));
    let new_stations = flat(planned_station_owners(projects));
    let new_lines = flat(planned_line_owners(projects));
    assert forall|i: int| 0 <= i < lines.len() implies targets_of(rows).lines[i] == unplaced(
        lines,
    )[i] by {
        assert(line_row_spells(rows.rail_lines@[i], lines[i]));
    }
    assert(targets_of(rows).lines =~= unplaced(lines));
    assert forall|i: int| 0 <= i < stations.len() implies targets_of(rows).stations[i] == unplaced(
        stations,
    )[i] by {
        assert(station_row_spells(rows.rail_stations@[i], stations[i]));
    }
    assert(targets_of(rows).stations =~= unplaced(stations));
    assert forall|i: int| 0 <= i < new_stations.len() implies targets_of(rows).planned_stations[i]
        == unplaced(new_stations)[i] by {
        assert(planned_station_row_spells(rows.planned_stations@[i], new_stations[i]));
    }
    assert(targets_of(rows).planned_stations =~= unplaced(new_stations));
    assert forall|i: int| 0 <= i < new_lines.len() implies targets_of(rows).planned_lines[i]
        == unplaced(new_lines)[i] by {
        assert(planned_line_row_spells(rows.planned_lines@[i], new_lines[i]));
        assert(super::world::line_read(rows.planned_lines@[i].line, new_lines[i].2));
        lemma_line_of(rows.planned_lines@[i].line, new_lines[i].2);
    }
    assert(targets_of(rows).planned_lines =~= unplaced(new_lines));
    assert forall|i: int| 0 <= i < rows.planned_lines@.len() implies planned_line_fault(
        #[trigger] rows.planned_lines@[i],
    ) is None by {
        assert(planned_line_row_spells(rows.planned_lines@[i], new_lines[i]));
        lemma_flat_lines_wf(projects, i);
        line_round_trip(rows.planned_lines@[i].line, new_lines[i].1, new_lines[i].2);
        let fields = planned_line_fields();
        assert(super::world::line_fault(rows.planned_lines@[i].line, fields) is None);
    }
    assert forall|i: int| 0 <= i < rows.rail_lines@.len() implies line_target_fault(
        #[trigger] rows.rail_lines@[i],
    ) is None by {
        assert(line_row_spells(rows.rail_lines@[i], lines[i]));
    }
    assert forall|i: int| 0 <= i < rows.rail_stations@.len() implies station_target_fault(
        #[trigger] rows.rail_stations@[i],
    ) is None by {
        assert(station_row_spells(rows.rail_stations@[i], stations[i]));
    }
    assert forall|i: int| 0 <= i < rows.planned_stations@.len() implies planned_station_fault(
        #[trigger] rows.planned_stations@[i],
    ) is None by {
        assert(planned_station_row_spells(rows.planned_stations@[i], new_stations[i]));
    }
}

/// Every project finds its own entries, and no other identity has any.
proof fn lemma_owned_items(
    written: ProjectRows,
    read: ProjectRows,
    projects: Seq<InfrastructureProject>,
    id: InfrastructureProjectId,
)
    requires
        projects_written(written, projects),
        regrouped(written, read),
        distinct(projects),
        all_wf(projects),
    ensures
        forall|i: int|
            0 <= i < projects.len() && (#[trigger] projects[i]).id == id ==> owns_items(
                targets_of(read),
                projects[i],
            ),
        (forall|i: int| 0 <= i < projects.len() ==> (#[trigger] projects[i]).id != id)
            ==> has_nothing(targets_of(read), id),
{
    lemma_written_entries(written, projects);
    let a = line_owners(projects);
    let b = station_owners(projects);
    let c = planned_station_owners(projects);
    let d = planned_line_owners(projects);
    assert forall|i: int, j: int| 0 <= i < j < projects.len() implies #[trigger] a[i].0 != (
    #[trigger] a[j]).0 by {
        assert(projects[i].id != projects[j].id);
    }
    assert forall|i: int, j: int| 0 <= i < j < projects.len() implies #[trigger] b[i].0 != (
    #[trigger] b[j]).0 by {
        assert(projects[i].id != projects[j].id);
    }
    assert forall|i: int, j: int| 0 <= i < j < projects.len() implies #[trigger] c[i].0 != (
    #[trigger] c[j]).0 by {
        assert(projects[i].id != projects[j].id);
    }
    assert forall|i: int, j: int| 0 <= i < j < projects.len() implies #[trigger] d[i].0 != (
    #[trigger] d[j]).0 by {
        assert(projects[i].id != projects[j].id);
    }
    lemma_items_of_flat(a, id);
    lemma_items_of_flat(b, id);
    lemma_items_of_flat(c, id);
    lemma_items_of_flat(d, id);
    let t = targets_of(read);
    assert(items_of(t.lines, id) == items_of(targets_of(written).lines, id));
    assert(items_of(t.stations, id) == items_of(targets_of(written).stations, id));
    assert(items_of(t.planned_stations, id) == items_of(targets_of(written).planned_stations, id));
    assert(items_of(t.planned_lines, id) == items_of(targets_of(written).planned_lines, id));
    assert forall|i: int| 0 <= i < projects.len() && (#[trigger] projects[i]).id
        == id implies owns_items(t, projects[i]) by {
        assert(a[i].0 == id && b[i].0 == id && c[i].0 == id && d[i].0 == id);
    }
    if forall|i: int| 0 <= i < projects.len() ==> (#[trigger] projects[i]).id != id {
        assert forall|i: int| 0 <= i < projects.len() implies #[trigger] a[i].0 != id by {
            assert(projects[i].id != id);
        }
        assert forall|i: int| 0 <= i < projects.len() implies #[trigger] b[i].0 != id by {
            assert(projects[i].id != id);
        }
        assert forall|i: int| 0 <= i < projects.len() implies #[trigger] c[i].0 != id by {
            assert(projects[i].id != id);
        }
        assert forall|i: int| 0 <= i < projects.len() implies #[trigger] d[i].0 != id by {
            assert(projects[i].id != id);
        }
    }
}

proof fn lemma_kind_distinct()
    ensures
        "new_line"@ != "station_upgrade"@,
        forall|kind: InfrastructureProjectKind|
            {
                &&& (#[trigger] kind_text(kind) == "new_line"@) == (kind is NewLine)
                &&& (kind_text(kind) == "speed_upgrade"@) == (kind is SpeedUpgrade)
                &&& (kind_text(kind) == "double_tracking"@) == (kind is DoubleTracking)
                &&& (kind_text(kind) == "electrification"@) == (kind is Electrification)
                &&& (kind_text(kind) == "renewal"@) == (kind is Renewal)
                &&& (kind_text(kind) == "station_upgrade"@) == (kind is StationUpgrade)
            },
{
    reveal_strlit("new_line");
    reveal_strlit("speed_upgrade");
    reveal_strlit("double_tracking");
    reveal_strlit("electrification");
    reveal_strlit("renewal");
    reveal_strlit("station_upgrade");
    assert("new_line"@.len() == 8);
    assert("speed_upgrade"@.len() == 13);
    assert("double_tracking"@.len() == 15 && "double_tracking"@[0] == 'd');
    assert("electrification"@.len() == 15 && "electrification"@[0] == 'e');
    assert("renewal"@.len() == 7);
    assert("station_upgrade"@.len() == 15 && "station_upgrade"@[0] == 's');
}

/// What a project's identity still finds when the first `count` rows have claimed theirs.
proof fn lemma_left_over(
    written: ProjectRows,
    read: ProjectRows,
    projects: Seq<InfrastructureProject>,
    count: int,
    id: InfrastructureProjectId,
)
    requires
        projects_written(written, projects),
        regrouped(written, read),
        distinct(projects),
        all_wf(projects),
        0 <= count <= projects.len(),
    ensures
        forall|i: int|
            count <= i < projects.len() && (#[trigger] projects[i]).id == id ==> owns_items(
                left_over(read.projects@, targets_of(read), count),
                projects[i],
            ),
        (forall|i: int| count <= i < projects.len() ==> (#[trigger] projects[i]).id != id)
            ==> has_nothing(left_over(read.projects@, targets_of(read), count), id),
    decreases count,
{
    let rows = read.projects@;
    let targets = targets_of(read);
    if count == 0 {
        lemma_owned_items(written, read, projects, id);
    } else {
        let n = count - 1;
        let before = left_over(rows, targets, n);
        let after = left_over(rows, targets, count);
        let kind = rows[n].kind@;
        let taken = row_id(rows[n]);
        lemma_left_over(written, read, projects, n, id);
        assert(project_written(written.projects@[n], n, projects[n]));
        assert(taken == projects[n].id);
        lemma_kind_distinct();
        assert(kind == kind_text(projects[n].kind));
        lemma_items_of_others(before.lines, taken, id);
        lemma_items_of_others(before.stations, taken, id);
        lemma_items_of_others(before.planned_stations, taken, id);
        lemma_items_of_others(before.planned_lines, taken, id);
        assert(after == before.without(kind, taken));
        if taken == id {
            assert(owns_items(before, projects[n]));
            assert forall|i: int| count <= i < projects.len() implies (#[trigger] projects[i]).id
                != id by {
                assert(projects[n].id != projects[i].id);
            }
            assert(has_nothing(after, id));
        } else {
            if forall|i: int| count <= i < projects.len() ==> (#[trigger] projects[i]).id != id {
                assert forall|i: int| n <= i < projects.len() implies (#[trigger] projects[i]).id
                    != id by {
                    if i == n {
                    }
                }
                assert(has_nothing(before, id));
            }
        }
    }
}

proof fn lemma_body(
    written: ProjectRows,
    read: ProjectRows,
    projects: Seq<InfrastructureProject>,
    i: int,
)
    requires
        projects_written(written, projects),
        regrouped(written, read),
        distinct(projects),
        all_wf(projects),
        0 <= i < projects.len(),
    ensures
        body_fault(read.projects@[i], left_over(read.projects@, targets_of(read), i)) is None,
        head_fault(read.projects@[i]) is None,
        forall|other: InfrastructureProject| #[trigger]
            project_read(
                read.projects@[i],
                left_over(read.projects@, targets_of(read), i),
                other,
            ) ==> same_project(projects[i], other),
{
    let row = read.projects@[i];
    let left = left_over(read.projects@, targets_of(read), i);
    let project = projects[i];
    assert(project_written(written.projects@[i], i, project));
    assert(project_wf(project));
    lemma_left_over(written, read, projects, i, project.id);
    assert(owns_items(left, project));
    assert(row_id(row) == project.id);
    lemma_kind_distinct();
    assert(row.status@ == status_text(project.status));
    assert(super::projects::is_status(row.status@));
    assert forall|other: InfrastructureProject| #[trigger]
        project_read(row, left, other) implies same_project(project, other) by {
        assert(kind_text(project.kind) == kind_text(other.kind));
        super::projects::lemma_status_injective(project.status, other.status);
        assert(project.timeline == other.timeline);
        assert(project.funding == other.funding);
    }
}

proof fn lemma_no_faults(
    written: ProjectRows,
    read: ProjectRows,
    projects: Seq<InfrastructureProject>,
    count: int,
)
    requires
        projects_written(written, projects),
        regrouped(written, read),
        distinct(projects),
        all_wf(projects),
        0 <= count <= projects.len(),
    ensures
        heads_fault(read.projects@, count) is None,
        bodies_fault(read.projects@, targets_of(read), count) is None,
    decreases count,
{
    if count > 0 {
        lemma_no_faults(written, read, projects, count - 1);
        lemma_body(written, read, projects, count - 1);
    }
}

proof fn lemma_no_line_targets_fault(rows: Seq<ProjectLineRow>, count: int)
    requires
        0 <= count <= rows.len(),
        forall|i: int| 0 <= i < rows.len() ==> line_target_fault(#[trigger] rows[i]) is None,
    ensures
        line_targets_fault(rows, count) is None,
    decreases count,
{
    if count > 0 {
        lemma_no_line_targets_fault(rows, count - 1);
        assert(line_target_fault(rows[count - 1]) is None);
    }
}

proof fn lemma_no_station_targets_fault(rows: Seq<ProjectStationRow>, count: int)
    requires
        0 <= count <= rows.len(),
        forall|i: int| 0 <= i < rows.len() ==> station_target_fault(#[trigger] rows[i]) is None,
    ensures
        station_targets_fault(rows, count) is None,
    decreases count,
{
    if count > 0 {
        lemma_no_station_targets_fault(rows, count - 1);
        assert(station_target_fault(rows[count - 1]) is None);
    }
}

proof fn lemma_no_planned_stations_fault(rows: Seq<PlannedStationRow>, count: int)
    requires
        0 <= count <= rows.len(),
        forall|i: int| 0 <= i < rows.len() ==> planned_station_fault(#[trigger] rows[i]) is None,
    ensures
        planned_stations_fault(rows, count) is None,
    decreases count,
{
    if count > 0 {
        lemma_no_planned_stations_fault(rows, count - 1);
        assert(planned_station_fault(rows[count - 1]) is None);
    }
}

proof fn lemma_no_planned_lines_fault(rows: Seq<PlannedLineRow>, count: int)
    requires
        0 <= count <= rows.len(),
        forall|i: int| 0 <= i < rows.len() ==> planned_line_fault(#[trigger] rows[i]) is None,
    ensures
        planned_lines_fault(rows, count) is None,
    decreases count,
{
    if count > 0 {
        lemma_no_planned_lines_fault(rows, count - 1);
        assert(planned_line_fault(rows[count - 1]) is None);
    }
}

/// Written projects with distinct identities read back as they were, in whatever order the
/// tables list the entries of different projects.
pub proof fn projects_round_trip(
    written: ProjectRows,
    read: ProjectRows,
    projects: Seq<InfrastructureProject>,
)
    requires
        projects_written(written, projects),
        regrouped(written, read),
        forall|i: int, j: int|
            0 <= i < j < projects.len() ==> (#[trigger] projects[i]).id != (
            #[trigger] projects[j]).id,
        forall|i: int| 0 <= i < projects.len() ==> project_wf(#[trigger] projects[i]),
    ensures
        projects_failure(read) is None,
        forall|others: Seq<InfrastructureProject>| #[trigger]
            projects_read(read, others) ==> {
                &&& others.len() == projects.len()
                &&& forall|i: int|
                    0 <= i < projects.len() ==> same_project(projects[i], #[trigger] others[i])
            },
{
    let count = projects.len() as int;
    let targets = targets_of(read);
    lemma_written_entries(written, projects);
    lemma_no_faults(written, read, projects, count);
    assert forall|i: int| 0 <= i < read.rail_lines@.len() implies line_target_fault(
        #[trigger] read.rail_lines@[i],
    ) is None by {
        assert(written.rail_lines@.contains(read.rail_lines@[i]));
    }
    assert forall|i: int| 0 <= i < read.rail_stations@.len() implies station_target_fault(
        #[trigger] read.rail_stations@[i],
    ) is None by {
        assert(written.rail_stations@.contains(read.rail_stations@[i]));
    }
    assert forall|i: int| 0 <= i < read.planned_stations@.len() implies planned_station_fault(
        #[trigger] read.planned_stations@[i],
    ) is None by {
        assert(written.planned_stations@.contains(read.planned_stations@[i]));
    }
    assert forall|i: int| 0 <= i < read.planned_lines@.len() implies planned_line_fault(
        #[trigger] read.planned_lines@[i],
    ) is None by {
        assert(written.planned_lines@.contains(read.planned_lines@[i]));
    }
    lemma_no_line_targets_fault(read.rail_lines@, read.rail_lines@.len() as int);
    lemma_no_station_targets_fault(read.rail_stations@, read.rail_stations@.len() as int);
    lemma_no_planned_stations_fault(read.planned_stations@, read.planned_stations@.len() as int);
    lemma_no_planned_lines_fault(read.planned_lines@, read.planned_lines@.len() as int);
    let left = left_over(read.projects@, targets, count);
    assert forall|id: InfrastructureProjectId| has_nothing(left, id) by {
        lemma_left_over(written, read, projects, count, id);
    }
    assert forall|id: InfrastructureProjectId| #[trigger] items_of(left.lines, id).len() == 0 by {
        assert(has_nothing(left, id));
    }
    assert forall|id: InfrastructureProjectId| #[trigger] items_of(left.stations, id).len()
        == 0 by {
        assert(has_nothing(left, id));
    }
    assert forall|id: InfrastructureProjectId| #[trigger] items_of(left.planned_stations, id).len()
        == 0 by {
        assert(has_nothing(left, id));
    }
    assert forall|id: InfrastructureProjectId| #[trigger] items_of(left.planned_lines, id).len()
        == 0 by {
        assert(has_nothing(left, id));
    }
    lemma_no_items(left.lines);
    lemma_no_items(left.stations);
    lemma_no_items(left.planned_stations);
    lemma_no_items(left.planned_lines);
    assert forall|others: Seq<InfrastructureProject>| #[trigger]
        projects_read(read, others) implies others.len() == projects.len() && forall|i: int|
        0 <= i < projects.len() ==> same_project(projects[i], #[trigger] others[i]) by {
        assert forall|i: int| 0 <= i < projects.len() implies same_project(
            projects[i],
            #[trigger] others[i],
        ) by {
            lemma_body(written, read, projects, i);
            assert(project_read(
                read.projects@[i],
                left_over(read.projects@, targets, i),
                others[i],
            ));
        }
    }
}

} // verus!
