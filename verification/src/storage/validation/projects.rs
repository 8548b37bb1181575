//! Checks of the Rail Authority's Infrastructure Projects.

use vstd::prelude::*;

use super::fault::{
    check_identities, dangling, has_repeat, identity_fault, impossible, invalid_value, outcome,
    repeats, SaveValidationError,
};
use super::network::{collect_line_values, collect_station_values, line_values, station_values};
use crate::model::ids::{is_version_four, RailLineId, RailStationId};
use crate::model::network::{
    find_line, find_settlement, find_station, has_line, has_settlement, has_station, RailLine,
    RailStation, Settlement,
};
use crate::model::project::{
    conflict, InfrastructureProject, InfrastructureProjectKind, InfrastructureProjectStatus,
    RailAuthority,
};
use crate::model::units::{money_sum, Money};

verus! {

pub open spec fn project_values(projects: Seq<InfrastructureProject>) -> Seq<u128> {
    Seq::new(projects.len(), |i: int| projects[i].id.value)
}

fn collect_project_values(projects: &Vec<InfrastructureProject>) -> (result: Vec<u128>)
    ensures
        result@ == project_values(projects@),
{
    let mut result: Vec<u128> = Vec::new();
    let mut i: usize = 0;
    while i < projects.len()
        invariant
            i <= projects.len(),
            result@.len() == i,
            forall|j: int| 0 <= j < i ==> #[trigger] result@[j] == projects@[j].id.value,
        decreases projects.len() - i,
    {
        result.push(projects[i].id.value);
        i += 1;
    }
    assert(result@ =~= project_values(projects@));
    result
}

/// What is wrong with the funding of one project.
pub open spec fn funding_fault(project: InfrastructureProject) -> Option<SaveValidationError> {
    let funding = project.funding;
    if funding.estimated_cost.cents < 0 || funding.authority_committed.cents < 0
        || funding.operator_contributed.cents < 0 {
        invalid_value("Infrastructure Project funding amount")
    } else if funding.funded() is Err {
        Some(SaveValidationError::Calculation(funding.funded()->Err_0))
    } else if funding.funded()->Ok_0.cents > funding.estimated_cost.cents {
        impossible("Infrastructure Project funding exceeds estimated cost")
    } else if funding.operator_contributed.cents > funding.operator_cap() {
        impossible("Infrastructure Project operator contribution exceeds its cap")
    } else {
        match funding.access_fee_discount {
            Some(discount) => if discount.basis_points == 0 || discount.basis_points > 10_000 {
                invalid_value("Infrastructure Project access discount basis points")
            } else if funding.operator_contributed.cents <= 0 {
                impossible("Infrastructure Project access discount requires operator contribution")
            } else {
                None
            },
            None => None,
        }
    }
}

fn validate_funding(project: &InfrastructureProject) -> (result: Result<(), SaveValidationError>)
    ensures
        result == outcome(funding_fault(*project)),
{
    let funding = &project.funding;
    if funding.estimated_cost.cents < 0 || funding.authority_committed.cents < 0
        || funding.operator_contributed.cents < 0 {
        return Err(
            SaveValidationError::InvalidValue { field: "Infrastructure Project funding amount" },
        );
    }
    let total = match funding.total_funded() {
        Ok(total) => total,
        Err(error) => return Err(SaveValidationError::Calculation(error)),
    };
    if total.cents > funding.estimated_cost.cents {
        return Err(
            SaveValidationError::ImpossibleState {
                reason: "Infrastructure Project funding exceeds estimated cost",
            },
        );
    }
    let cap = match funding.operator_contribution_cap() {
        Ok(cap) => cap,
        Err(error) => return Err(SaveValidationError::Calculation(error)),
    };
    if funding.operator_contributed.cents > cap.cents {
        return Err(
            SaveValidationError::ImpossibleState {
                reason: "Infrastructure Project operator contribution exceeds its cap",
            },
        );
    }
    if let Some(discount) = funding.access_fee_discount {
        if discount.basis_points == 0 || discount.basis_points > 10_000 {
            return Err(
                SaveValidationError::InvalidValue {
                    field: "Infrastructure Project access discount basis points",
                },
            );
        }
        if funding.operator_contributed.cents <= 0 {
            return Err(
                SaveValidationError::ImpossibleState {
                    reason: "Infrastructure Project access discount requires operator contribution",
                },
            );
        }
    }
    Ok(())
}

/// Whether a project in this status no longer binds the Authority's money.
pub open spec fn settled(status: InfrastructureProjectStatus) -> bool {
    status is Open || status is Rejected || status is Cancelled
}

/// The Authority's money bound by the first `count` projects, or the first fault among them.
pub open spec fn commitments(projects: Seq<InfrastructureProject>, count: int) -> Result<
    Money,
    SaveValidationError,
>
    decreases count,
{
    if count <= 0 {
        Ok(Money { cents: 0 })
    } else {
        let project = projects[count - 1];
        match commitments(projects, count - 1) {
            Err(error) => Err(error),
            Ok(total) => match funding_fault(project) {
                Some(error) => Err(error),
                None => if settled(project.status) {
                    Ok(total)
                } else {
                    match money_sum(
                        total.cents as int,
                        project.funding.authority_committed.cents as int,
                    ) {
                        Ok(sum) => Ok(sum),
                        Err(error) => Err(SaveValidationError::Calculation(error)),
                    }
                },
            },
        }
    }
}

proof fn lemma_commitments_fail(projects: Seq<InfrastructureProject>, low: int, high: int)
    requires
        low <= high,
        commitments(projects, low) is Err,
    ensures
        commitments(projects, high) == commitments(projects, low),
    decreases high - low,
{
    if low < high {
        lemma_commitments_fail(projects, low, high - 1);
    }
}

fn total_commitments(projects: &Vec<InfrastructureProject>) -> (result: Result<
    Money,
    SaveValidationError,
>)
    ensures
        result == commitments(projects@, projects@.len() as int),
{
    let mut total = Money::zero();
    let mut i: usize = 0;
    while i < projects.len()
        invariant
            i <= projects.len(),
            commitments(projects@, i as int) == Ok::<Money, SaveValidationError>(total),
        decreases projects.len() - i,
    {
        let project = &projects[i];
        if let Err(error) = validate_funding(project) {
            proof {
                lemma_commitments_fail(projects@, i + 1, projects@.len() as int);
            }
            return Err(error);
        }
        if !matches!(
            project.status,
            InfrastructureProjectStatus::Open | InfrastructureProjectStatus::Rejected
                | InfrastructureProjectStatus::Cancelled
        ) {
            match total.checked_add(project.funding.authority_committed) {
                Ok(sum) => {
                    total = sum;
                },
                Err(error) => {
                    proof {
                        lemma_commitments_fail(projects@, i + 1, projects@.len() as int);
                    }
                    return Err(SaveValidationError::Calculation(error));
                },
            }
        }
        i += 1;
    }
    Ok(total)
}

pub open spec fn plans_station(kind: InfrastructureProjectKind, id: RailStationId) -> bool {
    match kind {
        InfrastructureProjectKind::NewLine { planned_stations, .. } => has_station(
            planned_stations@,
            id,
        ),
        _ => false,
    }
}

pub open spec fn plans_line(kind: InfrastructureProjectKind, id: RailLineId) -> bool {
    match kind {
        InfrastructureProjectKind::NewLine { planned_lines, .. } => has_line(planned_lines@, id),
        _ => false,
    }
}

/// Whether one of the first `count` projects plans a Rail Station with this identity.
pub open spec fn station_reserved(
    projects: Seq<InfrastructureProject>,
    count: int,
    id: RailStationId,
) -> bool {
    exists|j: int| 0 <= j < count && plans_station((#[trigger] projects[j]).kind, id)
}

/// Whether one of the first `count` projects plans a Rail Line with this identity.
pub open spec fn line_reserved(
    projects: Seq<InfrastructureProject>,
    count: int,
    id: RailLineId,
) -> bool {
    exists|j: int| 0 <= j < count && plans_line((#[trigger] projects[j]).kind, id)
}

fn is_station_reserved(
    projects: &Vec<InfrastructureProject>,
    count: usize,
    id: RailStationId,
) -> (result: bool)
    requires
        count <= projects@.len(),
    ensures
        result == station_reserved(projects@, count as int, id),
{
    let mut j: usize = 0;
    while j < count
        invariant
            j <= count <= projects@.len(),
            forall|k: int| 0 <= k < j ==> !plans_station((#[trigger] projects@[k]).kind, id),
        decreases count - j,
    {
        if let InfrastructureProjectKind::NewLine { planned_stations, .. } = &projects[j].kind {
            if find_station(planned_stations, id).is_some() {
                assert(plans_station(projects@[j as int].kind, id));
                return true;
            }
        }
        j += 1;
    }
    false
}

fn is_line_reserved(
    projects: &Vec<InfrastructureProject>,
    count: usize,
    id: RailLineId,
) -> (result: bool)
    requires
        count <= projects@.len(),
    ensures
        result == line_reserved(projects@, count as int, id),
{
    let mut j: usize = 0;
    while j < count
        invariant
            j <= count <= projects@.len(),
            forall|k: int| 0 <= k < j ==> !plans_line((#[trigger] projects@[k]).kind, id),
        decreases count - j,
    {
        if let InfrastructureProjectKind::NewLine { planned_lines, .. } = &projects[j].kind {
            if find_line(planned_lines, id).is_some() {
                assert(plans_line(projects@[j as int].kind, id));
                return true;
            }
        }
        j += 1;
    }
    false
}

/// What the checks of one project's payload look at besides the payload.
pub ghost struct PayloadContext {
    pub projects: Seq<InfrastructureProject>,
    pub index: int,
    pub settlements: Seq<Settlement>,
    pub stations: Seq<RailStation>,
    pub lines: Seq<RailLine>,
}

impl PayloadContext {
    pub open spec fn opened(self) -> bool {
        self.projects[self.index].status is Open
    }
}

/// What is wrong with one planned Rail Station.
pub open spec fn planned_station_fault(context: PayloadContext, station: RailStation) -> Option<
    SaveValidationError,
> {
    if !is_version_four(station.id.value) || (!context.opened() && has_station(
        context.stations,
        station.id,
    )) || station_reserved(context.projects, context.index, station.id) {
        Some(SaveValidationError::InvalidId { kind: "planned Rail Station" })
    } else if !has_settlement(context.settlements, station.settlement_id) {
        dangling("planned Rail Station Settlement")
    } else {
        None
    }
}

/// The first fault among the first `count` planned Rail Stations.
pub open spec fn planned_stations_fault(
    context: PayloadContext,
    planned: Seq<RailStation>,
    count: int,
) -> Option<SaveValidationError>
    decreases count,
{
    if count <= 0 {
        None
    } else if planned_stations_fault(context, planned, count - 1) is Some {
        planned_stations_fault(context, planned, count - 1)
    } else {
        planned_station_fault(context, planned[count - 1])
    }
}

proof fn lemma_planned_stations_fault(
    context: PayloadContext,
    planned: Seq<RailStation>,
    low: int,
    high: int,
)
    requires
        low <= high,
        planned_stations_fault(context, planned, low) is Some,
    ensures
        planned_stations_fault(context, planned, high) == planned_stations_fault(
            context,
            planned,
            low,
        ),
    decreases high - low,
{
    if low < high {
        lemma_planned_stations_fault(context, planned, low, high - 1);
    }
}

/// What is wrong with one planned Rail Line, whose endpoints may be planned too.
pub open spec fn planned_line_fault(
    context: PayloadContext,
    planned: Seq<RailStation>,
    line: RailLine,
) -> Option<SaveValidationError> {
    if !is_version_four(line.id.value) || (!context.opened() && has_line(context.lines, line.id))
        || line_reserved(context.projects, context.index, line.id) {
        Some(SaveValidationError::InvalidId { kind: "planned Rail Line" })
    } else if !(has_station(context.stations, line.first_station_id) || has_station(
        planned,
        line.first_station_id,
    )) || !(has_station(context.stations, line.second_station_id) || has_station(
        planned,
        line.second_station_id,
    )) {
        dangling("planned Rail Line endpoint")
    } else if line.first_station_id == line.second_station_id {
        impossible("a planned Rail Line has the same Rail Station at both endpoints")
    } else {
        None
    }
}

/// The first fault among the first `count` planned Rail Lines.
pub open spec fn planned_lines_fault(
    context: PayloadContext,
    planned: Seq<RailStation>,
    lines: Seq<RailLine>,
    count: int,
) -> Option<SaveValidationError>
    decreases count,
{
    if count <= 0 {
        None
    } else if planned_lines_fault(context, planned, lines, count - 1) is Some {
        planned_lines_fault(context, planned, lines, count - 1)
    } else {
        planned_line_fault(context, planned, lines[count - 1])
    }
}

proof fn lemma_planned_lines_fault(
    context: PayloadContext,
    planned: Seq<RailStation>,
    lines: Seq<RailLine>,
    low: int,
    high: int,
)
    requires
        low <= high,
        planned_lines_fault(context, planned, lines, low) is Some,
    ensures
        planned_lines_fault(context, planned, lines, high) == planned_lines_fault(
            context,
            planned,
            lines,
            low,
        ),
    decreases high - low,
{
    if low < high {
        lemma_planned_lines_fault(context, planned, lines, low, high - 1);
    }
}

pub open spec fn line_id_values(ids: Seq<RailLineId>) -> Seq<u128> {
    Seq::new(ids.len(), |i: int| ids[i].value)
}

pub open spec fn station_id_values(ids: Seq<RailStationId>) -> Seq<u128> {
    Seq::new(ids.len(), |i: int| ids[i].value)
}

/// What is wrong with the Rail Lines that an upgrade names.
pub open spec fn line_targets_fault(ids: Seq<RailLineId>, lines: Seq<RailLine>) -> Option<
    SaveValidationError,
> {
    if ids.len() == 0 {
        invalid_value("Infrastructure Project Rail Lines")
    } else if repeats(line_id_values(ids)) {
        Some(SaveValidationError::DuplicateId { kind: "Infrastructure Project Rail Line" })
    } else if exists|i: int| 0 <= i < ids.len() && !has_line(lines, #[trigger] ids[i]) {
        dangling("Infrastructure Project Rail Line")
    } else {
        None
    }
}

/// What is wrong with the Rail Stations that an upgrade names.
pub open spec fn station_targets_fault(
    ids: Seq<RailStationId>,
    stations: Seq<RailStation>,
) -> Option<SaveValidationError> {
    if ids.len() == 0 {
        invalid_value("Infrastructure Project Rail Stations")
    } else if repeats(station_id_values(ids)) {
        Some(SaveValidationError::DuplicateId { kind: "Infrastructure Project Rail Station" })
    } else if exists|i: int| 0 <= i < ids.len() && !has_station(stations, #[trigger] ids[i]) {
        dangling("Infrastructure Project Rail Station")
    } else {
        None
    }
}

/// What is wrong with what one project builds or improves.
pub open spec fn payload_fault(context: PayloadContext) -> Option<SaveValidationError> {
    match context.projects[context.index].kind {
        InfrastructureProjectKind::NewLine { planned_stations, planned_lines } => {
            let stations = planned_stations@;
            let lines = planned_lines@;
            if lines.len() == 0 {
                invalid_value("New Line planned Rail Lines")
            } else if repeats(station_values(stations)) {
                Some(SaveValidationError::DuplicateId { kind: "planned Rail Station" })
            } else if planned_stations_fault(context, stations, stations.len() as int) is Some {
                planned_stations_fault(context, stations, stations.len() as int)
            } else if repeats(line_values(lines)) {
                Some(SaveValidationError::DuplicateId { kind: "planned Rail Line" })
            } else {
                planned_lines_fault(context, stations, lines, lines.len() as int)
            }
        },
        InfrastructureProjectKind::SpeedUpgrade { rail_line_ids, .. } => line_targets_fault(
            rail_line_ids@,
            context.lines,
        ),
        InfrastructureProjectKind::DoubleTracking { rail_line_ids, .. } => line_targets_fault(
            rail_line_ids@,
            context.lines,
        ),
        InfrastructureProjectKind::Electrification { rail_line_ids } => line_targets_fault(
            rail_line_ids@,
            context.lines,
        ),
        InfrastructureProjectKind::Renewal { rail_line_ids } => line_targets_fault(
            rail_line_ids@,
            context.lines,
        ),
        InfrastructureProjectKind::StationUpgrade { rail_station_ids } => station_targets_fault(
            rail_station_ids@,
            context.stations,
        ),
    }
}

fn validate_line_targets(ids: &Vec<RailLineId>, lines: &Vec<RailLine>) -> (result: Result<
    (),
    SaveValidationError,
>)
    ensures
        result == outcome(line_targets_fault(ids@, lines@)),
{
    if ids.len() == 0 {
        return Err(SaveValidationError::InvalidValue { field: "Infrastructure Project Rail Lines" });
    }
    let mut values: Vec<u128> = Vec::new();
    let mut i: usize = 0;
    while i < ids.len()
        invariant
            i <= ids.len(),
            values@.len() == i,
            forall|j: int| 0 <= j < i ==> #[trigger] values@[j] == ids@[j].value,
        decreases ids.len() - i,
    {
        values.push(ids[i].value);
        i += 1;
    }
    assert(values@ =~= line_id_values(ids@));
    if has_repeat(&values) {
        return Err(
            SaveValidationError::DuplicateId { kind: "Infrastructure Project Rail Line" },
        );
    }
    let mut i: usize = 0;
    while i < ids.len()
        invariant
            i <= ids.len(),
            !repeats(line_id_values(ids@)),
            ids@.len() > 0,
            forall|j: int| 0 <= j < i ==> has_line(lines@, #[trigger] ids@[j]),
        decreases ids.len() - i,
    {
        if find_line(lines, ids[i]).is_none() {
            assert(!has_line(lines@, ids@[i as int]));
            return Err(
                SaveValidationError::DanglingReference {
                    field: "Infrastructure Project Rail Line",
                },
            );
        }
        i += 1;
    }
    Ok(())
}

fn validate_station_targets(ids: &Vec<RailStationId>, stations: &Vec<RailStation>) -> (result:
    Result<(), SaveValidationError>)
    ensures
        result == outcome(station_targets_fault(ids@, stations@)),
{
    if ids.len() == 0 {
        return Err(
            SaveValidationError::InvalidValue { field: "Infrastructure Project Rail Stations" },
        );
    }
    let mut values: Vec<u128> = Vec::new();
    let mut i: usize = 0;
    while i < ids.len()
        invariant
            i <= ids.len(),
            values@.len() == i,
            forall|j: int| 0 <= j < i ==> #[trigger] values@[j] == ids@[j].value,
        decreases ids.len() - i,
    {
        values.push(ids[i].value);
        i += 1;
    }
    assert(values@ =~= station_id_values(ids@));
    if has_repeat(&values) {
        return Err(
            SaveValidationError::DuplicateId { kind: "Infrastructure Project Rail Station" },
        );
    }
    let mut i: usize = 0;
    while i < ids.len()
        invariant
            i <= ids.len(),
            !repeats(station_id_values(ids@)),
            ids@.len() > 0,
            forall|j: int| 0 <= j < i ==> has_station(stations@, #[trigger] ids@[j]),
        decreases ids.len() - i,
    {
        if find_station(stations, ids[i]).is_none() {
            assert(!has_station(stations@, ids@[i as int]));
            return Err(
                SaveValidationError::DanglingReference {
                    field: "Infrastructure Project Rail Station",
                },
            );
        }
        i += 1;
    }
    Ok(())
}

pub open spec fn context_of(
    authority: RailAuthority,
    settlements: Seq<Settlement>,
    index: int,
) -> PayloadContext {
    PayloadContext {
        projects: authority.infrastructure_projects@,
        index,
        settlements,
        stations: authority.rail_network.rail_stations@,
        lines: authority.rail_network.rail_lines@,
    }
}

fn validate_new_line(
    authority: &RailAuthority,
    settlements: &Vec<Settlement>,
    index: usize,
    planned_stations: &Vec<RailStation>,
    planned_lines: &Vec<RailLine>,
) -> (result: Result<(), SaveValidationError>)
    requires
        index < authority.infrastructure_projects@.len(),
        authority.infrastructure_projects@[index as int].kind == (
        InfrastructureProjectKind::NewLine {
            planned_stations: *planned_stations,
            planned_lines: *planned_lines,
        }),
    ensures
        result == outcome(payload_fault(context_of(*authority, settlements@, index as int))),
{
    let ghost context = context_of(*authority, settlements@, index as int);
    let projects = &authority.infrastructure_projects;
    let network = &authority.rail_network;
    let opened = matches!(projects[index].status, InfrastructureProjectStatus::Open);
    if planned_lines.len() == 0 {
        return Err(SaveValidationError::InvalidValue { field: "New Line planned Rail Lines" });
    }
    let station_ids = collect_station_values(planned_stations);
    if has_repeat(&station_ids) {
        return Err(SaveValidationError::DuplicateId { kind: "planned Rail Station" });
    }
    let mut i: usize = 0;
    while i < planned_stations.len()
        invariant
            i <= planned_stations.len(),
            context == context_of(*authority, settlements@, index as int),
            projects == authority.infrastructure_projects,
            network == authority.rail_network,
            index < projects@.len(),
            opened == context.opened(),
            projects@[index as int].kind == (InfrastructureProjectKind::NewLine {
                planned_stations: *planned_stations,
                planned_lines: *planned_lines,
            }),
            planned_lines@.len() > 0,
            !repeats(station_values(planned_stations@)),
            planned_stations_fault(context, planned_stations@, i as int) is None,
        decreases planned_stations.len() - i,
    {
        let station = planned_stations[i];
        if !station.id.is_v4() || (!opened && find_station(
            &network.rail_stations,
            station.id,
        ).is_some()) || is_station_reserved(projects, index, station.id) {
            proof {
                lemma_planned_stations_fault(
                    context,
                    planned_stations@,
                    i + 1,
                    planned_stations@.len() as int,
                );
            }
            return Err(SaveValidationError::InvalidId { kind: "planned Rail Station" });
        }
        if find_settlement(settlements, station.settlement_id).is_none() {
            proof {
                lemma_planned_stations_fault(
                    context,
                    planned_stations@,
                    i + 1,
                    planned_stations@.len() as int,
                );
            }
            return Err(
                SaveValidationError::DanglingReference { field: "planned Rail Station Settlement" },
            );
        }
        i += 1;
    }
    let line_ids = collect_line_values(planned_lines);
    if has_repeat(&line_ids) {
        return Err(SaveValidationError::DuplicateId { kind: "planned Rail Line" });
    }
    let mut i: usize = 0;
    while i < planned_lines.len()
        invariant
            i <= planned_lines.len(),
            context == context_of(*authority, settlements@, index as int),
            projects == authority.infrastructure_projects,
            network == authority.rail_network,
            index < projects@.len(),
            opened == context.opened(),
            projects@[index as int].kind == (InfrastructureProjectKind::NewLine {
                planned_stations: *planned_stations,
                planned_lines: *planned_lines,
            }),
            planned_lines@.len() > 0,
            !repeats(station_values(planned_stations@)),
            !repeats(line_values(planned_lines@)),
            planned_stations_fault(context, planned_stations@, planned_stations@.len() as int)
                is None,
            planned_lines_fault(context, planned_stations@, planned_lines@, i as int) is None,
        decreases planned_lines.len() - i,
    {
        let line = planned_lines[i];
        if !line.id.is_v4() || (!opened && find_line(&network.rail_lines, line.id).is_some())
            || is_line_reserved(projects, index, line.id) {
            proof {
                lemma_planned_lines_fault(
                    context,
                    planned_stations@,
                    planned_lines@,
                    i + 1,
                    planned_lines@.len() as int,
                );
            }
            return Err(SaveValidationError::InvalidId { kind: "planned Rail Line" });
        }
        let first_exists = find_station(&network.rail_stations, line.first_station_id).is_some()
            || find_station(planned_stations, line.first_station_id).is_some();
        let second_exists = find_station(&network.rail_stations, line.second_station_id).is_some()
            || find_station(planned_stations, line.second_station_id).is_some();
        if !first_exists || !second_exists {
            proof {
                lemma_planned_lines_fault(
                    context,
                    planned_stations@,
                    planned_lines@,
                    i + 1,
                    planned_lines@.len() as int,
                );
            }
            return Err(
                SaveValidationError::DanglingReference { field: "planned Rail Line endpoint" },
            );
        }
        if line.first_station_id == line.second_station_id {
            proof {
                lemma_planned_lines_fault(
                    context,
                    planned_stations@,
                    planned_lines@,
                    i + 1,
                    planned_lines@.len() as int,
                );
            }
            return Err(
                SaveValidationError::ImpossibleState {
                    reason: "a planned Rail Line has the same Rail Station at both endpoints",
                },
            );
        }
        i += 1;
    }
    Ok(())
}

fn validate_payload(
    authority: &RailAuthority,
    settlements: &Vec<Settlement>,
    index: usize,
) -> (result: Result<(), SaveValidationError>)
    requires
        index < authority.infrastructure_projects@.len(),
    ensures
        result == outcome(payload_fault(context_of(*authority, settlements@, index as int))),
{
    let network = &authority.rail_network;
    match &authority.infrastructure_projects[index].kind {
        InfrastructureProjectKind::NewLine { planned_stations, planned_lines } => validate_new_line(
            authority,
            settlements,
            index,
            planned_stations,
            planned_lines,
        ),
        InfrastructureProjectKind::SpeedUpgrade { rail_line_ids, .. } => validate_line_targets(
            rail_line_ids,
            &network.rail_lines,
        ),
        InfrastructureProjectKind::DoubleTracking { rail_line_ids, .. } => validate_line_targets(
            rail_line_ids,
            &network.rail_lines,
        ),
        InfrastructureProjectKind::Electrification { rail_line_ids } => validate_line_targets(
            rail_line_ids,
            &network.rail_lines,
        ),
        InfrastructureProjectKind::Renewal { rail_line_ids } => validate_line_targets(
            rail_line_ids,
            &network.rail_lines,
        ),
        InfrastructureProjectKind::StationUpgrade { rail_station_ids } => validate_station_targets(
            rail_station_ids,
            &network.rail_stations,
        ),
    }
}

/// The first fault among the payloads of the first `count` projects.
pub open spec fn payloads_fault(
    authority: RailAuthority,
    settlements: Seq<Settlement>,
    count: int,
) -> Option<SaveValidationError>
    decreases count,
{
    if count <= 0 {
        None
    } else if payloads_fault(authority, settlements, count - 1) is Some {
        payloads_fault(authority, settlements, count - 1)
    } else {
        payload_fault(context_of(authority, settlements, count - 1))
    }
}

proof fn lemma_payloads_fault(
    authority: RailAuthority,
    settlements: Seq<Settlement>,
    low: int,
    high: int,
)
    requires
        low <= high,
        payloads_fault(authority, settlements, low) is Some,
    ensures
        payloads_fault(authority, settlements, high) == payloads_fault(authority, settlements, low),
    decreases high - low,
{
    if low < high {
        lemma_payloads_fault(authority, settlements, low, high - 1);
    }
}

/// What is wrong with a project's place in its lifecycle. A project under construction is
/// fully funded and carries either none of its construction timestamps or all of them in order.
pub open spec fn lifecycle_fault(project: InfrastructureProject) -> Option<SaveValidationError> {
    let timeline = project.timeline;
    if project.status is Scheduled && (!project.funding.fully_funded()
        || timeline.funding_completed_at is None || timeline.scheduled_start_at is None) {
        impossible("scheduled Infrastructure Project is not fully funded and scheduled")
    } else if project.status is Construction {
        match (
            timeline.scheduled_start_at,
            timeline.construction_started_at,
            timeline.planned_completion_at,
        ) {
            (None, None, None) => if !project.funding.fully_funded() {
                impossible(
                    "Infrastructure Project under construction is missing construction timestamps",
                )
            } else {
                None
            },
            (Some(scheduled), Some(started), Some(completion)) => if !project.funding.fully_funded()
                || timeline.funding_completed_at is None || started.seconds < scheduled.seconds
                || completion.seconds <= started.seconds {
                impossible("Infrastructure Project has an invalid construction lifecycle")
            } else {
                None
            },
            _ => impossible(
                "Infrastructure Project under construction is missing construction timestamps",
            ),
        }
    } else {
        None
    }
}

fn validate_lifecycle(project: &InfrastructureProject) -> (result: Result<(), SaveValidationError>)
    ensures
        result == outcome(lifecycle_fault(*project)),
{
    let timeline = &project.timeline;
    if matches!(project.status, InfrastructureProjectStatus::Scheduled) && (
    !project.funding.is_fully_funded() || timeline.funding_completed_at.is_none()
        || timeline.scheduled_start_at.is_none()) {
        return Err(
            SaveValidationError::ImpossibleState {
                reason: "scheduled Infrastructure Project is not fully funded and scheduled",
            },
        );
    }
    if matches!(project.status, InfrastructureProjectStatus::Construction) {
        match (
            timeline.scheduled_start_at,
            timeline.construction_started_at,
            timeline.planned_completion_at,
        ) {
            (None, None, None) => {
                if !project.funding.is_fully_funded() {
                    return Err(
                        SaveValidationError::ImpossibleState {
                            reason:
                                "Infrastructure Project under construction is missing construction timestamps",
                        },
                    );
                }
            },
            (Some(scheduled), Some(started), Some(completion)) => {
                if !project.funding.is_fully_funded() || timeline.funding_completed_at.is_none()
                    || started.seconds < scheduled.seconds || completion.seconds
                    <= started.seconds {
                    return Err(
                        SaveValidationError::ImpossibleState {
                            reason: "Infrastructure Project has an invalid construction lifecycle",
                        },
                    );
                }
            },
            _ => {
                return Err(
                    SaveValidationError::ImpossibleState {
                        reason:
                            "Infrastructure Project under construction is missing construction timestamps",
                    },
                );
            },
        }
    }
    Ok(())
}

/// Whether a later project holds a construction slot and conflicts with this one.
pub open spec fn reserves_against(projects: Seq<InfrastructureProject>, index: int) -> bool {
    exists|j: int|
        index < j < projects.len() && (#[trigger] projects[j]).status.reserves() && conflict(
            projects[index],
            projects[j],
        )
}

/// Whether a later project is under construction and conflicts with this one.
pub open spec fn builds_against(projects: Seq<InfrastructureProject>, index: int) -> bool {
    exists|j: int|
        index < j < projects.len() && (#[trigger] projects[j]).status is Construction && conflict(
            projects[index],
            projects[j],
        )
}

/// What is wrong with one project's construction slot.
pub open spec fn slot_fault(projects: Seq<InfrastructureProject>, index: int) -> Option<
    SaveValidationError,
> {
    let project = projects[index];
    if lifecycle_fault(project) is Some {
        lifecycle_fault(project)
    } else if project.status is Construction && builds_against(projects, index) {
        impossible("conflicting Infrastructure Projects are simultaneously under construction")
    } else if project.status.reserves() && reserves_against(projects, index) {
        impossible("conflicting Infrastructure Projects reserve construction at the same time")
    } else {
        None
    }
}

/// The first fault among the construction slots of the first `count` projects.
pub open spec fn slots_fault(projects: Seq<InfrastructureProject>, count: int) -> Option<
    SaveValidationError,
>
    decreases count,
{
    if count <= 0 {
        None
    } else if slots_fault(projects, count - 1) is Some {
        slots_fault(projects, count - 1)
    } else {
        slot_fault(projects, count - 1)
    }
}

proof fn lemma_slots_fault(projects: Seq<InfrastructureProject>, low: int, high: int)
    requires
        low <= high,
        slots_fault(projects, low) is Some,
    ensures
        slots_fault(projects, high) == slots_fault(projects, low),
    decreases high - low,
{
    if low < high {
        lemma_slots_fault(projects, low, high - 1);
    }
}

fn validate_slot(projects: &Vec<InfrastructureProject>, index: usize) -> (result: Result<
    (),
    SaveValidationError,
>)
    requires
        index < projects@.len(),
    ensures
        result == outcome(slot_fault(projects@, index as int)),
{
    let project = &projects[index];
    match validate_lifecycle(project) {
        Ok(()) => {},
        Err(error) => return Err(error),
    }
    if !project.status.reserves_construction_capacity() {
        return Ok(());
    }
    let building = matches!(project.status, InfrastructureProjectStatus::Construction);
    let mut builds = false;
    let mut reserves = false;
    let count: usize = projects.len();
    let mut j: usize = index + 1;
    while j < count
        invariant
            index < j <= count == projects@.len(),
            project == projects@[index as int],
            builds == (exists|k: int|
                index < k < j && (#[trigger] projects@[k]).status is Construction && conflict(
                    projects@[index as int],
                    projects@[k],
                )),
            reserves == (exists|k: int|
                index < k < j && (#[trigger] projects@[k]).status.reserves() && conflict(
                    projects@[index as int],
                    projects@[k],
                )),
        decreases count - j,
    {
        if projects[j].status.reserves_construction_capacity() && project.conflicts_with(
            &projects[j],
        ) {
            assert(projects@[j as int].status.reserves());
            reserves = true;
            if matches!(projects[j].status, InfrastructureProjectStatus::Construction) {
                assert(projects@[j as int].status is Construction);
                builds = true;
            }
        }
        j += 1;
    }
    if building && builds {
        return Err(
            SaveValidationError::ImpossibleState {
                reason: "conflicting Infrastructure Projects are simultaneously under construction",
            },
        );
    }
    if reserves {
        return Err(
            SaveValidationError::ImpossibleState {
                reason: "conflicting Infrastructure Projects reserve construction at the same time",
            },
        );
    }
    Ok(())
}

/// What is wrong with the Authority's Infrastructure Projects.
pub open spec fn projects_fault(authority: RailAuthority, settlements: Seq<Settlement>) -> Option<
    SaveValidationError,
> {
    let projects = authority.infrastructure_projects@;
    let count = projects.len() as int;
    if identity_fault(project_values(projects), "Infrastructure Project") is Some {
        identity_fault(project_values(projects), "Infrastructure Project")
    } else if commitments(projects, count) is Err {
        Some(commitments(projects, count)->Err_0)
    } else if commitments(projects, count)->Ok_0.cents
        > authority.finances.committed_investment.cents {
        impossible("Infrastructure Project commitments exceed Authority committed investment")
    } else if payloads_fault(authority, settlements, count) is Some {
        payloads_fault(authority, settlements, count)
    } else {
        slots_fault(projects, count)
    }
}

pub fn validate_infrastructure_projects(
    authority: &RailAuthority,
    settlements: &Vec<Settlement>,
) -> (result: Result<(), SaveValidationError>)
    ensures
        result == outcome(projects_fault(*authority, settlements@)),
{
    let projects = &authority.infrastructure_projects;
    let values = collect_project_values(projects);
    match check_identities(&values, "Infrastructure Project") {
        Ok(()) => {},
        Err(error) => return Err(error),
    }
    let total = match total_commitments(projects) {
        Ok(total) => total,
        Err(error) => return Err(error),
    };
    if total.cents > authority.finances.committed_investment.cents {
        return Err(
            SaveValidationError::ImpossibleState {
                reason:
                    "Infrastructure Project commitments exceed Authority committed investment",
            },
        );
    }
    let mut i: usize = 0;
    while i < projects.len()
        invariant
            i <= projects@.len(),
            projects == authority.infrastructure_projects,
            identity_fault(project_values(projects@), "Infrastructure Project") is None,
            commitments(projects@, projects@.len() as int) == Ok::<Money, SaveValidationError>(
                total,
            ),
            total.cents <= authority.finances.committed_investment.cents,
            payloads_fault(*authority, settlements@, i as int) is None,
        decreases projects.len() - i,
    {
        match validate_payload(authority, settlements, i) {
            Ok(()) => {},
            Err(error) => {
                proof {
                    lemma_payloads_fault(
                        *authority,
                        settlements@,
                        i + 1,
                        projects@.len() as int,
                    );
                }
                return Err(error);
            },
        }
        i += 1;
    }
    let mut i: usize = 0;
    while i < projects.len()
        invariant
            i <= projects@.len(),
            projects == authority.infrastructure_projects,
            identity_fault(project_values(projects@), "Infrastructure Project") is None,
            commitments(projects@, projects@.len() as int) == Ok::<Money, SaveValidationError>(
                total,
            ),
            total.cents <= authority.finances.committed_investment.cents,
            payloads_fault(*authority, settlements@, projects@.len() as int) is None,
            slots_fault(projects@, i as int) is None,
        decreases projects.len() - i,
    {
        match validate_slot(projects, i) {
            Ok(()) => {},
            Err(error) => {
                proof {
                    lemma_slots_fault(projects@, i + 1, projects@.len() as int);
                }
                return Err(error);
            },
        }
        i += 1;
    }
    Ok(())
}

proof fn lemma_no_slot_fault(projects: Seq<InfrastructureProject>, count: int, i: int)
    requires
        0 <= i < count,
        slots_fault(projects, count) is None,
    ensures
        slot_fault(projects, i) is None,
    decreases count,
{
    if i < count - 1 {
        lemma_no_slot_fault(projects, count - 1, i);
    }
}

/// Among valid projects no two that hold construction slots conflict.
pub proof fn valid_projects_do_not_conflict(
    authority: RailAuthority,
    settlements: Seq<Settlement>,
    i: int,
    j: int,
)
    requires
        projects_fault(authority, settlements) is None,
        0 <= i < j < authority.infrastructure_projects@.len(),
        authority.infrastructure_projects@[i].status.reserves(),
        authority.infrastructure_projects@[j].status.reserves(),
    ensures
        !conflict(
            authority.infrastructure_projects@[i],
            authority.infrastructure_projects@[j],
        ),
{
    let projects = authority.infrastructure_projects@;
    lemma_no_slot_fault(projects, projects.len() as int, i);
    if conflict(projects[i], projects[j]) {
        assert(projects[j].status.reserves());
        assert(reserves_against(projects, i));
    }
}

} // verus!
