//! How a project and its next step read.

use vstd::prelude::*;
use vstd::string::StringExecFns;

use crate::model::network::{ConstructionDifficulty, Electrification};
use crate::model::project::{
    InfrastructureAccessDiscount, InfrastructureProject, InfrastructureProjectKind,
    InfrastructureProjectStatus, PROVISIONAL_OPERATOR_ACCESS_DISCOUNT_BASIS_POINTS,
    PROVISIONAL_OPERATOR_ACCESS_DISCOUNT_DURATION_DAYS,
};
use crate::model::state::{AuthorityRules, GameState, Region};
use crate::model::units::{DurationSeconds, Money, UtcSeconds};
use crate::text::{decimal, decimal_text, join, joined};
use crate::ui::calendar::{relative_text, relative_time, seconds_between, seconds_until};
use crate::ui::format::{compact_duration, compact_text, money, money_text};
use crate::ui::places::{new_line_route_label, planned_place_names, planned_places, route_label};
use crate::ui::style::{plain, Style, StyledLine, Tone};

verus! {

/// The Authority's judgement of a proposed connection, and the totals that decide.
#[derive(Clone, Copy, Debug, PartialEq, Eq, Structural)]
pub struct ReviewScore {
    pub total: i32,
    pub population: i32,
    pub latent_demand: i32,
    pub network_usefulness: i32,
    pub regional_development: i32,
    pub construction_cost_penalty: i32,
    pub approval_threshold: i32,
    pub rejection_threshold: i32,
}

/// What the simulation knows of a project at the moment.
#[derive(Clone, Copy, Debug, PartialEq, Eq, Structural)]
pub struct ProjectOutlook {
    /// Basis points of local adoption that the next reconsideration needs.
    pub reconsideration_threshold: u16,
    /// Basis points of adoption at the station that the project connects to.
    pub local_adoption: Option<u16>,
    pub review: Option<ReviewScore>,
}

/// A muted label and an amount.
pub open spec fn amount_line(label: Seq<char>, value: Money) -> Seq<(Seq<char>, Style)> {
    seq![
        (label + "  "@, plain(Tone::Secondary)),
        (money_text(value.cents as int), plain(Tone::PrimaryValue)),
    ]
}

pub fn money_line(label: &str, value: Money) -> (result: StyledLine)
    ensures
        result@ == amount_line(label@, value),
{
    let mut line = StyledLine::new();
    let heading = label.to_owned().concat("  ");
    let amount = money(value);
    line.push(heading.as_str(), Style::plain(Tone::Secondary));
    line.push(amount.as_str(), Style::plain(Tone::PrimaryValue));
    assert(line@ =~= amount_line(label@, value));
    line
}

/// A number of items as a phrase around it.
pub open spec fn counted(before: Seq<char>, count: nat, after: Seq<char>) -> Seq<char> {
    before + decimal(count) + after
}

pub fn count_phrase(before: &str, count: usize, after: &str) -> (result: String)
    ensures
        result@ == counted(before@, count as nat, after@),
{
    let number = decimal_text(count as u64);
    before.to_owned().concat(number.as_str()).concat(after)
}

/// What a project builds, in a few words.
pub open spec fn scope_text(region: Region, kind: InfrastructureProjectKind) -> Seq<char> {
    match kind {
        InfrastructureProjectKind::NewLine { planned_stations, planned_lines } => match route_label(
            region,
            planned_stations@,
            planned_lines@,
        ) {
            Some(route) => "New line · "@ + route,
            None => if planned_stations@.len() == 0 {
                "New line"@
            } else {
                "New line · "@ + joined(planned_places(region, planned_stations@), " / "@)
            },
        },
        InfrastructureProjectKind::SpeedUpgrade { rail_line_ids, .. } => counted(
            "Speed upgrade · "@,
            rail_line_ids@.len(),
            " segment(s)"@,
        ),
        InfrastructureProjectKind::DoubleTracking { rail_line_ids, .. } => counted(
            "Double tracking · "@,
            rail_line_ids@.len(),
            " segment(s)"@,
        ),
        InfrastructureProjectKind::Electrification { rail_line_ids } => counted(
            "Electrification · "@,
            rail_line_ids@.len(),
            " segment(s)"@,
        ),
        InfrastructureProjectKind::Renewal { rail_line_ids } => counted(
            "Renewal · "@,
            rail_line_ids@.len(),
            " segment(s)"@,
        ),
        InfrastructureProjectKind::StationUpgrade { rail_station_ids } => counted(
            "Station upgrade · "@,
            rail_station_ids@.len(),
            " station(s)"@,
        ),
    }
}

pub fn project_scope(region: &Region, project: &InfrastructureProject) -> (result: String)
    ensures
        result@ == scope_text(*region, project.kind),
{
    match &project.kind {
        InfrastructureProjectKind::NewLine { planned_stations, planned_lines } => {
            match new_line_route_label(region, planned_stations, planned_lines) {
                Some(route) => "New line · ".to_owned().concat(route.as_str()),
                None => {
                    let places = planned_place_names(region, planned_stations);
                    if planned_stations.len() == 0 {
                        "New line".to_owned()
                    } else {
                        let list = join(&places, " / ");
                        "New line · ".to_owned().concat(list.as_str())
                    }
                },
            }
        },
        InfrastructureProjectKind::SpeedUpgrade { rail_line_ids, .. } => count_phrase(
            "Speed upgrade · ",
            rail_line_ids.len(),
            " segment(s)",
        ),
        InfrastructureProjectKind::DoubleTracking { rail_line_ids, .. } => count_phrase(
            "Double tracking · ",
            rail_line_ids.len(),
            " segment(s)",
        ),
        InfrastructureProjectKind::Electrification { rail_line_ids } => count_phrase(
            "Electrification · ",
            rail_line_ids.len(),
            " segment(s)",
        ),
        InfrastructureProjectKind::Renewal { rail_line_ids } => count_phrase(
            "Renewal · ",
            rail_line_ids.len(),
            " segment(s)",
        ),
        InfrastructureProjectKind::StationUpgrade { rail_station_ids } => count_phrase(
            "Station upgrade · ",
            rail_station_ids.len(),
            " station(s)",
        ),
    }
}

/// The heading of a project: the route of a new line, else what the project builds.
pub open spec fn heading_text(region: Region, kind: InfrastructureProjectKind) -> Seq<char> {
    match kind {
        InfrastructureProjectKind::NewLine { planned_stations, planned_lines } => match route_label(
            region,
            planned_stations@,
            planned_lines@,
        ) {
            Some(route) => route,
            None => scope_text(region, kind),
        },
        _ => scope_text(region, kind),
    }
}

pub fn project_heading(region: &Region, project: &InfrastructureProject) -> (result: String)
    ensures
        result@ == heading_text(*region, project.kind),
{
    match &project.kind {
        InfrastructureProjectKind::NewLine { planned_stations, planned_lines } => {
            match new_line_route_label(region, planned_stations, planned_lines) {
                Some(route) => route,
                None => project_scope(region, project),
            }
        },
        _ => project_scope(region, project),
    }
}

pub open spec fn status_text(status: InfrastructureProjectStatus) -> Seq<char> {
    match status {
        InfrastructureProjectStatus::Requested => "REQUESTED"@,
        InfrastructureProjectStatus::UnderReview => "UNDER REVIEW"@,
        InfrastructureProjectStatus::Proposed => "PROPOSED"@,
        InfrastructureProjectStatus::Approved => "APPROVED"@,
        InfrastructureProjectStatus::Deferred => "DEFERRED"@,
        InfrastructureProjectStatus::Rejected => "REJECTED"@,
        InfrastructureProjectStatus::Funding => "FUNDING"@,
        InfrastructureProjectStatus::Scheduled => "SCHEDULED"@,
        InfrastructureProjectStatus::Construction => "CONSTRUCTION"@,
        InfrastructureProjectStatus::Open => "OPEN"@,
        InfrastructureProjectStatus::Cancelled => "CANCELLED"@,
    }
}

pub fn project_status(status: InfrastructureProjectStatus) -> (result: &'static str)
    ensures
        result@ == status_text(status),
{
    match status {
        InfrastructureProjectStatus::Requested => "REQUESTED",
        InfrastructureProjectStatus::UnderReview => "UNDER REVIEW",
        InfrastructureProjectStatus::Proposed => "PROPOSED",
        InfrastructureProjectStatus::Approved => "APPROVED",
        InfrastructureProjectStatus::Deferred => "DEFERRED",
        InfrastructureProjectStatus::Rejected => "REJECTED",
        InfrastructureProjectStatus::Funding => "FUNDING",
        InfrastructureProjectStatus::Scheduled => "SCHEDULED",
        InfrastructureProjectStatus::Construction => "CONSTRUCTION",
        InfrastructureProjectStatus::Open => "OPEN",
        InfrastructureProjectStatus::Cancelled => "CANCELLED",
    }
}

pub open spec fn status_tone(status: InfrastructureProjectStatus) -> Style {
    match status {
        InfrastructureProjectStatus::Open => plain(Tone::Success),
        InfrastructureProjectStatus::Rejected | InfrastructureProjectStatus::Cancelled => plain(
            Tone::Error,
        ),
        InfrastructureProjectStatus::Deferred
        | InfrastructureProjectStatus::Funding
        | InfrastructureProjectStatus::Scheduled
        | InfrastructureProjectStatus::Construction => plain(Tone::Warning),
        _ => plain(Tone::PrimaryValue),
    }
}

pub fn status_style(status: InfrastructureProjectStatus) -> (result: Style)
    ensures
        result == status_tone(status),
{
    match status {
        InfrastructureProjectStatus::Open => Style::plain(Tone::Success),
        InfrastructureProjectStatus::Rejected | InfrastructureProjectStatus::Cancelled => Style::plain(
            Tone::Error,
        ),
        InfrastructureProjectStatus::Deferred
        | InfrastructureProjectStatus::Funding
        | InfrastructureProjectStatus::Scheduled
        | InfrastructureProjectStatus::Construction => Style::plain(Tone::Warning),
        _ => Style::plain(Tone::PrimaryValue),
    }
}

/// When the next step of planning is due.
pub open spec fn planning_text(
    label: Seq<char>,
    started_at: UtcSeconds,
    delay: DurationSeconds,
    now: UtcSeconds,
) -> Seq<char> {
    let due = started_at.seconds + delay.seconds;
    if due > i64::MAX {
        label + " pending"@
    } else if due <= now.seconds {
        label + " ready"@
    } else {
        label + " "@ + relative_text(UtcSeconds { seconds: due as i64 }, now)
    }
}

pub fn planning_stage_next(
    label: &str,
    started_at: UtcSeconds,
    delay: DurationSeconds,
    now: UtcSeconds,
) -> (result: String)
    ensures
        result@ == planning_text(label@, started_at, delay, now),
{
    match started_at.checked_add(delay) {
        Err(_) => label.to_owned().concat(" pending"),
        Ok(due_at) => if due_at.seconds <= now.seconds {
            label.to_owned().concat(" ready")
        } else {
            let time = relative_time(due_at, now);
            label.to_owned().concat(" ").concat(time.as_str())
        },
    }
}

/// Basis points in whole percent, rounded to the nearest.
pub open spec fn percent_text(basis_points: u16) -> Seq<char> {
    decimal(((basis_points + 50) / 100) as nat) + "%"@
}

pub fn maturity_percent(basis_points: u16) -> (result: String)
    ensures
        result@ == percent_text(basis_points),
{
    decimal_text((basis_points as u64 + 50) / 100).concat("%")
}

pub open spec fn maturity_text(basis_points: u16) -> Seq<char> {
    if basis_points < 3_500 {
        "Emerging"@
    } else if basis_points < 6_000 {
        "Growing"@
    } else if basis_points < 8_500 {
        "Established"@
    } else {
        "Mature"@
    }
}

pub fn maturity_label(basis_points: u16) -> (result: &'static str)
    ensures
        result@ == maturity_text(basis_points),
{
    if basis_points < 3_500 {
        "Emerging"
    } else if basis_points < 6_000 {
        "Growing"
    } else if basis_points < 8_500 {
        "Established"
    } else {
        "Mature"
    }
}

/// When a deferred project may be looked at again, where the time can be told.
pub open spec fn eligible_time(rules: AuthorityRules, project: InfrastructureProject) -> Option<
    UtcSeconds,
> {
    match project.timeline.deferred_at {
        Some(deferred_at) => {
            let due = deferred_at.seconds + rules.deferred_reconsideration_delay.seconds;
            if due <= i64::MAX {
                Some(UtcSeconds { seconds: due as i64 })
            } else {
                None
            }
        },
        None => None,
    }
}

/// What a deferred project waits for: its cooldown, local adoption, both or neither.
pub open spec fn deferred_text(
    rules: AuthorityRules,
    project: InfrastructureProject,
    outlook: ProjectOutlook,
    now: UtcSeconds,
) -> Seq<char> {
    let required = outlook.reconsideration_threshold;
    let adopted = match outlook.local_adoption {
        Some(adoption) => adoption >= required,
        None => required == 0,
    };
    let waiting = match eligible_time(rules, project) {
        Some(time) => time.seconds > now.seconds,
        None => false,
    };
    let eligible = "Eligible "@ + relative_text(eligible_time(rules, project).unwrap(), now);
    if required > 10_000 {
        "No further automatic review"@
    } else if !waiting && adopted {
        "Reconsideration ready"@
    } else if !waiting {
        "Needs "@ + percent_text(required) + " adoption"@
    } else if adopted {
        eligible
    } else {
        eligible + " · needs "@ + percent_text(required) + " adoption"@
    }
}

pub fn deferred_next(
    state: &GameState,
    project: &InfrastructureProject,
    outlook: &ProjectOutlook,
    now: UtcSeconds,
) -> (result: String)
    ensures
        result@ == deferred_text(state.rules.authority, *project, *outlook, now),
{
    let required: u16 = outlook.reconsideration_threshold;
    if required > 10_000 {
        return "No further automatic review".to_owned();
    }
    let adoption: u16 = match outlook.local_adoption {
        Some(adoption) => adoption,
        None => 0,
    };
    let adopted = adoption >= required;
    let percent = maturity_percent(required);
    let eligible_at = match project.timeline.deferred_at {
        Some(deferred_at) => match deferred_at.checked_add(
            state.rules.authority.deferred_reconsideration_delay,
        ) {
            Ok(time) => Some(time),
            Err(_) => None,
        },
        None => None,
    };
    if let Some(time) = eligible_at {
        if time.seconds > now.seconds {
            let distance = relative_time(time, now);
            let eligible = "Eligible ".to_owned().concat(distance.as_str());
            if adopted {
                return eligible;
            }
            return eligible.concat(" · needs ").concat(percent.as_str()).concat(" adoption");
        }
    }
    if adopted {
        "Reconsideration ready".to_owned()
    } else {
        "Needs ".to_owned().concat(percent.as_str()).concat(" adoption")
    }
}

/// What happens next with a project.
pub open spec fn next_text(
    rules: AuthorityRules,
    project: InfrastructureProject,
    outlook: ProjectOutlook,
    now: UtcSeconds,
) -> Seq<char> {
    let timeline = project.timeline;
    match project.status {
        InfrastructureProjectStatus::Requested => planning_text(
            "Review"@,
            timeline.requested_at,
            rules.request_queue_delay,
            now,
        ),
        InfrastructureProjectStatus::UnderReview => match timeline.review_started_at {
            Some(time) => planning_text("Proposal"@, time, rules.review_duration, now),
            None => "Authority review in progress"@,
        },
        InfrastructureProjectStatus::Proposed => match timeline.proposed_at {
            Some(time) => planning_text("Decision"@, time, rules.proposal_duration, now),
            None => "Authority decision pending"@,
        },
        InfrastructureProjectStatus::Approved => "Awaiting funding slot"@,
        InfrastructureProjectStatus::Deferred => deferred_text(rules, project, outlook, now),
        InfrastructureProjectStatus::Rejected => "Rejected · no automatic review"@,
        InfrastructureProjectStatus::Funding => match project.funding.gap() {
            Ok(gap) => if gap.cents <= 0 {
                "Scheduling pending"@
            } else {
                "Still needs "@ + money_text(gap.cents as int)
            },
            Err(_) => "Funding pending"@,
        },
        InfrastructureProjectStatus::Scheduled => match timeline.scheduled_start_at {
            Some(time) => "Starts "@ + relative_text(time, now),
            None => "Construction slot pending"@,
        },
        InfrastructureProjectStatus::Construction => match timeline.planned_completion_at {
            Some(time) => "Opens "@ + relative_text(time, now),
            None => "Opening pending"@,
        },
        InfrastructureProjectStatus::Open => "Complete"@,
        InfrastructureProjectStatus::Cancelled => "Cancelled"@,
    }
}

pub fn project_next(
    state: &GameState,
    project: &InfrastructureProject,
    outlook: &ProjectOutlook,
    now: UtcSeconds,
) -> (result: String)
    ensures
        result@ == next_text(state.rules.authority, *project, *outlook, now),
{
    let rules = &state.rules.authority;
    match project.status {
        InfrastructureProjectStatus::Requested => planning_stage_next(
            "Review",
            project.timeline.requested_at,
            rules.request_queue_delay,
            now,
        ),
        InfrastructureProjectStatus::UnderReview => match project.timeline.review_started_at {
            Some(time) => planning_stage_next("Proposal", time, rules.review_duration, now),
            None => "Authority review in progress".to_owned(),
        },
        InfrastructureProjectStatus::Proposed => match project.timeline.proposed_at {
            Some(time) => planning_stage_next("Decision", time, rules.proposal_duration, now),
            None => "Authority decision pending".to_owned(),
        },
        InfrastructureProjectStatus::Approved => "Awaiting funding slot".to_owned(),
        InfrastructureProjectStatus::Deferred => deferred_next(state, project, outlook, now),
        InfrastructureProjectStatus::Rejected => "Rejected · no automatic review".to_owned(),
        InfrastructureProjectStatus::Funding => match project.funding.funding_gap() {
            Ok(gap) => if gap.cents <= 0 {
                "Scheduling pending".to_owned()
            } else {
                let amount = money(gap);
                "Still needs ".to_owned().concat(amount.as_str())
            },
            Err(_) => "Funding pending".to_owned(),
        },
        InfrastructureProjectStatus::Scheduled => match project.timeline.scheduled_start_at {
            Some(time) => {
                let distance = relative_time(time, now);
                "Starts ".to_owned().concat(distance.as_str())
            },
            None => "Construction slot pending".to_owned(),
        },
        InfrastructureProjectStatus::Construction => match project.timeline.planned_completion_at {
            Some(time) => {
                let distance = relative_time(time, now);
                "Opens ".to_owned().concat(distance.as_str())
            },
            None => "Opening pending".to_owned(),
        },
        InfrastructureProjectStatus::Open => "Complete".to_owned(),
        InfrastructureProjectStatus::Cancelled => "Cancelled".to_owned(),
    }
}

/// The discount of a contributing operator.
pub open spec fn operator_percent() -> Seq<char> {
    decimal((PROVISIONAL_OPERATOR_ACCESS_DISCOUNT_BASIS_POINTS / 100) as nat) + "%"@
}

pub fn operator_discount_percent() -> (result: String)
    ensures
        result@ == operator_percent(),
{
    let percent: u16 = PROVISIONAL_OPERATOR_ACCESS_DISCOUNT_BASIS_POINTS / 100;
    decimal_text(percent as u64).concat("%")
}

/// How many fiscal days that discount lasts.
pub open spec fn operator_days() -> Seq<char> {
    decimal(PROVISIONAL_OPERATOR_ACCESS_DISCOUNT_DURATION_DAYS as nat)
}

pub fn operator_discount_days() -> (result: String)
    ensures
        result@ == operator_days(),
{
    decimal_text(PROVISIONAL_OPERATOR_ACCESS_DISCOUNT_DURATION_DAYS as u64)
}

/// A discount in whole percent and what is left of it.
pub open spec fn discount_text(
    discount: InfrastructureAccessDiscount,
    now: UtcSeconds,
) -> Seq<char> {
    let percent = decimal((discount.basis_points / 100) as nat) + "% · "@;
    if discount.active_at(now) {
        percent + compact_text(seconds_until(discount.expires_at, now) as nat) + " remaining"@
    } else {
        percent + "expired"@
    }
}

pub fn access_discount_label(discount: InfrastructureAccessDiscount, now: UtcSeconds) -> (result:
    String)
    ensures
        result@ == discount_text(discount, now),
{
    let percent = decimal_text((discount.basis_points / 100) as u64).concat("% · ");
    if !discount.is_active_at(now) {
        return percent.concat("expired");
    }
    let left: i64 = seconds_between(discount.expires_at, now);
    let duration = compact_duration(left as u64);
    percent.concat(duration.as_str()).concat(" remaining")
}

pub open spec fn electrification_text(value: Electrification) -> Seq<char> {
    match value {
        Electrification::Unelectrified => "non-electrified"@,
        Electrification::Electric => "electric"@,
    }
}

pub fn electrification_label(value: Electrification) -> (result: &'static str)
    ensures
        result@ == electrification_text(value),
{
    match value {
        Electrification::Unelectrified => "non-electrified",
        Electrification::Electric => "electric",
    }
}

pub open spec fn difficulty_text(value: ConstructionDifficulty) -> Seq<char> {
    match value {
        ConstructionDifficulty::Low => "low"@,
        ConstructionDifficulty::Moderate => "moderate"@,
        ConstructionDifficulty::High => "high"@,
    }
}

pub fn difficulty_label(value: ConstructionDifficulty) -> (result: &'static str)
    ensures
        result@ == difficulty_text(value),
{
    match value {
        ConstructionDifficulty::Low => "low",
        ConstructionDifficulty::Moderate => "moderate",
        ConstructionDifficulty::High => "high",
    }
}

} // verus!
