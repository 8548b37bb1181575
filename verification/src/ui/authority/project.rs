//! The selected project: what matters about it in its present stage.

use vstd::prelude::*;
use vstd::string::StringExecFns;

use super::analytics::{stage_of, ProgrammeStage};
use super::format::{
    access_discount_label, deferred_next, deferred_text, difficulty_label, difficulty_text,
    discount_text, electrification_label, electrification_text, heading_text, maturity_label,
    maturity_percent, maturity_text, next_text, operator_days, operator_discount_days,
    operator_discount_percent, operator_percent, percent_text, project_heading, project_next,
    project_status, status_style, status_text, status_tone, ProjectOutlook, ReviewScore,
};
use super::programme::{
    construction_progress, funded_percent, funding_percent, stage_label, stage_style, stage_text,
    stage_tone, works,
};
use crate::model::network::RailLine;
use crate::model::project::{
    InfrastructureProject, InfrastructureProjectFunding, InfrastructureProjectKind,
    InfrastructureProjectStatus, InfrastructureProjectTimeline,
};
use crate::model::state::{GameState, Region};
use crate::model::units::UtcSeconds;
use crate::text::{
    decimal, decimal_text, join, joined, pad_right, padded_right, repeat, repeated, signed_zero_pad,
    signed_zero_padded, zero_pad, zero_padded,
};
use crate::ui::calendar::{
    construction_remaining_duration, format_project_timestamp, relative_text, relative_time,
    remaining_text, timestamp_text,
};
use crate::ui::components::{
    heading, labelled, labelled_line, labelled_line_styled, section_heading,
};
use crate::ui::format::{distance, distance_text, money, money_text};
use crate::ui::geometry::{
    aligned, asked, fills, first_of_two, heights, lengths_are_respected, reach, split_columns,
    split_rows, stacked, two_percentages, widths, xs, ys, Rect, Share,
};
use crate::ui::places::{
    new_line_route_label, planned_place_names, planned_places, route_label, settlement_label,
    settlement_name,
};
use crate::ui::style::{blank_line, line_of, plain, Page, Style, StyledLine, Tone};

verus! {

pub type LineView = Seq<(Seq<char>, Style)>;

/// The metres of the first `count` lines.
pub open spec fn track_metres(lines: Seq<RailLine>, count: int) -> int
    decreases count,
{
    if count <= 0 {
        0
    } else {
        track_metres(lines, count - 1) + lines[count - 1].distance.metres
    }
}

/// Whether the new track of a project can be measured.
pub open spec fn measurable(kind: InfrastructureProjectKind) -> bool {
    kind matches InfrastructureProjectKind::NewLine { planned_lines, .. } ==> track_metres(
        planned_lines@,
        planned_lines@.len() as int,
    ) <= u64::MAX
}

proof fn lemma_track_grows(lines: Seq<RailLine>, low: int, high: int)
    requires
        0 <= low <= high <= lines.len(),
    ensures
        0 <= track_metres(lines, low) <= track_metres(lines, high),
    decreases high,
{
    if low < high {
        lemma_track_grows(lines, low, high - 1);
    } else if low > 0 {
        lemma_track_grows(lines, low - 1, low - 1);
    }
}

/// The metres of lines, as far as they can be told.
pub fn total_metres(lines: &Vec<RailLine>) -> (result: Option<u64>)
    ensures
        match result {
            Some(metres) => metres == track_metres(lines@, lines@.len() as int),
            None => track_metres(lines@, lines@.len() as int) > u64::MAX,
        },
{
    let mut metres: u64 = 0;
    let mut i: usize = 0;
    while i < lines.len()
        invariant
            i <= lines@.len(),
            metres == track_metres(lines@, i as int),
        decreases lines.len() - i,
    {
        proof {
            lemma_track_grows(lines@, i + 1, lines@.len() as int);
        }
        match metres.checked_add(lines[i].distance.metres) {
            Some(sum) => {
                metres = sum;
            },
            None => return None,
        }
        i += 1;
    }
    Some(metres)
}

/// Whether the new track of a project can be measured.
pub fn is_measurable(kind: &InfrastructureProjectKind) -> (result: bool)
    ensures
        result == measurable(*kind),
{
    match kind {
        InfrastructureProjectKind::NewLine { planned_lines, .. } => total_metres(
            planned_lines,
        ).is_some(),
        _ => true,
    }
}

/// The case for a new line: who requested it, and adoption where it connects.
pub open spec fn development_case(
    region: Region,
    kind: InfrastructureProjectKind,
    outlook: ProjectOutlook,
) -> Seq<LineView> {
    match kind {
        InfrastructureProjectKind::NewLine { planned_stations, .. } => if planned_stations@.len()
            == 0 {
            Seq::empty()
        } else {
            let request = seq![
                heading("DEVELOPMENT CASE"@),
                labelled(
                    "Requested by"@,
                    settlement_label(region.settlements@, planned_stations@[0].settlement_id)
                        + " Council"@,
                    plain(Tone::Plain),
                ),
            ];
            match outlook.local_adoption {
                Some(adoption) => request.push(
                    labelled(
                        "Rail adoption"@,
                        percent_text(adoption) + " · "@ + maturity_text(adoption),
                        plain(Tone::Plain),
                    ),
                ),
                None => request,
            }
        },
        _ => Seq::empty(),
    }
}

fn development_case_lines(region: &Region, kind: &InfrastructureProjectKind, outlook: &ProjectOutlook) -> (result:
    Page)
    ensures
        result@ == development_case(*region, *kind, *outlook),
{
    let mut page = Page::new();
    if let InfrastructureProjectKind::NewLine { planned_stations, .. } = kind {
        if planned_stations.len() > 0 {
            let council = settlement_name(
                &region.settlements,
                planned_stations[0].settlement_id,
            ).concat(" Council");
            page.push(section_heading("DEVELOPMENT CASE"));
            page.push(labelled_line("Requested by", council.as_str()));
            if let Some(adoption) = outlook.local_adoption {
                let text = maturity_percent(adoption).concat(" · ").concat(
                    maturity_label(adoption),
                );
                page.push(labelled_line("Rail adoption", text.as_str()));
            }
        }
    }
    page
}

/// The capability of a line: speed, tracks, electrification and difficulty.
pub open spec fn capability_text(line: RailLine) -> Seq<char> {
    decimal(line.speed_limit.kilometres_per_hour as nat) + " km/h · "@ + decimal(line.track_count.tracks as nat)
        + " track"@ + (if line.track_count.tracks == 1 {
        ""@
    } else {
        "s"@
    }) + " · "@ + electrification_text(line.electrification) + " · "@ + difficulty_text(
        line.construction_difficulty,
    )
}

fn capability(line: &RailLine) -> (result: String)
    ensures
        result@ == capability_text(*line),
{
    let tracks: u32 = line.track_count.tracks();
    let number = decimal_text(tracks as u64);
    let plural = if tracks == 1 {
        ""
    } else {
        "s"
    };
    decimal_text(line.speed_limit.kilometres_per_hour() as u64).concat(" km/h · ").concat(
        number.as_str(),
    ).concat(" track").concat(plural).concat(" · ").concat(
        electrification_label(line.electrification),
    ).concat(" · ").concat(difficulty_label(line.construction_difficulty))
}

/// What a project builds or improves, in one line or several.
pub open spec fn scope_lines(region: Region, kind: InfrastructureProjectKind) -> Seq<LineView> {
    let scope = |text: Seq<char>| seq![labelled("Scope"@, text, plain(Tone::Plain))];
    match kind {
        InfrastructureProjectKind::NewLine { planned_stations, planned_lines } => {
            let route = match route_label(region, planned_stations@, planned_lines@) {
                Some(route) => seq![labelled("Route"@, route, plain(Tone::Plain))],
                None => Seq::empty(),
            };
            let built = route.push(
                labelled(
                    "New station"@,
                    joined(planned_places(region, planned_stations@), ", "@),
                    plain(Tone::Plain),
                ),
            ).push(
                labelled(
                    "New track"@,
                    distance_text(track_metres(planned_lines@, planned_lines@.len() as int) as nat),
                    plain(Tone::Plain),
                ),
            );
            if planned_lines@.len() > 0 {
                built.push(
                    labelled(
                        "Capability"@,
                        capability_text(planned_lines@[0]),
                        plain(Tone::Plain),
                    ),
                )
            } else {
                built
            }
        },
        InfrastructureProjectKind::SpeedUpgrade { rail_line_ids, target_speed_limit } => scope(
            decimal(rail_line_ids@.len()) + " segment(s) → "@ + decimal(
                target_speed_limit.kilometres_per_hour as nat,
            ) + " km/h"@,
        ),
        InfrastructureProjectKind::DoubleTracking { rail_line_ids, target_track_count } => scope(
            decimal(rail_line_ids@.len()) + " segment(s) → "@ + decimal(
                target_track_count.tracks as nat,
            ) + " tracks"@,
        ),
        InfrastructureProjectKind::Electrification { rail_line_ids } => scope(
            "Electrify "@ + decimal(rail_line_ids@.len()) + " segment(s)"@,
        ),
        InfrastructureProjectKind::Renewal { rail_line_ids } => scope(
            "Renew "@ + decimal(rail_line_ids@.len()) + " segment(s)"@,
        ),
        InfrastructureProjectKind::StationUpgrade { rail_station_ids } => scope(
            "Upgrade "@ + decimal(rail_station_ids@.len()) + " station(s)"@,
        ),
    }
}

fn new_line_lines(
    region: &Region,
    planned_stations: &Vec<crate::model::network::RailStation>,
    planned_lines: &Vec<RailLine>,
    kind: &InfrastructureProjectKind,
    page: &mut Page,
)
    requires
        *kind == (InfrastructureProjectKind::NewLine {
            planned_stations: *planned_stations,
            planned_lines: *planned_lines,
        }),
        measurable(*kind),
    ensures
        final(page)@ == old(page)@ + scope_lines(*region, *kind),
{
    let ghost before = page@;
    if let Some(route) = new_line_route_label(region, planned_stations, planned_lines) {
        page.push(labelled_line("Route", route.as_str()));
    }
    let places = planned_place_names(region, planned_stations);
    let list = join(&places, ", ");
    page.push(labelled_line("New station", list.as_str()));
    let metres: u64 = match total_metres(planned_lines) {
        Some(metres) => metres,
        None => 0,
    };
    let length = distance(metres);
    page.push(labelled_line("New track", length.as_str()));
    if planned_lines.len() > 0 {
        let text = capability(&planned_lines[0]);
        page.push(labelled_line("Capability", text.as_str()));
    }
    assert(page@ =~= before + scope_lines(*region, *kind));
}

fn upgrade_lines(region: &Region, kind: &InfrastructureProjectKind, page: &mut Page)
    requires
        !(kind is NewLine),
    ensures
        final(page)@ == old(page)@ + scope_lines(*region, *kind),
{
    let ghost before = page@;
    let text = match kind {
        InfrastructureProjectKind::SpeedUpgrade { rail_line_ids, target_speed_limit } => {
            let speed = decimal_text(target_speed_limit.kilometres_per_hour() as u64);
            decimal_text(rail_line_ids.len() as u64).concat(" segment(s) → ").concat(
                speed.as_str(),
            ).concat(" km/h")
        },
        InfrastructureProjectKind::DoubleTracking { rail_line_ids, target_track_count } => {
            let tracks = decimal_text(target_track_count.tracks() as u64);
            decimal_text(rail_line_ids.len() as u64).concat(" segment(s) → ").concat(
                tracks.as_str(),
            ).concat(" tracks")
        },
        InfrastructureProjectKind::Electrification { rail_line_ids } => {
            let number = decimal_text(rail_line_ids.len() as u64);
            "Electrify ".to_owned().concat(number.as_str()).concat(" segment(s)")
        },
        InfrastructureProjectKind::Renewal { rail_line_ids } => {
            let number = decimal_text(rail_line_ids.len() as u64);
            "Renew ".to_owned().concat(number.as_str()).concat(" segment(s)")
        },
        InfrastructureProjectKind::StationUpgrade { rail_station_ids } => {
            let number = decimal_text(rail_station_ids.len() as u64);
            "Upgrade ".to_owned().concat(number.as_str()).concat(" station(s)")
        },
        InfrastructureProjectKind::NewLine { .. } => String::new(),
    };
    page.push(labelled_line("Scope", text.as_str()));
    assert(page@ =~= before + scope_lines(*region, *kind));
}

/// The infrastructure of a project under its heading.
pub open spec fn infrastructure_lines(
    region: Region,
    project: InfrastructureProject,
) -> Seq<LineView> {
    let title = if project.status is Open {
        "DELIVERED INFRASTRUCTURE"@
    } else {
        "INFRASTRUCTURE"@
    };
    seq![heading(title)] + scope_lines(region, project.kind)
}

/// The context of a project: the case for it and its infrastructure.
pub open spec fn context_page(
    region: Region,
    project: InfrastructureProject,
    outlook: ProjectOutlook,
) -> Seq<LineView> {
    let case = development_case(region, project.kind, outlook);
    if case.len() == 0 {
        infrastructure_lines(region, project)
    } else {
        case.push(blank_line()) + infrastructure_lines(region, project)
    }
}

pub fn project_context_lines(
    region: &Region,
    project: &InfrastructureProject,
    outlook: &ProjectOutlook,
) -> (result: Page)
    requires
        measurable(project.kind),
    ensures
        result@ == context_page(*region, *project, *outlook),
{
    let mut page = development_case_lines(region, &project.kind, outlook);
    if page.len() > 0 {
        page.push_blank();
    }
    let ghost case = page@;
    let title = if matches!(project.status, InfrastructureProjectStatus::Open) {
        "DELIVERED INFRASTRUCTURE"
    } else {
        "INFRASTRUCTURE"
    };
    page.push(section_heading(title));
    let ghost titled = page@;
    match &project.kind {
        InfrastructureProjectKind::NewLine { planned_stations, planned_lines } => new_line_lines(
            region,
            planned_stations,
            planned_lines,
            &project.kind,
            &mut page,
        ),
        _ => upgrade_lines(region, &project.kind, &mut page),
    }
    assert(page@ =~= case + infrastructure_lines(*region, *project));
    assert(page@ =~= context_page(*region, *project, *outlook));
    page
}

pub open spec fn signed_decimal(value: int) -> Seq<char> {
    signed_zero_padded(value, 1)
}

fn signed_text(value: i64) -> (result: String)
    ensures
        result@ == signed_decimal(value as int),
{
    signed_zero_pad(value, 1)
}

/// The Authority's present judgement.
pub open spec fn review_lines(score: ReviewScore) -> Seq<LineView> {
    let approval = score.approval_threshold as int;
    let rejection = score.rejection_threshold as int;
    seq![
        labelled(
            "Current case"@,
            signed_decimal(score.total as int) + " / "@ + signed_decimal(approval),
            if score.total >= score.approval_threshold {
                plain(Tone::Success)
            } else {
                plain(Tone::Warning)
            },
        ),
        labelled(
            "Public value"@,
            "+"@ + signed_decimal(score.population as int) + " pop · +"@ + signed_decimal(
                score.latent_demand as int,
            ) + " demand · +"@ + signed_decimal(score.network_usefulness as int) + " network"@,
            plain(Tone::Plain),
        ),
        labelled(
            "Regional / cost"@,
            "+"@ + signed_decimal(score.regional_development as int) + " development · -"@
                + signed_decimal(score.construction_cost_penalty as int) + " build"@,
            plain(Tone::Plain),
        ),
        labelled(
            "Decision bands"@,
            "approve ≥"@ + signed_decimal(approval) + " · defer "@ + signed_decimal(rejection)
                + "–"@ + signed_decimal(approval - 1) + " · reject <"@ + signed_decimal(rejection),
            plain(Tone::Plain),
        ),
    ]
}

fn score_lines(score: &ReviewScore) -> (result: Page)
    ensures
        result@ == review_lines(*score),
{
    let total = signed_text(score.total as i64);
    let approval = signed_text(score.approval_threshold as i64);
    let rejection = signed_text(score.rejection_threshold as i64);
    let highest = signed_text(score.approval_threshold as i64 - 1);
    let population = signed_text(score.population as i64);
    let demand = signed_text(score.latent_demand as i64);
    let network = signed_text(score.network_usefulness as i64);
    let development = signed_text(score.regional_development as i64);
    let cost = signed_text(score.construction_cost_penalty as i64);
    let case = total.concat(" / ").concat(approval.as_str());
    let value = "+".to_owned().concat(population.as_str()).concat(" pop · +").concat(
        demand.as_str(),
    ).concat(" demand · +").concat(network.as_str()).concat(" network");
    let regional = "+".to_owned().concat(development.as_str()).concat(" development · -").concat(
        cost.as_str(),
    ).concat(" build");
    let bands = "approve ≥".to_owned().concat(approval.as_str()).concat(" · defer ").concat(
        rejection.as_str(),
    ).concat("–").concat(highest.as_str()).concat(" · reject <").concat(rejection.as_str());
    let style = if score.total >= score.approval_threshold {
        Style::plain(Tone::Success)
    } else {
        Style::plain(Tone::Warning)
    };
    let mut page = Page::new();
    page.push(labelled_line_styled("Current case", case.as_str(), style));
    page.push(labelled_line("Public value", value.as_str()));
    page.push(labelled_line("Regional / cost", regional.as_str()));
    page.push(labelled_line("Decision bands", bands.as_str()));
    page
}

/// The Authority's decision on a project that is not in delivery.
pub open spec fn decision_page(
    state: GameState,
    project: InfrastructureProject,
    outlook: ProjectOutlook,
    now: UtcSeconds,
) -> Seq<LineView> {
    let rules = state.rules.authority;
    let title = match project.status {
        InfrastructureProjectStatus::Deferred => "AUTHORITY HOLD"@,
        InfrastructureProjectStatus::Rejected => "AUTHORITY DECISION"@,
        _ => "AUTHORITY REVIEW"@,
    };
    let score = match outlook.review {
        Some(score) => review_lines(score),
        None => Seq::empty(),
    };
    let again = match project.status {
        InfrastructureProjectStatus::Deferred => seq![
            labelled(
                "Reconsideration"@,
                deferred_text(rules, project, outlook, now),
                plain(Tone::Plain),
            ),
        ],
        InfrastructureProjectStatus::Rejected => seq![
            labelled("Reconsideration"@, "Not automatic"@, plain(Tone::Plain)),
        ],
        _ => Seq::empty(),
    };
    let times = if project.timeline.reconsideration_count > 0 {
        seq![
            labelled(
                "Reconsidered"@,
                decimal(project.timeline.reconsideration_count as nat) + " time(s)"@,
                plain(Tone::Plain),
            ),
        ]
    } else {
        Seq::empty()
    };
    seq![
        heading(title),
        labelled("Status"@, status_text(project.status), status_tone(project.status)),
        labelled("Next"@, next_text(rules, project, outlook, now), plain(Tone::Plain)),
    ] + score + again + times
}

fn decision_lines(
    state: &GameState,
    project: &InfrastructureProject,
    outlook: &ProjectOutlook,
    now: UtcSeconds,
) -> (result: Page)
    ensures
        result@ == decision_page(*state, *project, *outlook, now),
{
    let title = match project.status {
        InfrastructureProjectStatus::Deferred => "AUTHORITY HOLD",
        InfrastructureProjectStatus::Rejected => "AUTHORITY DECISION",
        _ => "AUTHORITY REVIEW",
    };
    let next = project_next(state, project, outlook, now);
    let mut page = Page::new();
    page.push(section_heading(title));
    page.push(
        labelled_line_styled(
            "Status",
            project_status(project.status),
            status_style(project.status),
        ),
    );
    page.push(labelled_line("Next", next.as_str()));
    let ghost first = page@;
    if let Some(score) = &outlook.review {
        let mut lines = score_lines(score);
        page.append(&mut lines);
    }
    let ghost scored = page@;
    match project.status {
        InfrastructureProjectStatus::Deferred => {
            let text = deferred_next(state, project, outlook, now);
            page.push(labelled_line("Reconsideration", text.as_str()));
        },
        InfrastructureProjectStatus::Rejected => {
            page.push(labelled_line("Reconsideration", "Not automatic"));
        },
        _ => {},
    }
    let ghost decided = page@;
    if project.timeline.reconsideration_count > 0 {
        let text = decimal_text(project.timeline.reconsideration_count as u64).concat(" time(s)");
        page.push(labelled_line("Reconsidered", text.as_str()));
    }
    assert(page@ =~= decision_page(*state, *project, *outlook, now));
    page
}

/// A bar of ten blocks and the percentage behind a label.
pub open spec fn progress_spans(label: Seq<char>, percent: u8) -> LineView {
    let shown: int = if percent > 100 {
        100
    } else {
        percent as int
    };
    let filled = (shown * 10 + 50) / 100;
    seq![
        (padded_right(label, 18), plain(Tone::Secondary)),
        (repeated('█', filled as nat), plain(Tone::Warning)),
        (repeated('░', (10 - filled) as nat), plain(Tone::Secondary)),
        ("  "@ + decimal(shown as nat) + "%"@, plain(Tone::PrimaryValue)),
    ]
}

pub fn progress_line(label: &str, percent: u8) -> (result: StyledLine)
    ensures
        result@ == progress_spans(label@, percent),
{
    let shown: u8 = if percent > 100 {
        100
    } else {
        percent
    };
    let filled: usize = (shown as usize * 10 + 50) / 100;
    let padded = pad_right(label, 18);
    let full = repeat('█', filled);
    let empty = repeat('░', 10 - filled);
    let number = decimal_text(shown as u64);
    let text = "  ".to_owned().concat(number.as_str()).concat("%");
    let mut line = StyledLine::new();
    line.push(padded.as_str(), Style::plain(Tone::Secondary));
    line.push(full.as_str(), Style::plain(Tone::Warning));
    line.push(empty.as_str(), Style::plain(Tone::Secondary));
    line.push(text.as_str(), Style::plain(Tone::PrimaryValue));
    line
}

/// Who pays for a project.
pub open spec fn split_lines(funding: InfrastructureProjectFunding) -> Seq<LineView> {
    seq![
        labelled(
            "Estimated cost"@,
            money_text(funding.estimated_cost.cents as int),
            plain(Tone::Plain),
        ),
        labelled(
            "Authority funding"@,
            money_text(funding.authority_committed.cents as int),
            plain(Tone::Plain),
        ),
    ]
}

fn append_financial_split(page: &mut Page, funding: &InfrastructureProjectFunding)
    ensures
        final(page)@ == old(page)@ + split_lines(*funding),
{
    let cost = money(funding.estimated_cost);
    let share = money(funding.authority_committed);
    page.push(labelled_line("Estimated cost", cost.as_str()));
    page.push(labelled_line("Authority funding", share.as_str()));
    assert(page@ =~= old(page)@ + split_lines(*funding));
}

/// What the operator may still contribute, as far as it can be told.
pub open spec fn contribution_room(funding: InfrastructureProjectFunding) -> Option<int> {
    match funding.operator_room() {
        Ok(room) => Some(
            if room.cents > 0 {
                room.cents as int
            } else {
                0
            },
        ),
        Err(_) => None,
    }
}

/// The benefit that a contribution brings after opening.
pub open spec fn future_benefit() -> Seq<char> {
    operator_percent() + " · "@ + operator_days() + " fiscal days after opening"@
}

/// The operator's part in a project.
pub open spec fn involvement_lines(
    status: InfrastructureProjectStatus,
    funding: InfrastructureProjectFunding,
    now: UtcSeconds,
) -> Seq<LineView> {
    let room = contribution_room(funding);
    let limit = if status is Funding && room is Some {
        if room.unwrap() > 0 {
            seq![
                labelled("Contribution room"@, money_text(room.unwrap()), plain(Tone::Plain)),
            ]
        } else {
            seq![labelled("Contribution limit"@, "Reached"@, plain(Tone::Success))]
        }
    } else {
        Seq::empty()
    };
    let benefit = match funding.access_fee_discount {
        Some(discount) => labelled(
            "Access benefit"@,
            discount_text(discount, now),
            if discount.active_at(now) {
                plain(Tone::Success)
            } else {
                plain(Tone::Secondary)
            },
        ),
        None => if funding.operator_contributed.cents > 0 {
            labelled("Access benefit"@, future_benefit(), plain(Tone::Success))
        } else if status is Funding && room is Some && room.unwrap() > 0 {
            labelled("Potential benefit"@, future_benefit(), plain(Tone::Plain))
        } else {
            labelled("Access fees"@, "Normal rates apply"@, plain(Tone::Plain))
        },
    };
    seq![
        blank_line(),
        heading("YOUR INVOLVEMENT"@),
        labelled(
            "Contribution"@,
            money_text(funding.operator_contributed.cents as int),
            plain(Tone::Plain),
        ),
    ] + limit + seq![benefit]
}

fn benefit_line(
    status: InfrastructureProjectStatus,
    funding: &InfrastructureProjectFunding,
    now: UtcSeconds,
    room: i64,
) -> (result: StyledLine)
    requires
        room == (match contribution_room(*funding) {
            Some(room) => room,
            None => 0,
        }),
    ensures
        result@ == involvement_lines(status, *funding, now).last(),
{
    let percent = operator_discount_percent();
    let days = operator_discount_days();
    let future = percent.concat(" · ").concat(days.as_str()).concat(
        " fiscal days after opening",
    );
    match funding.access_fee_discount {
        Some(discount) => {
            let text = access_discount_label(discount, now);
            let style = if discount.is_active_at(now) {
                Style::plain(Tone::Success)
            } else {
                Style::plain(Tone::Secondary)
            };
            labelled_line_styled("Access benefit", text.as_str(), style)
        },
        None => if funding.operator_contributed.cents > 0 {
            labelled_line_styled("Access benefit", future.as_str(), Style::plain(Tone::Success))
        } else if matches!(status, InfrastructureProjectStatus::Funding) && room > 0 {
            labelled_line("Potential benefit", future.as_str())
        } else {
            labelled_line("Access fees", "Normal rates apply")
        },
    }
}

fn append_operator_involvement(
    page: &mut Page,
    status: InfrastructureProjectStatus,
    funding: &InfrastructureProjectFunding,
    now: UtcSeconds,
)
    ensures
        final(page)@ == old(page)@ + involvement_lines(status, *funding, now),
{
    let contribution = money(funding.operator_contributed);
    page.push_blank();
    page.push(section_heading("YOUR INVOLVEMENT"));
    page.push(labelled_line("Contribution", contribution.as_str()));
    let room = funding.remaining_operator_contribution_capacity();
    let cents: i64 = match &room {
        Ok(room) => if room.cents > 0 {
            room.cents
        } else {
            0
        },
        Err(_) => 0,
    };
    if matches!(status, InfrastructureProjectStatus::Funding) && room.is_ok() {
        if cents > 0 {
            let amount = money(crate::model::units::Money::from_cents(cents));
            page.push(labelled_line("Contribution room", amount.as_str()));
        } else {
            page.push(
                labelled_line_styled("Contribution limit", "Reached", Style::plain(Tone::Success)),
            );
        }
    }
    page.push(benefit_line(status, funding, now, cents));
    assert(page@ =~= old(page)@ + involvement_lines(status, *funding, now));
}

/// A time by its date and by its distance.
pub open spec fn dated_text(time: UtcSeconds, now: UtcSeconds) -> Seq<char> {
    timestamp_text(time, now) + " · "@ + relative_text(time, now)
}

fn dated(time: UtcSeconds, now: UtcSeconds) -> (result: String)
    ensures
        result@ == dated_text(time, now),
{
    let distance = relative_time(time, now);
    format_project_timestamp(time, now).concat(" · ").concat(distance.as_str())
}

/// What a project in delivery shows before its money: the part that depends on its stage.
pub open spec fn delivery_lines(project: InfrastructureProject, now: UtcSeconds) -> Seq<LineView> {
    let timeline = project.timeline;
    match project.status {
        InfrastructureProjectStatus::Funding => seq![
            heading("FUNDING"@),
            progress_spans("Funding"@, funded_percent(project.funding) as u8),
        ],
        InfrastructureProjectStatus::Scheduled => seq![
            heading("DELIVERY PLAN"@),
            match timeline.scheduled_start_at {
                Some(time) => labelled("Starts"@, dated_text(time, now), plain(Tone::Plain)),
                None => labelled("Starts"@, "Awaiting construction slot"@, plain(Tone::Plain)),
            },
        ],
        InfrastructureProjectStatus::Construction => seq![heading("DELIVERY & FUNDING"@)] + (
        match works(timeline, now) {
            Some((percent, remaining)) => seq![
                progress_spans("Construction"@, percent as u8),
                labelled("Remaining"@, remaining_text(remaining as nat), plain(Tone::Plain)),
            ],
            None => Seq::empty(),
        }) + (match timeline.construction_started_at {
            Some(time) => seq![labelled("Started"@, relative_text(time, now), plain(Tone::Plain))],
            None => Seq::empty(),
        }) + (match timeline.planned_completion_at {
            Some(time) => seq![
                labelled("Opens"@, timestamp_text(time, now), plain(Tone::Success)),
            ],
            None => Seq::empty(),
        }),
        InfrastructureProjectStatus::Open => seq![heading("DELIVERED"@)] + (
        match timeline.completed_at {
            Some(time) => seq![labelled("Opened"@, dated_text(time, now), plain(Tone::Success))],
            None => Seq::empty(),
        }),
        _ => seq![
            heading("PROJECT OUTCOME"@),
            labelled("Status"@, "CANCELLED"@, plain(Tone::Error)),
        ] + (match timeline.cancelled_at {
            Some(time) => seq![labelled("Cancelled"@, dated_text(time, now), plain(Tone::Plain))],
            None => Seq::empty(),
        }),
    }
}

fn construction_lines(timeline: &InfrastructureProjectTimeline, now: UtcSeconds) -> (result: Page)
    ensures
        forall|project: InfrastructureProject|
            project.status is Construction && project.timeline == *timeline ==> result@
                == #[trigger] delivery_lines(project, now),
{
    let mut page = Page::new();
    page.push(section_heading("DELIVERY & FUNDING"));
    if let Some((percent, remaining)) = construction_progress(timeline, now) {
        let left = construction_remaining_duration(remaining);
        page.push(progress_line("Construction", percent));
        page.push(labelled_line("Remaining", left.as_str()));
    }
    let ghost progressed = page@;
    if let Some(time) = timeline.construction_started_at {
        let text = relative_time(time, now);
        page.push(labelled_line("Started", text.as_str()));
    }
    let ghost started = page@;
    if let Some(time) = timeline.planned_completion_at {
        let text = format_project_timestamp(time, now);
        page.push(labelled_line_styled("Opens", text.as_str(), Style::plain(Tone::Success)));
    }
    assert forall|project: InfrastructureProject|
        project.status is Construction && project.timeline == *timeline implies page@
        == #[trigger] delivery_lines(project, now) by {
        assert(page@ =~= delivery_lines(project, now));
    }
    page
}

fn delivery_page(project: &InfrastructureProject, now: UtcSeconds) -> (result: Page)
    ensures
        result@ == delivery_lines(*project, now),
{
    let mut page = Page::new();
    match project.status {
        InfrastructureProjectStatus::Funding => {
            page.push(section_heading("FUNDING"));
            page.push(progress_line("Funding", funding_percent(&project.funding)));
        },
        InfrastructureProjectStatus::Scheduled => {
            page.push(section_heading("DELIVERY PLAN"));
            match project.timeline.scheduled_start_at {
                Some(time) => {
                    let text = dated(time, now);
                    page.push(labelled_line("Starts", text.as_str()));
                },
                None => page.push(labelled_line("Starts", "Awaiting construction slot")),
            }
        },
        InfrastructureProjectStatus::Construction => {
            return construction_lines(&project.timeline, now);
        },
        InfrastructureProjectStatus::Open => {
            page.push(section_heading("DELIVERED"));
            if let Some(time) = project.timeline.completed_at {
                let text = dated(time, now);
                page.push(
                    labelled_line_styled("Opened", text.as_str(), Style::plain(Tone::Success)),
                );
            }
        },
        _ => {
            page.push(section_heading("PROJECT OUTCOME"));
            page.push(
                labelled_line_styled("Status", "CANCELLED", Style::plain(Tone::Error)),
            );
            if let Some(time) = project.timeline.cancelled_at {
                let text = dated(time, now);
                page.push(labelled_line("Cancelled", text.as_str()));
            }
        },
    }
    assert(page@ =~= delivery_lines(*project, now));
    page
}

/// What is still to be raised, while a project raises funds.
pub open spec fn gap_lines(project: InfrastructureProject) -> Seq<LineView> {
    match (project.status, project.funding.gap()) {
        (InfrastructureProjectStatus::Funding, Ok(gap)) => seq![
            labelled(
                "Funding gap"@,
                money_text(gap.cents as int),
                if gap.cents <= 0 {
                    plain(Tone::Success)
                } else {
                    plain(Tone::Warning)
                },
            ),
        ],
        _ => Seq::empty(),
    }
}

/// What matters about a project in its present stage.
pub open spec fn focus_page(
    state: GameState,
    project: InfrastructureProject,
    outlook: ProjectOutlook,
    now: UtcSeconds,
) -> Seq<LineView> {
    match project.status {
        InfrastructureProjectStatus::Requested
        | InfrastructureProjectStatus::UnderReview
        | InfrastructureProjectStatus::Proposed
        | InfrastructureProjectStatus::Approved
        | InfrastructureProjectStatus::Deferred
        | InfrastructureProjectStatus::Rejected => decision_page(state, project, outlook, now),
        _ => delivery_lines(project, now) + split_lines(project.funding) + gap_lines(project)
            + involvement_lines(project.status, project.funding, now),
    }
}

pub fn stage_focus_lines(
    state: &GameState,
    project: &InfrastructureProject,
    outlook: &ProjectOutlook,
    now: UtcSeconds,
) -> (result: Page)
    ensures
        result@ == focus_page(*state, *project, *outlook, now),
{
    match project.status {
        InfrastructureProjectStatus::Requested
        | InfrastructureProjectStatus::UnderReview
        | InfrastructureProjectStatus::Proposed
        | InfrastructureProjectStatus::Approved
        | InfrastructureProjectStatus::Deferred
        | InfrastructureProjectStatus::Rejected => {
            return decision_lines(state, project, outlook, now);
        },
        _ => {},
    }
    let mut page = delivery_page(project, now);
    append_financial_split(&mut page, &project.funding);
    let ghost split = page@;
    if matches!(project.status, InfrastructureProjectStatus::Funding) {
        if let Ok(gap) = project.funding.funding_gap() {
            let amount = money(gap);
            let style = if gap.cents <= 0 {
                Style::plain(Tone::Success)
            } else {
                Style::plain(Tone::Warning)
            };
            page.push(labelled_line_styled("Funding gap", amount.as_str(), style));
        }
    }
    assert(page@ =~= split + gap_lines(*project));
    append_operator_involvement(&mut page, project.status, &project.funding, now);
    page
}

/// The number and heading of a project, and its stage with its next step.
pub open spec fn header_page(
    state: GameState,
    place: int,
    project: InfrastructureProject,
    outlook: ProjectOutlook,
    now: UtcSeconds,
) -> Seq<LineView> {
    let stage = stage_of(project.status);
    seq![
        line_of(
            "PROJECT "@ + zero_padded((place + 1) as nat, 2) + " · "@ + heading_text(
                state.region,
                project.kind,
            ),
            plain(Tone::Title),
        ),
        seq![
            (stage_text(stage), stage_tone(stage).emboldened()),
            (" · "@, plain(Tone::Secondary)),
            (
                next_text(state.rules.authority, project, outlook, now),
                plain(Tone::PrimaryValue),
            ),
        ],
    ]
}

pub fn project_header(
    state: &GameState,
    place: usize,
    project: &InfrastructureProject,
    outlook: &ProjectOutlook,
    now: UtcSeconds,
) -> (result: Page)
    requires
        place < usize::MAX,
    ensures
        result@ == header_page(*state, place as int, *project, *outlook, now),
{
    let number = zero_pad((place + 1) as u64, 2);
    let name = project_heading(&state.region, project);
    let title = "PROJECT ".to_owned().concat(number.as_str()).concat(" · ").concat(name.as_str());
    let stage = ProgrammeStage::from_status(project.status);
    let next = project_next(state, project, outlook, now);
    let mut page = Page::new();
    page.push_styled(title.as_str(), Style::plain(Tone::Title));
    page.push(
        StyledLine::triple(
            stage_label(stage),
            stage_style(stage).bold(),
            " · ",
            Style::plain(Tone::Secondary),
            next.as_str(),
            Style::plain(Tone::PrimaryValue),
        ),
    );
    page
}

/// The money of a project in one line.
pub open spec fn budget_line(funding: InfrastructureProjectFunding) -> LineView {
    seq![
        ("Budget  "@, plain(Tone::Secondary)),
        (money_text(funding.estimated_cost.cents as int), plain(Tone::PrimaryValue)),
        (" · Operator  "@, plain(Tone::Secondary)),
        (
            money_text(funding.operator_contributed.cents as int),
            if funding.operator_contributed.cents > 0 {
                plain(Tone::Success)
            } else {
                plain(Tone::PrimaryValue)
            },
        ),
    ]
}

/// A project in two lines, or three where there is room.
pub fn project_summary(
    state: &GameState,
    place: usize,
    project: &InfrastructureProject,
    outlook: &ProjectOutlook,
    now: UtcSeconds,
    height: u16,
) -> (result: Page)
    requires
        place < usize::MAX,
    ensures
        result@ == (if height >= 3 {
            header_page(*state, place as int, *project, *outlook, now).push(
                budget_line(project.funding),
            )
        } else {
            header_page(*state, place as int, *project, *outlook, now)
        }),
{
    let mut page = project_header(state, place, project, outlook, now);
    if height >= 3 {
        let budget = money(project.funding.estimated_cost);
        let operator = money(project.funding.operator_contributed);
        let mut line = StyledLine::new();
        line.push("Budget  ", Style::plain(Tone::Secondary));
        line.push(budget.as_str(), Style::plain(Tone::PrimaryValue));
        line.push(" · Operator  ", Style::plain(Tone::Secondary));
        line.push(
            operator.as_str(),
            if project.funding.operator_contributed.cents > 0 {
                Style::plain(Tone::Success)
            } else {
                Style::plain(Tone::PrimaryValue)
            },
        );
        assert(line@ =~= budget_line(project.funding));
        page.push(line);
    }
    page
}

/// A milestone and how far away it is, behind an arrow where it is not the first.
pub open spec fn milestone_spans(
    label: Seq<char>,
    time: Option<UtcSeconds>,
    now: UtcSeconds,
    first: bool,
) -> LineView {
    match time {
        None => Seq::empty(),
        Some(time) => {
            let spans = seq![
                (label + " "@, plain(Tone::Secondary)),
                (relative_text(time, now), plain(Tone::PrimaryValue)),
            ];
            if first {
                spans
            } else {
                seq![("  →  "@, plain(Tone::Secondary))] + spans
            }
        },
    }
}

/// The milestones of a project in order.
pub open spec fn milestone_line(timeline: InfrastructureProjectTimeline, now: UtcSeconds) -> LineView {
    let opening = if timeline.completed_at is Some {
        timeline.completed_at
    } else {
        timeline.planned_completion_at
    };
    seq![("MILESTONES  "@, plain(Tone::TableHeader))] + milestone_spans(
        "Requested"@,
        Some(timeline.requested_at),
        now,
        true,
    ) + milestone_spans("Approved"@, timeline.approved_at, now, false) + milestone_spans(
        "Funded"@,
        timeline.funding_completed_at,
        now,
        false,
    ) + milestone_spans("Build"@, timeline.construction_started_at, now, false) + milestone_spans(
        "Open"@,
        opening,
        now,
        false,
    )
}

fn push_milestone(line: &mut StyledLine, label: &str, time: Option<UtcSeconds>, now: UtcSeconds, first: bool)
    ensures
        final(line)@ == old(line)@ + milestone_spans(label@, time, now, first),
{
    if let Some(time) = time {
        if !first {
            line.push("  →  ", Style::plain(Tone::Secondary));
        }
        let name = label.to_owned().concat(" ");
        let distance = relative_time(time, now);
        line.push(name.as_str(), Style::plain(Tone::Secondary));
        line.push(distance.as_str(), Style::plain(Tone::PrimaryValue));
    }
    assert(line@ =~= old(line)@ + milestone_spans(label@, time, now, first));
}

pub fn milestones(timeline: &InfrastructureProjectTimeline, now: UtcSeconds) -> (result: StyledLine)
    ensures
        result@ == milestone_line(*timeline, now),
{
    let mut line = StyledLine::styled("MILESTONES  ", Style::plain(Tone::TableHeader));
    push_milestone(&mut line, "Requested", Some(timeline.requested_at), now, true);
    push_milestone(&mut line, "Approved", timeline.approved_at, now, false);
    push_milestone(&mut line, "Funded", timeline.funding_completed_at, now, false);
    push_milestone(&mut line, "Build", timeline.construction_started_at, now, false);
    let opening = if timeline.completed_at.is_some() {
        timeline.completed_at
    } else {
        timeline.planned_completion_at
    };
    push_milestone(&mut line, "Open", opening, now, false);
    line
}

/// The rows that the selected project asks for: seven beside its content, between fourteen
/// and twenty in all, and eight where there is none.
pub open spec fn detail_height(lines: Option<int>) -> int {
    match lines {
        None => 8,
        Some(lines) => if lines + 7 < 14 {
            14
        } else if lines + 7 > 20 {
            20
        } else {
            lines + 7
        },
    }
}

/// The rows that the selected project asks for.
pub fn preferred_project_detail_height(
    state: &GameState,
    place: Option<usize>,
    outlooks: &Vec<ProjectOutlook>,
    now: UtcSeconds,
) -> (result: u16)
    requires
        outlooks@.len() == state.region.rail_authority.infrastructure_projects@.len(),
        place matches Some(place) ==> place
            < state.region.rail_authority.infrastructure_projects@.len() && measurable(
            state.region.rail_authority.infrastructure_projects@[place as int].kind,
        ),
    ensures
        result == (match place {
            None => detail_height(None),
            Some(place) => {
                let project = state.region.rail_authority.infrastructure_projects@[place as int];
                let context = context_page(state.region, project, outlooks@[place as int]).len();
                let focus = focus_page(*state, project, outlooks@[place as int], now).len();
                detail_height(
                    Some(
                        (if context >= focus {
                            context
                        } else {
                            focus
                        }) as int,
                    ),
                )
            },
        }),
{
    let place: usize = match place {
        Some(place) => place,
        None => return 8,
    };
    let project = &state.region.rail_authority.infrastructure_projects[place];
    let context: usize = project_context_lines(&state.region, project, &outlooks[place]).len();
    let focus: usize = stage_focus_lines(state, project, &outlooks[place], now).len();
    let lines: usize = if context >= focus {
        context
    } else {
        focus
    };
    if lines < 7 {
        14
    } else if lines > 13 {
        20
    } else {
        lines as u16 + 7
    }
}

/// Where the parts of the selected project stand.
#[derive(Clone, Copy, Debug, PartialEq, Eq, Structural)]
pub enum ProjectLayout {
    Hidden,
    Summary { area: Rect },
    Brief { header: Rect, stage: Rect },
    Full { header: Rect, context: Rect, stage: Rect, milestones: Rect },
}

/// Whether the stage stands below a header of two rows.
pub open spec fn is_brief(inner: Rect, header: Rect, stage: Rect) -> bool {
    stacked(inner, seq![Share::Length(2), Share::Fill(1)], 1, seq![header, stage])
}

/// Whether the content stands between a header of two rows and one row of milestones.
pub open spec fn is_full(inner: Rect, header: Rect, content: Rect, milestones: Rect) -> bool {
    stacked(
        inner,
        seq![Share::Length(2), Share::Fill(1), Share::Length(1)],
        1,
        seq![header, content, milestones],
    )
}

/// Whether the context stands beside the stage, or below it where the content is narrow.
pub open spec fn is_content(content: Rect, context: Rect, stage: Rect) -> bool {
    if content.width >= 82 {
        aligned(
            content,
            seq![Share::Percentage(50), Share::Percentage(50)],
            2,
            seq![context, stage],
        )
    } else {
        stacked(
            content,
            seq![Share::Percentage(55), Share::Percentage(45)],
            1,
            seq![stage, context],
        )
    }
}

/// Whether all parts of the selected project divide the inside of the panel.
pub open spec fn is_division(
    inner: Rect,
    header: Rect,
    context: Rect,
    stage: Rect,
    milestones: Rect,
) -> bool {
    exists|content: Rect| #[trigger]
        is_full(inner, header, content, milestones) && is_content(content, context, stage)
}

/// Divides the inside of the panel: with few rows a summary, with some the stage below a
/// header, else all parts, beside each other where there is width for it.
pub fn project_layout(inner: Rect) -> (result: ProjectLayout)
    ensures
        result is Hidden <==> inner.width == 0 || inner.height == 0,
        inner.width > 0 && 0 < inner.height < 10 ==> result == (ProjectLayout::Summary {
            area: inner,
        }),
        inner.width > 0 && 10 <= inner.height < 14 ==> (result matches ProjectLayout::Brief {
            header,
            stage,
        } && is_brief(inner, header, stage)),
        inner.width > 0 && 14 <= inner.height ==> result is Full,
        result matches ProjectLayout::Full { header, context, stage, milestones } ==> is_division(
            inner,
            header,
            context,
            stage,
            milestones,
        ),
        inner.y + inner.height <= u16::MAX ==> match result {
            ProjectLayout::Brief { header, stage } => {
                &&& header.y == inner.y && header.height == 2
                &&& stage.y == inner.y + 3 && stage.height == inner.height - 3
            },
            ProjectLayout::Full { header, context, stage, milestones } => {
                &&& header.y == inner.y && header.height == 2
                &&& stage.y == inner.y + 3
                &&& inner.width >= 82 ==> context.y == stage.y && context.height == stage.height
                    == inner.height - 5
                &&& inner.width < 82 ==> {
                    &&& stage.height == first_of_two(55, inner.height - 5, 1)
                    &&& context.y == stage.y + stage.height + 1
                    &&& context.y + context.height == inner.y + inner.height - 2
                }
                &&& milestones.y == inner.y + inner.height - 1 && milestones.height == 1
            },
            _ => true,
        },
        inner.x + inner.width <= u16::MAX && inner.width >= 82 ==> (
        result matches ProjectLayout::Full { context, stage, .. } ==> {
            &&& context.x == inner.x && context.width == first_of_two(50, inner.width as int, 2)
            &&& stage.x == inner.x + context.width + 2
            &&& stage.x + stage.width == inner.x + inner.width
        }),
{
    if inner.height == 0 || inner.width == 0 {
        return ProjectLayout::Hidden;
    }
    if inner.height < 10 {
        return ProjectLayout::Summary { area: inner };
    }
    let ghost size = reach(inner.y, inner.height);
    if inner.height < 14 {
        let shares = vec![Share::Length(2), Share::Fill(1)];
        let rows = split_rows(inner, &shares, 1);
        proof {
            assert(shares@ =~= seq![Share::Length(2), Share::Fill(1)]);
            assert(rows@.len() == ys(rows@).len());
            assert(rows@ =~= seq![rows@[0], rows@[1]]);
            if size == inner.height {
                reveal_with_fuel(asked, 3);
                reveal_with_fuel(fills, 3);
                lengths_are_respected(inner.y as int, size, shares@, 1, ys(rows@), heights(rows@));
                assert(heights(rows@)[0] == 2);
                assert(ys(rows@)[1] == rows@[1].y);
            }
        }
        return ProjectLayout::Brief { header: rows[0], stage: rows[1] };
    }
    let shares = vec![Share::Length(2), Share::Fill(1), Share::Length(1)];
    let rows = split_rows(inner, &shares, 1);
    let content = rows[1];
    let wide = content.width >= 82;
    let sides = if wide {
        vec![Share::Percentage(50), Share::Percentage(50)]
    } else {
        vec![Share::Percentage(55), Share::Percentage(45)]
    };
    let parts = if wide {
        split_columns(content, &sides, 2)
    } else {
        split_rows(content, &sides, 1)
    };
    proof {
        assert(shares@ =~= seq![Share::Length(2), Share::Fill(1), Share::Length(1)]);
        assert(rows@.len() == ys(rows@).len());
        assert(rows@ =~= seq![rows@[0], rows@[1], rows@[2]]);
        if wide {
            assert(sides@ =~= seq![Share::Percentage(50), Share::Percentage(50)]);
            assert(parts@.len() == xs(parts@).len());
            assert(two_percentages(sides@));
            assert(widths(parts@)[0] == parts@[0].width && xs(parts@)[1] == parts@[1].x);
            assert(rows@[1].width == inner.width && rows@[1].x == inner.x);
        } else {
            assert(sides@ =~= seq![Share::Percentage(55), Share::Percentage(45)]);
            assert(parts@.len() == ys(parts@).len());
            assert(ys(parts@)[0] == parts@[0].y);
            assert(two_percentages(sides@));
            assert(heights(parts@)[0] == parts@[0].height && ys(parts@)[1] == parts@[1].y);
        }
        assert(parts@ =~= seq![parts@[0], parts@[1]]);
        assert(is_full(inner, rows@[0], content, rows@[2]));
        if size == inner.height {
            reveal_with_fuel(asked, 4);
            reveal_with_fuel(fills, 4);
            lengths_are_respected(inner.y as int, size, shares@, 1, ys(rows@), heights(rows@));
            assert(heights(rows@)[0] == 2 && heights(rows@)[2] == 1);
            assert(ys(rows@)[1] == rows@[1].y && ys(rows@)[2] == rows@[2].y);
        }
    }
    let (context, stage) = if wide {
        (parts[0], parts[1])
    } else {
        (parts[1], parts[0])
    };
    assert(is_content(content, context, stage));
    ProjectLayout::Full { header: rows[0], context, stage, milestones: rows[2] }
}

} // verus!
