//! The Authority's dashboard at every size of the terminal.

use vstd::prelude::*;
use vstd::string::StringExecFns;

use super::analytics::{AuthorityDashboardSnapshot, NextNetworkChange};
use super::format::{
    heading_text, next_text, project_heading, project_next, project_scope, project_status,
    scope_text, status_style, status_text, status_tone, ProjectOutlook,
};
use super::project::{track_metres, LineView};
use crate::model::network::RailLine;
use crate::model::project::{
    find_project, project_index, InfrastructureProject, InfrastructureProjectKind,
    InfrastructureProjectStatus,
};
use crate::model::state::GameState;
use crate::model::units::{Money, UtcSeconds};
use crate::text::{
    decimal, decimal_text, pad_right, padded_right, print_lines, printed, push_text, views,
    zero_pad, zero_padded,
};
use crate::ui::calendar::{relative_text, relative_time};
use crate::ui::format::{distance, distance_text, money, money_text};
use crate::ui::geometry::{
    aligned, asked, fills, first_of_two, heights, lengths_are_respected, reach, split_columns,
    split_rows, stacked, two_percentages, widths, xs, ys, Rect, Share,
};
use crate::ui::style::{line_of, plain, strong, Page, Style, StyledLine, Tone};

verus! {

/// The three ways in which the dashboard is laid out.
#[derive(Clone, Copy, Debug, PartialEq, Eq, Structural)]
pub enum AuthorityLayout {
    Wide,
    Compact,
    Tiny,
}

/// The layout that an area has room for.
pub open spec fn layout_of(area: Rect) -> AuthorityLayout {
    (if area.width >= 100 && area.height >= 24 {
        AuthorityLayout::Wide
    } else if area.width >= 72 && area.height >= 16 {
        AuthorityLayout::Compact
    } else {
        AuthorityLayout::Tiny
    })
}

pub fn authority_layout(area: Rect) -> (result: AuthorityLayout)
    ensures
        result == layout_of(area),
{
    if area.width >= 100 && area.height >= 24 {
        AuthorityLayout::Wide
    } else if area.width >= 72 && area.height >= 16 {
        AuthorityLayout::Compact
    } else {
        AuthorityLayout::Tiny
    }
}

/// The rows of the project table: one for each of at most seven projects, and three around
/// them, but six at least.
pub open spec fn table_height(projects: int) -> int {
    if projects < 3 {
        6
    } else if projects > 7 {
        10
    } else {
        projects + 3
    }
}

/// The parts of the wide dashboard.
#[derive(Clone, Copy, Debug, PartialEq, Eq, Structural)]
pub struct WideAreas {
    pub programme: Rect,
    pub identity: Rect,
    pub investment: Rect,
    pub delivery: Rect,
    pub network: Rect,
    pub pipeline: Rect,
    pub body: Rect,
    pub projects: Rect,
    pub project: Rect,
}

impl WideAreas {
    /// The overview stands above the cards, these above the pipeline, and the body below all.
    pub open spec fn divides(self, inner: Rect) -> bool {
        let overview = Rect {
            x: inner.x,
            y: self.programme.y,
            width: inner.width,
            height: self.programme.height,
        };
        let cards = Rect {
            x: inner.x,
            y: self.investment.y,
            width: inner.width,
            height: self.investment.height,
        };
        &&& stacked(
            inner,
            seq![Share::Length(2), Share::Length(6), Share::Length(2), Share::Fill(1)],
            1,
            seq![overview, cards, self.pipeline, self.body],
        )
        &&& aligned(
            overview,
            seq![Share::Fill(3), Share::Fill(2)],
            2,
            seq![self.programme, self.identity],
        )
        &&& aligned(
            cards,
            seq![Share::Fill(1), Share::Fill(1), Share::Fill(1)],
            1,
            seq![self.investment, self.delivery, self.network],
        )
    }

    /// The selected project stands below the table where the body has nine rows more than the
    /// table, else beside it.
    pub open spec fn divides_body(self, projects: int) -> bool {
        let height = table_height(projects);
        if self.body.height >= height + 9 {
            stacked(
                self.body,
                seq![Share::Length(height as u16), Share::Fill(1)],
                1,
                seq![self.projects, self.project],
            )
        } else {
            aligned(
                self.body,
                seq![Share::Percentage(58), Share::Percentage(42)],
                1,
                seq![self.projects, self.project],
            )
        }
    }

    /// The rows of the parts, where there are enough.
    pub open spec fn has_rows(self, inner: Rect) -> bool {
        &&& self.programme.y == self.identity.y == inner.y
        &&& self.programme.height == self.identity.height == 2
        &&& self.investment.y == self.delivery.y == self.network.y == inner.y + 3
        &&& self.investment.height == self.delivery.height == self.network.height == 6
        &&& self.pipeline.y == inner.y + 10 && self.pipeline.height == 2
        &&& self.body.y == inner.y + 13 && self.body.height == inner.height - 13
    }
}

/// Divides the wide dashboard.
pub fn wide_areas(inner: Rect, projects: usize) -> (result: WideAreas)
    ensures
        result.divides(inner),
        result.divides_body(projects as int),
        result.body.height < table_height(projects as int) + 9 && 1 <= inner.width && inner.x
            + inner.width <= u16::MAX ==> {
            &&& result.projects.x == inner.x
            &&& result.projects.width == first_of_two(58, inner.width as int, 1)
            &&& result.project.x == inner.x + result.projects.width + 1
            &&& result.project.x + result.project.width == inner.x + inner.width
        },
        13 <= inner.height && inner.y + inner.height <= u16::MAX ==> result.has_rows(inner),
{
    let shares = vec![Share::Length(2), Share::Length(6), Share::Length(2), Share::Fill(1)];
    let rows = split_rows(inner, &shares, 1);
    let halves = vec![Share::Fill(3), Share::Fill(2)];
    let overview = split_columns(rows[0], &halves, 2);
    let thirds = vec![Share::Fill(1), Share::Fill(1), Share::Fill(1)];
    let metrics = split_columns(rows[1], &thirds, 1);
    let body = rows[3];
    let height: u16 = if projects < 3 {
        6
    } else if projects > 7 {
        10
    } else {
        projects as u16 + 3
    };
    let below = body.height >= height + 9;
    let sides = if below {
        vec![Share::Length(height), Share::Fill(1)]
    } else {
        vec![Share::Percentage(58), Share::Percentage(42)]
    };
    let parts = if below {
        split_rows(body, &sides, 1)
    } else {
        split_columns(body, &sides, 1)
    };
    proof {
        let size = reach(inner.y, inner.height);
        assert(shares@ =~= seq![
            Share::Length(2),
            Share::Length(6),
            Share::Length(2),
            Share::Fill(1),
        ]);
        assert(halves@ =~= seq![Share::Fill(3), Share::Fill(2)]);
        assert(thirds@ =~= seq![Share::Fill(1), Share::Fill(1), Share::Fill(1)]);
        assert(rows@.len() == ys(rows@).len());
        assert(rows@ =~= seq![rows@[0], rows@[1], rows@[2], rows@[3]]);
        assert(overview@.len() == xs(overview@).len());
        assert(overview@ =~= seq![overview@[0], overview@[1]]);
        assert(metrics@.len() == xs(metrics@).len());
        assert(metrics@ =~= seq![metrics@[0], metrics@[1], metrics@[2]]);
        if below {
            assert(sides@ =~= seq![Share::Length(height), Share::Fill(1)]);
            assert(parts@.len() == ys(parts@).len());
        } else {
            assert(sides@ =~= seq![Share::Percentage(58), Share::Percentage(42)]);
            assert(parts@.len() == xs(parts@).len());
            assert(two_percentages(sides@));
            assert(widths(parts@)[0] == parts@[0].width && xs(parts@)[0] == parts@[0].x);
            assert(xs(parts@)[1] == parts@[1].x && widths(parts@)[1] == parts@[1].width);
            assert(rows@[3].width == inner.width && rows@[3].x == inner.x);
        }
        assert(parts@ =~= seq![parts@[0], parts@[1]]);
        if 13 <= size {
            reveal_with_fuel(asked, 5);
            reveal_with_fuel(fills, 5);
            lengths_are_respected(inner.y as int, size, shares@, 1, ys(rows@), heights(rows@));
            assert(heights(rows@)[0] == 2 && heights(rows@)[1] == 6 && heights(rows@)[2] == 2);
            assert(ys(rows@)[1] == rows@[1].y && ys(rows@)[2] == rows@[2].y && ys(rows@)[3]
                == rows@[3].y);
        }
    }
    WideAreas {
        programme: overview[0],
        identity: overview[1],
        investment: metrics[0],
        delivery: metrics[1],
        network: metrics[2],
        pipeline: rows[2],
        body,
        projects: parts[0],
        project: parts[1],
    }
}

/// The parts of the compact dashboard.
#[derive(Clone, Copy, Debug, PartialEq, Eq, Structural)]
pub struct CompactAreas {
    pub summary: Rect,
    pub pipeline: Rect,
    pub projects: Rect,
    pub project: Option<Rect>,
}

/// Divides the compact dashboard; with twenty rows there is one for the selected project.
pub fn compact_areas(inner: Rect) -> (result: CompactAreas)
    ensures
        result.project is Some <==> inner.height >= 20,
        match result.project {
            Some(project) => stacked(
                inner,
                seq![Share::Length(4), Share::Length(2), Share::Length(7), Share::Fill(1)],
                1,
                seq![result.summary, result.pipeline, result.projects, project],
            ),
            None => stacked(
                inner,
                seq![Share::Length(4), Share::Length(2), Share::Fill(1)],
                1,
                seq![result.summary, result.pipeline, result.projects],
            ),
        },
        8 <= inner.height && inner.y + inner.height <= u16::MAX ==> {
            &&& result.summary.y == inner.y && result.summary.height == 4
            &&& result.pipeline.y == inner.y + 5 && result.pipeline.height == 2
            &&& result.projects.y == inner.y + 8
            &&& match result.project {
                Some(project) => result.projects.height == 7 && project.y == inner.y + 16
                    && project.height == inner.height - 16,
                None => result.projects.height == inner.height - 8,
            }
        },
{
    let detailed = inner.height >= 20;
    let shares = if detailed {
        vec![Share::Length(4), Share::Length(2), Share::Length(7), Share::Fill(1)]
    } else {
        vec![Share::Length(4), Share::Length(2), Share::Fill(1)]
    };
    let rows = split_rows(inner, &shares, 1);
    proof {
        let size = reach(inner.y, inner.height);
        assert(rows@.len() == ys(rows@).len());
        if detailed {
            assert(shares@ =~= seq![
                Share::Length(4),
                Share::Length(2),
                Share::Length(7),
                Share::Fill(1),
            ]);
            assert(rows@ =~= seq![rows@[0], rows@[1], rows@[2], rows@[3]]);
        } else {
            assert(shares@ =~= seq![Share::Length(4), Share::Length(2), Share::Fill(1)]);
            assert(rows@ =~= seq![rows@[0], rows@[1], rows@[2]]);
        }
        if 8 <= size && size == inner.height {
            reveal_with_fuel(asked, 5);
            reveal_with_fuel(fills, 5);
            lengths_are_respected(inner.y as int, size, shares@, 1, ys(rows@), heights(rows@));
            assert(heights(rows@)[0] == 4 && heights(rows@)[1] == 2);
            assert(ys(rows@)[1] == rows@[1].y && ys(rows@)[2] == rows@[2].y);
            if detailed {
                assert(heights(rows@)[2] == 7);
                assert(ys(rows@)[3] == rows@[3].y);
            }
        }
    }
    CompactAreas {
        summary: rows[0],
        pipeline: rows[1],
        projects: rows[2],
        project: if detailed {
            Some(rows[3])
        } else {
            None
        },
    }
}

/// The project of a change to the network.
pub open spec fn changing_project(state: GameState, change: NextNetworkChange) -> Option<
    InfrastructureProject,
> {
    let projects = state.region.rail_authority.infrastructure_projects@;
    match project_index(projects, change.project_id) {
        Some(place) => Some(projects[place]),
        None => None,
    }
}

/// The next change to the network behind a label, in the words of a dashboard.
pub open spec fn change_line(
    state: GameState,
    next: Option<NextNetworkChange>,
    now: UtcSeconds,
    label: Seq<char>,
    quiet: Seq<char>,
    joint: Seq<char>,
) -> LineView {
    let head = (label, plain(Tone::TableHeader));
    match next {
        None => seq![head, (quiet, plain(Tone::Secondary))],
        Some(change) => match changing_project(state, change) {
            None => seq![head, ("Opening details unavailable"@, plain(Tone::Secondary))],
            Some(project) => seq![
                head,
                (heading_text(state.region, project.kind), strong(Tone::PrimaryValue)),
                (joint + relative_text(change.opens_at, now), plain(Tone::Secondary)),
            ],
        },
    }
}

fn change_text_line(
    state: &GameState,
    next: Option<NextNetworkChange>,
    now: UtcSeconds,
    label: &str,
    quiet: &str,
    joint: &str,
) -> (result: StyledLine)
    ensures
        result@ == change_line(*state, next, now, label@, quiet@, joint@),
{
    let head = Style::plain(Tone::TableHeader);
    let secondary = Style::plain(Tone::Secondary);
    let change = match next {
        None => return StyledLine::pair(label, head, quiet, secondary),
        Some(change) => change,
    };
    let projects = &state.region.rail_authority.infrastructure_projects;
    match find_project(projects, change.project_id) {
        None => StyledLine::pair(label, head, "Opening details unavailable", secondary),
        Some(place) => {
            let name = project_heading(&state.region, &projects[place]);
            let distance = relative_time(change.opens_at, now);
            let opening = joint.to_owned().concat(distance.as_str());
            StyledLine::triple(
                label,
                head,
                name.as_str(),
                Style::strong(Tone::PrimaryValue),
                opening.as_str(),
                secondary,
            )
        },
    }
}

/// The next change to the network.
pub fn next_network_change_line(
    state: &GameState,
    snapshot: &AuthorityDashboardSnapshot,
    now: UtcSeconds,
) -> (result: StyledLine)
    ensures
        result@ == change_line(
            *state,
            snapshot.next_network_change,
            now,
            "NEXT NETWORK CHANGE  "@,
            "No opening currently scheduled"@,
            " · opens "@,
        ),
{
    change_text_line(
        state,
        snapshot.next_network_change,
        now,
        "NEXT NETWORK CHANGE  ",
        "No opening currently scheduled",
        " · opens ",
    )
}

/// The next change to the network in few words.
pub fn compact_network_change_line(
    state: &GameState,
    snapshot: &AuthorityDashboardSnapshot,
    now: UtcSeconds,
) -> (result: StyledLine)
    ensures
        result@ == change_line(
            *state,
            snapshot.next_network_change,
            now,
            "Next change  "@,
            "No opening scheduled"@,
            " · "@,
        ),
{
    change_text_line(
        state,
        snapshot.next_network_change,
        now,
        "Next change  ",
        "No opening scheduled",
        " · ",
    )
}

pub open spec fn at_most_u64(value: int) -> int {
    if value <= u64::MAX {
        value
    } else {
        u64::MAX as int
    }
}

fn saturated_metres(lines: &Vec<RailLine>) -> (result: u64)
    ensures
        result == at_most_u64(track_metres(lines@, lines@.len() as int)),
{
    match super::project::total_metres(lines) {
        Some(metres) => metres,
        None => u64::MAX,
    }
}

/// What a project adds to the network.
pub open spec fn footprint_text(kind: InfrastructureProjectKind) -> Seq<char> {
    match kind {
        InfrastructureProjectKind::NewLine { planned_stations, planned_lines } => "+"@ + decimal(
            planned_stations@.len(),
        ) + (if planned_stations@.len() == 1 {
            " station · +"@
        } else {
            " stations · +"@
        }) + distance_text(
            at_most_u64(track_metres(planned_lines@, planned_lines@.len() as int)) as nat,
        ) + " underway"@,
        InfrastructureProjectKind::SpeedUpgrade { rail_line_ids, .. } => decimal(
            rail_line_ids@.len(),
        ) + " segment(s) being upgraded"@,
        InfrastructureProjectKind::DoubleTracking { rail_line_ids, .. } => decimal(
            rail_line_ids@.len(),
        ) + " segment(s) being upgraded"@,
        InfrastructureProjectKind::Electrification { rail_line_ids } => decimal(
            rail_line_ids@.len(),
        ) + " segment(s) being upgraded"@,
        InfrastructureProjectKind::Renewal { rail_line_ids } => decimal(rail_line_ids@.len())
            + " segment(s) being upgraded"@,
        InfrastructureProjectKind::StationUpgrade { rail_station_ids } => decimal(
            rail_station_ids@.len(),
        ) + " station(s) being upgraded"@,
    }
}

fn segments_upgraded(count: usize) -> (result: String)
    ensures
        result@ == decimal(count as nat) + " segment(s) being upgraded"@,
{
    decimal_text(count as u64).concat(" segment(s) being upgraded")
}

pub fn network_change_footprint(kind: &InfrastructureProjectKind) -> (result: String)
    ensures
        result@ == footprint_text(*kind),
{
    match kind {
        InfrastructureProjectKind::NewLine { planned_stations, planned_lines } => {
            let number = decimal_text(planned_stations.len() as u64);
            let noun = if planned_stations.len() == 1 {
                " station · +"
            } else {
                " stations · +"
            };
            let length = distance(saturated_metres(planned_lines));
            "+".to_owned().concat(number.as_str()).concat(noun).concat(length.as_str()).concat(
                " underway",
            )
        },
        InfrastructureProjectKind::SpeedUpgrade { rail_line_ids, .. } => segments_upgraded(
            rail_line_ids.len(),
        ),
        InfrastructureProjectKind::DoubleTracking { rail_line_ids, .. } => segments_upgraded(
            rail_line_ids.len(),
        ),
        InfrastructureProjectKind::Electrification { rail_line_ids } => segments_upgraded(
            rail_line_ids.len(),
        ),
        InfrastructureProjectKind::Renewal { rail_line_ids } => segments_upgraded(
            rail_line_ids.len(),
        ),
        InfrastructureProjectKind::StationUpgrade { rail_station_ids } => decimal_text(
            rail_station_ids.len() as u64,
        ).concat(" station(s) being upgraded"),
    }
}

/// Whether the programme moves, what it delivers, and its next change to the network.
pub open spec fn overview_page(
    state: GameState,
    snapshot: AuthorityDashboardSnapshot,
    now: UtcSeconds,
) -> Seq<LineView> {
    let quiet = snapshot.programme.unfinished() == 0;
    seq![
        seq![
            if quiet {
                ("PROGRAMME QUIET"@, strong(Tone::Secondary))
            } else {
                ("PROGRAMME ACTIVE"@, strong(Tone::Success))
            },
            (
                " · "@ + decimal(snapshot.active_construction as nat) + " building · "@ + decimal(
                    snapshot.programme.funding as nat,
                ) + " funding · "@ + decimal(snapshot.programme.open as nat) + " open"@,
                plain(Tone::Secondary),
            ),
        ],
        change_line(
            state,
            snapshot.next_network_change,
            now,
            "NEXT NETWORK CHANGE  "@,
            "No opening currently scheduled"@,
            " · opens "@,
        ),
    ]
}

pub fn overview_lines(
    state: &GameState,
    snapshot: &AuthorityDashboardSnapshot,
    now: UtcSeconds,
) -> (result: Page)
    requires
        snapshot.programme.unfinished() <= usize::MAX,
    ensures
        result@ == overview_page(*state, *snapshot, now),
{
    let building = decimal_text(snapshot.active_construction as u64);
    let funding = decimal_text(snapshot.programme.funding as u64);
    let open = decimal_text(snapshot.programme.open as u64);
    let text = " · ".to_owned().concat(building.as_str()).concat(" building · ").concat(
        funding.as_str(),
    ).concat(" funding · ").concat(open.as_str()).concat(" open");
    let secondary = Style::plain(Tone::Secondary);
    let first = if snapshot.programme.pipeline() == 0 {
        StyledLine::pair(
            "PROGRAMME QUIET",
            Style::strong(Tone::Secondary),
            text.as_str(),
            secondary,
        )
    } else {
        StyledLine::pair(
            "PROGRAMME ACTIVE",
            Style::strong(Tone::Success),
            text.as_str(),
            secondary,
        )
    };
    let mut page = Page::new();
    page.push(first);
    page.push(next_network_change_line(state, snapshot, now));
    page
}

/// The Authority's name, its Region and its next allocation.
pub open spec fn identity_page(
    state: GameState,
    snapshot: AuthorityDashboardSnapshot,
    now: UtcSeconds,
) -> Seq<LineView> {
    let fiscal = match snapshot.next_fiscal_period_at {
        Some(time) => "next allocation "@ + relative_text(time, now),
        None => "allocation schedule pending"@,
    };
    seq![
        line_of(state.region.rail_authority.name@, plain(Tone::Title)),
        seq![
            (state.region.name@, plain(Tone::Secondary)),
            (" · "@ + fiscal, plain(Tone::Hint)),
        ],
    ]
}

pub fn identity_lines(
    state: &GameState,
    snapshot: &AuthorityDashboardSnapshot,
    now: UtcSeconds,
) -> (result: Page)
    ensures
        result@ == identity_page(*state, *snapshot, now),
{
    let fiscal = match snapshot.next_fiscal_period_at {
        Some(time) => {
            let distance = relative_time(time, now);
            "next allocation ".to_owned().concat(distance.as_str())
        },
        None => "allocation schedule pending".to_owned(),
    };
    let context = " · ".to_owned().concat(fiscal.as_str());
    let mut page = Page::new();
    page.push_styled(state.region.rail_authority.name.as_str(), Style::plain(Tone::Title));
    page.push(
        StyledLine::pair(
            state.region.name.as_str(),
            Style::plain(Tone::Secondary),
            context.as_str(),
            Style::plain(Tone::Hint),
        ),
    );
    page
}

/// A card of the dashboard: a value, a subtitle and two lines of context.
pub open spec fn card_page(
    value: Seq<char>,
    subtitle: Seq<char>,
    context: Seq<char>,
    more: Seq<char>,
    tone: Tone,
) -> Seq<LineView> {
    seq![
        line_of(value, strong(tone)),
        line_of(subtitle, plain(Tone::Secondary)),
        line_of(context, plain(Tone::Secondary)),
        line_of(more, plain(Tone::Hint)),
    ]
}

fn card(value: &str, subtitle: &str, context: &str, more: &str, tone: Tone) -> (result: Page)
    ensures
        result@ == card_page(value@, subtitle@, context@, more@, tone),
{
    let mut page = Page::new();
    page.push_styled(value, Style::strong(tone));
    page.push_styled(subtitle, Style::plain(Tone::Secondary));
    page.push_styled(context, Style::plain(Tone::Secondary));
    page.push_styled(more, Style::plain(Tone::Hint));
    page
}

/// An amount, or a dash where there is none.
pub open spec fn amount_or_dash(amount: Option<Money>) -> Seq<char> {
    match amount {
        Some(amount) => money_text(amount.cents as int),
        None => "—"@,
    }
}

fn amount_text(amount: Option<Money>) -> (result: String)
    ensures
        result@ == amount_or_dash(amount),
{
    match amount {
        Some(amount) => money(amount),
        None => "—".to_owned(),
    }
}

/// The Authority's money.
pub open spec fn investment_page(snapshot: AuthorityDashboardSnapshot) -> Seq<LineView> {
    card_page(
        amount_or_dash(snapshot.available_investment) + " available"@,
        "Treasury "@ + money_text(snapshot.treasury.cents as int),
        "Reserve "@ + money_text(snapshot.maintenance_reserve.cents as int),
        "Committed "@ + money_text(snapshot.committed_investment.cents as int),
        Tone::Success,
    )
}

/// The card of the Authority's money.
pub fn investment_card(snapshot: &AuthorityDashboardSnapshot) -> (result: Page)
    ensures
        result@ == investment_page(*snapshot),
{
    let available = amount_text(snapshot.available_investment).concat(" available");
    let treasury = money(snapshot.treasury);
    let reserve = money(snapshot.maintenance_reserve);
    let committed = money(snapshot.committed_investment);
    let first = "Treasury ".to_owned().concat(treasury.as_str());
    let second = "Reserve ".to_owned().concat(reserve.as_str());
    let third = "Committed ".to_owned().concat(committed.as_str());
    card(available.as_str(), first.as_str(), second.as_str(), third.as_str(), Tone::Success)
}

pub open spec fn at_capacity(snapshot: AuthorityDashboardSnapshot) -> bool {
    snapshot.free_construction == 0 && snapshot.construction_capacity > 0
}

/// The Authority's construction slots.
pub open spec fn delivery_page(snapshot: AuthorityDashboardSnapshot, now: UtcSeconds) -> Seq<LineView> {
    card_page(
        decimal(snapshot.reserved_construction as nat) + " / "@ + decimal(
            snapshot.construction_capacity as nat,
        ),
        "construction slots reserved"@,
        if at_capacity(snapshot) {
            "CAPACITY FULL"@
        } else {
            decimal(snapshot.free_construction as nat) + " slots free"@
        },
        match snapshot.next_network_change {
            Some(change) => "Next release "@ + relative_text(change.opens_at, now),
            None => "No active opening scheduled"@,
        },
        if at_capacity(snapshot) {
            Tone::Warning
        } else {
            Tone::PrimaryValue
        },
    )
}

/// The card of the Authority's construction slots.
pub fn delivery_card(snapshot: &AuthorityDashboardSnapshot, now: UtcSeconds) -> (result: Page)
    ensures
        result@ == delivery_page(*snapshot, now),
{
    let full = snapshot.free_construction == 0 && snapshot.construction_capacity > 0;
    let capacity = decimal_text(snapshot.construction_capacity as u64);
    let value = decimal_text(snapshot.reserved_construction as u64).concat(" / ").concat(
        capacity.as_str(),
    );
    let context = if full {
        "CAPACITY FULL".to_owned()
    } else {
        decimal_text(snapshot.free_construction as u64).concat(" slots free")
    };
    let release = match snapshot.next_network_change {
        Some(change) => {
            let distance = relative_time(change.opens_at, now);
            "Next release ".to_owned().concat(distance.as_str())
        },
        None => "No active opening scheduled".to_owned(),
    };
    card(
        value.as_str(),
        "construction slots reserved",
        context.as_str(),
        release.as_str(),
        if full {
            Tone::Warning
        } else {
            Tone::PrimaryValue
        },
    )
}

/// What the next change adds to the network.
pub open spec fn addition_text(
    state: GameState,
    next: Option<NextNetworkChange>,
) -> Seq<char> {
    match next {
        Some(change) => match changing_project(state, change) {
            Some(project) => footprint_text(project.kind),
            None => "No network addition underway"@,
        },
        None => "No network addition underway"@,
    }
}

/// The network and what is added to it.
pub open spec fn network_page(state: GameState, snapshot: AuthorityDashboardSnapshot) -> Seq<LineView> {
    card_page(
        decimal(snapshot.station_count as nat) + " stations"@,
        decimal(snapshot.segment_count as nat) + " segments in service"@,
        addition_text(state, snapshot.next_network_change),
        decimal(snapshot.programme.unfinished() as nat) + " projects in pipeline"@,
        Tone::PrimaryValue,
    )
}

/// The card of the network.
pub fn network_card(state: &GameState, snapshot: &AuthorityDashboardSnapshot) -> (result: Page)
    requires
        snapshot.programme.unfinished() <= usize::MAX,
    ensures
        result@ == network_page(*state, *snapshot),
{
    let projects = &state.region.rail_authority.infrastructure_projects;
    let stations = decimal_text(snapshot.station_count as u64).concat(" stations");
    let segments = decimal_text(snapshot.segment_count as u64).concat(" segments in service");
    let pipeline = decimal_text(snapshot.programme.pipeline() as u64).concat(
        " projects in pipeline",
    );
    let addition = match snapshot.next_network_change {
        Some(change) => match find_project(projects, change.project_id) {
            Some(place) => network_change_footprint(&projects[place].kind),
            None => "No network addition underway".to_owned(),
        },
        None => "No network addition underway".to_owned(),
    };
    card(
        stations.as_str(),
        segments.as_str(),
        addition.as_str(),
        pipeline.as_str(),
        Tone::PrimaryValue,
    )
}

/// The money line of the compact summary.
pub open spec fn compact_money_line(snapshot: AuthorityDashboardSnapshot) -> LineView {
    seq![
        ("Available  "@, plain(Tone::Secondary)),
        (amount_or_dash(snapshot.available_investment), strong(Tone::Success)),
        ("   Treasury  "@, plain(Tone::Secondary)),
        (money_text(snapshot.treasury.cents as int), plain(Tone::PrimaryValue)),
    ]
}

/// The delivery line of the compact summary.
pub open spec fn compact_delivery_line(
    snapshot: AuthorityDashboardSnapshot,
    now: UtcSeconds,
) -> LineView {
    let allocation = match snapshot.next_fiscal_period_at {
        Some(time) => "+"@ + money_text(snapshot.public_allocation.cents as int) + " · "@
            + relative_text(time, now),
        None => "allocation pending"@,
    };
    seq![
        ("Delivery  "@, plain(Tone::Secondary)),
        (
            decimal(snapshot.reserved_construction as nat) + "/"@ + decimal(
                snapshot.construction_capacity as nat,
            ) + " slots"@,
            if at_capacity(snapshot) {
                plain(Tone::Warning)
            } else {
                plain(Tone::PrimaryValue)
            },
        ),
        ("   Next allocation  "@, plain(Tone::Secondary)),
        (allocation, plain(Tone::PrimaryValue)),
    ]
}

fn compact_money(snapshot: &AuthorityDashboardSnapshot) -> (result: StyledLine)
    ensures
        result@ == compact_money_line(*snapshot),
{
    let available = amount_text(snapshot.available_investment);
    let treasury = money(snapshot.treasury);
    let mut line = StyledLine::triple(
        "Available  ",
        Style::plain(Tone::Secondary),
        available.as_str(),
        Style::strong(Tone::Success),
        "   Treasury  ",
        Style::plain(Tone::Secondary),
    );
    line.push(treasury.as_str(), Style::plain(Tone::PrimaryValue));
    line
}

fn compact_delivery(snapshot: &AuthorityDashboardSnapshot, now: UtcSeconds) -> (result: StyledLine)
    ensures
        result@ == compact_delivery_line(*snapshot, now),
{
    let capacity = decimal_text(snapshot.construction_capacity as u64);
    let slots = decimal_text(snapshot.reserved_construction as u64).concat("/").concat(
        capacity.as_str(),
    ).concat(" slots");
    let allocation = match snapshot.next_fiscal_period_at {
        Some(time) => {
            let amount = money(snapshot.public_allocation);
            let distance = relative_time(time, now);
            "+".to_owned().concat(amount.as_str()).concat(" · ").concat(distance.as_str())
        },
        None => "allocation pending".to_owned(),
    };
    let style = if snapshot.free_construction == 0 && snapshot.construction_capacity > 0 {
        Style::plain(Tone::Warning)
    } else {
        Style::plain(Tone::PrimaryValue)
    };
    let mut line = StyledLine::triple(
        "Delivery  ",
        Style::plain(Tone::Secondary),
        slots.as_str(),
        style,
        "   Next allocation  ",
        Style::plain(Tone::Secondary),
    );
    line.push(allocation.as_str(), Style::plain(Tone::PrimaryValue));
    line
}

/// The Authority at a glance.
pub open spec fn summary_page(state: GameState, snapshot: AuthorityDashboardSnapshot, now: UtcSeconds) -> Seq<LineView> {
    seq![
        seq![
            (state.region.rail_authority.name@, plain(Tone::Title)),
            (" · "@ + state.region.name@, plain(Tone::Secondary)),
        ],
        compact_money_line(snapshot),
        compact_delivery_line(snapshot, now),
        change_line(
            state,
            snapshot.next_network_change,
            now,
            "Next change  "@,
            "No opening scheduled"@,
            " · "@,
        ),
    ]
}

/// The summary of the compact dashboard.
pub fn compact_summary(
    state: &GameState,
    snapshot: &AuthorityDashboardSnapshot,
    now: UtcSeconds,
) -> (result: Page)
    ensures
        result@ == summary_page(*state, *snapshot, now),
{
    let region = " · ".to_owned().concat(state.region.name.as_str());
    let mut page = Page::new();
    page.push(
        StyledLine::pair(
            state.region.rail_authority.name.as_str(),
            Style::plain(Tone::Title),
            region.as_str(),
            Style::plain(Tone::Secondary),
        ),
    );
    page.push(compact_money(snapshot));
    page.push(compact_delivery(snapshot, now));
    page.push(compact_network_change_line(state, snapshot, now));
    page
}

/// The project in focus on the smallest dashboard.
pub open spec fn tiny_project(
    state: GameState,
    outlooks: Seq<ProjectOutlook>,
    now: UtcSeconds,
    place: Option<int>,
) -> Seq<LineView> {
    match place {
        None => Seq::empty(),
        Some(place) => {
            let project = state.region.rail_authority.infrastructure_projects@[place];
            seq![
                seq![
                    (
                        "PROJECT "@ + zero_padded((place + 1) as nat, 2) + "  "@,
                        plain(Tone::TableHeader),
                    ),
                    (scope_text(state.region, project.kind), plain(Tone::PrimaryValue)),
                ],
                seq![
                    (status_text(project.status), status_tone(project.status)),
                    (" · "@, plain(Tone::Secondary)),
                    (
                        next_text(state.rules.authority, project, outlooks[place], now),
                        plain(Tone::Secondary),
                    ),
                ],
            ]
        },
    }
}

/// The figures of the smallest dashboard.
pub open spec fn tiny_figures(state: GameState, snapshot: AuthorityDashboardSnapshot) -> LineView {
    seq![
        ("Available  "@, plain(Tone::Secondary)),
        (amount_or_dash(snapshot.available_investment), plain(Tone::Success)),
        (" · "@, plain(Tone::Secondary)),
        (
            decimal(state.region.rail_authority.infrastructure_projects@.len()) + " projects"@,
            plain(Tone::PrimaryValue),
        ),
    ]
}

/// The smallest dashboard.
pub open spec fn tiny_page(
    state: GameState,
    snapshot: AuthorityDashboardSnapshot,
    outlooks: Seq<ProjectOutlook>,
    now: UtcSeconds,
    place: Option<int>,
) -> Seq<LineView> {
    seq![
        line_of(state.region.rail_authority.name@, plain(Tone::Title)),
        tiny_figures(state, snapshot),
        change_line(
            state,
            snapshot.next_network_change,
            now,
            "Next change  "@,
            "No opening scheduled"@,
            " · "@,
        ),
    ] + tiny_project(state, outlooks, now, place)
}

fn tiny_project_lines(
    state: &GameState,
    outlooks: &Vec<ProjectOutlook>,
    now: UtcSeconds,
    place: Option<usize>,
) -> (result: Page)
    requires
        outlooks@.len() == state.region.rail_authority.infrastructure_projects@.len(),
        place matches Some(place) ==> place
            < state.region.rail_authority.infrastructure_projects@.len(),
    ensures
        result@ == tiny_project(
            *state,
            outlooks@,
            now,
            match place {
                Some(place) => Some(place as int),
                None => None,
            },
        ),
{
    let mut page = Page::new();
    if let Some(place) = place {
        let count: usize = outlooks.len();
        assert(place < count);
        let project = &state.region.rail_authority.infrastructure_projects[place];
        let number = zero_pad(place as u64 + 1, 2);
        let title = "PROJECT ".to_owned().concat(number.as_str()).concat("  ");
        let scope = project_scope(&state.region, project);
        let next = project_next(state, project, &outlooks[place], now);
        page.push(
            StyledLine::pair(
                title.as_str(),
                Style::plain(Tone::TableHeader),
                scope.as_str(),
                Style::plain(Tone::PrimaryValue),
            ),
        );
        page.push(
            StyledLine::triple(
                project_status(project.status),
                status_style(project.status),
                " · ",
                Style::plain(Tone::Secondary),
                next.as_str(),
                Style::plain(Tone::Secondary),
            ),
        );
    }
    page
}

/// The smallest dashboard.
pub fn tiny_lines(
    state: &GameState,
    snapshot: &AuthorityDashboardSnapshot,
    outlooks: &Vec<ProjectOutlook>,
    now: UtcSeconds,
    place: Option<usize>,
) -> (result: Page)
    requires
        outlooks@.len() == state.region.rail_authority.infrastructure_projects@.len(),
        place matches Some(place) ==> place
            < state.region.rail_authority.infrastructure_projects@.len(),
    ensures
        result@ == tiny_page(
            *state,
            *snapshot,
            outlooks@,
            now,
            match place {
                Some(place) => Some(place as int),
                None => None,
            },
        ),
{
    let available = amount_text(snapshot.available_investment);
    let count = decimal_text(
        state.region.rail_authority.infrastructure_projects.len() as u64,
    ).concat(" projects");
    let mut figures = StyledLine::triple(
        "Available  ",
        Style::plain(Tone::Secondary),
        available.as_str(),
        Style::plain(Tone::Success),
        " · ",
        Style::plain(Tone::Secondary),
    );
    figures.push(count.as_str(), Style::plain(Tone::PrimaryValue));
    assert(figures@ =~= tiny_figures(*state, *snapshot));
    let mut page = Page::new();
    page.push_styled(state.region.rail_authority.name.as_str(), Style::plain(Tone::Title));
    page.push(figures);
    page.push(compact_network_change_line(state, snapshot, now));
    let mut project = tiny_project_lines(state, outlooks, now, place);
    page.append(&mut project);
    page
}

/// A status in the textual dashboard, which names the council behind a request.
pub open spec fn plain_status(status: InfrastructureProjectStatus) -> Seq<char> {
    if status is Requested {
        "Council request"@
    } else {
        status_text(status)
    }
}

/// A project in the textual dashboard.
pub open spec fn text_row(
    state: GameState,
    outlooks: Seq<ProjectOutlook>,
    now: UtcSeconds,
    place: int,
) -> Seq<char> {
    let project = state.region.rail_authority.infrastructure_projects@[place];
    zero_padded((place + 1) as nat, 2) + "  "@ + padded_right(plain_status(project.status), 14)
        + "  "@ + scope_text(state.region, project.kind) + "  "@ + next_text(
        state.rules.authority,
        project,
        outlooks[place],
        now,
    )
}

/// The first `count` projects of the textual dashboard.
pub open spec fn text_rows(
    state: GameState,
    outlooks: Seq<ProjectOutlook>,
    now: UtcSeconds,
    count: int,
) -> Seq<Seq<char>> {
    Seq::new(count as nat, |i: int| text_row(state, outlooks, now, i))
}

/// The Authority's figures in the textual dashboard.
pub open spec fn text_figures(state: GameState, now: UtcSeconds) -> Seq<Seq<char>> {
    let authority = state.region.rail_authority;
    let finances = authority.finances;
    let available = match finances.uncommitted() {
        Ok(amount) => money_text(amount.cents as int),
        Err(_) => "—"@,
    };
    seq![
        authority.name@,
        "Treasury: "@ + money_text(finances.treasury.cents as int),
        "Available investment: "@ + available,
        "Maintenance reserve: "@ + money_text(finances.maintenance_reserve.cents as int),
        "Committed projects: "@ + money_text(finances.committed_investment.cents as int),
    ] + (match finances.next_fiscal_period_at {
        Some(next) => seq![
            "Next fiscal period: +"@ + money_text(finances.regional_public_allocation.cents as int)
                + " · "@ + relative_text(next, now),
        ],
        None => Seq::empty(),
    }) + seq![
        "Access-fee revenue: "@ + money_text(
            finances.infrastructure_access_fee_revenue.cents as int,
        ),
        "Construction slots: "@ + decimal(authority.reserved() as nat) + "/"@ + decimal(
            authority.construction_capacity as nat,
        ) + " reserved"@,
        "Projects:"@,
    ]
}

fn figure_lines(state: &GameState, now: UtcSeconds) -> (result: Vec<String>)
    ensures
        views(result@) == text_figures(*state, now),
{
    let authority = &state.region.rail_authority;
    let finances = &authority.finances;
    let available = match finances.uncommitted_investment() {
        Ok(amount) => money(amount),
        Err(_) => "—".to_owned(),
    };
    let treasury = money(finances.treasury);
    let reserve = money(finances.maintenance_reserve);
    let committed = money(finances.committed_investment);
    let revenue = money(finances.infrastructure_access_fee_revenue);
    let reserved = decimal_text(authority.reserved_construction_count() as u64);
    let capacity = decimal_text(authority.construction_capacity as u64);
    let mut lines: Vec<String> = Vec::new();
    assert(views(lines@) =~= Seq::<Seq<char>>::empty());
    push_text(&mut lines, authority.name.clone());
    push_text(&mut lines, "Treasury: ".to_owned().concat(treasury.as_str()));
    push_text(&mut lines, "Available investment: ".to_owned().concat(available.as_str()));
    push_text(&mut lines, "Maintenance reserve: ".to_owned().concat(reserve.as_str()));
    push_text(&mut lines, "Committed projects: ".to_owned().concat(committed.as_str()));
    if let Some(next) = finances.next_fiscal_period_at {
        let allocation = money(finances.regional_public_allocation);
        let distance = relative_time(next, now);
        push_text(
            &mut lines,
            "Next fiscal period: +".to_owned().concat(allocation.as_str()).concat(" · ").concat(
                distance.as_str(),
            ),
        );
    }
    push_text(&mut lines, "Access-fee revenue: ".to_owned().concat(revenue.as_str()));
    push_text(
        &mut lines,
        "Construction slots: ".to_owned().concat(reserved.as_str()).concat("/").concat(
            capacity.as_str(),
        ).concat(" reserved"),
    );
    push_text(&mut lines, "Projects:".to_owned());
    assert(views(lines@) =~= text_figures(*state, now));
    lines
}

fn row_text(state: &GameState, outlooks: &Vec<ProjectOutlook>, now: UtcSeconds, place: usize) -> (result:
    String)
    requires
        outlooks@.len() == state.region.rail_authority.infrastructure_projects@.len(),
        place < outlooks@.len(),
    ensures
        result@ == text_row(*state, outlooks@, now, place as int),
{
    let count: usize = outlooks.len();
    assert(place < count);
    let project = &state.region.rail_authority.infrastructure_projects[place];
    let status = if matches!(project.status, InfrastructureProjectStatus::Requested) {
        "Council request"
    } else {
        project_status(project.status)
    };
    let padded = pad_right(status, 14);
    let scope = project_scope(&state.region, project);
    let next = project_next(state, project, &outlooks[place], now);
    zero_pad(place as u64 + 1, 2).concat("  ").concat(padded.as_str()).concat("  ").concat(
        scope.as_str(),
    ).concat("  ").concat(next.as_str())
}

/// The dashboard as plain text, for the smallest terminals.
pub fn render_text(state: &GameState, outlooks: &Vec<ProjectOutlook>, now: UtcSeconds) -> (result:
    String)
    requires
        outlooks@.len() == state.region.rail_authority.infrastructure_projects@.len(),
    ensures
        result@ == printed(
            text_figures(*state, now) + text_rows(
                *state,
                outlooks@,
                now,
                outlooks@.len() as int,
            ),
        ),
{
    let mut lines = figure_lines(state, now);
    let ghost figures = views(lines@);
    let mut place: usize = 0;
    assert(figures + text_rows(*state, outlooks@, now, 0) =~= figures);
    while place < outlooks.len()
        invariant
            place <= outlooks@.len(),
            outlooks@.len() == state.region.rail_authority.infrastructure_projects@.len(),
            views(lines@) == figures + text_rows(*state, outlooks@, now, place as int),
        decreases outlooks.len() - place,
    {
        let row = row_text(state, outlooks, now, place);
        push_text(&mut lines, row);
        place += 1;
        assert(views(lines@) =~= figures + text_rows(*state, outlooks@, now, place as int));
    }
    print_lines(&lines)
}

} // verus!
