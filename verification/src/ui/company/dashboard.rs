//! The Company's dashboard at every size of the terminal.

use vstd::prelude::*;
use vstd::string::StringExecFns;

use super::figures::{
    active_service_count, active_services, company_settlements, connected_settlement_count,
    connected_settlements, coverage_text, fleet_value, fleet_value_cents, margin_text,
    operating_costs, operating_costs_cents, operating_margin_label, operating_result,
    operating_result_cents, result_style, result_tone, served_settlement_count,
    settlement_coverage_label,
};
use super::receipts::{figure, figure_line};
use super::recovery::{
    compact_recovery_description, compact_text, explanation_text, option_text, panel_heading,
    recovery_option_description, section_heading, status_explanation, status_label, status_style,
    status_text, status_tone, CompanyOutlook, FinancialStatus, RecoveryOption,
};
use crate::model::catalogue::TrainCatalogue;
use crate::model::state::{GameState, Region};
use crate::text::{decimal, decimal_text, zero_pad, zero_padded};
use crate::ui::format::{cents_text, money, money_text, signed_cents, signed_text};
use crate::ui::geometry::{
    aligned, asked, fills, heights, lengths_are_respected, reach, split_columns, split_rows,
    stacked, xs, ys, Rect, Share,
};
use crate::ui::style::{blank_line, line_of, plain, strong, Page, Style, StyledLine, Tone};

verus! {

/// The three ways in which the dashboard is laid out.
#[derive(Clone, Copy, Debug, PartialEq, Eq, Structural)]
pub enum CompanyLayout {
    Wide,
    Compact,
    Tiny,
}

/// The layout that an area has room for.
pub open spec fn layout_of(area: Rect) -> CompanyLayout {
    (if area.width >= 100 && area.height >= 20 {
        CompanyLayout::Wide
    } else if area.width >= 76 && area.height >= 12 {
        CompanyLayout::Compact
    } else {
        CompanyLayout::Tiny
    })
}

pub fn company_layout(area: Rect) -> (result: CompanyLayout)
    ensures
        result == layout_of(area),
{
    if area.width >= 100 && area.height >= 20 {
        CompanyLayout::Wide
    } else if area.width >= 76 && area.height >= 12 {
        CompanyLayout::Compact
    } else {
        CompanyLayout::Tiny
    }
}

/// Whether the dashboard warns of the Company's standing.
pub open spec fn warns(outlook: CompanyOutlook) -> bool {
    outlook.evaluation matches Ok(evaluation) ==> !(evaluation.status is Operating)
}

pub fn needs_warning(outlook: &CompanyOutlook) -> (result: bool)
    ensures
        result == warns(*outlook),
{
    match &outlook.evaluation {
        Ok(evaluation) => !matches!(evaluation.status, FinancialStatus::Operating),
        Err(_) => true,
    }
}

/// The parts of the wide dashboard.
#[derive(Clone, Debug, PartialEq, Eq)]
pub struct WideCompanyAreas {
    pub status: Rect,
    pub identity: Rect,
    pub metrics: Vec<Rect>,
    pub operations: Vec<Rect>,
    pub receipts: Rect,
    pub warning: Option<Rect>,
}

impl WideCompanyAreas {
    /// The overview stands above the figures, these above the operations, and the history below
    /// all, of which a warning takes a third.
    pub open spec fn divides(self, inner: Rect) -> bool {
        let overview = Rect {
            x: inner.x,
            y: self.status.y,
            width: inner.width,
            height: self.status.height,
        };
        let metrics = Rect {
            x: inner.x,
            y: self.metrics@[0].y,
            width: inner.width,
            height: self.metrics@[0].height,
        };
        let operations = Rect {
            x: inner.x,
            y: self.operations@[0].y,
            width: inner.width,
            height: self.operations@[0].height,
        };
        let history = Rect {
            x: inner.x,
            y: self.receipts.y,
            width: inner.width,
            height: self.receipts.height,
        };
        let quarters = seq![Share::Fill(1), Share::Fill(1), Share::Fill(1), Share::Fill(1)];
        &&& stacked(
            inner,
            seq![Share::Length(2), Share::Length(5), Share::Length(4), Share::Fill(1)],
            1,
            seq![overview, metrics, operations, history],
        )
        &&& aligned(
            overview,
            seq![Share::Fill(3), Share::Fill(2)],
            2,
            seq![self.status, self.identity],
        )
        &&& aligned(metrics, quarters, 1, self.metrics@)
        &&& aligned(operations, quarters, 2, self.operations@)
        &&& match self.warning {
            Some(warning) => aligned(
                history,
                seq![Share::Fill(2), Share::Fill(1)],
                2,
                seq![self.receipts, warning],
            ),
            None => self.receipts == history,
        }
    }

    /// The rows of the parts, where there are enough.
    pub open spec fn has_rows(self, inner: Rect) -> bool {
        &&& self.status.y == self.identity.y == inner.y
        &&& self.status.height == self.identity.height == 2
        &&& forall|i: int|
            0 <= i < 4 ==> (#[trigger] self.metrics@[i]).y == inner.y + 3 && self.metrics@[i].height
                == 5
        &&& forall|i: int|
            0 <= i < 4 ==> (#[trigger] self.operations@[i]).y == inner.y + 9
                && self.operations@[i].height == 4
        &&& self.receipts.y == inner.y + 14 && self.receipts.height == inner.height - 14
    }
}

/// Divides the wide dashboard.
pub fn wide_areas(inner: Rect, warning: bool) -> (result: WideCompanyAreas)
    ensures
        result.metrics@.len() == 4,
        result.operations@.len() == 4,
        result.warning is Some <==> warning,
        result.divides(inner),
        14 <= inner.height && inner.y + inner.height <= u16::MAX ==> result.has_rows(inner),
{
    let shares = vec![Share::Length(2), Share::Length(5), Share::Length(4), Share::Fill(1)];
    let rows = split_rows(inner, &shares, 1);
    let halves = vec![Share::Fill(3), Share::Fill(2)];
    let overview = split_columns(rows[0], &halves, 2);
    let quarters = vec![Share::Fill(1), Share::Fill(1), Share::Fill(1), Share::Fill(1)];
    let metrics = split_columns(rows[1], &quarters, 1);
    let operations = split_columns(rows[2], &quarters, 2);
    let sides = vec![Share::Fill(2), Share::Fill(1)];
    let history = split_columns(rows[3], &sides, 2);
    proof {
        let size = reach(inner.y, inner.height);
        assert(shares@ =~= seq![
            Share::Length(2),
            Share::Length(5),
            Share::Length(4),
            Share::Fill(1),
        ]);
        assert(halves@ =~= seq![Share::Fill(3), Share::Fill(2)]);
        assert(quarters@ =~= seq![
            Share::Fill(1),
            Share::Fill(1),
            Share::Fill(1),
            Share::Fill(1),
        ]);
        assert(sides@ =~= seq![Share::Fill(2), Share::Fill(1)]);
        assert(rows@.len() == ys(rows@).len());
        assert(rows@ =~= seq![rows@[0], rows@[1], rows@[2], rows@[3]]);
        assert(overview@.len() == xs(overview@).len());
        assert(overview@ =~= seq![overview@[0], overview@[1]]);
        assert(metrics@.len() == xs(metrics@).len());
        assert(operations@.len() == xs(operations@).len());
        assert(history@.len() == xs(history@).len());
        assert(history@ =~= seq![history@[0], history@[1]]);
        assert(metrics@[0].y == rows@[1].y && operations@[0].y == rows@[2].y);
        if 14 <= size {
            reveal_with_fuel(asked, 5);
            reveal_with_fuel(fills, 5);
            lengths_are_respected(inner.y as int, size, shares@, 1, ys(rows@), heights(rows@));
            assert(heights(rows@)[0] == 2 && heights(rows@)[1] == 5 && heights(rows@)[2] == 4);
            assert(ys(rows@)[1] == rows@[1].y && ys(rows@)[2] == rows@[2].y && ys(rows@)[3]
                == rows@[3].y);
        }
    }
    let (receipts, warned) = if warning {
        (history[0], Some(history[1]))
    } else {
        (rows[3], None)
    };
    WideCompanyAreas {
        status: overview[0],
        identity: overview[1],
        metrics,
        operations,
        receipts,
        warning: warned,
    }
}

/// Divides the compact dashboard into the summary and the history beside it.
pub fn compact_areas(inner: Rect) -> (result: (Rect, Rect))
    ensures
        aligned(
            inner,
            seq![Share::Percentage(48), Share::Fill(1)],
            2,
            seq![result.0, result.1],
        ),
{
    let sides = vec![Share::Percentage(48), Share::Fill(1)];
    let columns = split_columns(inner, &sides, 2);
    proof {
        assert(sides@ =~= seq![Share::Percentage(48), Share::Fill(1)]);
        assert(columns@.len() == xs(columns@).len());
        assert(columns@ =~= seq![columns@[0], columns@[1]]);
    }
    (columns[0], columns[1])
}

/// Divides the review of the routes into the routes, a line and the details: above each
/// other on a narrow card or with few rows, else side by side.
pub fn review_areas(body: Rect, card_width: u16) -> (result: (Rect, Rect, Rect))
    ensures
        if card_width < 76 || body.height < 12 {
            stacked(
                body,
                seq![Share::Length(6), Share::Length(1), Share::Fill(1)],
                0,
                seq![result.0, result.1, result.2],
            )
        } else {
            aligned(
                body,
                seq![Share::Length(34), Share::Length(1), Share::Fill(1)],
                0,
                seq![result.0, result.1, result.2],
            )
        },
{
    let above = card_width < 76 || body.height < 12;
    let first: u16 = if above {
        6
    } else {
        34
    };
    let shares = vec![Share::Length(first), Share::Length(1), Share::Fill(1)];
    let parts = if above {
        split_rows(body, &shares, 0)
    } else {
        split_columns(body, &shares, 0)
    };
    proof {
        assert(shares@ =~= seq![Share::Length(first), Share::Length(1), Share::Fill(1)]);
        assert(parts@.len() == if above {
            ys(parts@).len()
        } else {
            xs(parts@).len()
        });
        assert(parts@ =~= seq![parts@[0], parts@[1], parts@[2]]);
    }
    (parts[0], parts[1], parts[2])
}

/// The Company's standing in two lines.
pub open spec fn standing_page(outlook: CompanyOutlook) -> Seq<Seq<(Seq<char>, Style)>> {
    match outlook.evaluation {
        Ok(evaluation) => seq![
            line_of(
                status_text(evaluation.status),
                status_tone(Some(evaluation.status)).emboldened(),
            ),
            line_of(explanation_text(evaluation.status), plain(Tone::Secondary)),
        ],
        Err(error) => seq![
            line_of("[?] STATUS UNAVAILABLE"@, strong(Tone::Error)),
            line_of("Financial evaluation unavailable: "@ + error@, plain(Tone::Error)),
        ],
    }
}

pub fn standing_lines(outlook: &CompanyOutlook) -> (result: Page)
    ensures
        result@ == standing_page(*outlook),
{
    let mut page = Page::new();
    match &outlook.evaluation {
        Ok(evaluation) => {
            page.push_styled(
                status_label(evaluation.status),
                status_style(Some(evaluation.status)).bold(),
            );
            page.push_styled(
                status_explanation(evaluation.status),
                Style::plain(Tone::Secondary),
            );
        },
        Err(error) => {
            let text = "Financial evaluation unavailable: ".to_owned().concat(error.as_str());
            page.push_styled("[?] STATUS UNAVAILABLE", Style::strong(Tone::Error));
            page.push_styled(text.as_str(), Style::plain(Tone::Error));
        },
    }
    page
}

/// The Company's mark and the Region's registration.
pub open spec fn registration_page(state: GameState) -> Seq<Seq<(Seq<char>, Style)>> {
    let registration = state.region.railway_registration;
    seq![
        seq![
            (
                state.player_company.vehicle_keeper_mark.mark@,
                strong(Tone::PrimaryValue),
            ),
            ("  ·  Rail "@, plain(Tone::Secondary)),
            (
                zero_padded(registration.numeric_code as nat, 2) + " · "@ + registration.mark@,
                plain(Tone::PrimaryValue),
            ),
        ],
        line_of(state.region.name@, plain(Tone::Secondary)),
    ]
}

pub fn registration_lines(state: &GameState) -> (result: Page)
    ensures
        result@ == registration_page(*state),
{
    let registration = &state.region.railway_registration;
    let code = zero_pad(registration.numeric_code as u64, 2).concat(" · ").concat(
        registration.mark.as_str(),
    );
    let mut page = Page::new();
    page.push(
        StyledLine::triple(
            state.player_company.vehicle_keeper_mark.as_str(),
            Style::strong(Tone::PrimaryValue),
            "  ·  Rail ",
            Style::plain(Tone::Secondary),
            code.as_str(),
            Style::plain(Tone::PrimaryValue),
        ),
    );
    page.push_styled(state.region.name.as_str(), Style::plain(Tone::Secondary));
    page
}

/// A figure over the Company's lifetime.
pub open spec fn metric_page(value: Seq<char>, style: Style) -> Seq<Seq<(Seq<char>, Style)>> {
    seq![line_of(value, style), line_of("lifetime"@, plain(Tone::Secondary))]
}

fn metric(value: String, style: Style) -> (result: Page)
    ensures
        result@ == metric_page(value@, style),
{
    let mut page = Page::new();
    page.push_styled(value.as_str(), style);
    page.push_styled("lifetime", Style::plain(Tone::Secondary));
    page
}

/// The result as a figure.
pub open spec fn result_page(state: GameState) -> Seq<Seq<(Seq<char>, Style)>> {
    metric_page(
        signed_text(operating_result(state.financials)),
        result_tone(operating_result(state.financials)),
    )
}

/// The card of the operating result.
pub fn result_card(state: &GameState) -> (result: Page)
    ensures
        result@ == result_page(*state),
{
    let earned: i128 = operating_result_cents(&state.financials);
    metric(signed_cents(earned), result_style(earned))
}

/// The revenue as a figure.
pub open spec fn revenue_page(state: GameState) -> Seq<Seq<(Seq<char>, Style)>> {
    metric_page(
        money_text(state.financials.operating_revenue.cents as int),
        strong(Tone::PrimaryValue),
    )
}

/// The card of the revenue.
pub fn revenue_card(state: &GameState) -> (result: Page)
    ensures
        result@ == revenue_page(*state),
{
    metric(money(state.financials.operating_revenue), Style::strong(Tone::PrimaryValue))
}

/// The costs as a figure.
pub open spec fn costs_page(state: GameState) -> Seq<Seq<(Seq<char>, Style)>> {
    metric_page(
        money_text(operating_costs(state.financials)),
        strong(Tone::PrimaryValue),
    )
}

/// The card of the operating costs.
pub fn costs_card(state: &GameState) -> (result: Page)
    ensures
        result@ == costs_page(*state),
{
    metric(
        cents_text(operating_costs_cents(&state.financials)),
        Style::strong(Tone::PrimaryValue),
    )
}

/// The margin as a figure.
pub open spec fn margin_page(state: GameState) -> Seq<Seq<(Seq<char>, Style)>> {
    metric_page(
        margin_text(state.financials),
        result_tone(operating_result(state.financials)),
    )
}

/// The card of the margin.
pub fn margin_card(state: &GameState) -> (result: Page)
    ensures
        result@ == margin_page(*state),
{
    let earned: i128 = operating_result_cents(&state.financials);
    metric(operating_margin_label(&state.financials), result_style(earned))
}

/// The Fleet in figures.
pub open spec fn fleet_page(state: GameState) -> Seq<Seq<(Seq<char>, Style)>> {
    seq![
        panel_heading("FLEET"@),
        line_of(
            decimal(state.player_company.fleet.trains@.len()) + " trains"@,
            plain(Tone::PrimaryValue),
        ),
        seq![
            ("Fleet value  "@, plain(Tone::Secondary)),
            (money_text(fleet_value(state)), plain(Tone::PrimaryValue)),
        ],
    ]
}

/// The Fleet and what it cost.
pub fn fleet_lines(state: &GameState) -> (result: Page)
    ensures
        result@ == fleet_page(*state),
{
    let count = decimal_text(state.player_company.fleet.trains.len() as u64).concat(" trains");
    let value = cents_text(fleet_value_cents(state));
    let mut page = Page::new();
    page.push(section_heading("FLEET"));
    page.push_styled(count.as_str(), Style::plain(Tone::PrimaryValue));
    page.push(
        StyledLine::pair(
            "Fleet value  ",
            Style::plain(Tone::Secondary),
            value.as_str(),
            Style::plain(Tone::PrimaryValue),
        ),
    );
    page
}

/// The services in figures.
pub open spec fn service_page(state: GameState) -> Seq<Seq<(Seq<char>, Style)>> {
    seq![
        panel_heading("SERVICES"@),
        line_of(
            decimal(active_services(state) as nat) + " / "@ + decimal(
                state.player_company.passenger_services@.len(),
            ) + " active"@,
            if active_services(state) > 0 {
                plain(Tone::Success)
            } else {
                plain(Tone::PrimaryValue)
            },
        ),
        seq![
            ("Idle  "@, plain(Tone::Secondary)),
            (
                decimal(
                    (state.player_company.passenger_services@.len() - active_services(
                        state,
                    )) as nat,
                ),
                plain(Tone::PrimaryValue),
            ),
        ],
    ]
}

/// The services and how many of them run.
pub fn service_lines(state: &GameState) -> (result: Page)
    ensures
        result@ == service_page(*state),
{
    let defined: usize = state.player_company.passenger_services.len();
    let active: usize = active_service_count(state);
    let total = decimal_text(defined as u64);
    let text = decimal_text(active as u64).concat(" / ").concat(total.as_str()).concat(" active");
    let idle = decimal_text((defined - active) as u64);
    let style = if active > 0 {
        Style::plain(Tone::Success)
    } else {
        Style::plain(Tone::PrimaryValue)
    };
    let mut page = Page::new();
    page.push(section_heading("SERVICES"));
    page.push_styled(text.as_str(), style);
    page.push(
        StyledLine::pair(
            "Idle  ",
            Style::plain(Tone::Secondary),
            idle.as_str(),
            Style::plain(Tone::PrimaryValue),
        ),
    );
    page
}

/// The coverage in figures.
pub open spec fn network_page(state: GameState) -> Seq<Seq<(Seq<char>, Style)>> {
    seq![
        panel_heading("NETWORK"@),
        line_of(
            decimal(company_settlements(state).len()) + " / "@ + decimal(
                connected_settlements(state).len(),
            ) + " served"@,
            plain(Tone::PrimaryValue),
        ),
        line_of(
            coverage_text(
                company_settlements(state).len() as int,
                connected_settlements(state).len() as int,
            ),
            plain(Tone::Secondary),
        ),
    ]
}

/// The settlements that the Company serves.
pub fn network_lines(state: &GameState) -> (result: Page)
    ensures
        result@ == network_page(*state),
{
    let served: usize = served_settlement_count(state);
    let connected: usize = connected_settlement_count(state);
    let total = decimal_text(connected as u64);
    let text = decimal_text(served as u64).concat(" / ").concat(total.as_str()).concat(" served");
    let coverage = settlement_coverage_label(served, connected);
    let mut page = Page::new();
    page.push(section_heading("NETWORK"));
    page.push_styled(text.as_str(), Style::plain(Tone::PrimaryValue));
    page.push_styled(coverage.as_str(), Style::plain(Tone::Secondary));
    page
}

/// The costs by what they are for.
pub open spec fn cost_page(state: GameState) -> Seq<Seq<(Seq<char>, Style)>> {
    seq![
        panel_heading("COST MIX"@),
        figure_line(
            "Access"@,
            14,
            money_text(state.financials.infrastructure_access_fees.cents as int),
            plain(Tone::PrimaryValue),
        ),
        figure_line(
            "Fuel"@,
            14,
            money_text(state.financials.fuel_costs.cents as int),
            plain(Tone::PrimaryValue),
        ),
    ]
}

/// What the operating costs are made of.
pub fn cost_lines(state: &GameState) -> (result: Page)
    ensures
        result@ == cost_page(*state),
{
    let value = Style::plain(Tone::PrimaryValue);
    let mut page = Page::new();
    page.push(section_heading("COST MIX"));
    page.push(figure("Access", 14, money(state.financials.infrastructure_access_fees), value));
    page.push(figure("Fuel", 14, money(state.financials.fuel_costs), value));
    page
}

/// How many routes the dashboard lists.
pub const MAXIMUM_RECOVERY_OPTIONS_SHOWN: usize = 3;

pub open spec fn listed_options(options: Seq<RecoveryOption>) -> int {
    if options.len() < MAXIMUM_RECOVERY_OPTIONS_SHOWN {
        options.len() as int
    } else {
        MAXIMUM_RECOVERY_OPTIONS_SHOWN as int
    }
}

/// The first routes behind bullets.
pub open spec fn option_lines(
    region: Region,
    catalogue: TrainCatalogue,
    options: Seq<RecoveryOption>,
) -> Seq<Seq<(Seq<char>, Style)>> {
    Seq::new(
        listed_options(options) as nat,
        |i: int|
            line_of(
                "· "@ + option_text(region, catalogue, options[i]),
                plain(Tone::PrimaryValue),
            ),
    )
}

fn push_options(page: &mut Page, region: &Region, catalogue: &TrainCatalogue, options: &Vec<RecoveryOption>)
    ensures
        final(page)@ == old(page)@ + option_lines(*region, *catalogue, options@),
{
    let ghost lines = option_lines(*region, *catalogue, options@);
    let mut i: usize = 0;
    while i < options.len() && i < MAXIMUM_RECOVERY_OPTIONS_SHOWN
        invariant
            i <= listed_options(options@),
            lines == option_lines(*region, *catalogue, options@),
            page@ == old(page)@ + lines.take(i as int),
        decreases options.len() - i,
    {
        let description = recovery_option_description(region, catalogue, &options[i]);
        let text = "· ".to_owned().concat(description.as_str());
        page.push_styled(text.as_str(), Style::plain(Tone::PrimaryValue));
        i += 1;
        assert(page@ =~= old(page)@ + lines.take(i as int));
    }
    assert(lines.take(i as int) =~= lines);
}

/// The warning: the Company's standing and what can be done about it.
pub open spec fn warning_page(region: Region, outlook: CompanyOutlook) -> Seq<
    Seq<(Seq<char>, Style)>,
> {
    match outlook.evaluation {
        Err(error) => seq![line_of("Recovery unavailable: "@ + error@, plain(Tone::Error))],
        Ok(evaluation) => seq![
            line_of(status_text(evaluation.status), status_tone(Some(evaluation.status))),
        ] + (match evaluation.status {
            FinancialStatus::Operating => seq![
                line_of("No recovery action is required."@, plain(Tone::Secondary)),
            ],
            FinancialStatus::BankruptcyDeferred => seq![
                line_of("An active Journey may still settle revenue."@, plain(Tone::Secondary)),
            ],
            FinancialStatus::Insolvent => seq![
                line_of("Concrete recovery options:"@, plain(Tone::Secondary)),
                line_of(
                    "Only routes affordable under the current rules are listed; review before acting."@,
                    plain(Tone::Hint),
                ),
            ] + option_lines(region, outlook.catalogue, evaluation.recovery_options@),
            FinancialStatus::Bankruptcy => seq![
                line_of("No finite recovery option remains."@, plain(Tone::Secondary)),
            ],
        }),
    }
}

pub fn warning_lines(region: &Region, outlook: &CompanyOutlook) -> (result: Page)
    ensures
        result@ == warning_page(*region, *outlook),
{
    let secondary = Style::plain(Tone::Secondary);
    let mut page = Page::new();
    match &outlook.evaluation {
        Err(error) => {
            let text = "Recovery unavailable: ".to_owned().concat(error.as_str());
            page.push_styled(text.as_str(), Style::plain(Tone::Error));
        },
        Ok(evaluation) => {
            page.push_styled(
                status_label(evaluation.status),
                status_style(Some(evaluation.status)),
            );
            match evaluation.status {
                FinancialStatus::Operating => {
                    page.push_styled("No recovery action is required.", secondary);
                },
                FinancialStatus::BankruptcyDeferred => {
                    page.push_styled("An active Journey may still settle revenue.", secondary);
                },
                FinancialStatus::Insolvent => {
                    page.push_styled("Concrete recovery options:", secondary);
                    page.push_styled(
                        "Only routes affordable under the current rules are listed; review before acting.",
                        Style::plain(Tone::Hint),
                    );
                    push_options(
                        &mut page,
                        region,
                        &outlook.catalogue,
                        &evaluation.recovery_options,
                    );
                },
                FinancialStatus::Bankruptcy => {
                    page.push_styled("No finite recovery option remains.", secondary);
                },
            }
        },
    }
    assert(page@ =~= warning_page(*region, *outlook));
    page
}

/// The Company in the compact summary.
pub open spec fn compact_company(state: GameState) -> Seq<Seq<(Seq<char>, Style)>> {
    let value = plain(Tone::PrimaryValue);
    seq![
        panel_heading("COMPANY"@),
        figure_line("VKM"@, 14, state.player_company.vehicle_keeper_mark.mark@, value),
        figure_line("Fleet value"@, 14, money_text(fleet_value(state)), value),
        figure_line(
            "Services"@,
            14,
            decimal(state.player_company.passenger_services@.len()) + " · "@ + decimal(
                active_services(state) as nat,
            ) + " active"@,
            value,
        ),
        figure_line(
            "Coverage"@,
            14,
            coverage_text(
                company_settlements(state).len() as int,
                connected_settlements(state).len() as int,
            ) + " places"@,
            value,
        ),
        blank_line(),
    ]
}

fn compact_company_lines(state: &GameState) -> (result: Page)
    ensures
        result@ == compact_company(*state),
{
    let value = Style::plain(Tone::PrimaryValue);
    let active = decimal_text(active_service_count(state) as u64);
    let services = decimal_text(state.player_company.passenger_services.len() as u64).concat(
        " · ",
    ).concat(active.as_str()).concat(" active");
    let coverage = settlement_coverage_label(
        served_settlement_count(state),
        connected_settlement_count(state),
    ).concat(" places");
    let mut page = Page::new();
    page.push(section_heading("COMPANY"));
    page.push(figure("VKM", 14, state.player_company.vehicle_keeper_mark.mark.clone(), value));
    page.push(figure("Fleet value", 14, cents_text(fleet_value_cents(state)), value));
    page.push(figure("Services", 14, services, value));
    page.push(figure("Coverage", 14, coverage, value));
    page.push_blank();
    page
}

/// The Company's money in the compact summary.
pub open spec fn compact_finances(state: GameState) -> Seq<Seq<(Seq<char>, Style)>> {
    let value = plain(Tone::PrimaryValue);
    let result = operating_result(state.financials);
    seq![
        panel_heading("FINANCIAL · LIFETIME"@),
        figure_line(
            "Revenue"@,
            14,
            money_text(state.financials.operating_revenue.cents as int),
            value,
        ),
        figure_line(
            "Operating costs"@,
            14,
            money_text(operating_costs(state.financials)),
            value,
        ),
        figure_line("Operating result"@, 14, signed_text(result), result_tone(result)),
        figure_line("Margin"@, 14, margin_text(state.financials), result_tone(result)),
    ]
}

fn compact_finance_lines(state: &GameState) -> (result: Page)
    ensures
        result@ == compact_finances(*state),
{
    let value = Style::plain(Tone::PrimaryValue);
    let earned: i128 = operating_result_cents(&state.financials);
    let mut page = Page::new();
    page.push(section_heading("FINANCIAL · LIFETIME"));
    page.push(figure("Revenue", 14, money(state.financials.operating_revenue), value));
    page.push(
        figure(
            "Operating costs",
            14,
            cents_text(operating_costs_cents(&state.financials)),
            value,
        ),
    );
    page.push(figure("Operating result", 14, signed_cents(earned), result_style(earned)));
    page.push(
        figure("Margin", 14, operating_margin_label(&state.financials), result_style(earned)),
    );
    page
}

/// The first route in the compact summary.
pub open spec fn compact_route(outlook: CompanyOutlook) -> Seq<Seq<(Seq<char>, Style)>> {
    match outlook.evaluation {
        Ok(evaluation) => if evaluation.recovery_options@.len() > 0 {
            seq![
                blank_line(),
                panel_heading("RECOVERY"@),
                line_of(
                    compact_text(outlook.catalogue, evaluation.recovery_options@[0]),
                    plain(Tone::PrimaryValue),
                ),
            ]
        } else {
            Seq::empty()
        },
        Err(_) => Seq::empty(),
    }
}

/// The compact summary.
pub open spec fn compact_page(state: GameState, outlook: CompanyOutlook) -> Seq<
    Seq<(Seq<char>, Style)>,
> {
    seq![
        panel_heading("STATUS"@),
        match outlook.evaluation {
            Ok(evaluation) => line_of(
                status_text(evaluation.status),
                status_tone(Some(evaluation.status)),
            ),
            Err(error) => line_of("[?] STATUS UNAVAILABLE: "@ + error@, plain(Tone::Error)),
        },
        blank_line(),
    ] + compact_company(state) + compact_finances(state) + compact_route(outlook)
}

pub fn compact_summary(state: &GameState, outlook: &CompanyOutlook) -> (result: Page)
    ensures
        result@ == compact_page(*state, *outlook),
{
    let mut page = Page::new();
    page.push(section_heading("STATUS"));
    match &outlook.evaluation {
        Ok(evaluation) => page.push_styled(
            status_label(evaluation.status),
            status_style(Some(evaluation.status)),
        ),
        Err(error) => {
            let text = "[?] STATUS UNAVAILABLE: ".to_owned().concat(error.as_str());
            page.push_styled(text.as_str(), Style::plain(Tone::Error));
        },
    }
    page.push_blank();
    let mut company = compact_company_lines(state);
    page.append(&mut company);
    let mut finances = compact_finance_lines(state);
    page.append(&mut finances);
    let ghost summary = page@;
    if let Ok(evaluation) = &outlook.evaluation {
        if evaluation.recovery_options.len() > 0 {
            let route = compact_recovery_description(
                &outlook.catalogue,
                &evaluation.recovery_options[0],
            );
            page.push_blank();
            page.push(section_heading("RECOVERY"));
            page.push_styled(route.as_str(), Style::plain(Tone::PrimaryValue));
        }
    }
    assert(page@ =~= summary + compact_route(*outlook));
    page
}

/// The smallest dashboard.
pub open spec fn tiny_page(state: GameState, outlook: CompanyOutlook) -> Seq<
    Seq<(Seq<char>, Style)>,
> {
    let result = operating_result(state.financials);
    seq![
        panel_heading("STATUS"@),
        match outlook.evaluation {
            Ok(evaluation) => line_of(
                status_text(evaluation.status),
                status_tone(Some(evaluation.status)),
            ),
            Err(_) => line_of("[?] STATUS UNAVAILABLE"@, status_tone(None)),
        },
        blank_line(),
        panel_heading("COMPANY"@),
        figure_line(
            "VKM"@,
            14,
            state.player_company.vehicle_keeper_mark.mark@,
            plain(Tone::PrimaryValue),
        ),
        figure_line(
            "Fleet value"@,
            14,
            money_text(fleet_value(state)),
            plain(Tone::PrimaryValue),
        ),
        figure_line("Result"@, 14, signed_text(result), result_tone(result)),
    ]
}

pub fn tiny_lines(state: &GameState, outlook: &CompanyOutlook) -> (result: Page)
    ensures
        result@ == tiny_page(*state, *outlook),
{
    let value = Style::plain(Tone::PrimaryValue);
    let earned: i128 = operating_result_cents(&state.financials);
    let mut page = Page::new();
    page.push(section_heading("STATUS"));
    match &outlook.evaluation {
        Ok(evaluation) => page.push_styled(
            status_label(evaluation.status),
            status_style(Some(evaluation.status)),
        ),
        Err(_) => page.push_styled("[?] STATUS UNAVAILABLE", status_style(None)),
    }
    page.push_blank();
    page.push(section_heading("COMPANY"));
    page.push(figure("VKM", 14, state.player_company.vehicle_keeper_mark.mark.clone(), value));
    page.push(figure("Fleet value", 14, cents_text(fleet_value_cents(state)), value));
    page.push(figure("Result", 14, signed_cents(earned), result_style(earned)));
    page
}

} // verus!
