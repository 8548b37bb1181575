//! The review of an operator's contribution before it is made.

use vstd::prelude::*;
use vstd::string::StringExecFns;

use super::format::{
    amount_line, money_line, operator_days, operator_discount_days, operator_discount_percent,
    operator_percent, project_scope, scope_text,
};
use crate::model::ids::InfrastructureProjectId;
use crate::model::project::{
    find_project, project_index, InfrastructureProject, InfrastructureProjectStatus,
};
use crate::model::state::GameState;
use crate::model::units::Money;
use crate::ui::format::{money, money_text};
use crate::ui::style::{blank_line, line_of, plain, Page, Style, StyledLine, Tone};

verus! {

/// A contribution that waits for confirmation.
#[derive(Clone, Copy, Debug, PartialEq, Eq, Structural)]
pub struct ContributionReview {
    pub project_id: InfrastructureProjectId,
    pub amount: Money,
}

/// The contribution that a project accepts from the operator, or why it accepts none.
pub open spec fn review_of(state: GameState, project_id: InfrastructureProjectId) -> Result<
    ContributionReview,
    Seq<char>,
> {
    let projects = state.region.rail_authority.infrastructure_projects@;
    match project_index(projects, project_id) {
        None => Err("The selected infrastructure project is no longer available."@),
        Some(place) => if !(projects[place].status is Funding) {
            Err("Contributions are accepted only while a project is in Funding."@)
        } else {
            match projects[place].funding.suggestion(state.player_company.funds) {
                Err(_) => Err("The contribution amount could not be calculated."@),
                Ok(amount) => if amount.cents <= 0 {
                    Err(
                        "No contribution can be made from the current Company Funds and project funding gap."@,
                    )
                } else {
                    Ok(ContributionReview { project_id, amount })
                },
            }
        },
    }
}

impl ContributionReview {
    /// Proposes a contribution to a project.
    pub fn start(state: &GameState, project_id: InfrastructureProjectId) -> (result: Result<
        Self,
        &'static str,
    >)
        ensures
            match result {
                Ok(review) => review_of(*state, project_id) == Ok::<ContributionReview, Seq<char>>(
                    review,
                ),
                Err(message) => review_of(*state, project_id) == Err::<
                    ContributionReview,
                    Seq<char>,
                >(message@),
            },
    {
        let projects = &state.region.rail_authority.infrastructure_projects;
        let place: usize = match find_project(projects, project_id) {
            Some(place) => place,
            None => return Err("The selected infrastructure project is no longer available."),
        };
        if !matches!(projects[place].status, InfrastructureProjectStatus::Funding) {
            return Err("Contributions are accepted only while a project is in Funding.");
        }
        match projects[place].funding.suggested_operator_contribution(state.player_company.funds) {
            Err(_) => Err("The contribution amount could not be calculated."),
            Ok(amount) => if amount.cents <= 0 {
                Err(
                    "No contribution can be made from the current Company Funds and project funding gap.",
                )
            } else {
                Ok(ContributionReview { project_id, amount })
            },
        }
    }
}

/// A proposed contribution is positive and fits the Company Funds, the funding gap and the
/// operator's cap.
pub proof fn proposed_contributions_are_affordable(
    state: GameState,
    project_id: InfrastructureProjectId,
    review: ContributionReview,
    place: int,
)
    requires
        review_of(state, project_id) == Ok::<ContributionReview, Seq<char>>(review),
        project_index(
            state.region.rail_authority.infrastructure_projects@,
            project_id,
        ) == Some(place),
    ensures
        ({
            let amount = review.amount;
            let funding =
                state.region.rail_authority.infrastructure_projects@[place].funding;
            &&& 0 < amount.cents <= state.player_company.funds.cents
            &&& funding.operator_contributed.cents + amount.cents <= funding.operator_cap()
            &&& funding.authority_committed.cents + funding.operator_contributed.cents
                + amount.cents <= funding.estimated_cost.cents
        }),
{
}

/// The lines of a review.
pub open spec fn review_page(
    state: GameState,
    project: InfrastructureProject,
    review: ContributionReview,
) -> Seq<Seq<(Seq<char>, Style)>> {
    let capacity = match project.funding.operator_room() {
        Ok(room) => money_text(room.cents as int),
        Err(_) => "—"@,
    };
    seq![
        seq![
            ("Project  "@, plain(Tone::Secondary)),
            (scope_text(state.region, project.kind), plain(Tone::PrimaryValue)),
        ],
        blank_line(),
        amount_line("Company Funds"@, state.player_company.funds),
        amount_line("Contribution"@, review.amount),
        amount_line("Already contributed"@, project.funding.operator_contributed),
        seq![
            ("Access discount after opening  "@, plain(Tone::Secondary)),
            (
                operator_percent() + " for "@ + operator_days() + " fiscal days"@,
                plain(Tone::Success),
            ),
        ],
        seq![
            ("Contribution capacity  "@, plain(Tone::Secondary)),
            (capacity, plain(Tone::PrimaryValue)),
        ],
        blank_line(),
        line_of(
            "This is a 10% project-cost tranche, capped by the remaining funding gap,"@,
            plain(Tone::Plain),
        ),
        line_of("the 20% operator cap, and current Company Funds."@, plain(Tone::Plain)),
        line_of(
            "Contributing can close funding sooner but never shortens construction time."@,
            plain(Tone::Plain),
        ),
        line_of(
            "After opening, contributed infrastructure receives a "@ + operator_percent()
                + " access-fee discount for "@ + operator_days() + " fiscal days."@,
            plain(Tone::Plain),
        ),
    ]
}

fn review_lines(
    state: &GameState,
    project: &InfrastructureProject,
    review: ContributionReview,
) -> (result: Page)
    ensures
        result@ == review_page(*state, *project, review),
{
    let capacity = match project.funding.remaining_operator_contribution_capacity() {
        Ok(room) => money(room),
        Err(_) => "—".to_owned(),
    };
    let scope = project_scope(&state.region, project);
    let percent = operator_discount_percent();
    let days = operator_discount_days();
    let benefit = percent.clone().concat(" for ").concat(days.as_str()).concat(" fiscal days");
    let secondary = Style::plain(Tone::Secondary);
    let value = Style::plain(Tone::PrimaryValue);
    let mut page = Page::new();
    page.push(StyledLine::pair("Project  ", secondary, scope.as_str(), value));
    page.push_blank();
    page.push(money_line("Company Funds", state.player_company.funds));
    page.push(money_line("Contribution", review.amount));
    page.push(money_line("Already contributed", project.funding.operator_contributed));
    page.push(
        StyledLine::pair(
            "Access discount after opening  ",
            secondary,
            benefit.as_str(),
            Style::plain(Tone::Success),
        ),
    );
    page.push(StyledLine::pair("Contribution capacity  ", secondary, capacity.as_str(), value));
    page.push_blank();
    page.push_styled(
        "This is a 10% project-cost tranche, capped by the remaining funding gap,",
        Style::plain(Tone::Plain),
    );
    page.push_styled(
        "the 20% operator cap, and current Company Funds.",
        Style::plain(Tone::Plain),
    );
    page.push_styled(
        "Contributing can close funding sooner but never shortens construction time.",
        Style::plain(Tone::Plain),
    );
    let promise = "After opening, contributed infrastructure receives a ".to_owned().concat(
        percent.as_str(),
    ).concat(" access-fee discount for ").concat(days.as_str()).concat(" fiscal days.");
    page.push_styled(promise.as_str(), Style::plain(Tone::Plain));
    page
}

/// The lines of a review, as long as its project is there.
pub fn contribution_review_lines(state: &GameState, review: ContributionReview) -> (result: Option<
    Page,
>)
    ensures
        match result {
            Some(page) => project_index(
                state.region.rail_authority.infrastructure_projects@,
                review.project_id,
            ) matches Some(place) && page@ == review_page(
                *state,
                state.region.rail_authority.infrastructure_projects@[place],
                review,
            ),
            None => project_index(
                state.region.rail_authority.infrastructure_projects@,
                review.project_id,
            ) is None,
        },
{
    let projects = &state.region.rail_authority.infrastructure_projects;
    let place: usize = match find_project(projects, review.project_id) {
        Some(place) => place,
        None => return None,
    };
    Some(review_lines(state, &projects[place], review))
}

} // verus!
