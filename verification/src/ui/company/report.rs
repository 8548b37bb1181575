//! The Company as plain text.

use vstd::prelude::*;
use vstd::string::StringExecFns;

use super::dashboard::{listed_options, MAXIMUM_RECOVERY_OPTIONS_SHOWN};
use super::figures::{
    fleet_value, fleet_value_cents, operating_result, operating_result_cents, result_cents,
};
use super::receipts::{
    journey_number, journey_passengers, journey_route, journey_train, left_of,
    receipt_passenger_label, receipt_route_label, receipt_train_label,
};
use super::recovery::{
    option_text, recovery_option_description, CompanyOutlook, FinancialStatus, RecoveryOption,
};
use crate::model::catalogue::TrainCatalogue;
use crate::model::company::JourneyReceipt;
use crate::model::state::{GameState, Region};
use crate::text::{decimal, decimal_text, print_lines, printed, push_text, views};
use crate::ui::format::{cents_text, money, money_text};

verus! {

/// The Company's funds and totals.
pub open spec fn totals(state: GameState) -> Seq<Seq<char>> {
    let company = state.player_company;
    let financials = state.financials;
    seq![
        company.name@,
        "Vehicle Keeper Mark (VKM): "@ + company.vehicle_keeper_mark.mark@,
        "Company Funds: "@ + money_text(company.funds.cents as int),
        "Fleet value: "@ + money_text(fleet_value(state)) + " (original purchase prices)"@,
        ""@,
        "Operating totals:"@,
        "  Operating Revenue: "@ + money_text(financials.operating_revenue.cents as int),
        "  Infrastructure Access Fee: "@ + money_text(
            financials.infrastructure_access_fees.cents as int,
        ),
        "  Fuel Cost: "@ + money_text(financials.fuel_costs.cents as int),
        "  Journey Profitability total: "@ + money_text(operating_result(financials)),
    ]
}

fn total_lines(state: &GameState) -> (result: Vec<String>)
    ensures
        views(result@) == totals(*state),
{
    let financials = &state.financials;
    let funds = money(state.player_company.funds);
    let fleet = cents_text(fleet_value_cents(state));
    let revenue = money(financials.operating_revenue);
    let access = money(financials.infrastructure_access_fees);
    let fuel = money(financials.fuel_costs);
    let earned = cents_text(operating_result_cents(financials));
    let mut lines: Vec<String> = Vec::new();
    assert(views(lines@) =~= Seq::<Seq<char>>::empty());
    push_text(&mut lines, state.player_company.name.clone());
    push_text(
        &mut lines,
        "Vehicle Keeper Mark (VKM): ".to_owned().concat(
            state.player_company.vehicle_keeper_mark.as_str(),
        ),
    );
    push_text(&mut lines, "Company Funds: ".to_owned().concat(funds.as_str()));
    push_text(
        &mut lines,
        "Fleet value: ".to_owned().concat(fleet.as_str()).concat(" (original purchase prices)"),
    );
    push_text(&mut lines, "".to_owned());
    push_text(&mut lines, "Operating totals:".to_owned());
    push_text(&mut lines, "  Operating Revenue: ".to_owned().concat(revenue.as_str()));
    push_text(&mut lines, "  Infrastructure Access Fee: ".to_owned().concat(access.as_str()));
    push_text(&mut lines, "  Fuel Cost: ".to_owned().concat(fuel.as_str()));
    push_text(&mut lines, "  Journey Profitability total: ".to_owned().concat(earned.as_str()));
    lines
}

/// A receipt in one line.
pub open spec fn receipt_text(region: Region, receipt: JourneyReceipt) -> Seq<char> {
    "  Journey "@ + decimal(journey_number(receipt.journey_id)) + " — "@ + journey_route(
        region,
        receipt,
    ) + "; "@ + journey_train(receipt) + "; Passengers: "@ + journey_passengers(receipt)
        + "; Revenue: "@ + money_text(receipt.revenue.cents as int) + "; Access: "@ + money_text(
        receipt.infrastructure_access_fee.cents as int,
    ) + "; Fuel: "@ + money_text(receipt.fuel_cost.cents as int) + "; Result: "@ + money_text(
        left_of(receipt),
    )
}

fn receipt_line(region: &Region, receipt: &JourneyReceipt) -> (result: String)
    ensures
        result@ == receipt_text(*region, *receipt),
{
    let number = decimal_text(receipt.journey_id.get());
    let route = receipt_route_label(region, receipt);
    let train = receipt_train_label(receipt);
    let passengers = receipt_passenger_label(receipt);
    let revenue = money(receipt.revenue);
    let access = money(receipt.infrastructure_access_fee);
    let fuel = money(receipt.fuel_cost);
    let left = cents_text(
        result_cents(receipt.revenue, receipt.infrastructure_access_fee, receipt.fuel_cost),
    );
    "  Journey ".to_owned().concat(number.as_str()).concat(" — ").concat(route.as_str()).concat(
        "; ",
    ).concat(train.as_str()).concat("; Passengers: ").concat(passengers.as_str()).concat(
        "; Revenue: ",
    ).concat(revenue.as_str()).concat("; Access: ").concat(access.as_str()).concat(
        "; Fuel: ",
    ).concat(fuel.as_str()).concat("; Result: ").concat(left.as_str())
}

/// The receipts, newest first.
pub open spec fn receipt_list(state: GameState) -> Seq<Seq<char>> {
    let receipts = state.financials.recent_journey_receipts@;
    let list = if receipts.len() == 0 {
        seq!["  No Journey receipts have settled yet."@]
    } else {
        Seq::new(
            receipts.len(),
            |i: int| receipt_text(state.region, receipts[receipts.len() - 1 - i]),
        )
    };
    seq![""@, "Latest receipts:"@] + list
}

fn push_receipts(lines: &mut Vec<String>, state: &GameState)
    ensures
        views(final(lines)@) == views(old(lines)@) + receipt_list(*state),
{
    let receipts = &state.financials.recent_journey_receipts;
    let ghost list = receipt_list(*state);
    let ghost before = views(lines@);
    push_text(lines, "".to_owned());
    push_text(lines, "Latest receipts:".to_owned());
    if receipts.len() == 0 {
        push_text(lines, "  No Journey receipts have settled yet.".to_owned());
        assert(views(lines@) =~= before + list);
        return;
    }
    let length: usize = receipts.len();
    let mut i: usize = 0;
    assert(views(lines@) =~= before + list.take(2));
    while i < length
        invariant
            i <= length,
            length == receipts@.len(),
            length > 0,
            receipts@ == state.financials.recent_journey_receipts@,
            list == receipt_list(*state),
            views(lines@) == before + list.take(2 + i),
        decreases length - i,
    {
        let line = receipt_line(&state.region, &receipts[length - 1 - i]);
        assert(line@ == list[2 + i]);
        push_text(lines, line);
        assert(views(lines@) =~= before + list.take(3 + i));
        i += 1;
    }
    assert(list.take(2 + length) =~= list);
}

/// The first routes, and how many there are in all.
pub open spec fn route_texts(
    region: Region,
    catalogue: TrainCatalogue,
    options: Seq<RecoveryOption>,
) -> Seq<Seq<char>> {
    let first = Seq::new(
        listed_options(options) as nat,
        |i: int| "    - "@ + option_text(region, catalogue, options[i]),
    );
    let more = if options.len() > MAXIMUM_RECOVERY_OPTIONS_SHOWN {
        seq![
            "    Showing 3 of "@ + decimal(options.len()) + " finite recovery options."@,
        ]
    } else {
        Seq::empty()
    };
    seq!["  Recovery options:"@] + first + more
}

fn push_routes(
    lines: &mut Vec<String>,
    region: &Region,
    catalogue: &TrainCatalogue,
    options: &Vec<RecoveryOption>,
)
    ensures
        views(final(lines)@) == views(old(lines)@) + route_texts(*region, *catalogue, options@),
{
    let ghost before = views(lines@);
    let ghost texts = route_texts(*region, *catalogue, options@);
    push_text(lines, "  Recovery options:".to_owned());
    let mut i: usize = 0;
    assert(views(lines@) =~= before + texts.take(1));
    while i < options.len() && i < MAXIMUM_RECOVERY_OPTIONS_SHOWN
        invariant
            i <= listed_options(options@),
            texts == route_texts(*region, *catalogue, options@),
            views(lines@) == before + texts.take(1 + i),
        decreases options.len() - i,
    {
        let description = recovery_option_description(region, catalogue, &options[i]);
        let line = "    - ".to_owned().concat(description.as_str());
        assert(line@ == texts[1 + i]);
        push_text(lines, line);
        assert(views(lines@) =~= before + texts.take(2 + i));
        i += 1;
    }
    if options.len() > MAXIMUM_RECOVERY_OPTIONS_SHOWN {
        let number = decimal_text(options.len() as u64);
        push_text(
            lines,
            "    Showing 3 of ".to_owned().concat(number.as_str()).concat(
                " finite recovery options.",
            ),
        );
    }
    assert(views(lines@) =~= before + texts);
}

/// The Company's standing.
pub open spec fn standing(region: Region, outlook: CompanyOutlook) -> Seq<Seq<char>> {
    let text = match outlook.evaluation {
        Err(error) => seq!["  Financial recovery evaluation unavailable: "@ + error@],
        Ok(evaluation) => match evaluation.status {
            FinancialStatus::Operating => seq![
                "  Operating: Company Funds can cover at least one available Journey."@,
            ],
            FinancialStatus::BankruptcyDeferred => seq![
                "  Insolvency assessment deferred: an active Journey may still settle Operating Revenue before Bankruptcy is considered."@,
            ],
            FinancialStatus::Insolvent => seq![
                "  INSOLVENCY: Company Funds cannot currently cover an available Journey, but a finite recovery option remains."@,
            ] + route_texts(region, outlook.catalogue, evaluation.recovery_options@),
            FinancialStatus::Bankruptcy => seq![
                "  BANKRUPTCY: no finite sell, retain, rebuy, and dispatch option can return the Player Company to operation."@,
            ],
        },
    };
    seq![""@, "Financial status:"@] + text
}

fn push_standing(lines: &mut Vec<String>, region: &Region, outlook: &CompanyOutlook)
    ensures
        views(final(lines)@) == views(old(lines)@) + standing(*region, *outlook),
{
    let ghost before = views(lines@);
    push_text(lines, "".to_owned());
    push_text(lines, "Financial status:".to_owned());
    match &outlook.evaluation {
        Err(error) => push_text(
            lines,
            "  Financial recovery evaluation unavailable: ".to_owned().concat(error.as_str()),
        ),
        Ok(evaluation) => match evaluation.status {
            FinancialStatus::Operating => push_text(
                lines,
                "  Operating: Company Funds can cover at least one available Journey.".to_owned(),
            ),
            FinancialStatus::BankruptcyDeferred => push_text(
                lines,
                "  Insolvency assessment deferred: an active Journey may still settle Operating Revenue before Bankruptcy is considered.".to_owned(),
            ),
            FinancialStatus::Insolvent => {
                push_text(
                    lines,
                    "  INSOLVENCY: Company Funds cannot currently cover an available Journey, but a finite recovery option remains.".to_owned(),
                );
                push_routes(lines, region, &outlook.catalogue, &evaluation.recovery_options);
            },
            FinancialStatus::Bankruptcy => push_text(
                lines,
                "  BANKRUPTCY: no finite sell, retain, rebuy, and dispatch option can return the Player Company to operation.".to_owned(),
            ),
        },
    }
    assert(views(lines@) =~= before + standing(*region, *outlook));
}

/// The Company's funds, totals, receipts and standing.
pub fn render(state: &GameState, outlook: &CompanyOutlook) -> (result: String)
    ensures
        result@ == printed(
            totals(*state) + receipt_list(*state) + standing(state.region, *outlook),
        ),
{
    let mut lines = total_lines(state);
    push_receipts(&mut lines, state);
    push_standing(&mut lines, &state.region, outlook);
    print_lines(&lines)
}

} // verus!
