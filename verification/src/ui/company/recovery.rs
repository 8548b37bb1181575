//! The Company's financial standing and the routes out of insolvency.

use vstd::prelude::*;
use vstd::string::StringExecFns;

use crate::model::catalogue::TrainCatalogue;
use crate::model::ids::{display_number, RailStationId, TrainId};
use crate::model::network::Settlement;
use crate::model::state::Region;
use crate::model::units::Money;
use crate::text::{
    decimal, decimal_text, join, joined, pad_left, padded_left, views,
};
use crate::ui::format::{money, money_text};
use crate::ui::places::{find_station_settlement, station_settlement};
use crate::ui::style::{blank_line, line_of, plain, strong, Page, Style, StyledLine, Tone};

verus! {

/// Whether the Company can go on.
#[derive(Clone, Copy, Debug, PartialEq, Eq, Structural)]
pub enum FinancialStatus {
    Operating,
    Insolvent,
    BankruptcyDeferred,
    Bankruptcy,
}

/// A Journey that a recovery ends with.
#[derive(Clone, Copy, Debug, PartialEq, Eq, Structural)]
pub struct RecoveryJourney {
    pub train_id: TrainId,
    pub origin_station_id: RailStationId,
    pub destination_station_id: RailStationId,
    pub operating_cost: Money,
}

/// One route back to operation.
#[derive(Clone, Debug, PartialEq, Eq)]
pub enum RecoveryOption {
    CashOnly { journey: RecoveryJourney },
    SellOthersAndRetain {
        retained_train_id: TrainId,
        sold_train_ids: Vec<TrainId>,
        resale_proceeds: Money,
        journey: RecoveryJourney,
    },
    SellAllAndRebuy {
        sold_train_ids: Vec<TrainId>,
        resale_proceeds: Money,
        catalogue_index: usize,
        delivery_station_id: RailStationId,
        journey: RecoveryJourney,
    },
}

/// The Company's standing and its routes back to operation.
#[derive(Clone, Debug, PartialEq, Eq)]
pub struct FinancialEvaluation {
    pub status: FinancialStatus,
    pub recovery_options: Vec<RecoveryOption>,
}

/// What the simulation says of the Company: its evaluation, or why there is none, and the
/// Trains on the market.
#[derive(Debug)]
pub struct CompanyOutlook {
    pub evaluation: Result<FinancialEvaluation, String>,
    pub catalogue: TrainCatalogue,
}

/// The name of the first settlement with an identity.
pub open spec fn place_name(
    settlements: Seq<Settlement>,
    id: crate::model::ids::SettlementId,
) -> Seq<char>
    decreases settlements.len(),
{
    if settlements.len() == 0 {
        "unknown Settlement"@
    } else if settlements[0].id == id {
        settlements[0].name@
    } else {
        place_name(settlements.skip(1), id)
    }
}

/// A station by the name of its settlement.
pub open spec fn stop_name(region: Region, id: RailStationId) -> Seq<char> {
    match station_settlement(region.rail_authority.rail_network.rail_stations@, id) {
        None => "unknown Rail Station"@,
        Some(settlement) => place_name(region.settlements@, settlement),
    }
}

pub fn station_label(region: &Region, id: RailStationId) -> (result: String)
    ensures
        result@ == stop_name(*region, id),
{
    let settlement = match find_station_settlement(
        &region.rail_authority.rail_network.rail_stations,
        id,
    ) {
        None => return "unknown Rail Station".to_owned(),
        Some(settlement) => settlement,
    };
    let settlements = &region.settlements;
    let mut i: usize = 0;
    assert(settlements@.skip(0) =~= settlements@);
    while i < settlements.len()
        invariant
            i <= settlements@.len(),
            place_name(settlements@, settlement) == place_name(
                settlements@.skip(i as int),
                settlement,
            ),
            stop_name(*region, id) == place_name(settlements@, settlement),
        decreases settlements.len() - i,
    {
        assert(settlements@.skip(i as int)[0] == settlements@[i as int]);
        if settlements[i].id == settlement {
            return settlements[i].name.clone();
        }
        assert(settlements@.skip(i as int).skip(1) =~= settlements@.skip(i + 1));
        i += 1;
    }
    "unknown Settlement".to_owned()
}

/// The number of a Train.
pub open spec fn train_number(id: TrainId) -> Seq<char> {
    decimal(display_number(id.value) as nat)
}

fn train_text(id: TrainId) -> (result: String)
    ensures
        result@ == train_number(id),
{
    decimal_text(id.get())
}

/// Trains by their numbers.
pub open spec fn train_list(ids: Seq<TrainId>) -> Seq<char> {
    if ids.len() == 0 {
        "no Trains"@
    } else if ids.len() == 1 {
        "Train "@ + train_number(ids[0])
    } else {
        "Trains "@ + joined(Seq::new(ids.len(), |i: int| train_number(ids[i])), ", "@)
    }
}

pub fn train_ids_label(ids: &Vec<TrainId>) -> (result: String)
    ensures
        result@ == train_list(ids@),
{
    if ids.len() == 0 {
        return "no Trains".to_owned();
    }
    if ids.len() == 1 {
        let number = train_text(ids[0]);
        return "Train ".to_owned().concat(number.as_str());
    }
    let mut numbers: Vec<String> = Vec::new();
    let mut i: usize = 0;
    while i < ids.len()
        invariant
            i <= ids@.len(),
            numbers@.len() == i,
            forall|j: int| 0 <= j < i ==> (#[trigger] numbers@[j])@ == train_number(ids@[j]),
        decreases ids.len() - i,
    {
        numbers.push(train_text(ids[i]));
        i += 1;
    }
    assert(views(numbers@) =~= Seq::new(ids@.len(), |i: int| train_number(ids@[i])));
    let list = join(&numbers, ", ");
    "Trains ".to_owned().concat(list.as_str())
}

/// The name of a Train on the market.
pub open spec fn model_name(catalogue: TrainCatalogue, index: usize) -> Seq<char> {
    if index < catalogue.models@.len() {
        catalogue.models@[index as int].name@
    } else {
        "catalogue Train"@
    }
}

fn catalogue_name(catalogue: &TrainCatalogue, index: usize) -> (result: String)
    ensures
        result@ == model_name(*catalogue, index),
{
    if index < catalogue.models.len() {
        catalogue.models[index].name.clone()
    } else {
        "catalogue Train".to_owned()
    }
}

/// The ends and the cost of a Journey.
pub open spec fn journey_ends(region: Region, journey: RecoveryJourney) -> Seq<char> {
    "from "@ + stop_name(region, journey.origin_station_id) + " to "@ + stop_name(
        region,
        journey.destination_station_id,
    )
}

fn ends(region: &Region, journey: &RecoveryJourney) -> (result: String)
    ensures
        result@ == journey_ends(*region, *journey),
{
    let origin = station_label(region, journey.origin_station_id);
    let destination = station_label(region, journey.destination_station_id);
    "from ".to_owned().concat(origin.as_str()).concat(" to ").concat(destination.as_str())
}

/// A Journey as the last step of a recovery.
pub open spec fn journey_text(region: Region, journey: RecoveryJourney) -> Seq<char> {
    "Train "@ + train_number(journey.train_id) + " "@ + journey_ends(region, journey)
        + " for "@ + money_text(journey.operating_cost.cents as int) + "."@
}

fn journey_tail(region: &Region, journey: &RecoveryJourney) -> (result: String)
    ensures
        result@ == journey_text(*region, *journey),
{
    let train = train_text(journey.train_id);
    let route = ends(region, journey);
    let cost = money(journey.operating_cost);
    "Train ".to_owned().concat(train.as_str()).concat(" ").concat(route.as_str()).concat(
        " for ",
    ).concat(cost.as_str()).concat(".")
}

/// A route in full.
pub open spec fn option_text(
    region: Region,
    catalogue: TrainCatalogue,
    option: RecoveryOption,
) -> Seq<char> {
    match option {
        RecoveryOption::CashOnly { journey } => "Dispatch "@ + journey_text(region, journey),
        RecoveryOption::SellOthersAndRetain {
            retained_train_id,
            sold_train_ids,
            resale_proceeds,
            journey,
        } => "Keep Train "@ + train_number(retained_train_id) + "; sell "@ + train_list(
            sold_train_ids@,
        ) + " for "@ + money_text(resale_proceeds.cents as int) + "; then dispatch "@ + journey_text(
            region,
            journey,
        ),
        RecoveryOption::SellAllAndRebuy {
            sold_train_ids,
            resale_proceeds,
            catalogue_index,
            delivery_station_id,
            journey,
        } => "Sell "@ + train_list(sold_train_ids@) + " for "@ + money_text(
            resale_proceeds.cents as int,
        ) + "; buy "@ + model_name(catalogue, catalogue_index) + " at "@ + stop_name(
            region,
            delivery_station_id,
        ) + "; then dispatch "@ + journey_text(region, journey),
    }
}

pub fn recovery_option_description(
    region: &Region,
    catalogue: &TrainCatalogue,
    option: &RecoveryOption,
) -> (result: String)
    ensures
        result@ == option_text(*region, *catalogue, *option),
{
    match option {
        RecoveryOption::CashOnly { journey } => {
            let tail = journey_tail(region, journey);
            "Dispatch ".to_owned().concat(tail.as_str())
        },
        RecoveryOption::SellOthersAndRetain {
            retained_train_id,
            sold_train_ids,
            resale_proceeds,
            journey,
        } => {
            let retained = train_text(*retained_train_id);
            let sold = train_ids_label(sold_train_ids);
            let proceeds = money(*resale_proceeds);
            let tail = journey_tail(region, journey);
            "Keep Train ".to_owned().concat(retained.as_str()).concat("; sell ").concat(
                sold.as_str(),
            ).concat(" for ").concat(proceeds.as_str()).concat("; then dispatch ").concat(tail.as_str())
        },
        RecoveryOption::SellAllAndRebuy {
            sold_train_ids,
            resale_proceeds,
            catalogue_index,
            delivery_station_id,
            journey,
        } => {
            let sold = train_ids_label(sold_train_ids);
            let proceeds = money(*resale_proceeds);
            let name = catalogue_name(catalogue, *catalogue_index);
            let station = station_label(region, *delivery_station_id);
            let tail = journey_tail(region, journey);
            "Sell ".to_owned().concat(sold.as_str()).concat(" for ").concat(
                proceeds.as_str(),
            ).concat("; buy ").concat(name.as_str()).concat(" at ").concat(
                station.as_str(),
            ).concat("; then dispatch ").concat(tail.as_str())
        },
    }
}

/// A route in a few words.
pub open spec fn route_text(
    region: Region,
    catalogue: TrainCatalogue,
    option: RecoveryOption,
) -> Seq<char> {
    match option {
        RecoveryOption::CashOnly { journey } => "Dispatch Train "@ + train_number(journey.train_id)
            + " to "@ + stop_name(region, journey.destination_station_id),
        RecoveryOption::SellOthersAndRetain { retained_train_id, .. } => "Retain Train "@
            + train_number(retained_train_id) + "; sell others"@,
        RecoveryOption::SellAllAndRebuy { catalogue_index, .. } => "Sell Fleet; rebuy "@
            + model_name(catalogue, catalogue_index),
    }
}

pub fn recovery_route_label(region: &Region, catalogue: &TrainCatalogue, option: &RecoveryOption) -> (result:
    String)
    ensures
        result@ == route_text(*region, *catalogue, *option),
{
    match option {
        RecoveryOption::CashOnly { journey } => {
            let train = train_text(journey.train_id);
            let station = station_label(region, journey.destination_station_id);
            "Dispatch Train ".to_owned().concat(train.as_str()).concat(" to ").concat(
                station.as_str(),
            )
        },
        RecoveryOption::SellOthersAndRetain { retained_train_id, .. } => {
            let train = train_text(*retained_train_id);
            "Retain Train ".to_owned().concat(train.as_str()).concat("; sell others")
        },
        RecoveryOption::SellAllAndRebuy { catalogue_index, .. } => {
            let name = catalogue_name(catalogue, *catalogue_index);
            "Sell Fleet; rebuy ".to_owned().concat(name.as_str())
        },
    }
}

/// A route in the compact dashboard.
pub open spec fn compact_text(catalogue: TrainCatalogue, option: RecoveryOption) -> Seq<char> {
    match option {
        RecoveryOption::CashOnly { journey } => "Dispatch Train "@ + train_number(journey.train_id)
            + " · "@ + money_text(journey.operating_cost.cents as int),
        RecoveryOption::SellOthersAndRetain {
            retained_train_id,
            sold_train_ids,
            resale_proceeds,
            ..
        } => "Keep Train "@ + train_number(retained_train_id) + "; sell "@ + train_list(
            sold_train_ids@,
        ) + " · +"@ + money_text(resale_proceeds.cents as int),
        RecoveryOption::SellAllAndRebuy { sold_train_ids, resale_proceeds, catalogue_index, .. } => {
            "Sell "@ + train_list(sold_train_ids@) + "; buy "@ + model_name(
                catalogue,
                catalogue_index,
            ) + " · +"@ + money_text(resale_proceeds.cents as int)
        },
    }
}

pub fn compact_recovery_description(catalogue: &TrainCatalogue, option: &RecoveryOption) -> (result:
    String)
    ensures
        result@ == compact_text(*catalogue, *option),
{
    match option {
        RecoveryOption::CashOnly { journey } => {
            let train = train_text(journey.train_id);
            let cost = money(journey.operating_cost);
            "Dispatch Train ".to_owned().concat(train.as_str()).concat(" · ").concat(
                cost.as_str(),
            )
        },
        RecoveryOption::SellOthersAndRetain {
            retained_train_id,
            sold_train_ids,
            resale_proceeds,
            ..
        } => {
            let train = train_text(*retained_train_id);
            let sold = train_ids_label(sold_train_ids);
            let proceeds = money(*resale_proceeds);
            "Keep Train ".to_owned().concat(train.as_str()).concat("; sell ").concat(
                sold.as_str(),
            ).concat(" · +").concat(proceeds.as_str())
        },
        RecoveryOption::SellAllAndRebuy { sold_train_ids, resale_proceeds, catalogue_index, .. } => {
            let sold = train_ids_label(sold_train_ids);
            let name = catalogue_name(catalogue, *catalogue_index);
            let proceeds = money(*resale_proceeds);
            "Sell ".to_owned().concat(sold.as_str()).concat("; buy ").concat(
                name.as_str(),
            ).concat(" · +").concat(proceeds.as_str())
        },
    }
}

/// A numbered step.
pub open spec fn step_line(number: Seq<char>, text: Seq<char>) -> Seq<(Seq<char>, Style)> {
    seq![(number, strong(Tone::Warning)), (text, plain(Tone::PrimaryValue))]
}

fn step(number: &str, text: String) -> (result: StyledLine)
    ensures
        result@ == step_line(number@, text@),
{
    StyledLine::pair(
        number,
        Style::strong(Tone::Warning),
        text.as_str(),
        Style::plain(Tone::PrimaryValue),
    )
}

/// The resale that a route begins with.
pub open spec fn resale_text(sold: Seq<TrainId>, proceeds: Money) -> Seq<char> {
    "Review resale of "@ + train_list(sold) + " for "@ + money_text(proceeds.cents as int)
        + " in Fleet."@
}

fn resale(sold: &Vec<TrainId>, proceeds: Money) -> (result: String)
    ensures
        result@ == resale_text(sold@, proceeds),
{
    let trains = train_ids_label(sold);
    let amount = money(proceeds);
    "Review resale of ".to_owned().concat(trains.as_str()).concat(" for ").concat(
        amount.as_str(),
    ).concat(" in Fleet.")
}

/// The steps of a route.
pub open spec fn steps_page(
    region: Region,
    catalogue: TrainCatalogue,
    option: RecoveryOption,
) -> Seq<Seq<(Seq<char>, Style)>> {
    match option {
        RecoveryOption::CashOnly { journey } => seq![
            step_line(
                "1. "@,
                "Review Manual Dispatch of Train "@ + train_number(journey.train_id) + " "@
                    + journey_ends(region, journey) + "."@,
            ),
            step_line(
                "2. "@,
                "Confirm only if the displayed operating cost of "@ + money_text(
                    journey.operating_cost.cents as int,
                ) + " is still affordable."@,
            ),
        ],
        RecoveryOption::SellOthersAndRetain {
            retained_train_id,
            sold_train_ids,
            resale_proceeds,
            journey,
        } => seq![
            step_line("1. "@, "Retain Train "@ + train_number(retained_train_id) + "."@),
            step_line("2. "@, resale_text(sold_train_ids@, resale_proceeds)),
            step_line(
                "3. "@,
                "Review Manual Dispatch of retained Train "@ + train_number(journey.train_id)
                    + " "@ + journey_ends(region, journey) + " for "@ + money_text(
                    journey.operating_cost.cents as int,
                ) + "."@,
            ),
        ],
        RecoveryOption::SellAllAndRebuy {
            sold_train_ids,
            resale_proceeds,
            catalogue_index,
            delivery_station_id,
            journey,
        } => seq![
            step_line("1. "@, resale_text(sold_train_ids@, resale_proceeds)),
            step_line(
                "2. "@,
                "Review purchase of "@ + model_name(catalogue, catalogue_index)
                    + " delivered to "@ + stop_name(region, delivery_station_id)
                    + " in Market."@,
            ),
            step_line(
                "3. "@,
                "Review Manual Dispatch "@ + journey_ends(region, journey) + " for "@ + money_text(
                    journey.operating_cost.cents as int,
                ) + " after the replacement is READY."@,
            ),
        ],
    }
}

pub fn recovery_steps(region: &Region, catalogue: &TrainCatalogue, option: &RecoveryOption) -> (result:
    Page)
    ensures
        result@ == steps_page(*region, *catalogue, *option),
{
    let mut page = Page::new();
    match option {
        RecoveryOption::CashOnly { journey } => {
            let train = train_text(journey.train_id);
            let route = ends(region, journey);
            let cost = money(journey.operating_cost);
            page.push(
                step(
                    "1. ",
                    "Review Manual Dispatch of Train ".to_owned().concat(train.as_str()).concat(
                        " ",
                    ).concat(route.as_str()).concat("."),
                ),
            );
            page.push(
                step(
                    "2. ",
                    "Confirm only if the displayed operating cost of ".to_owned().concat(
                        cost.as_str(),
                    ).concat(" is still affordable."),
                ),
            );
        },
        RecoveryOption::SellOthersAndRetain {
            retained_train_id,
            sold_train_ids,
            resale_proceeds,
            journey,
        } => {
            let retained = train_text(*retained_train_id);
            let train = train_text(journey.train_id);
            let route = ends(region, journey);
            let cost = money(journey.operating_cost);
            page.push(
                step("1. ", "Retain Train ".to_owned().concat(retained.as_str()).concat(".")),
            );
            page.push(step("2. ", resale(sold_train_ids, *resale_proceeds)));
            page.push(
                step(
                    "3. ",
                    "Review Manual Dispatch of retained Train ".to_owned().concat(
                        train.as_str(),
                    ).concat(" ").concat(route.as_str()).concat(" for ").concat(
                        cost.as_str(),
                    ).concat("."),
                ),
            );
        },
        RecoveryOption::SellAllAndRebuy {
            sold_train_ids,
            resale_proceeds,
            catalogue_index,
            delivery_station_id,
            journey,
        } => {
            let name = catalogue_name(catalogue, *catalogue_index);
            let station = station_label(region, *delivery_station_id);
            let route = ends(region, journey);
            let cost = money(journey.operating_cost);
            page.push(step("1. ", resale(sold_train_ids, *resale_proceeds)));
            page.push(
                step(
                    "2. ",
                    "Review purchase of ".to_owned().concat(name.as_str()).concat(
                        " delivered to ",
                    ).concat(station.as_str()).concat(" in Market."),
                ),
            );
            page.push(
                step(
                    "3. ",
                    "Review Manual Dispatch ".to_owned().concat(route.as_str()).concat(
                        " for ",
                    ).concat(cost.as_str()).concat(" after the replacement is READY."),
                ),
            );
        },
    }
    page
}

/// The workspace in which a route is reviewed first. Opening it does nothing else.
#[derive(Clone, Copy, Debug, PartialEq, Eq, Structural)]
pub enum RecoveryDestination {
    Fleet,
    BuyTrains,
    RegionMap,
}

impl RecoveryDestination {
    pub open spec fn name(self) -> Seq<char> {
        match self {
            RecoveryDestination::Fleet => "Fleet"@,
            RecoveryDestination::BuyTrains => "Market"@,
            RecoveryDestination::RegionMap => "Map"@,
        }
    }

    pub fn label(self) -> (result: &'static str)
        ensures
            result@ == self.name(),
    {
        match self {
            RecoveryDestination::Fleet => "Fleet",
            RecoveryDestination::BuyTrains => "Market",
            RecoveryDestination::RegionMap => "Map",
        }
    }
}

/// Where a route begins: with a dispatch on the map, or with resale in the Fleet.
pub open spec fn destination_of(option: RecoveryOption) -> RecoveryDestination {
    match option {
        RecoveryOption::CashOnly { .. } => RecoveryDestination::RegionMap,
        _ => RecoveryDestination::Fleet,
    }
}

pub fn first_destination(option: &RecoveryOption) -> (result: RecoveryDestination)
    ensures
        result == destination_of(*option),
{
    match option {
        RecoveryOption::CashOnly { .. } => RecoveryDestination::RegionMap,
        _ => RecoveryDestination::Fleet,
    }
}

/// The routes that can be reviewed: those of an insolvent Company.
pub open spec fn open_routes(outlook: CompanyOutlook) -> Seq<RecoveryOption> {
    match outlook.evaluation {
        Ok(evaluation) => if evaluation.status is Insolvent {
            evaluation.recovery_options@
        } else {
            Seq::empty()
        },
        Err(_) => Seq::empty(),
    }
}

/// The evaluation of an insolvent Company that has a route left.
pub fn recovery_evaluation(outlook: &CompanyOutlook) -> (result: Option<&FinancialEvaluation>)
    ensures
        match result {
            Some(evaluation) => evaluation.recovery_options@ == open_routes(*outlook)
                && open_routes(*outlook).len() > 0,
            None => open_routes(*outlook).len() == 0,
        },
{
    match &outlook.evaluation {
        Ok(evaluation) => if matches!(evaluation.status, FinancialStatus::Insolvent)
            && evaluation.recovery_options.len() > 0 {
            Some(evaluation)
        } else {
            None
        },
        Err(_) => None,
    }
}

pub open spec fn status_text(status: FinancialStatus) -> Seq<char> {
    match status {
        FinancialStatus::Operating => "[OK] OPERATING"@,
        FinancialStatus::Insolvent => "[!] INSOLVENT"@,
        FinancialStatus::BankruptcyDeferred => "[~] SETTLEMENT PENDING"@,
        FinancialStatus::Bankruptcy => "[X] BANKRUPT"@,
    }
}

pub fn status_label(status: FinancialStatus) -> (result: &'static str)
    ensures
        result@ == status_text(status),
{
    match status {
        FinancialStatus::Operating => "[OK] OPERATING",
        FinancialStatus::Insolvent => "[!] INSOLVENT",
        FinancialStatus::BankruptcyDeferred => "[~] SETTLEMENT PENDING",
        FinancialStatus::Bankruptcy => "[X] BANKRUPT",
    }
}

pub open spec fn explanation_text(status: FinancialStatus) -> Seq<char> {
    match status {
        FinancialStatus::Operating => {
            "Working capital is sufficient to continue normal operations."@
        },
        FinancialStatus::Insolvent => "No Journey can be funded without a recovery action."@,
        FinancialStatus::BankruptcyDeferred => {
            "No Journey can be funded now; active Journey revenue is still unsettled."@
        },
        FinancialStatus::Bankruptcy => {
            "No finite recovery path can return the Player Company to operation."@
        },
    }
}

pub fn status_explanation(status: FinancialStatus) -> (result: &'static str)
    ensures
        result@ == explanation_text(status),
{
    match status {
        FinancialStatus::Operating => {
            "Working capital is sufficient to continue normal operations."
        },
        FinancialStatus::Insolvent => "No Journey can be funded without a recovery action.",
        FinancialStatus::BankruptcyDeferred => {
            "No Journey can be funded now; active Journey revenue is still unsettled."
        },
        FinancialStatus::Bankruptcy => {
            "No finite recovery path can return the Player Company to operation."
        },
    }
}

pub open spec fn status_tone(status: Option<FinancialStatus>) -> Style {
    match status {
        Some(FinancialStatus::Operating) => strong(Tone::Success),
        Some(FinancialStatus::Insolvent) | Some(FinancialStatus::BankruptcyDeferred) => strong(
            Tone::Warning,
        ),
        Some(FinancialStatus::Bankruptcy) | None => strong(Tone::Error),
    }
}

pub fn status_style(status: Option<FinancialStatus>) -> (result: Style)
    ensures
        result == status_tone(status),
{
    match status {
        Some(FinancialStatus::Operating) => Style::strong(Tone::Success),
        Some(FinancialStatus::Insolvent) | Some(FinancialStatus::BankruptcyDeferred) => {
            Style::strong(Tone::Warning)
        },
        Some(FinancialStatus::Bankruptcy) | None => Style::strong(Tone::Error),
    }
}

/// A heading of the Company's panels.
pub open spec fn panel_heading(title: Seq<char>) -> Seq<(Seq<char>, Style)> {
    line_of(title, strong(Tone::Secondary))
}

pub fn section_heading(title: &str) -> (result: StyledLine)
    ensures
        result@ == panel_heading(title@),
{
    StyledLine::styled(title, Style::strong(Tone::Secondary))
}

/// The routes as a numbered list.
pub open spec fn route_list(
    region: Region,
    outlook: CompanyOutlook,
) -> Seq<Seq<(Seq<char>, Style)>> {
    let options = open_routes(outlook);
    Seq::new(
        options.len(),
        |i: int|
            line_of(
                padded_left(decimal((i + 1) as nat), 2, ' ') + ". "@ + route_text(
                    region,
                    outlook.catalogue,
                    options[i],
                ),
                plain(Tone::PrimaryValue),
            ),
    )
}

pub fn recovery_routes(region: &Region, outlook: &CompanyOutlook) -> (result: Page)
    ensures
        result@ == route_list(*region, *outlook),
{
    let mut page = Page::new();
    let ghost list = route_list(*region, *outlook);
    let options = match recovery_evaluation(outlook) {
        None => {
            assert(page@ =~= list);
            return page;
        },
        Some(evaluation) => &evaluation.recovery_options,
    };
    let length: usize = options.len();
    let mut i: usize = 0;
    while i < length
        invariant
            i <= length,
            length == options@.len(),
            options@ == open_routes(*outlook),
            list == route_list(*region, *outlook),
            page@ == list.take(i as int),
        decreases length - i,
    {
        let number = decimal_text(i as u64 + 1);
        let route = recovery_route_label(region, &outlook.catalogue, &options[i]);
        let text = pad_left(number.as_str(), 2, ' ').concat(". ").concat(route.as_str());
        page.push_styled(text.as_str(), Style::plain(Tone::PrimaryValue));
        i += 1;
        assert(page@ =~= list.take(i as int));
    }
    assert(page@ =~= list);
    page
}

/// A route in full: its name, its steps and what is reviewed first.
pub open spec fn route_details(
    region: Region,
    outlook: CompanyOutlook,
    selected: int,
) -> Seq<Seq<(Seq<char>, Style)>> {
    let option = open_routes(outlook)[selected];
    seq![
        panel_heading("ROUTE DETAILS"@),
        line_of(
            "Route "@ + decimal((selected + 1) as nat) + " · "@ + route_text(
                region,
                outlook.catalogue,
                option,
            ),
            plain(Tone::Title),
        ),
        blank_line(),
    ] + steps_page(region, outlook.catalogue, option) + seq![
        blank_line(),
        line_of(
            "Next review: "@ + destination_of(option).name()
                + ". Nothing is sold, bought, or dispatched from this modal."@,
            plain(Tone::Secondary),
        ),
    ]
}

pub fn recovery_instructions(region: &Region, outlook: &CompanyOutlook, selected: usize) -> (result:
    Option<Page>)
    ensures
        match result {
            Some(page) => selected < open_routes(*outlook).len() && page@ == route_details(
                *region,
                *outlook,
                selected as int,
            ),
            None => selected >= open_routes(*outlook).len(),
        },
{
    let options = match recovery_evaluation(outlook) {
        None => return None,
        Some(evaluation) => &evaluation.recovery_options,
    };
    let length: usize = options.len();
    if selected >= length {
        return None;
    }
    let option = &options[selected];
    let number = decimal_text(selected as u64 + 1);
    let route = recovery_route_label(region, &outlook.catalogue, option);
    let title = "Route ".to_owned().concat(number.as_str()).concat(" · ").concat(route.as_str());
    let next = "Next review: ".to_owned().concat(first_destination(option).label()).concat(
        ". Nothing is sold, bought, or dispatched from this modal.",
    );
    let mut page = Page::new();
    page.push(section_heading("ROUTE DETAILS"));
    page.push_styled(title.as_str(), Style::plain(Tone::Title));
    page.push_blank();
    let ghost head = page@;
    let mut steps = recovery_steps(region, &outlook.catalogue, option);
    let ghost walked = steps@;
    page.append(&mut steps);
    page.push_blank();
    page.push_styled(next.as_str(), Style::plain(Tone::Secondary));
    assert(page@ =~= route_details(*region, *outlook, selected as int));
    Some(page)
}

/// What stands in place of the routes where there are none.
pub fn recovery_unavailable() -> (result: Page)
    ensures
        result@ == seq![
            panel_heading("RECOVERY UNAVAILABLE"@),
            blank_line(),
            line_of(
                "Finite recovery routes are available only while the Player Company is Insolvent."@,
                plain(Tone::Secondary),
            ),
        ],
{
    let mut page = Page::new();
    page.push(section_heading("RECOVERY UNAVAILABLE"));
    page.push_blank();
    page.push_styled(
        "Finite recovery routes are available only while the Player Company is Insolvent.",
        Style::plain(Tone::Secondary),
    );
    page
}

} // verus!
