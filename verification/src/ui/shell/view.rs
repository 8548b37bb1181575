//! The workspaces, and which of them speaks in the footer and in the help.

use vstd::prelude::*;
use vstd::string::StringExecFns;

use crate::text::{decimal, decimal_text};

verus! {

/// The primary views.
#[derive(Clone, Copy, Debug, PartialEq, Eq, Structural)]
pub enum PrimaryView {
    RegionMap,
    Trains,
    BuyTrains,
    Company,
    Authority,
    Bulletin,
}

impl PrimaryView {
    pub open spec fn name(self) -> Seq<char> {
        match self {
            PrimaryView::RegionMap => "Map"@,
            PrimaryView::Trains => "Trains"@,
            PrimaryView::BuyTrains => "Buy Trains"@,
            PrimaryView::Company => "Company"@,
            PrimaryView::Authority => "Authority"@,
            PrimaryView::Bulletin => "Bulletin"@,
        }
    }

    pub fn label(self) -> (result: &'static str)
        ensures
            result@ == self.name(),
    {
        match self {
            PrimaryView::RegionMap => "Map",
            PrimaryView::Trains => "Trains",
            PrimaryView::BuyTrains => "Buy Trains",
            PrimaryView::Company => "Company",
            PrimaryView::Authority => "Authority",
            PrimaryView::Bulletin => "Bulletin",
        }
    }

    /// The key that opens the view.
    pub open spec fn digit(self) -> Seq<char> {
        match self {
            PrimaryView::RegionMap => "1"@,
            PrimaryView::Trains => "2"@,
            PrimaryView::BuyTrains => "3"@,
            PrimaryView::Company => "4"@,
            PrimaryView::Authority => "5"@,
            PrimaryView::Bulletin => "6"@,
        }
    }

    pub fn number(self) -> (result: &'static str)
        ensures
            result@ == self.digit(),
    {
        match self {
            PrimaryView::RegionMap => "1",
            PrimaryView::Trains => "2",
            PrimaryView::BuyTrains => "3",
            PrimaryView::Company => "4",
            PrimaryView::Authority => "5",
            PrimaryView::Bulletin => "6",
        }
    }
}

/// The name of a view on its tab.
pub open spec fn tab_name(view: PrimaryView, compact: bool) -> Seq<char> {
    match (view, compact) {
        (PrimaryView::Trains, true) => "Trn"@,
        (PrimaryView::BuyTrains, true) => "Mkt"@,
        (PrimaryView::Company, true) => "Co"@,
        (PrimaryView::Authority, true) => "Auth"@,
        (PrimaryView::Bulletin, true) => "News"@,
        (PrimaryView::Trains, false) => "Fleet"@,
        (PrimaryView::BuyTrains, false) => "Market"@,
        _ => view.name(),
    }
}

/// A tab: the key, the name, and how many news are unread, up to nine.
pub open spec fn tab_text(view: PrimaryView, compact: bool, unread: u64) -> Seq<char> {
    let title = view.digit() + " "@ + tab_name(view, compact);
    if view is Bulletin && unread > 9 {
        title + " [9+]"@
    } else if view is Bulletin && unread > 0 {
        title + " ["@ + decimal(unread as nat) + "]"@
    } else {
        title
    }
}

pub fn tab_label(view: PrimaryView, compact: bool, bulletin_unread: u64) -> (result: String)
    ensures
        result@ == tab_text(view, compact, bulletin_unread),
{
    let label = match (view, compact) {
        (PrimaryView::Trains, true) => "Trn",
        (PrimaryView::BuyTrains, true) => "Mkt",
        (PrimaryView::Company, true) => "Co",
        (PrimaryView::Authority, true) => "Auth",
        (PrimaryView::Bulletin, true) => "News",
        (PrimaryView::Trains, false) => "Fleet",
        (PrimaryView::BuyTrains, false) => "Market",
        _ => view.label(),
    };
    let title = view.number().to_owned().concat(" ").concat(label);
    if view == PrimaryView::Bulletin && bulletin_unread > 0 {
        if bulletin_unread > 9 {
            return title.concat(" [9+]");
        }
        let badge = decimal_text(bulletin_unread);
        return title.concat(" [").concat(badge.as_str()).concat("]");
    }
    title
}

/// Everything that offers shortcuts and help.
#[derive(Clone, Copy, Debug, PartialEq, Eq, Structural)]
pub enum Workspace {
    RegionMap,
    Fleet,
    Market,
    Company,
    Authority,
    Bulletin,
    Dispatch,
    Services,
}

/// The workspace of a view.
pub open spec fn workspace_of(view: PrimaryView) -> Workspace {
    match view {
        PrimaryView::RegionMap => Workspace::RegionMap,
        PrimaryView::Trains => Workspace::Fleet,
        PrimaryView::BuyTrains => Workspace::Market,
        PrimaryView::Company => Workspace::Company,
        PrimaryView::Authority => Workspace::Authority,
        PrimaryView::Bulletin => Workspace::Bulletin,
    }
}

pub fn view_workspace(view: PrimaryView) -> (result: Workspace)
    ensures
        result == workspace_of(view),
{
    match view {
        PrimaryView::RegionMap => Workspace::RegionMap,
        PrimaryView::Trains => Workspace::Fleet,
        PrimaryView::BuyTrains => Workspace::Market,
        PrimaryView::Company => Workspace::Company,
        PrimaryView::Authority => Workspace::Authority,
        PrimaryView::Bulletin => Workspace::Bulletin,
    }
}

/// What is open at the moment.
#[derive(Clone, Copy, Debug, PartialEq, Eq, Structural)]
pub struct ShellState {
    pub active_view: PrimaryView,
    pub help_visible: bool,
    pub outcome_details_open: bool,
    pub restart_confirmation: bool,
    pub bankrupt: bool,
    pub world_details_visible: bool,
    pub nickname_editor_open: bool,
    pub company_modal_open: bool,
    pub dispatch_open: bool,
    pub services_open: bool,
    pub market_has_help: bool,
}

/// Whether help and quitting stand behind a workspace's shortcuts.
#[derive(Clone, Copy, Debug, PartialEq, Eq, Structural)]
pub enum Utilities {
    Absent,
    Always,
    WhereTheyFit,
}

/// Where the shortcuts in the footer come from.
#[derive(Clone, Copy, Debug, PartialEq, Eq, Structural)]
pub enum FooterSource {
    HelpPage,
    OutcomeDetails,
    RestartReview,
    Bankruptcy,
    Workspace { workspace: Workspace, utilities: Utilities },
}

/// What is open in front decides: the help, the world's details, the nickname editor, an
/// outcome's details, a modal of the Company; then bankruptcy, a dispatch, the services on
/// the map, and at last the view itself.
pub open spec fn footer_of(shell: ShellState) -> FooterSource {
    if shell.help_visible {
        FooterSource::HelpPage
    } else if shell.world_details_visible {
        FooterSource::Workspace { workspace: Workspace::RegionMap, utilities: Utilities::Always }
    } else if shell.active_view is Trains && shell.nickname_editor_open {
        FooterSource::Workspace { workspace: Workspace::Fleet, utilities: Utilities::Absent }
    } else if shell.outcome_details_open {
        FooterSource::OutcomeDetails
    } else if shell.active_view is Company && shell.company_modal_open {
        FooterSource::Workspace { workspace: Workspace::Company, utilities: Utilities::Absent }
    } else if shell.bankrupt {
        if shell.restart_confirmation {
            FooterSource::RestartReview
        } else {
            FooterSource::Bankruptcy
        }
    } else {
        FooterSource::Workspace {
            workspace: if shell.dispatch_open {
                Workspace::Dispatch
            } else if shell.active_view is RegionMap && shell.services_open {
                Workspace::Services
            } else {
                workspace_of(shell.active_view)
            },
            utilities: Utilities::WhereTheyFit,
        }
    }
}

pub fn footer_source(shell: &ShellState) -> (result: FooterSource)
    ensures
        result == footer_of(*shell),
{
    if shell.help_visible {
        return FooterSource::HelpPage;
    }
    if shell.world_details_visible {
        return FooterSource::Workspace {
            workspace: Workspace::RegionMap,
            utilities: Utilities::Always,
        };
    }
    if shell.active_view == PrimaryView::Trains && shell.nickname_editor_open {
        return FooterSource::Workspace {
            workspace: Workspace::Fleet,
            utilities: Utilities::Absent,
        };
    }
    if shell.outcome_details_open {
        return FooterSource::OutcomeDetails;
    }
    if shell.active_view == PrimaryView::Company && shell.company_modal_open {
        return FooterSource::Workspace {
            workspace: Workspace::Company,
            utilities: Utilities::Absent,
        };
    }
    if shell.bankrupt {
        return if shell.restart_confirmation {
            FooterSource::RestartReview
        } else {
            FooterSource::Bankruptcy
        };
    }
    let workspace = if shell.dispatch_open {
        Workspace::Dispatch
    } else if shell.active_view == PrimaryView::RegionMap && shell.services_open {
        Workspace::Services
    } else {
        view_workspace(shell.active_view)
    };
    FooterSource::Workspace { workspace, utilities: Utilities::WhereTheyFit }
}

/// Where the help's first part comes from.
#[derive(Clone, Copy, Debug, PartialEq, Eq, Structural)]
pub enum HelpSource {
    Bankruptcy,
    MarketOverview,
    Workspace { workspace: Workspace },
}

/// What is open in front decides: a modal of the Company; then bankruptcy, the world's
/// details, a dispatch, a purchase, the services on the map, and at last the view itself.
pub open spec fn help_of(shell: ShellState) -> HelpSource {
    if shell.active_view is Company && shell.company_modal_open {
        HelpSource::Workspace { workspace: Workspace::Company }
    } else if shell.bankrupt {
        HelpSource::Bankruptcy
    } else if shell.world_details_visible {
        HelpSource::Workspace { workspace: Workspace::RegionMap }
    } else if shell.dispatch_open {
        HelpSource::Workspace { workspace: Workspace::Dispatch }
    } else if shell.active_view is BuyTrains && !shell.market_has_help {
        HelpSource::MarketOverview
    } else if shell.active_view is RegionMap && shell.services_open {
        HelpSource::Workspace { workspace: Workspace::Services }
    } else {
        HelpSource::Workspace { workspace: workspace_of(shell.active_view) }
    }
}

pub fn help_source(shell: &ShellState) -> (result: HelpSource)
    ensures
        result == help_of(*shell),
{
    if shell.active_view == PrimaryView::Company && shell.company_modal_open {
        return HelpSource::Workspace { workspace: Workspace::Company };
    }
    if shell.bankrupt {
        return HelpSource::Bankruptcy;
    }
    if shell.world_details_visible {
        return HelpSource::Workspace { workspace: Workspace::RegionMap };
    }
    if shell.dispatch_open {
        return HelpSource::Workspace { workspace: Workspace::Dispatch };
    }
    if shell.active_view == PrimaryView::BuyTrains && !shell.market_has_help {
        return HelpSource::MarketOverview;
    }
    if shell.active_view == PrimaryView::RegionMap && shell.services_open {
        return HelpSource::Workspace { workspace: Workspace::Services };
    }
    HelpSource::Workspace { workspace: view_workspace(shell.active_view) }
}

} // verus!
