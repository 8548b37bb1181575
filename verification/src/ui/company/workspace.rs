//! The Company workspace: its state and its keys.

use vstd::prelude::*;

use super::editor::{edited, EditorOutcome, EditorView, VkmEditor, VkmEditorAction};
use super::recovery::{
    open_routes, recovery_evaluation, CompanyOutlook, FinancialStatus, RecoveryDestination,
};
use super::report::{receipt_list, render, standing, totals};
use super::selection::{
    chosen_destination, receipt_navigated, receipt_synchronized, route_navigated,
    route_synchronized, ReceiptSelection, RecoverySelection,
};
use crate::model::identity::{is_keeper_mark, VehicleKeeperMark};
use crate::model::state::GameState;
use crate::text::{printed, push_text, views};
use crate::ui::keys::{KeyCode, TableSelection};

verus! {

/// What the shell has to do after a key.
#[derive(Clone, Debug, PartialEq, Eq)]
pub enum CompanyWorkspaceAction {
    /// Nothing.
    Continue,
    /// Clear an old notice.
    ClearNotice,
    /// Show a notice.
    Notice(String),
    /// Open the workspace in which a recovery is reviewed.
    Navigate(RecoveryDestination),
    /// Check and save a new mark.
    UpdateVkm(VehicleKeeperMark),
}

/// An action as it reads.
#[verifier::ext_equal]
pub ghost enum CompanyOutcome {
    Continue,
    ClearNotice,
    Notice(Seq<char>),
    Navigate(RecoveryDestination),
    UpdateVkm(Seq<char>),
}

impl View for CompanyWorkspaceAction {
    type V = CompanyOutcome;

    open spec fn view(&self) -> CompanyOutcome {
        match self {
            CompanyWorkspaceAction::Continue => CompanyOutcome::Continue,
            CompanyWorkspaceAction::ClearNotice => CompanyOutcome::ClearNotice,
            CompanyWorkspaceAction::Notice(text) => CompanyOutcome::Notice(text@),
            CompanyWorkspaceAction::Navigate(destination) => CompanyOutcome::Navigate(
                *destination,
            ),
            CompanyWorkspaceAction::UpdateVkm(mark) => CompanyOutcome::UpdateVkm(mark.mark@),
        }
    }
}

/// A key, what it does, and whether it does it now.
#[derive(Clone, Debug, PartialEq, Eq)]
pub struct CompanyShortcut {
    pub key: String,
    pub action: String,
    pub enabled: bool,
}

impl View for CompanyShortcut {
    type V = (Seq<char>, Seq<char>, bool);

    open spec fn view(&self) -> (Seq<char>, Seq<char>, bool) {
        (self.key@, self.action@, self.enabled)
    }
}

/// Shortcuts as they read.
pub open spec fn shortcut_views(items: Seq<CompanyShortcut>) -> Seq<(Seq<char>, Seq<char>, bool)> {
    Seq::new(items.len(), |i: int| items[i]@)
}

fn push_shortcut(items: &mut Vec<CompanyShortcut>, key: &str, action: &str, enabled: bool)
    ensures
        shortcut_views(final(items)@) == shortcut_views(old(items)@).push((key@, action@, enabled)),
{
    items.push(CompanyShortcut { key: key.to_owned(), action: action.to_owned(), enabled });
    assert(shortcut_views(items@) =~= shortcut_views(old(items)@).push((key@, action@, enabled)));
}

/// The focus on a receipt and on a recovery route, and what is open above the dashboard.
#[derive(Clone, Debug, PartialEq, Eq)]
pub struct CompanyWorkspace {
    pub receipt_selection: ReceiptSelection,
    pub receipt_details_open: bool,
    pub recovery_selection: RecoverySelection,
    pub recovery_review_open: bool,
    pub vkm_editor: Option<VkmEditor>,
}

/// A workspace as it reads.
#[verifier::ext_equal]
pub ghost struct CompanyView {
    pub receipts: ReceiptSelection,
    pub details: bool,
    pub routes: RecoverySelection,
    pub review: bool,
    pub editor: Option<EditorView>,
}

impl View for CompanyWorkspace {
    type V = CompanyView;

    open spec fn view(&self) -> CompanyView {
        CompanyView {
            receipts: self.receipt_selection,
            details: self.receipt_details_open,
            routes: self.recovery_selection,
            review: self.recovery_review_open,
            editor: match self.vkm_editor {
                Some(editor) => Some(editor@),
                None => None,
            },
        }
    }
}

/// A workspace in which nothing was done yet.
pub open spec fn fresh_company() -> CompanyView {
    let table = TableSelection { selected: None, offset: 0 };
    CompanyView {
        receipts: ReceiptSelection { focus: None, table, page_size: 0 },
        details: false,
        routes: RecoverySelection { list: table, page_size: 0 },
        review: false,
        editor: None,
    }
}

impl Default for CompanyWorkspace {
    fn default() -> (result: Self)
        ensures
            result@ == fresh_company(),
    {
        CompanyWorkspace {
            receipt_selection: ReceiptSelection::default(),
            receipt_details_open: false,
            recovery_selection: RecoverySelection::default(),
            recovery_review_open: false,
            vkm_editor: None,
        }
    }
}

/// The shortcuts of the workspace.
pub open spec fn company_shortcuts(
    workspace: CompanyView,
    state: GameState,
    outlook: CompanyOutlook,
    compact: bool,
    wide: bool,
) -> Seq<(Seq<char>, Seq<char>, bool)> {
    let arrows = if compact {
        "↑↓"@
    } else {
        "↑↓/JK"@
    };
    let page = if wide {
        seq![("PgUp/PgDn"@, "Page"@, true)]
    } else {
        Seq::empty()
    };
    if workspace.editor is Some {
        seq![("Enter"@, "Save"@, true), ("Backspace"@, "Delete"@, true), ("Esc"@, "Cancel"@, true)]
    } else if workspace.review {
        seq![(arrows, "Route"@, true)] + page + seq![
            ("Enter"@, "Review"@, true),
            ("Esc"@, "Back"@, true),
        ]
    } else if workspace.details {
        seq![("Esc"@, "Back"@, true)]
    } else {
        let receipts = if state.financials.recent_journey_receipts@.len() == 0 {
            Seq::empty()
        } else {
            seq![(arrows, "Receipt"@, true)] + page + seq![("Enter"@, "Inspect"@, true)]
        };
        receipts + seq![
            ("V"@, "Edit VKM"@, true),
            ("R"@, "Recovery"@, open_routes(outlook).len() > 0),
        ]
    }
}

/// The help of the workspace.
pub open spec fn company_help(
    workspace: CompanyView,
    state: GameState,
    outlook: CompanyOutlook,
) -> Seq<Seq<char>> {
    if workspace.editor is Some {
        seq![
            "Current · Company VKM"@,
            "Type A-Z to edit the Vehicle Keeper Mark"@,
            "Backspace Delete the previous letter"@,
            "Enter Save VKM   Esc Cancel"@,
        ]
    } else if workspace.review {
        seq![
            "Current · Financial Recovery"@,
            "↑↓ / jk Select a recovery route"@,
            "Enter Open the selected recovery action"@,
            "Esc Back to Company"@,
        ]
    } else if workspace.details {
        seq![
            "Current · Journey Receipt"@,
            "Esc Back to Journey history"@,
            "1–6 Switch workspace"@,
        ]
    } else {
        let history = if state.financials.recent_journey_receipts@.len() == 0 {
            seq![
                "No settled Journey receipts yet"@,
                "1 Return to Map to operate your railway"@,
            ]
        } else {
            seq![
                "↑↓ / jk Select Journey receipt"@,
                "PgUp / PgDn Scroll history"@,
                "Enter Details"@,
            ]
        };
        let recovery = match outlook.evaluation {
            Ok(evaluation) => if evaluation.status is Operating {
                Seq::empty()
            } else {
                seq!["r Review available financial recovery routes"@]
            },
            Err(_) => Seq::empty(),
        };
        seq!["Current · Company"@, "v Edit Company VKM"@] + history + recovery
    }
}

pub open spec fn moves_focus(key: KeyCode) -> bool {
    match key {
        KeyCode::Up | KeyCode::Down | KeyCode::PageUp | KeyCode::PageDown => true,
        KeyCode::Char(c) => c == 'j' || c == 'J' || c == 'k' || c == 'K',
        _ => false,
    }
}

/// A key while the mark is edited.
pub open spec fn pressed_in_editor(
    workspace: CompanyView,
    editor: EditorView,
    key: KeyCode,
) -> (CompanyView, CompanyOutcome) {
    let next = edited(editor, key);
    match next.1 {
        EditorOutcome::Continue => (
            CompanyView { editor: Some(next.0), ..workspace },
            CompanyOutcome::Continue,
        ),
        EditorOutcome::Cancel => (
            CompanyView { editor: None, ..workspace },
            CompanyOutcome::Notice("VKM edit cancelled; no changes were made."@),
        ),
        EditorOutcome::Confirm(mark) => (
            CompanyView { editor: Some(next.0), ..workspace },
            CompanyOutcome::UpdateVkm(mark),
        ),
    }
}

/// The selection of routes brought in line, as long as there are any.
pub open spec fn routes_in_line(routes: RecoverySelection, outlook: CompanyOutlook) -> RecoverySelection {
    if open_routes(outlook).len() == 0 {
        routes
    } else {
        route_synchronized(routes, open_routes(outlook).len() as int)
    }
}

/// A key while the recovery routes are reviewed.
pub open spec fn pressed_in_review(
    workspace: CompanyView,
    key: KeyCode,
    outlook: CompanyOutlook,
) -> (CompanyView, CompanyOutcome) {
    let closed = CompanyView { review: false, ..workspace };
    match key {
        KeyCode::Esc => (
            closed,
            CompanyOutcome::Notice("Recovery review closed; no changes were made."@),
        ),
        KeyCode::Enter => (
            CompanyView { routes: routes_in_line(workspace.routes, outlook), ..closed },
            match chosen_destination(workspace.routes, outlook) {
                Some(destination) => CompanyOutcome::Navigate(destination),
                None => CompanyOutcome::Notice(
                    "Recovery route changed; review the current Company status again."@,
                ),
            },
        ),
        KeyCode::Char('1') => (closed, CompanyOutcome::Navigate(RecoveryDestination::RegionMap)),
        KeyCode::Char('2') | KeyCode::Char('t') | KeyCode::Char('T') => (
            closed,
            CompanyOutcome::Navigate(RecoveryDestination::Fleet),
        ),
        KeyCode::Char('3') | KeyCode::Char('b') | KeyCode::Char('B') => (
            closed,
            CompanyOutcome::Navigate(RecoveryDestination::BuyTrains),
        ),
        _ => if moves_focus(key) {
            (
                CompanyView {
                    routes: route_navigated(
                        workspace.routes,
                        key,
                        open_routes(outlook).len() as int,
                    ),
                    ..workspace
                },
                CompanyOutcome::Continue,
            )
        } else {
            (workspace, CompanyOutcome::Continue)
        },
    }
}

/// A key on the dashboard or on a receipt.
pub open spec fn pressed_on_dashboard(
    workspace: CompanyView,
    key: KeyCode,
    state: GameState,
    outlook: CompanyOutlook,
) -> (CompanyView, CompanyOutcome) {
    let receipts = state.financials.recent_journey_receipts@;
    if key == KeyCode::Enter {
        let current = CompanyView {
            receipts: receipt_synchronized(workspace.receipts, receipts),
            ..workspace
        };
        if receipts.len() > 0 {
            (CompanyView { details: true, ..current }, CompanyOutcome::ClearNotice)
        } else {
            (current, CompanyOutcome::Continue)
        }
    } else if workspace.details {
        if key == KeyCode::Esc {
            (CompanyView { details: false, ..workspace }, CompanyOutcome::Continue)
        } else {
            (workspace, CompanyOutcome::Continue)
        }
    } else if key == KeyCode::Char('v') || key == KeyCode::Char('V') {
        (
            CompanyView {
                editor: Some(
                    EditorView {
                        draft: state.player_company.vehicle_keeper_mark.mark@,
                        error: None,
                    },
                ),
                ..workspace
            },
            CompanyOutcome::ClearNotice,
        )
    } else if key == KeyCode::Char('r') || key == KeyCode::Char('R') {
        let current = CompanyView {
            routes: routes_in_line(workspace.routes, outlook),
            ..workspace
        };
        if open_routes(outlook).len() > 0 {
            (CompanyView { review: true, ..current }, CompanyOutcome::ClearNotice)
        } else {
            (current, CompanyOutcome::Continue)
        }
    } else if moves_focus(key) {
        (
            CompanyView {
                receipts: receipt_navigated(workspace.receipts, key, receipts),
                ..workspace
            },
            CompanyOutcome::Continue,
        )
    } else {
        (workspace, CompanyOutcome::Continue)
    }
}

/// The workspace after a key, and what the shell has to do.
pub open spec fn company_pressed(
    workspace: CompanyView,
    key: KeyCode,
    state: GameState,
    outlook: CompanyOutlook,
) -> (CompanyView, CompanyOutcome) {
    match workspace.editor {
        Some(editor) => pressed_in_editor(workspace, editor, key),
        None => if workspace.review {
            pressed_in_review(workspace, key, outlook)
        } else {
            pressed_on_dashboard(workspace, key, state, outlook)
        },
    }
}

/// Only a valid mark is handed on to be saved, and only on confirmation; the review of a
/// recovery does nothing but open a workspace.
pub proof fn company_keys_change_nothing_by_themselves(
    workspace: CompanyView,
    key: KeyCode,
    state: GameState,
    outlook: CompanyOutlook,
)
    ensures
        company_pressed(workspace, key, state, outlook).1 matches CompanyOutcome::UpdateVkm(mark)
            ==> is_keeper_mark(mark) && key == KeyCode::Enter && workspace.editor is Some,
        company_pressed(workspace, key, state, outlook).1 is Navigate ==> workspace.review
            && workspace.editor is None && !company_pressed(
            workspace,
            key,
            state,
            outlook,
        ).0.review,
{
}

impl CompanyWorkspace {
    /// Closes what is open above the dashboard when the workspace is opened again.
    pub fn activate(&mut self)
        ensures
            final(self)@ == (CompanyView {
                details: false,
                review: false,
                editor: None,
                ..old(self)@
            }),
    {
        self.receipt_details_open = false;
        self.recovery_review_open = false;
        self.vkm_editor = None;
    }

    /// Forgets everything for a new game.
    pub fn reset(&mut self)
        ensures
            final(self)@ == fresh_company(),
    {
        *self = CompanyWorkspace::default();
    }

    /// Whether anything is open above the dashboard.
    pub fn has_modal(&self) -> (result: bool)
        ensures
            result == (self@.editor is Some || self@.review || self@.details),
    {
        self.vkm_editor.is_some() || self.recovery_review_open || self.receipt_details_open
    }

    /// Whether the mark is being edited.
    pub fn has_vkm_editor(&self) -> (result: bool)
        ensures
            result == (self@.editor is Some),
    {
        self.vkm_editor.is_some()
    }

    /// Whether the recovery routes are reviewed.
    pub fn recovery_review_open(&self) -> (result: bool)
        ensures
            result == self@.review,
    {
        self.recovery_review_open
    }

    /// The shortcuts of the current step.
    pub fn shortcuts(
        &self,
        state: &GameState,
        outlook: &CompanyOutlook,
        compact: bool,
        wide: bool,
    ) -> (result: Vec<CompanyShortcut>)
        ensures
            shortcut_views(result@) == company_shortcuts(self@, *state, *outlook, compact, wide),
    {
        let ghost expected = company_shortcuts(self@, *state, *outlook, compact, wide);
        let arrows = if compact {
            "↑↓"
        } else {
            "↑↓/JK"
        };
        let mut items: Vec<CompanyShortcut> = Vec::new();
        if self.vkm_editor.is_some() {
            push_shortcut(&mut items, "Enter", "Save", true);
            push_shortcut(&mut items, "Backspace", "Delete", true);
            push_shortcut(&mut items, "Esc", "Cancel", true);
            assert(shortcut_views(items@) =~= expected);
            return items;
        }
        if self.recovery_review_open {
            push_shortcut(&mut items, arrows, "Route", true);
            if wide {
                push_shortcut(&mut items, "PgUp/PgDn", "Page", true);
            }
            push_shortcut(&mut items, "Enter", "Review", true);
            push_shortcut(&mut items, "Esc", "Back", true);
            assert(shortcut_views(items@) =~= expected);
            return items;
        }
        if self.receipt_details_open {
            push_shortcut(&mut items, "Esc", "Back", true);
            assert(shortcut_views(items@) =~= expected);
            return items;
        }
        if state.financials.recent_journey_receipts.len() > 0 {
            push_shortcut(&mut items, arrows, "Receipt", true);
            if wide {
                push_shortcut(&mut items, "PgUp/PgDn", "Page", true);
            }
            push_shortcut(&mut items, "Enter", "Inspect", true);
        }
        push_shortcut(&mut items, "V", "Edit VKM", true);
        push_shortcut(&mut items, "R", "Recovery", recovery_evaluation(outlook).is_some());
        assert(shortcut_views(items@) =~= expected);
        items
    }

    /// The help for the current step.
    pub fn help_lines(&self, state: &GameState, outlook: &CompanyOutlook) -> (result: Vec<String>)
        ensures
            views(result@) == company_help(self@, *state, *outlook),
    {
        let ghost expected = company_help(self@, *state, *outlook);
        let mut lines: Vec<String> = Vec::new();
        if self.vkm_editor.is_some() {
            push_text(&mut lines, "Current · Company VKM".to_owned());
            push_text(&mut lines, "Type A-Z to edit the Vehicle Keeper Mark".to_owned());
            push_text(&mut lines, "Backspace Delete the previous letter".to_owned());
            push_text(&mut lines, "Enter Save VKM   Esc Cancel".to_owned());
            assert(views(lines@) =~= expected);
            return lines;
        }
        if self.recovery_review_open {
            push_text(&mut lines, "Current · Financial Recovery".to_owned());
            push_text(&mut lines, "↑↓ / jk Select a recovery route".to_owned());
            push_text(&mut lines, "Enter Open the selected recovery action".to_owned());
            push_text(&mut lines, "Esc Back to Company".to_owned());
            assert(views(lines@) =~= expected);
            return lines;
        }
        if self.receipt_details_open {
            push_text(&mut lines, "Current · Journey Receipt".to_owned());
            push_text(&mut lines, "Esc Back to Journey history".to_owned());
            push_text(&mut lines, "1–6 Switch workspace".to_owned());
            assert(views(lines@) =~= expected);
            return lines;
        }
        push_text(&mut lines, "Current · Company".to_owned());
        push_text(&mut lines, "v Edit Company VKM".to_owned());
        if state.financials.recent_journey_receipts.len() == 0 {
            push_text(&mut lines, "No settled Journey receipts yet".to_owned());
            push_text(&mut lines, "1 Return to Map to operate your railway".to_owned());
        } else {
            push_text(&mut lines, "↑↓ / jk Select Journey receipt".to_owned());
            push_text(&mut lines, "PgUp / PgDn Scroll history".to_owned());
            push_text(&mut lines, "Enter Details".to_owned());
        }
        if let Ok(evaluation) = &outlook.evaluation {
            if !matches!(evaluation.status, FinancialStatus::Operating) {
                push_text(&mut lines, "r Review available financial recovery routes".to_owned());
            }
        }
        assert(views(lines@) =~= expected);
        lines
    }

    fn handle_editor_key(&mut self, key: KeyCode) -> (result: CompanyWorkspaceAction)
        requires
            old(self)@.editor is Some,
        ensures
            (final(self)@, result@) == pressed_in_editor(
                old(self)@,
                old(self)@.editor.unwrap(),
                key,
            ),
    {
        let mut editor = match &self.vkm_editor {
            Some(editor) => VkmEditor {
                draft: editor.draft.clone(),
                error: match &editor.error {
                    Some(error) => Some(error.clone()),
                    None => None,
                },
            },
            None => return CompanyWorkspaceAction::Continue,
        };
        assert(editor@ =~= self@.editor.unwrap());
        match editor.handle_key(key) {
            VkmEditorAction::Continue => {
                self.vkm_editor = Some(editor);
                CompanyWorkspaceAction::Continue
            },
            VkmEditorAction::Cancel => {
                self.vkm_editor = None;
                CompanyWorkspaceAction::Notice(
                    "VKM edit cancelled; no changes were made.".to_owned(),
                )
            },
            VkmEditorAction::Confirm(mark) => {
                self.vkm_editor = Some(editor);
                CompanyWorkspaceAction::UpdateVkm(mark)
            },
        }
    }

    fn handle_review_key(&mut self, key: KeyCode, outlook: &CompanyOutlook) -> (result:
        CompanyWorkspaceAction)
        requires
            old(self)@.editor is None,
        ensures
            (final(self)@, result@) == pressed_in_review(old(self)@, key, *outlook),
    {
        match key {
            KeyCode::Esc => {
                self.recovery_review_open = false;
                CompanyWorkspaceAction::Notice(
                    "Recovery review closed; no changes were made.".to_owned(),
                )
            },
            KeyCode::Enter => {
                let destination = self.recovery_selection.selected_destination(outlook);
                self.recovery_review_open = false;
                match destination {
                    Some(destination) => CompanyWorkspaceAction::Navigate(destination),
                    None => CompanyWorkspaceAction::Notice(
                        "Recovery route changed; review the current Company status again.".to_owned(),
                    ),
                }
            },
            KeyCode::Char('1') => {
                self.recovery_review_open = false;
                CompanyWorkspaceAction::Navigate(RecoveryDestination::RegionMap)
            },
            KeyCode::Char('2') | KeyCode::Char('t') | KeyCode::Char('T') => {
                self.recovery_review_open = false;
                CompanyWorkspaceAction::Navigate(RecoveryDestination::Fleet)
            },
            KeyCode::Char('3') | KeyCode::Char('b') | KeyCode::Char('B') => {
                self.recovery_review_open = false;
                CompanyWorkspaceAction::Navigate(RecoveryDestination::BuyTrains)
            },
            KeyCode::Up
            | KeyCode::Down
            | KeyCode::PageUp
            | KeyCode::PageDown
            | KeyCode::Char('j')
            | KeyCode::Char('J')
            | KeyCode::Char('k')
            | KeyCode::Char('K') => {
                self.recovery_selection.handle_key(key, outlook);
                CompanyWorkspaceAction::Continue
            },
            _ => CompanyWorkspaceAction::Continue,
        }
    }

    fn handle_dashboard_key(&mut self, key: KeyCode, state: &GameState, outlook: &CompanyOutlook) -> (result:
        CompanyWorkspaceAction)
        requires
            old(self)@.editor is None,
            !old(self)@.review,
        ensures
            (final(self)@, result@) == pressed_on_dashboard(old(self)@, key, *state, *outlook),
    {
        match key {
            KeyCode::Enter => {
                if self.receipt_selection.has_selection(state) {
                    self.receipt_details_open = true;
                    CompanyWorkspaceAction::ClearNotice
                } else {
                    CompanyWorkspaceAction::Continue
                }
            },
            _ => {
                if self.receipt_details_open {
                    if key == KeyCode::Esc {
                        self.receipt_details_open = false;
                    }
                    return CompanyWorkspaceAction::Continue;
                }
                match key {
                    KeyCode::Char('v') | KeyCode::Char('V') => {
                        self.vkm_editor = Some(VkmEditor::start(state));
                        CompanyWorkspaceAction::ClearNotice
                    },
                    KeyCode::Char('r') | KeyCode::Char('R') => {
                        if self.recovery_selection.selected_destination(outlook).is_some() {
                            self.recovery_review_open = true;
                            CompanyWorkspaceAction::ClearNotice
                        } else {
                            CompanyWorkspaceAction::Continue
                        }
                    },
                    KeyCode::Up
                    | KeyCode::Down
                    | KeyCode::PageUp
                    | KeyCode::PageDown
                    | KeyCode::Char('j')
                    | KeyCode::Char('J')
                    | KeyCode::Char('k')
                    | KeyCode::Char('K') => {
                        self.receipt_selection.handle_key(key, state);
                        CompanyWorkspaceAction::Continue
                    },
                    _ => CompanyWorkspaceAction::Continue,
                }
            },
        }
    }

    /// Reacts to a key.
    pub fn handle_key(&mut self, key: KeyCode, state: &GameState, outlook: &CompanyOutlook) -> (result:
        CompanyWorkspaceAction)
        ensures
            (final(self)@, result@) == company_pressed(old(self)@, key, *state, *outlook),
    {
        if self.vkm_editor.is_some() {
            self.handle_editor_key(key)
        } else if self.recovery_review_open {
            self.handle_review_key(key, outlook)
        } else {
            self.handle_dashboard_key(key, state, outlook)
        }
    }

    /// The Company as plain text, for the smallest terminals.
    pub fn render_text(&self, state: &GameState, outlook: &CompanyOutlook) -> (result: String)
        ensures
            result@ == printed(
                totals(*state) + receipt_list(*state) + standing(state.region, *outlook),
            ),
    {
        render(state, outlook)
    }

    /// Closes the editor after the mark was saved.
    pub fn confirm_vkm_saved(&mut self)
        ensures
            final(self)@ == (CompanyView { editor: None, ..old(self)@ }),
    {
        self.vkm_editor = None;
    }
}

} // verus!
