//! The Authority workspace: its state and its keys.

use vstd::prelude::*;

use super::contribution::{review_of, ContributionReview};
use super::dashboard::{render_text, text_figures, text_rows};
use super::format::ProjectOutlook;
use super::selection::{navigated, presentable, synchronized, ProjectSelection};
use crate::model::ids::InfrastructureProjectId;
use crate::model::project::InfrastructureProject;
use crate::model::state::GameState;
use crate::model::units::{Money, UtcSeconds};
use crate::text::{printed, views};
use crate::ui::keys::{KeyCode, TableSelection};

verus! {

/// What the shell has to do after a key.
#[derive(Clone, Debug, PartialEq, Eq)]
pub enum AuthorityWorkspaceAction {
    /// Nothing.
    Continue,
    /// Clear an old notice.
    ClearNotice,
    /// Show a notice.
    Notice(String),
    /// Check and save a contribution.
    Contribute { project_id: InfrastructureProjectId, amount: Money },
}

/// An action as its notice reads.
#[verifier::ext_equal]
pub ghost enum AuthorityOutcome {
    Continue,
    ClearNotice,
    Notice(Seq<char>),
    Contribute(InfrastructureProjectId, Money),
}

impl View for AuthorityWorkspaceAction {
    type V = AuthorityOutcome;

    open spec fn view(&self) -> AuthorityOutcome {
        match self {
            AuthorityWorkspaceAction::Continue => AuthorityOutcome::Continue,
            AuthorityWorkspaceAction::ClearNotice => AuthorityOutcome::ClearNotice,
            AuthorityWorkspaceAction::Notice(text) => AuthorityOutcome::Notice(text@),
            AuthorityWorkspaceAction::Contribute { project_id, amount } => {
                AuthorityOutcome::Contribute(*project_id, *amount)
            },
        }
    }
}

/// A key, what it does, and whether it does it now.
#[derive(Clone, Debug, PartialEq, Eq)]
pub struct AuthorityShortcut {
    pub key: String,
    pub action: String,
    pub enabled: bool,
}

impl View for AuthorityShortcut {
    type V = (Seq<char>, Seq<char>, bool);

    open spec fn view(&self) -> (Seq<char>, Seq<char>, bool) {
        (self.key@, self.action@, self.enabled)
    }
}

impl AuthorityShortcut {
    fn enabled(key: &str, action: &str) -> (result: Self)
        ensures
            result@ == (key@, action@, true),
    {
        AuthorityShortcut { key: key.to_owned(), action: action.to_owned(), enabled: true }
    }

    fn disabled(key: &str, action: &str) -> (result: Self)
        ensures
            result@ == (key@, action@, false),
    {
        AuthorityShortcut { key: key.to_owned(), action: action.to_owned(), enabled: false }
    }
}

/// Shortcuts as they read.
pub open spec fn shortcut_views(items: Seq<AuthorityShortcut>) -> Seq<(Seq<char>, Seq<char>, bool)> {
    Seq::new(items.len(), |i: int| items[i]@)
}

/// The focus on a project, and the review of a contribution while one is open.
#[derive(Clone, Copy, Debug, PartialEq, Eq, Structural)]
pub struct AuthorityWorkspace {
    pub selection: ProjectSelection,
    pub contribution_review: Option<ContributionReview>,
}

impl Default for AuthorityWorkspace {
    fn default() -> (result: Self)
        ensures
            result == fresh_workspace(),
    {
        AuthorityWorkspace { selection: ProjectSelection::default(), contribution_review: None }
    }
}

/// A workspace in which nothing was done yet.
pub open spec fn fresh_workspace() -> AuthorityWorkspace {
    AuthorityWorkspace {
        selection: ProjectSelection {
            focus: None,
            table: TableSelection { selected: None, offset: 0 },
            page_size: 0,
        },
        contribution_review: None,
    }
}

pub open spec fn programme(state: GameState) -> Seq<InfrastructureProject> {
    state.region.rail_authority.infrastructure_projects@
}

/// Whether a project accepts a contribution now.
pub open spec fn accepts(state: GameState, focus: Option<InfrastructureProjectId>) -> bool {
    focus matches Some(id) && review_of(state, id) is Ok
}

/// The shortcuts of the workspace.
pub open spec fn workspace_shortcuts(
    workspace: AuthorityWorkspace,
    state: GameState,
    compact: bool,
) -> Seq<(Seq<char>, Seq<char>, bool)> {
    if workspace.contribution_review is Some {
        seq![("Enter"@, "Contribute"@, true), ("Esc"@, "Cancel"@, true)]
    } else if programme(state).len() == 0 {
        seq![("↑↓"@, "Project"@, false)]
    } else {
        let select = seq![
            (
                if compact {
                    "↑↓"@
                } else {
                    "↑↓/JK"@
                },
                "Project"@,
                true,
            ),
        ];
        let page = if workspace.selection.pages(programme(state)) {
            seq![("PgUp/PgDn"@, "Page"@, true)]
        } else {
            Seq::empty()
        };
        let contribute = if accepts(
            state,
            synchronized(workspace.selection, programme(state)).focus,
        ) {
            seq![("F"@, "Contribute"@, true)]
        } else {
            Seq::empty()
        };
        select + page + contribute
    }
}

/// The help of the workspace.
pub open spec fn workspace_help(workspace: AuthorityWorkspace) -> Seq<Seq<char>> {
    if workspace.contribution_review is Some {
        seq![
            "Current · Infrastructure Contribution"@,
            "Enter Confirm contribution"@,
            "Esc Cancel contribution"@,
            ""@,
            "The Rail Authority keeps ownership of the infrastructure."@,
        ]
    } else {
        seq![
            "Current · Rail Authority"@,
            "↑↓ / jk Select infrastructure project"@,
            "PgUp / PgDn Scroll project pipeline"@,
            "f Contribute to selected project while it is in Funding"@,
            ""@,
            "The Authority controls public infrastructure; operator contributions are optional."@,
        ]
    }
}

pub open spec fn moves_selection(key: KeyCode) -> bool {
    match key {
        KeyCode::Up | KeyCode::Down | KeyCode::PageUp | KeyCode::PageDown => true,
        KeyCode::Char(c) => c == 'j' || c == 'J' || c == 'k' || c == 'K',
        _ => false,
    }
}

/// The workspace after a key, and what the shell has to do.
pub open spec fn pressed(workspace: AuthorityWorkspace, key: KeyCode, state: GameState) -> (
    AuthorityWorkspace,
    AuthorityOutcome,
) {
    match workspace.contribution_review {
        Some(review) => if key == KeyCode::Esc {
            (
                AuthorityWorkspace { contribution_review: None, ..workspace },
                AuthorityOutcome::Notice(
                    "Infrastructure contribution cancelled; no changes were made."@,
                ),
            )
        } else if key == KeyCode::Enter {
            (workspace, AuthorityOutcome::Contribute(review.project_id, review.amount))
        } else {
            (workspace, AuthorityOutcome::Continue)
        },
        None => if key == KeyCode::Char('f') || key == KeyCode::Char('F') {
            let selection = synchronized(workspace.selection, programme(state));
            let current = AuthorityWorkspace { selection, ..workspace };
            match selection.focus {
                None => (
                    current,
                    AuthorityOutcome::Notice("Select an infrastructure project first."@),
                ),
                Some(id) => match review_of(state, id) {
                    Ok(review) => (
                        AuthorityWorkspace { contribution_review: Some(review), ..current },
                        AuthorityOutcome::ClearNotice,
                    ),
                    Err(message) => (current, AuthorityOutcome::Notice(message)),
                },
            }
        } else if moves_selection(key) {
            (
                AuthorityWorkspace {
                    selection: navigated(workspace.selection, key, programme(state)),
                    ..workspace
                },
                AuthorityOutcome::Continue,
            )
        } else {
            (workspace, AuthorityOutcome::Continue)
        },
    }
}

impl AuthorityWorkspace {
    /// Whether the review of a contribution is open.
    pub fn has_modal(&self) -> (result: bool)
        ensures
            result == (self.contribution_review is Some),
    {
        self.contribution_review.is_some()
    }

    /// Whether the project in focus accepts a contribution now.
    pub fn can_contribute(&mut self, state: &GameState) -> (result: bool)
        requires
            presentable(old(self).selection, programme(*state)),
        ensures
            *final(self) == (AuthorityWorkspace {
                selection: synchronized(old(self).selection, programme(*state)),
                ..*old(self)
            }),
            result == accepts(*state, final(self).selection.focus),
    {
        match self.selection.selected_project_id(state) {
            Some(id) => ContributionReview::start(state, id).is_ok(),
            None => false,
        }
    }

    /// The shortcuts of the current step.
    pub fn shortcuts(&mut self, state: &GameState, compact: bool, _wide: bool) -> (result: Vec<
        AuthorityShortcut,
    >)
        requires
            presentable(old(self).selection, programme(*state)),
        ensures
            shortcut_views(result@) == workspace_shortcuts(*old(self), *state, compact),
            *final(self) == (if old(self).contribution_review is Some || programme(*state).len()
                == 0 {
                *old(self)
            } else {
                AuthorityWorkspace {
                    selection: synchronized(old(self).selection, programme(*state)),
                    ..*old(self)
                }
            }),
    {
        let ghost expected = workspace_shortcuts(*self, *state, compact);
        let mut items: Vec<AuthorityShortcut> = Vec::new();
        if self.has_modal() {
            items.push(AuthorityShortcut::enabled("Enter", "Contribute"));
            items.push(AuthorityShortcut::enabled("Esc", "Cancel"));
            assert(shortcut_views(items@) =~= expected);
            return items;
        }
        if state.region.rail_authority.infrastructure_projects.len() == 0 {
            items.push(AuthorityShortcut::disabled("↑↓", "Project"));
            assert(shortcut_views(items@) =~= expected);
            return items;
        }
        items.push(
            AuthorityShortcut::enabled(
                if compact {
                    "↑↓"
                } else {
                    "↑↓/JK"
                },
                "Project",
            ),
        );
        if self.selection.has_multiple_pages(state) {
            items.push(AuthorityShortcut::enabled("PgUp/PgDn", "Page"));
        }
        if self.can_contribute(state) {
            items.push(AuthorityShortcut::enabled("F", "Contribute"));
        }
        assert(shortcut_views(items@) =~= expected);
        items
    }

    /// The help for the current step.
    pub fn help_lines(&self) -> (result: Vec<String>)
        ensures
            views(result@) == workspace_help(*self),
    {
        let mut lines: Vec<String> = Vec::new();
        if self.has_modal() {
            lines.push("Current · Infrastructure Contribution".to_owned());
            lines.push("Enter Confirm contribution".to_owned());
            lines.push("Esc Cancel contribution".to_owned());
            lines.push("".to_owned());
            lines.push("The Rail Authority keeps ownership of the infrastructure.".to_owned());
        } else {
            lines.push("Current · Rail Authority".to_owned());
            lines.push("↑↓ / jk Select infrastructure project".to_owned());
            lines.push("PgUp / PgDn Scroll project pipeline".to_owned());
            lines.push("f Contribute to selected project while it is in Funding".to_owned());
            lines.push("".to_owned());
            lines.push(
                "The Authority controls public infrastructure; operator contributions are optional.".to_owned(),
            );
        }
        assert(views(lines@) =~= workspace_help(*self));
        lines
    }

    /// Reacts to a key.
    pub fn handle_key(&mut self, key: KeyCode, state: &GameState) -> (result:
        AuthorityWorkspaceAction)
        requires
            presentable(old(self).selection, programme(*state)),
        ensures
            (*final(self), result@) == pressed(*old(self), key, *state),
    {
        if let Some(review) = self.contribution_review {
            return match key {
                KeyCode::Esc => {
                    self.contribution_review = None;
                    AuthorityWorkspaceAction::Notice(
                        "Infrastructure contribution cancelled; no changes were made.".to_owned(),
                    )
                },
                KeyCode::Enter => AuthorityWorkspaceAction::Contribute {
                    project_id: review.project_id,
                    amount: review.amount,
                },
                _ => AuthorityWorkspaceAction::Continue,
            };
        }
        match key {
            KeyCode::Char('f') | KeyCode::Char('F') => {
                match self.selection.selected_project_id(state) {
                    Some(id) => match ContributionReview::start(state, id) {
                        Ok(review) => {
                            self.contribution_review = Some(review);
                            AuthorityWorkspaceAction::ClearNotice
                        },
                        Err(message) => AuthorityWorkspaceAction::Notice(message.to_owned()),
                    },
                    None => AuthorityWorkspaceAction::Notice(
                        "Select an infrastructure project first.".to_owned(),
                    ),
                }
            },
            KeyCode::Up
            | KeyCode::Down
            | KeyCode::PageUp
            | KeyCode::PageDown
            | KeyCode::Char('j')
            | KeyCode::Char('J')
            | KeyCode::Char('k')
            | KeyCode::Char('K') => {
                self.selection.handle_key(key, state);
                AuthorityWorkspaceAction::Continue
            },
            _ => AuthorityWorkspaceAction::Continue,
        }
    }

    /// Closes the review after the contribution was saved, and gives its amount.
    pub fn confirm_saved(&mut self) -> (result: Money)
        ensures
            *final(self) == (AuthorityWorkspace { contribution_review: None, ..*old(self) }),
            result == (match old(self).contribution_review {
                Some(review) => review.amount,
                None => Money { cents: 0 },
            }),
    {
        let amount = match self.contribution_review {
            Some(review) => review.amount,
            None => Money::zero(),
        };
        self.contribution_review = None;
        amount
    }

    /// The dashboard as plain text, for the smallest terminals.
    pub fn render_text(
        &self,
        state: &GameState,
        outlooks: &Vec<ProjectOutlook>,
        now: UtcSeconds,
    ) -> (result: String)
        requires
            outlooks@.len() == state.region.rail_authority.infrastructure_projects@.len(),
        ensures
            result@ == printed(
                text_figures(*state, now) + text_rows(
                    *state,
                    outlooks@,
                    now,
                    outlooks@.len() as int,
                ),
            ),
    {
        render_text(state, outlooks, now)
    }

    /// Forgets everything for a new game.
    pub fn reset(&mut self)
        ensures
            *final(self) == fresh_workspace(),
    {
        *self = AuthorityWorkspace::default();
    }
}

/// A contribution reaches the shell only through a review that was opened for the project in
/// focus and then confirmed.
pub proof fn contributions_are_reviewed(
    workspace: AuthorityWorkspace,
    key: KeyCode,
    state: GameState,
)
    ensures
        pressed(workspace, key, state).1 is Contribute <==> workspace.contribution_review is Some
            && key == KeyCode::Enter,
        workspace.contribution_review is None && pressed(
            workspace,
            key,
            state,
        ).0.contribution_review is Some ==> review_of(
            state,
            pressed(workspace, key, state).0.selection.focus.unwrap(),
        ) == Ok::<ContributionReview, Seq<char>>(
            pressed(workspace, key, state).0.contribution_review.unwrap(),
        ),
{
}

} // verus!
