//! Which project of the programme is in focus.

use vstd::prelude::*;

use super::order::{is_order, ordered_project_indices, programme_order};
use crate::model::ids::InfrastructureProjectId;
use crate::model::project::{InfrastructureProject, InfrastructureProjectStatus};
use crate::model::state::GameState;
use crate::ui::keys::{move_selection, moved, KeyCode, TableSelection};

verus! {

/// The first row of an order that holds a project with an identity.
pub open spec fn row_of(
    projects: Seq<InfrastructureProject>,
    order: Seq<usize>,
    id: InfrastructureProjectId,
    from: int,
) -> Option<int>
    decreases order.len() - from,
{
    if from < 0 || from >= order.len() {
        None
    } else if projects[order[from] as int].id == id {
        Some(from)
    } else {
        row_of(projects, order, id, from + 1)
    }
}

/// Whether a project is not history yet.
pub open spec fn ongoing(status: InfrastructureProjectStatus) -> bool {
    !(status is Open || status is Rejected || status is Cancelled)
}

/// The first row of an order that holds an ongoing project.
pub open spec fn ongoing_row(
    projects: Seq<InfrastructureProject>,
    order: Seq<usize>,
    from: int,
) -> Option<int>
    decreases order.len() - from,
{
    if from < 0 || from >= order.len() {
        None
    } else if ongoing(projects[order[from] as int].status) {
        Some(from)
    } else {
        ongoing_row(projects, order, from + 1)
    }
}

fn find_row(
    projects: &Vec<InfrastructureProject>,
    order: &Vec<usize>,
    id: InfrastructureProjectId,
) -> (result: Option<usize>)
    requires
        is_order(projects@, order@),
    ensures
        match result {
            Some(row) => row < order@.len() && row_of(projects@, order@, id, 0) == Some(row as int)
                && projects@[order@[row as int] as int].id == id,
            None => row_of(projects@, order@, id, 0) is None,
        },
{
    let mut row: usize = 0;
    while row < order.len()
        invariant
            row <= order@.len(),
            is_order(projects@, order@),
            row_of(projects@, order@, id, 0) == row_of(projects@, order@, id, row as int),
        decreases order.len() - row,
    {
        if projects[order[row]].id == id {
            return Some(row);
        }
        row += 1;
    }
    None
}

fn find_ongoing_row(projects: &Vec<InfrastructureProject>, order: &Vec<usize>) -> (result: Option<
    usize,
>)
    requires
        is_order(projects@, order@),
    ensures
        match result {
            Some(row) => row < order@.len() && ongoing_row(projects@, order@, 0) == Some(
                row as int,
            ),
            None => ongoing_row(projects@, order@, 0) is None,
        },
{
    let mut row: usize = 0;
    while row < order.len()
        invariant
            row <= order@.len(),
            is_order(projects@, order@),
            ongoing_row(projects@, order@, 0) == ongoing_row(projects@, order@, row as int),
        decreases order.len() - row,
    {
        if !matches!(
            projects[order[row]].status,
            InfrastructureProjectStatus::Open | InfrastructureProjectStatus::Rejected
                | InfrastructureProjectStatus::Cancelled
        ) {
            return Some(row);
        }
        row += 1;
    }
    None
}

/// The focus on one project of the programme, which follows the project.
#[derive(Clone, Copy, Debug, PartialEq, Eq, Structural)]
pub struct ProjectSelection {
    pub focus: Option<InfrastructureProjectId>,
    pub table: TableSelection,
    pub page_size: usize,
}

impl Default for ProjectSelection {
    fn default() -> (result: Self)
        ensures
            result == (ProjectSelection {
                focus: None,
                table: TableSelection { selected: None, offset: 0 },
                page_size: 0,
            }),
    {
        ProjectSelection { focus: None, table: TableSelection::default(), page_size: 0 }
    }
}

/// Whether a selection can be brought in line with a programme: over one that lost all its
/// projects no row may be selected any more.
pub open spec fn presentable(
    selection: ProjectSelection,
    projects: Seq<InfrastructureProject>,
) -> bool {
    projects.len() > 0 || selection.table.selected is None
}

/// The row to select: the one that holds the project in focus; where that is gone, the row
/// selected before or the last one; else the first ongoing project, or the first row.
pub open spec fn chosen_row(
    selection: ProjectSelection,
    projects: Seq<InfrastructureProject>,
) -> Option<int> {
    let order = programme_order(projects);
    let followed = match selection.focus {
        Some(id) => row_of(projects, order, id, 0),
        None => None,
    };
    if followed is Some {
        followed
    } else {
        match selection.table.selected {
            Some(row) => Some(
                if row < projects.len() {
                    row as int
                } else {
                    projects.len() - 1
                },
            ),
            None => match ongoing_row(projects, order, 0) {
                Some(row) => Some(row),
                None => if projects.len() > 0 {
                    Some(0)
                } else {
                    None
                },
            },
        }
    }
}

/// A selection with a row of the programme in focus.
pub open spec fn focused(
    selection: ProjectSelection,
    projects: Seq<InfrastructureProject>,
    row: Option<int>,
) -> ProjectSelection {
    match row {
        Some(row) => ProjectSelection {
            focus: Some(projects[programme_order(projects)[row] as int].id),
            table: selection.table.selecting(Some(row as usize)),
            page_size: selection.page_size,
        },
        None => ProjectSelection {
            focus: None,
            table: selection.table.selecting(None),
            page_size: selection.page_size,
        },
    }
}

/// A selection brought in line with the programme.
pub open spec fn synchronized(
    selection: ProjectSelection,
    projects: Seq<InfrastructureProject>,
) -> ProjectSelection {
    focused(selection, projects, chosen_row(selection, projects))
}

/// A synchronized selection after a key.
pub open spec fn navigated(
    selection: ProjectSelection,
    key: KeyCode,
    projects: Seq<InfrastructureProject>,
) -> ProjectSelection {
    let current = synchronized(selection, projects);
    match current.table.selected {
        Some(row) => focused(
            current,
            projects,
            Some(moved(row as int, key, projects.len() as int, selection.page_size as int)),
        ),
        None => current,
    }
}

/// The place in the game of the project in focus.
pub open spec fn focused_place(
    selection: ProjectSelection,
    projects: Seq<InfrastructureProject>,
) -> Option<int> {
    match chosen_row(selection, projects) {
        Some(row) => Some(programme_order(projects)[row] as int),
        None => None,
    }
}

proof fn lemma_row_of(
    projects: Seq<InfrastructureProject>,
    order: Seq<usize>,
    id: InfrastructureProjectId,
    from: int,
)
    requires
        0 <= from,
    ensures
        match row_of(projects, order, id, from) {
            Some(row) => from <= row < order.len() && projects[order[row] as int].id == id,
            None => forall|row: int|
                from <= row < order.len() ==> projects[#[trigger] order[row] as int].id != id,
        },
    decreases order.len() - from,
{
    if from < order.len() && projects[order[from] as int].id != id {
        lemma_row_of(projects, order, id, from + 1);
    }
}

proof fn lemma_ongoing_row(projects: Seq<InfrastructureProject>, order: Seq<usize>, from: int)
    requires
        0 <= from,
    ensures
        ongoing_row(projects, order, from) matches Some(row) ==> from <= row < order.len(),
    decreases order.len() - from,
{
    if from < order.len() && !ongoing(projects[order[from] as int].status) {
        lemma_ongoing_row(projects, order, from + 1);
    }
}

proof fn lemma_chosen_row(selection: ProjectSelection, projects: Seq<InfrastructureProject>)
    requires
        presentable(selection, projects),
        is_order(projects, programme_order(projects)),
    ensures
        chosen_row(selection, projects) matches Some(row) ==> 0 <= row < projects.len(),
        chosen_row(selection, projects) is None ==> projects.len() == 0,
{
    let order = programme_order(projects);
    if let Some(id) = selection.focus {
        lemma_row_of(projects, order, id, 0);
    }
    lemma_ongoing_row(projects, order, 0);
}

/// The project in focus stays in focus for as long as the programme holds it, wherever it
/// moves in the list.
pub proof fn selection_follows_its_project(
    selection: ProjectSelection,
    projects: Seq<InfrastructureProject>,
    order: Seq<usize>,
    place: int,
)
    requires
        is_order(projects, order),
        0 <= place < projects.len(),
        projects.len() <= usize::MAX,
        selection.focus == Some(projects[place].id),
    ensures
        synchronized(selection, projects).focus == selection.focus,
        synchronized(selection, projects).table.selected is Some,
{
    let chosen = programme_order(projects);
    assert(is_order(projects, chosen));
    assert(chosen.contains(place as usize));
    let row = choose|row: int| 0 <= row < chosen.len() && chosen[row] == place as usize;
    assert(projects[chosen[row] as int].id == projects[place].id);
    lemma_row_of(projects, chosen, projects[place].id, 0);
}

/// Bringing a selection in line twice is bringing it in line once.
pub proof fn synchronizing_is_idempotent(
    selection: ProjectSelection,
    projects: Seq<InfrastructureProject>,
    order: Seq<usize>,
)
    requires
        is_order(projects, order),
        presentable(selection, projects),
        projects.len() <= usize::MAX,
        forall|i: int, j: int|
            0 <= i < j < projects.len() ==> (#[trigger] projects[i]).id != (#[trigger] projects[j]).id,
    ensures
        synchronized(synchronized(selection, projects), projects) == synchronized(
            selection,
            projects,
        ),
{
    let chosen = programme_order(projects);
    assert(is_order(projects, chosen));
    lemma_chosen_row(selection, projects);
    let first = synchronized(selection, projects);
    if let Some(row) = chosen_row(selection, projects) {
        let id = projects[chosen[row] as int].id;
        lemma_row_of(projects, chosen, id, 0);
        let again = row_of(projects, chosen, id, 0).unwrap();
        if again < row {
            assert(super::order::precedes(projects, chosen[again] as int, chosen[row] as int));
            assert(false);
        }
        if row < again {
            assert(super::order::precedes(projects, chosen[row] as int, chosen[again] as int));
            assert(false);
        }
        assert(again == row);
    }
}

impl ProjectSelection {
    /// Moves the focus by a key.
    pub fn handle_key(&mut self, key: KeyCode, state: &GameState)
        requires
            presentable(*old(self), state.region.rail_authority.infrastructure_projects@),
        ensures
            *final(self) == navigated(
                *old(self),
                key,
                state.region.rail_authority.infrastructure_projects@,
            ),
    {
        self.synchronize(state);
        let count: usize = state.region.rail_authority.infrastructure_projects.len();
        if let Some(row) = self.table.selected {
            let next: usize = move_selection(row, key, count, self.page_size);
            self.select_index(state, next);
        }
    }

    /// Brings the selection in line with the programme.
    pub fn synchronize(&mut self, state: &GameState)
        requires
            presentable(*old(self), state.region.rail_authority.infrastructure_projects@),
        ensures
            *final(self) == synchronized(
                *old(self),
                state.region.rail_authority.infrastructure_projects@,
            ),
            chosen_row(
                *old(self),
                state.region.rail_authority.infrastructure_projects@,
            ) matches Some(row) ==> 0 <= row
                < state.region.rail_authority.infrastructure_projects@.len(),
            final(self).table.selected matches Some(row) ==> row
                < state.region.rail_authority.infrastructure_projects@.len(),
    {
        let projects = &state.region.rail_authority.infrastructure_projects;
        let order = ordered_project_indices(projects);
        proof {
            lemma_chosen_row(*old(self), projects@);
        }
        let followed = match self.focus {
            Some(id) => find_row(projects, &order, id),
            None => None,
        };
        let selected = if followed.is_some() {
            followed
        } else {
            match self.table.selected {
                Some(row) => Some(
                    if row < projects.len() {
                        row
                    } else {
                        projects.len() - 1
                    },
                ),
                None => match find_ongoing_row(projects, &order) {
                    Some(row) => Some(row),
                    None => if projects.len() > 0 {
                        Some(0)
                    } else {
                        None
                    },
                },
            }
        };
        match selected {
            Some(row) => {
                self.focus = Some(projects[order[row]].id);
            },
            None => {
                self.focus = None;
            },
        }
        self.table.select(selected);
    }

    fn select_index(&mut self, state: &GameState, row: usize)
        requires
            row < state.region.rail_authority.infrastructure_projects@.len(),
        ensures
            *final(self) == focused(
                *old(self),
                state.region.rail_authority.infrastructure_projects@,
                Some(row as int),
            ),
    {
        let projects = &state.region.rail_authority.infrastructure_projects;
        let order = ordered_project_indices(projects);
        self.focus = Some(projects[order[row]].id);
        self.table.select(Some(row));
    }

    /// Brings the selection in line and gives the place of the project in focus.
    pub fn selected_project(&mut self, state: &GameState) -> (result: Option<usize>)
        requires
            presentable(*old(self), state.region.rail_authority.infrastructure_projects@),
        ensures
            *final(self) == synchronized(
                *old(self),
                state.region.rail_authority.infrastructure_projects@,
            ),
            match result {
                Some(place) => place < state.region.rail_authority.infrastructure_projects@.len()
                    && focused_place(
                    *old(self),
                    state.region.rail_authority.infrastructure_projects@,
                ) == Some(place as int),
                None => focused_place(
                    *old(self),
                    state.region.rail_authority.infrastructure_projects@,
                ) is None,
            },
    {
        self.synchronize(state);
        let order = ordered_project_indices(
            &state.region.rail_authority.infrastructure_projects,
        );
        match self.table.selected {
            Some(row) => Some(order[row]),
            None => None,
        }
    }

    /// How many rows a page shows; never none.
    pub fn set_page_size(&mut self, page_size: usize)
        ensures
            *final(self) == (ProjectSelection {
                page_size: if page_size == 0 {
                    1
                } else {
                    page_size
                },
                ..*old(self)
            }),
    {
        self.page_size = if page_size == 0 {
            1
        } else {
            page_size
        };
    }

    /// Whether the programme does not fit on one page.
    pub open spec fn pages(self, projects: Seq<InfrastructureProject>) -> bool {
        self.page_size >= 2 && projects.len() > self.page_size
    }

    pub fn has_multiple_pages(&self, state: &GameState) -> (result: bool)
        ensures
            result == self.pages(state.region.rail_authority.infrastructure_projects@),
    {
        self.page_size >= 2 && state.region.rail_authority.infrastructure_projects.len()
            > self.page_size
    }

    /// Brings the selection in line and gives the project in focus.
    pub fn selected_project_id(&mut self, state: &GameState) -> (result: Option<
        InfrastructureProjectId,
    >)
        requires
            presentable(*old(self), state.region.rail_authority.infrastructure_projects@),
        ensures
            *final(self) == synchronized(
                *old(self),
                state.region.rail_authority.infrastructure_projects@,
            ),
            result == final(self).focus,
    {
        match self.selected_project(state) {
            Some(place) => Some(
                state.region.rail_authority.infrastructure_projects[place].id,
            ),
            None => None,
        }
    }
}

} // verus!
