//! Keys that the workspaces react to, and the selections that they move.

use vstd::prelude::*;

verus! {

/// A pressed key.
#[derive(Clone, Copy, Debug, PartialEq, Eq, Structural)]
pub enum KeyCode {
    Up,
    Down,
    PageUp,
    PageDown,
    Enter,
    Esc,
    Backspace,
    Delete,
    Char(char),
    Other,
}

/// How a key moves a selection in a list.
#[derive(Clone, Copy, Debug, PartialEq, Eq, Structural)]
pub enum Movement {
    Previous,
    Next,
    PreviousPage,
    NextPage,
    Stay,
}

/// The movement that a key asks for.
pub open spec fn movement_of(key: KeyCode) -> Movement {
    match key {
        KeyCode::Up | KeyCode::Char('k') | KeyCode::Char('K') => Movement::Previous,
        KeyCode::Down | KeyCode::Char('j') | KeyCode::Char('J') => Movement::Next,
        KeyCode::PageUp => Movement::PreviousPage,
        KeyCode::PageDown => Movement::NextPage,
        _ => Movement::Stay,
    }
}

pub fn movement(key: KeyCode) -> (result: Movement)
    ensures
        result == movement_of(key),
{
    match key {
        KeyCode::Up | KeyCode::Char('k') | KeyCode::Char('K') => Movement::Previous,
        KeyCode::Down | KeyCode::Char('j') | KeyCode::Char('J') => Movement::Next,
        KeyCode::PageUp => Movement::PreviousPage,
        KeyCode::PageDown => Movement::NextPage,
        _ => Movement::Stay,
    }
}

pub open spec fn lesser(first: int, second: int) -> int {
    if first <= second {
        first
    } else {
        second
    }
}

pub open spec fn greater(first: int, second: int) -> int {
    if first >= second {
        first
    } else {
        second
    }
}

/// Where a key moves a selection in a list of `count` items shown `page` at a time: it stops
/// at both ends.
pub open spec fn moved(selected: int, key: KeyCode, count: int, page: int) -> int {
    let step = greater(page, 1);
    let last = greater(count - 1, 0);
    match movement_of(key) {
        Movement::Previous => greater(selected - 1, 0),
        Movement::Next => lesser(selected + 1, last),
        Movement::PreviousPage => greater(selected - step, 0),
        Movement::NextPage => lesser(selected + step, last),
        Movement::Stay => selected,
    }
}

pub fn move_selection(selected: usize, key: KeyCode, count: usize, page: usize) -> (result: usize)
    requires
        selected < count,
    ensures
        result == moved(selected as int, key, count as int, page as int),
        result < count,
{
    let step: usize = if page >= 1 {
        page
    } else {
        1
    };
    let last: usize = count - 1;
    match movement(key) {
        Movement::Previous => if selected > 0 {
            selected - 1
        } else {
            0
        },
        Movement::Next => if selected < last {
            selected + 1
        } else {
            last
        },
        Movement::PreviousPage => if selected > step {
            selected - step
        } else {
            0
        },
        Movement::NextPage => if step < last - selected {
            selected + step
        } else {
            last
        },
        Movement::Stay => selected,
    }
}

/// Whatever the key, a selection stays inside its list.
pub proof fn selections_stay_in_range(selected: int, key: KeyCode, count: int, page: int)
    requires
        0 <= selected < count,
        0 <= page,
    ensures
        0 <= moved(selected, key, count, page) < count,
{
}

/// The selected row of a table and the first row that it shows.
#[derive(Clone, Copy, Debug, PartialEq, Eq, Structural)]
pub struct TableSelection {
    pub selected: Option<usize>,
    pub offset: usize,
}

impl TableSelection {
    /// Another row selected; with none, the table shows its first row.
    pub open spec fn selecting(self, selected: Option<usize>) -> TableSelection {
        TableSelection {
            selected,
            offset: if selected is None {
                0
            } else {
                self.offset
            },
        }
    }

    pub fn select(&mut self, selected: Option<usize>)
        ensures
            *final(self) == old(self).selecting(selected),
    {
        self.selected = selected;
        if selected.is_none() {
            self.offset = 0;
        }
    }
}

impl Default for TableSelection {
    fn default() -> (result: Self)
        ensures
            result == (TableSelection { selected: None, offset: 0 }),
    {
        TableSelection { selected: None, offset: 0 }
    }
}

/// A key where only lower-case letters move a selection.
pub open spec fn lower_case_only(key: KeyCode) -> KeyCode {
    match key {
        KeyCode::Char('J') | KeyCode::Char('K') => KeyCode::Other,
        _ => key,
    }
}

pub fn lower_case_key(key: KeyCode) -> (result: KeyCode)
    ensures
        result == lower_case_only(key),
{
    match key {
        KeyCode::Char('J') | KeyCode::Char('K') => KeyCode::Other,
        _ => key,
    }
}

} // verus!
