//! Which recovery route and which receipt are in focus.

use vstd::prelude::*;

use super::recovery::{
    destination_of, first_destination, open_routes, recovery_evaluation, CompanyOutlook,
    RecoveryDestination,
};
use crate::model::company::JourneyReceipt;
use crate::model::ids::JourneyId;
use crate::model::state::GameState;
use crate::ui::keys::{
    lower_case_key, lower_case_only, move_selection, moved, KeyCode, TableSelection,
};

verus! {

pub open spec fn page_size_of(page_size: usize) -> usize {
    if page_size == 0 {
        1
    } else {
        page_size
    }
}

/// The focus on one of the recovery routes.
#[derive(Clone, Copy, Debug, PartialEq, Eq, Structural)]
pub struct RecoverySelection {
    pub list: TableSelection,
    pub page_size: usize,
}

impl Default for RecoverySelection {
    fn default() -> (result: Self)
        ensures
            result == (RecoverySelection {
                list: TableSelection { selected: None, offset: 0 },
                page_size: 0,
            }),
    {
        RecoverySelection { list: TableSelection::default(), page_size: 0 }
    }
}

/// A selection brought in line with so many routes: the first one at first, the last one
/// where there are fewer now.
pub open spec fn route_synchronized(selection: RecoverySelection, count: int) -> RecoverySelection {
    let selected = if count == 0 {
        None
    } else {
        match selection.list.selected {
            None => Some(0usize),
            Some(row) => Some(
                if row < count {
                    row
                } else {
                    (count - 1) as usize
                },
            ),
        }
    };
    RecoverySelection { list: selection.list.selecting(selected), ..selection }
}

/// The selection after a key.
pub open spec fn route_navigated(
    selection: RecoverySelection,
    key: KeyCode,
    count: int,
) -> RecoverySelection {
    if count == 0 {
        selection
    } else {
        let current = route_synchronized(selection, count);
        let next = moved(
            current.list.selected.unwrap() as int,
            lower_case_only(key),
            count,
            selection.page_size as int,
        );
        RecoverySelection { list: current.list.selecting(Some(next as usize)), ..current }
    }
}

/// Where the route in focus begins.
pub open spec fn chosen_destination(
    selection: RecoverySelection,
    outlook: CompanyOutlook,
) -> Option<RecoveryDestination> {
    let routes = open_routes(outlook);
    if routes.len() == 0 {
        None
    } else {
        Some(
            destination_of(
                routes[route_synchronized(
                    selection,
                    routes.len() as int,
                ).list.selected.unwrap() as int],
            ),
        )
    }
}

impl RecoverySelection {
    fn synchronize(&mut self, count: usize)
        ensures
            *final(self) == route_synchronized(*old(self), count as int),
            count > 0 ==> final(self).list.selected is Some,
            final(self).list.selected matches Some(row) ==> row < count,
    {
        let selected = if count == 0 {
            None
        } else {
            match self.list.selected {
                None => Some(0),
                Some(row) => Some(
                    if row < count {
                        row
                    } else {
                        count - 1
                    },
                ),
            }
        };
        self.list.select(selected);
    }

    /// Brings the selection in line with the routes.
    pub fn synchronize_routes(&mut self, outlook: &CompanyOutlook)
        ensures
            *final(self) == (if open_routes(*outlook).len() == 0 {
                *old(self)
            } else {
                route_synchronized(*old(self), open_routes(*outlook).len() as int)
            }),
    {
        if let Some(evaluation) = recovery_evaluation(outlook) {
            self.synchronize(evaluation.recovery_options.len());
        }
    }

    /// Moves the focus by a key.
    pub fn handle_key(&mut self, key: KeyCode, outlook: &CompanyOutlook)
        ensures
            *final(self) == route_navigated(
                *old(self),
                key,
                open_routes(*outlook).len() as int,
            ),
    {
        if let Some(evaluation) = recovery_evaluation(outlook) {
            let count: usize = evaluation.recovery_options.len();
            self.synchronize(count);
            if let Some(row) = self.list.selected {
                let next: usize = move_selection(row, lower_case_key(key), count, self.page_size);
                self.list.select(Some(next));
            }
        }
    }

    /// Brings the selection in line and tells where the route in focus begins.
    pub fn selected_destination(&mut self, outlook: &CompanyOutlook) -> (result: Option<
        RecoveryDestination,
    >)
        ensures
            *final(self) == (if open_routes(*outlook).len() == 0 {
                *old(self)
            } else {
                route_synchronized(*old(self), open_routes(*outlook).len() as int)
            }),
            result == chosen_destination(*old(self), *outlook),
    {
        let options = match recovery_evaluation(outlook) {
            Some(evaluation) => &evaluation.recovery_options,
            None => return None,
        };
        self.synchronize(options.len());
        match self.list.selected {
            Some(row) => Some(first_destination(&options[row])),
            None => None,
        }
    }

    /// How many routes a page shows; never none.
    pub fn set_page_size(&mut self, page_size: usize)
        ensures
            *final(self) == (RecoverySelection {
                page_size: page_size_of(page_size),
                ..*old(self)
            }),
    {
        self.page_size = if page_size == 0 {
            1
        } else {
            page_size
        };
    }
}

/// The focus on one receipt, which follows the receipt while new ones arrive.
#[derive(Clone, Copy, Debug, PartialEq, Eq, Structural)]
pub struct ReceiptSelection {
    pub focus: Option<JourneyId>,
    pub table: TableSelection,
    pub page_size: usize,
}

impl Default for ReceiptSelection {
    fn default() -> (result: Self)
        ensures
            result == (ReceiptSelection {
                focus: None,
                table: TableSelection { selected: None, offset: 0 },
                page_size: 0,
            }),
    {
        ReceiptSelection { focus: None, table: TableSelection::default(), page_size: 0 }
    }
}

/// The receipt in a row: the newest is in the first.
pub open spec fn receipt_in(receipts: Seq<JourneyReceipt>, row: int) -> JourneyReceipt {
    receipts[receipts.len() - 1 - row]
}

/// The first row, from one on, whose receipt is of a Journey.
pub open spec fn row_of_journey(
    receipts: Seq<JourneyReceipt>,
    id: JourneyId,
    from: int,
) -> Option<int>
    decreases receipts.len() - from,
{
    if from < 0 || from >= receipts.len() {
        None
    } else if receipt_in(receipts, from).journey_id == id {
        Some(from)
    } else {
        row_of_journey(receipts, id, from + 1)
    }
}

/// The row to select: that of the receipt in focus; where it is gone, the row selected
/// before, or the last one.
pub open spec fn chosen_receipt(
    selection: ReceiptSelection,
    receipts: Seq<JourneyReceipt>,
) -> Option<int> {
    let followed = match selection.focus {
        Some(id) => row_of_journey(receipts, id, 0),
        None => None,
    };
    if followed is Some {
        followed
    } else if receipts.len() == 0 {
        None
    } else {
        match selection.table.selected {
            Some(row) => Some(
                if row < receipts.len() {
                    row as int
                } else {
                    receipts.len() - 1
                },
            ),
            None => Some(0),
        }
    }
}

/// A selection with a row in focus.
pub open spec fn receipt_focused(
    selection: ReceiptSelection,
    receipts: Seq<JourneyReceipt>,
    row: Option<int>,
) -> ReceiptSelection {
    match row {
        Some(row) => ReceiptSelection {
            focus: Some(receipt_in(receipts, row).journey_id),
            table: selection.table.selecting(Some(row as usize)),
            page_size: selection.page_size,
        },
        None => ReceiptSelection {
            focus: None,
            table: selection.table.selecting(None),
            page_size: selection.page_size,
        },
    }
}

/// A selection brought in line with the receipts.
pub open spec fn receipt_synchronized(
    selection: ReceiptSelection,
    receipts: Seq<JourneyReceipt>,
) -> ReceiptSelection {
    receipt_focused(selection, receipts, chosen_receipt(selection, receipts))
}

/// A synchronized selection after a key.
pub open spec fn receipt_navigated(
    selection: ReceiptSelection,
    key: KeyCode,
    receipts: Seq<JourneyReceipt>,
) -> ReceiptSelection {
    let current = receipt_synchronized(selection, receipts);
    match current.table.selected {
        Some(row) => receipt_focused(
            current,
            receipts,
            Some(
                moved(
                    row as int,
                    lower_case_only(key),
                    receipts.len() as int,
                    selection.page_size as int,
                ),
            ),
        ),
        None => current,
    }
}

proof fn lemma_row_of_journey(receipts: Seq<JourneyReceipt>, id: JourneyId, from: int)
    requires
        0 <= from,
    ensures
        match row_of_journey(receipts, id, from) {
            Some(row) => from <= row < receipts.len() && receipt_in(receipts, row).journey_id == id,
            None => forall|row: int|
                from <= row < receipts.len() ==> (#[trigger] receipt_in(
                    receipts,
                    row,
                )).journey_id != id,
        },
    decreases receipts.len() - from,
{
    if from < receipts.len() && receipt_in(receipts, from).journey_id != id {
        lemma_row_of_journey(receipts, id, from + 1);
    }
}

/// The receipt in focus stays in focus when new receipts arrive.
pub proof fn new_receipts_do_not_move_the_reader(
    selection: ReceiptSelection,
    receipts: Seq<JourneyReceipt>,
    arrived: Seq<JourneyReceipt>,
    i: int,
)
    requires
        0 <= i < receipts.len(),
        selection.focus == Some(receipts[i].journey_id),
        forall|j: int|
            0 <= j < arrived.len() ==> (#[trigger] arrived[j]).journey_id != receipts[i].journey_id,
    ensures
        receipt_synchronized(selection, receipts + arrived).focus == selection.focus,
        receipt_synchronized(selection, receipts + arrived).table.selected is Some,
{
    let all = receipts + arrived;
    let row = all.len() - 1 - i;
    assert(receipt_in(all, row) == receipts[i]);
    lemma_row_of_journey(all, receipts[i].journey_id, 0);
}

/// The first receipt of a Journey.
pub open spec fn receipt_of(receipts: Seq<JourneyReceipt>, id: JourneyId) -> Option<JourneyReceipt>
    decreases receipts.len(),
{
    if receipts.len() == 0 {
        None
    } else if receipts[0].journey_id == id {
        Some(receipts[0])
    } else {
        receipt_of(receipts.skip(1), id)
    }
}

impl ReceiptSelection {
    /// Brings the selection in line with the receipts.
    pub fn synchronize(&mut self, state: &GameState)
        ensures
            *final(self) == receipt_synchronized(
                *old(self),
                state.financials.recent_journey_receipts@,
            ),
            final(self).table.selected matches Some(row) ==> row
                < state.financials.recent_journey_receipts@.len(),
    {
        let receipts = &state.financials.recent_journey_receipts;
        let length: usize = receipts.len();
        let mut selected: Option<usize> = None;
        if let Some(id) = self.focus {
            let mut row: usize = 0;
            while row < length && selected.is_none()
                invariant
                    row <= length,
                    length == receipts@.len(),
                    match selected {
                        Some(found) => found < length && row_of_journey(receipts@, id, 0) == Some(
                            found as int,
                        ),
                        None => row_of_journey(receipts@, id, 0) == row_of_journey(
                            receipts@,
                            id,
                            row as int,
                        ),
                    },
                decreases length - row + (if selected is None {
                    1int
                } else {
                    0
                }),
            {
                if receipts[length - 1 - row].journey_id == id {
                    selected = Some(row);
                } else {
                    row += 1;
                }
            }
        }
        if selected.is_none() && length > 0 {
            selected = match self.table.selected {
                Some(row) => Some(
                    if row < length {
                        row
                    } else {
                        length - 1
                    },
                ),
                None => Some(0),
            };
        }
        self.focus = match selected {
            Some(row) => Some(receipts[length - 1 - row].journey_id),
            None => None,
        };
        self.table.select(selected);
    }

    fn select_index(&mut self, state: &GameState, row: usize)
        requires
            row < state.financials.recent_journey_receipts@.len(),
        ensures
            *final(self) == receipt_focused(
                *old(self),
                state.financials.recent_journey_receipts@,
                Some(row as int),
            ),
    {
        let receipts = &state.financials.recent_journey_receipts;
        self.focus = Some(receipts[receipts.len() - 1 - row].journey_id);
        self.table.select(Some(row));
    }

    /// Moves the focus by a key.
    pub fn handle_key(&mut self, key: KeyCode, state: &GameState)
        ensures
            *final(self) == receipt_navigated(
                *old(self),
                key,
                state.financials.recent_journey_receipts@,
            ),
    {
        self.synchronize(state);
        let count: usize = state.financials.recent_journey_receipts.len();
        if let Some(row) = self.table.selected {
            let next: usize = move_selection(row, lower_case_key(key), count, self.page_size);
            self.select_index(state, next);
        }
    }

    /// Brings the selection in line and tells whether a receipt is in focus.
    pub fn has_selection(&mut self, state: &GameState) -> (result: bool)
        ensures
            *final(self) == receipt_synchronized(
                *old(self),
                state.financials.recent_journey_receipts@,
            ),
            result == (final(self).focus is Some),
            result == (state.financials.recent_journey_receipts@.len() > 0),
    {
        self.synchronize(state);
        proof {
            if let Some(id) = old(self).focus {
                lemma_row_of_journey(state.financials.recent_journey_receipts@, id, 0);
            }
        }
        self.focus.is_some()
    }

    /// Brings the selection in line and gives the receipt in focus.
    pub fn selected_receipt<'a>(&mut self, state: &'a GameState) -> (result: Option<
        &'a JourneyReceipt,
    >)
        ensures
            *final(self) == receipt_synchronized(
                *old(self),
                state.financials.recent_journey_receipts@,
            ),
            (match result {
                Some(receipt) => Some(*receipt),
                None => None::<JourneyReceipt>,
            }) == (match final(self).focus {
                Some(id) => receipt_of(state.financials.recent_journey_receipts@, id),
                None => None::<JourneyReceipt>,
            }),
    {
        self.synchronize(state);
        let id = match self.focus {
            Some(id) => id,
            None => return None,
        };
        let receipts = &state.financials.recent_journey_receipts;
        let mut i: usize = 0;
        assert(receipts@.skip(0) =~= receipts@);
        while i < receipts.len()
            invariant
                i <= receipts@.len(),
                *receipts == state.financials.recent_journey_receipts,
                self.focus == Some(id),
                *self == receipt_synchronized(*old(self), receipts@),
                receipt_of(receipts@, id) == receipt_of(receipts@.skip(i as int), id),
            decreases receipts.len() - i,
        {
            assert(receipts@.skip(i as int)[0] == receipts@[i as int]);
            if receipts[i].journey_id == id {
                return Some(&receipts[i]);
            }
            assert(receipts@.skip(i as int).skip(1) =~= receipts@.skip(i + 1));
            i += 1;
        }
        None
    }

    /// How many receipts a page shows; never none.
    pub fn set_page_size(&mut self, page_size: usize)
        ensures
            *final(self) == (ReceiptSelection {
                page_size: page_size_of(page_size),
                ..*old(self)
            }),
    {
        self.page_size = if page_size == 0 {
            1
        } else {
            page_size
        };
    }
}

} // verus!
