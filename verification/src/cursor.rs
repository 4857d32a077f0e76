//! Cursors of the lists and tables on screen.
//!
//! The cursor objects are `tui`'s own `ListState` and `TableState`, so that
//! the renderer can drive them as they are. This module says what such an
//! object holds and what `tui`'s accessors do to it; none of that is proved
//! here.

use tui::widgets::{ListState, TableState};
use vstd::prelude::*;

verus! {

/// `tui::widgets::ListState`, whose fields are private to `tui`.
#[verifier::external_type_specification]
#[verifier::external_body]
pub struct ExListState(tui::widgets::ListState);

/// `tui::widgets::TableState`, whose fields are private to `tui`.
#[verifier::external_type_specification]
#[verifier::external_body]
pub struct ExTableState(tui::widgets::TableState);

/// The `selected` field of a `ListState`: the index of the highlighted row.
pub uninterp spec fn list_selected(state: ListState) -> Option<usize>;

/// The `offset` field of a `ListState`: the first row that is drawn.
pub uninterp spec fn list_offset(state: ListState) -> usize;

/// The `selected` field of a `TableState`: the index of the highlighted row.
pub uninterp spec fn table_selected(state: TableState) -> Option<usize>;

/// The `offset` field of a `TableState`: the first row that is drawn.
pub uninterp spec fn table_offset(state: TableState) -> usize;

/// What a cursor holds, as plain values.
pub struct Cursor {
    /// Index of the highlighted row, if any row is highlighted.
    pub selected: Option<usize>,
    /// Index of the first row that is drawn.
    pub offset: usize,
}

impl Cursor {
    /// A cursor that has not been moved: nothing is selected, and the
    /// first row is the first that is drawn.
    pub open spec fn fresh() -> Cursor {
        Cursor { selected: None, offset: 0 }
    }

    /// The cursor after a selection command: the index is taken as given,
    /// and clearing the selection scrolls back to the top.
    pub open spec fn select(self, index: Option<usize>) -> Cursor {
        Cursor { selected: index, offset: if index is None { 0 } else { self.offset } }
    }
}

/// The contents of a list cursor.
pub open spec fn list_cursor(state: ListState) -> Cursor {
    Cursor { selected: list_selected(state), offset: list_offset(state) }
}

/// The contents of a table cursor.
pub open spec fn table_cursor(state: TableState) -> Cursor {
    Cursor { selected: table_selected(state), offset: table_offset(state) }
}

/// `ListState::default`, which `tui` derives: nothing is selected and the
/// offset is zero.
pub assume_specification[ <ListState as Default>::default ]() -> (state: ListState)
    ensures
        list_selected(state) is None,
        list_offset(state) == 0,
;

/// `TableState::default`, which `tui` derives: nothing is selected and the
/// offset is zero.
pub assume_specification[ <TableState as Default>::default ]() -> (state: TableState)
    ensures
        table_selected(state) is None,
        table_offset(state) == 0,
;

/// `ListState::selected` returns the `selected` field.
pub assume_specification[ ListState::selected ](state: &ListState) -> (index: Option<usize>)
    ensures
        index == list_selected(*state),
;

/// `ListState::select` stores the index in the `selected` field, and sets
/// the `offset` field to zero when the index is `None`.
pub assume_specification[ ListState::select ](state: &mut ListState, index: Option<usize>)
    ensures
        list_selected(*final(state)) == index,
        list_offset(*final(state)) == if index is None { 0 } else { list_offset(*old(state)) },
;

/// `TableState::selected` returns the `selected` field.
pub assume_specification[ TableState::selected ](state: &TableState) -> (index: Option<usize>)
    ensures
        index == table_selected(*state),
;

/// `TableState::select` stores the index in the `selected` field, and sets
/// the `offset` field to zero when the index is `None`.
pub assume_specification[ TableState::select ](state: &mut TableState, index: Option<usize>)
    ensures
        table_selected(*final(state)) == index,
        table_offset(*final(state)) == if index is None { 0 } else { table_offset(*old(state)) },
;

} // verus!
