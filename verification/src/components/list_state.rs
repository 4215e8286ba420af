//! The list widget's state, as far as the navigation reads and writes
//! it.
//!
//! The widget library owns the type; nothing here is proved of it. What
//! is taken on trust is stated on each item.

use ratatui::widgets::ListState;
use vstd::prelude::*;

verus! {

/// `ratatui::widgets::ListState`, the state that the list widget keeps
/// from one frame to the next: the selected row and the scroll offset.
#[verifier::external_type_specification]
#[verifier::external_body]
pub struct ExListState(ListState);

/// The row that a list state has selected, if any: the value that
/// `ListState::selected` reads.
pub uninterp spec fn list_state_selected(state: ListState) -> Option<usize>;

/// Calls `ListState::default`. Trusted: a fresh state has no row
/// selected.
#[verifier::external_body]
pub(crate) fn new_list_state() -> (state: ListState)
    ensures
        list_state_selected(state) is None,
{
    ListState::default()
}

/// Calls `ListState::selected`. Trusted: it returns the selected row and
/// changes nothing.
#[verifier::external_body]
pub(crate) fn selected_row(state: &ListState) -> (selected: Option<usize>)
    ensures
        selected == list_state_selected(*state),
{
    state.selected()
}

/// Calls `ListState::select`. Trusted: afterwards the state has exactly
/// the given row selected, or none if none was given.
#[verifier::external_body]
pub(crate) fn select_row(state: &mut ListState, index: Option<usize>)
    ensures
        list_state_selected(*final(state)) == index,
{
    state.select(index)
}

} // verus!
