//! The selection cursor of ratatui's `ListState`, as this library relies on it.
use vstd::prelude::*;

use ratatui::widgets::ListState;

verus! {

#[verifier::external_type_specification]
#[verifier::external_body]
pub struct ExListState(ListState);

/// The index that a `ListState` holds as selected.
pub uninterp spec fn selection_of(state: ListState) -> Option<usize>;

/// Relies on the derived `Default` of `ListState`: nothing is selected.
pub assume_specification[ <ListState as core::default::Default>::default ]() -> (r: ListState)
    ensures
        selection_of(r) == None::<usize>,
;

/// Relies on `ListState::selected`, which returns the stored selection.
pub assume_specification[ ListState::selected ](s: &ListState) -> (r: Option<usize>)
    ensures
        r == selection_of(*s),
;

/// Relies on `ListState::select`, which stores the given selection.
pub assume_specification[ ListState::select ](s: &mut ListState, index: Option<usize>)
    ensures
        selection_of(*final(s)) == index,
;

/// Relies on `ListState::select_next`: one past the selection, saturating at
/// `usize::MAX`, or `0` when nothing is selected.
pub assume_specification[ ListState::select_next ](s: &mut ListState)
    ensures
        selection_of(*final(s)) == Some(
            match selection_of(*old(s)) {
                None => 0usize,
                Some(i) => if i == usize::MAX { i } else { (i + 1) as usize },
            },
        ),
;

/// Relies on `ListState::select_previous`: one before the selection,
/// saturating at `0`, or `usize::MAX` when nothing is selected.
pub assume_specification[ ListState::select_previous ](s: &mut ListState)
    ensures
        selection_of(*final(s)) == Some(
            match selection_of(*old(s)) {
                None => usize::MAX,
                Some(i) => if i == 0 { 0usize } else { (i - 1) as usize },
            },
        ),
;

/// Relies on `ListState::select_first`, which selects index `0`.
pub assume_specification[ ListState::select_first ](s: &mut ListState)
    ensures
        selection_of(*final(s)) == Some(0usize),
;

/// Relies on `ListState::select_last`, which selects `usize::MAX` and leaves
/// the clamping to the list's length to the caller.
pub assume_specification[ ListState::select_last ](s: &mut ListState)
    ensures
        selection_of(*final(s)) == Some(usize::MAX),
;

} // verus!
