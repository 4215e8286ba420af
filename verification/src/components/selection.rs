//! The arithmetic of a list cursor.
//!
//! A cursor is either unset or the index of a row. Over a list of `len`
//! rows it is legal when it is unset or lies in `0..len`. The functions
//! here move a cursor and never leave that range, whatever they are
//! given.

use vstd::prelude::*;

verus! {

/// The cursor that an executable selection stands for.
pub open spec fn cursor(selected: Option<usize>) -> Option<int> {
    match selected {
        None => None,
        Some(i) => Some(i as int),
    }
}

/// Whether a cursor is legal over `len` rows.
pub open spec fn cursor_valid(c: Option<int>, len: int) -> bool {
    match c {
        None => true,
        Some(i) => 0 <= i < len,
    }
}

/// The legal cursor nearest to `c`: an index past the end falls back on
/// the last row, and over an empty list nothing is selected.
pub open spec fn clamp_cursor(c: Option<int>, len: int) -> Option<int> {
    match c {
        None => None,
        Some(i) => if len <= 0 {
            None
        } else if i >= len {
            Some(len - 1)
        } else if i < 0 {
            Some(0)
        } else {
            Some(i)
        },
    }
}

/// One step down: an unset cursor goes to the first row, a set one to
/// the row below it, and the last row keeps it. Over an empty list there
/// is no row to go to.
pub open spec fn next_cursor(c: Option<int>, len: int) -> Option<int> {
    if len <= 0 {
        None
    } else {
        match clamp_cursor(c, len) {
            None => Some(0),
            Some(i) => if i + 1 < len {
                Some(i + 1)
            } else {
                Some(i)
            },
        }
    }
}

/// One step up: an unset cursor goes to the first row, a set one to the
/// row above it, and the first row keeps it. Over an empty list there is
/// no row to go to.
pub open spec fn previous_cursor(c: Option<int>, len: int) -> Option<int> {
    if len <= 0 {
        None
    } else {
        match clamp_cursor(c, len) {
            None => Some(0),
            Some(i) => if i > 0 {
                Some(i - 1)
            } else {
                Some(0)
            },
        }
    }
}

/// Whether a cursor stands on the midpoint row, `len / 2` rounded down:
/// the row at which more rows are fetched ahead of the user.
pub open spec fn on_midpoint(c: Option<int>, len: int) -> bool {
    c == Some(len / 2)
}

/// The cursor after `k` steps down.
pub open spec fn next_times(c: Option<int>, len: int, k: nat) -> Option<int>
    decreases k,
{
    if k == 0 {
        c
    } else {
        next_cursor(next_times(c, len, (k - 1) as nat), len)
    }
}

/// The cursor after `k` steps up.
pub open spec fn previous_times(c: Option<int>, len: int, k: nat) -> Option<int>
    decreases k,
{
    if k == 0 {
        c
    } else {
        previous_cursor(previous_times(c, len, (k - 1) as nat), len)
    }
}

/// Brings a selection back into the list: see [`clamp_cursor`].
pub fn clamp_selection(selected: Option<usize>, len: usize) -> (clamped: Option<usize>)
    ensures
        cursor(clamped) == clamp_cursor(cursor(selected), len as int),
        cursor_valid(cursor(clamped), len as int),
{
    match selected {
        None => None,
        Some(i) => if len == 0 {
            None
        } else if i >= len {
            Some(len - 1)
        } else {
            Some(i)
        },
    }
}

/// Moves a selection one row down: see [`next_cursor`].
pub fn next_selection(selected: Option<usize>, len: usize) -> (moved: Option<usize>)
    ensures
        cursor(moved) == next_cursor(cursor(selected), len as int),
        cursor_valid(cursor(moved), len as int),
{
    if len == 0 {
        None
    } else {
        match clamp_selection(selected, len) {
            None => Some(0),
            Some(i) => if i < len - 1 {
                Some(i + 1)
            } else {
                Some(i)
            },
        }
    }
}

/// Moves a selection one row up: see [`previous_cursor`].
pub fn previous_selection(selected: Option<usize>, len: usize) -> (moved: Option<usize>)
    ensures
        cursor(moved) == previous_cursor(cursor(selected), len as int),
        cursor_valid(cursor(moved), len as int),
{
    if len == 0 {
        None
    } else {
        match clamp_selection(selected, len) {
            None => Some(0),
            Some(i) => if i > 0 {
                Some(i - 1)
            } else {
                Some(0)
            },
        }
    }
}

/// Tells whether a selection stands on the midpoint row: see
/// [`on_midpoint`].
pub fn selection_on_midpoint(selected: Option<usize>, len: usize) -> (due: bool)
    ensures
        due == on_midpoint(cursor(selected), len as int),
{
    match selected {
        None => false,
        Some(i) => i == len / 2,
    }
}

/// Clamping gives a legal cursor and leaves a legal cursor alone.
pub proof fn lemma_clamp_cursor(c: Option<int>, len: int)
    ensures
        cursor_valid(clamp_cursor(c, len), len),
        cursor_valid(c, len) ==> clamp_cursor(c, len) == c,
{
}

/// Steps in either direction give a legal cursor, whatever they start
/// from; over a list with rows they always select a row.
pub proof fn lemma_steps_stay_in_list(c: Option<int>, len: int)
    ensures
        cursor_valid(next_cursor(c, len), len),
        cursor_valid(previous_cursor(c, len), len),
        len >= 1 ==> next_cursor(c, len) is Some && previous_cursor(c, len) is Some,
        len <= 0 ==> next_cursor(c, len) is None && previous_cursor(c, len) is None,
{
}

/// Starting with nothing selected over a list with rows, the cursor
/// stays unset exactly as long as no step down is made; after `k >= 1`
/// steps it stands on row `k - 1`, or on the last row if the list is
/// shorter than that.
pub proof fn lemma_next_times_from_unselected(len: int, k: nat)
    requires
        len >= 1,
    ensures
        next_times(None, len, k) is None <==> k == 0,
        k >= 1 ==> next_times(None, len, k) == Some(
            if k - 1 < len - 1 {
                k - 1
            } else {
                len - 1
            },
        ),
    decreases k,
{
    if k >= 1 {
        lemma_next_times_from_unselected(len, (k - 1) as nat);
    }
}

/// Once at least as many steps down were made as the list has rows, the
/// cursor that started unset stands on the smaller of the number of
/// steps and the last row, that is on the last row.
pub proof fn lemma_next_times_past_the_end(len: int, k: nat)
    requires
        len >= 1,
        k >= len,
    ensures
        next_times(None, len, k) == Some(
            if (k as int) < len - 1 {
                k as int
            } else {
                len - 1
            },
        ),
{
    lemma_next_times_from_unselected(len, k);
}

/// Steps up never take a legal cursor below row 0: after `k` of them a
/// cursor that stood on row `i` stands on row `i - k`, or on row 0 if
/// that would be negative.
pub proof fn lemma_previous_times_from_row(i: int, len: int, k: nat)
    requires
        0 <= i < len,
    ensures
        previous_times(Some(i), len, k) == Some(
            if i - k > 0 {
                i - k
            } else {
                0
            },
        ),
    decreases k,
{
    if k >= 1 {
        lemma_previous_times_from_row(i, len, (k - 1) as nat);
    }
}

/// Starting with nothing selected over a list with rows, the first step
/// up selects row 0, and every further step up keeps it there.
pub proof fn lemma_previous_times_from_unselected(len: int, k: nat)
    requires
        len >= 1,
    ensures
        previous_times(None, len, k) is None <==> k == 0,
        k >= 1 ==> previous_times(None, len, k) == Some(0int),
    decreases k,
{
    if k >= 1 {
        lemma_previous_times_from_unselected(len, (k - 1) as nat);
    }
}

/// Whatever legal cursor a run of steps up starts from, the row it ends
/// on is never negative.
pub proof fn lemma_previous_times_never_negative(c: Option<int>, len: int, k: nat)
    requires
        cursor_valid(c, len),
    ensures
        cursor_valid(previous_times(c, len, k), len),
        match previous_times(c, len, k) {
            Some(i) => 0 <= i,
            None => true,
        },
    decreases k,
{
    if k >= 1 {
        lemma_previous_times_never_negative(c, len, (k - 1) as nat);
    }
}

} // verus!
