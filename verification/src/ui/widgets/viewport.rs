//! Cursor and scroll arithmetic shared by every scrollable pane.
//!
//! A pane shows `count` items, of which `cursor` is selected and `offset` is the first one
//! drawn. The height of the pane is handed in at each call, since it follows the terminal.

use vstd::prelude::*;
use crate::text::{push_decimal, spec_decimal};

verus! {

/// Rows of a bordered, titled pane that do not show items.
pub const RESERVED_ROWS: usize = 3;

/// Rows left for items in a pane of the given height.
pub open spec fn visible_rows(height: usize) -> nat {
    if height > RESERVED_ROWS {
        (height - RESERVED_ROWS) as nat
    } else {
        0
    }
}

/// Index of the last item; zero for an empty list.
pub open spec fn last_index(count: nat) -> nat {
    if count == 0 {
        0
    } else {
        (count - 1) as nat
    }
}

/// The cursor after moving `n` items down: it stops at the last item.
pub open spec fn spec_step_down(cursor: nat, n: nat, count: nat) -> nat {
    if cursor + n <= last_index(count) {
        cursor + n
    } else {
        last_index(count)
    }
}

/// The cursor after moving `n` items up: it stops at the first item.
pub open spec fn spec_step_up(cursor: nat, n: nat) -> nat {
    if cursor >= n {
        (cursor - n) as nat
    } else {
        0
    }
}

/// The offset that brings the cursor into a window of `visible` rows: unchanged while the
/// cursor is inside the window, else moved by the least amount that shows the cursor.
pub open spec fn spec_scroll_to(cursor: nat, offset: nat, visible: nat) -> nat {
    if cursor < offset {
        cursor
    } else if cursor >= offset + visible {
        (cursor - visible + 1) as nat
    } else {
        offset
    }
}

/// The cursor lies in the window of `visible` rows that starts at `offset`.
pub open spec fn cursor_shown(cursor: nat, offset: nat, visible: nat) -> bool {
    offset <= cursor < offset + visible
}

/// How far the list is scrolled, as a whole percentage, or nothing when every item fits.
pub open spec fn spec_scroll_percent(offset: nat, count: nat, visible: nat) -> Option<nat> {
    if count <= visible {
        None
    } else {
        let span = if count - visible >= 1 {
            (count - visible) as nat
        } else {
            1
        };
        Some(offset * 100 / span)
    }
}

/// The scroll indicator: empty, or the percentage followed by a percent sign.
pub open spec fn spec_scroll_label(offset: nat, count: nat, visible: nat) -> Seq<char> {
    match spec_scroll_percent(offset, count, visible) {
        None => Seq::empty(),
        Some(p) => spec_decimal(p).push('%'),
    }
}

pub fn step_down(cursor: usize, n: usize, count: usize) -> (c: usize)
    ensures
        c == spec_step_down(cursor as nat, n as nat, count as nat),
{
    let last = if count == 0 {
        0
    } else {
        count - 1
    };
    if cursor <= last && n <= last - cursor {
        cursor + n
    } else {
        last
    }
}

pub fn step_up(cursor: usize, n: usize) -> (c: usize)
    ensures
        c == spec_step_up(cursor as nat, n as nat),
{
    if cursor >= n {
        cursor - n
    } else {
        0
    }
}

pub fn scroll_to(cursor: usize, offset: usize, height: usize) -> (o: usize)
    requires
        cursor < usize::MAX || height > RESERVED_ROWS,
    ensures
        o == spec_scroll_to(cursor as nat, offset as nat, visible_rows(height)),
{
    let visible = height.saturating_sub(RESERVED_ROWS);
    if cursor < offset {
        cursor
    } else if cursor - offset >= visible {
        cursor - visible + 1
    } else {
        offset
    }
}

pub fn scroll_label(offset: usize, count: usize, height: usize) -> (s: String)
    ensures
        s@ == spec_scroll_label(offset as nat, count as nat, visible_rows(height)),
{
    let visible = height.saturating_sub(RESERVED_ROWS);
    if count <= visible {
        return String::new();
    }
    let span = count - visible;
    let percent: u128 = (offset as u128 * 100) / (span as u128);
    let mut s = String::new();
    push_decimal(&mut s, percent);
    s.push('%');
    s
}

/// After scrolling to the cursor in a window of at least one row, the cursor is shown.
pub proof fn lemma_scroll_to_shows_cursor(cursor: nat, offset: nat, visible: nat)
    requires
        visible >= 1,
    ensures
        cursor_shown(cursor, spec_scroll_to(cursor, offset, visible), visible),
{
}

/// Scrolling to the cursor twice in a window of at least one row is the same as scrolling once.
pub proof fn lemma_scroll_to_idempotent(cursor: nat, offset: nat, visible: nat)
    requires
        visible >= 1,
    ensures
        spec_scroll_to(cursor, spec_scroll_to(cursor, offset, visible), visible) == spec_scroll_to(
            cursor,
            offset,
            visible,
        ),
{
}

/// A list that is shown from its first item stays there while the cursor is in the
/// first window.
pub proof fn lemma_scroll_to_keeps_top(cursor: nat, visible: nat)
    requires
        cursor < visible,
    ensures
        spec_scroll_to(cursor, 0, visible) == 0,
{
}

/// No indicator is shown for a list that fits the window.
pub proof fn lemma_no_label_when_fits(offset: nat, count: nat, visible: nat)
    requires
        count <= visible,
    ensures
        spec_scroll_label(offset, count, visible).len() == 0,
{
}

} // verus!
