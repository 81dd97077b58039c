//! The window of the buffer that the terminal shows: where it starts on each
//! axis, and which part of a line falls into it.
//!
//! Both axes scroll by the same rule, so it is stated once, for one axis: an
//! offset, the cursor's coordinate and the extent of the window.

use crate::text::char_count;
use crate::text::substring;
use vstd::prelude::*;

verus! {

/// The cursor's coordinate lies inside the window.
pub open spec fn in_view(offset: int, cursor: int, extent: int) -> bool {
    offset <= cursor < offset + extent
}

/// The offset after scrolling. A cursor before the window pulls the window's
/// start onto itself; a cursor at or past the window's end then pulls the
/// window's last cell onto itself.
pub open spec fn scroll_offset(offset: int, cursor: int, extent: int) -> int {
    let pulled = if cursor < offset {
        cursor
    } else {
        offset
    };
    if cursor >= pulled + extent {
        cursor - extent + 1
    } else {
        pulled
    }
}

/// After scrolling, the cursor is inside the window, for every offset before
/// and every cursor, as long as the window has at least one cell.
pub proof fn lemma_scroll_contains(offset: int, cursor: int, extent: int)
    requires
        extent >= 1,
    ensures
        in_view(scroll_offset(offset, cursor, extent), cursor, extent),
{
}

/// Scrolling twice is scrolling once.
pub proof fn lemma_scroll_idempotent(offset: int, cursor: int, extent: int)
    requires
        extent >= 1,
    ensures
        scroll_offset(scroll_offset(offset, cursor, extent), cursor, extent) == scroll_offset(
            offset,
            cursor,
            extent,
        ),
{
}

/// A window that already shows the cursor does not move.
pub proof fn lemma_scroll_keeps_view(offset: int, cursor: int, extent: int)
    requires
        in_view(offset, cursor, extent),
    ensures
        scroll_offset(offset, cursor, extent) == offset,
{
}

/// Scrolling never moves the window further than needed: the new offset lies
/// between the old one and the cursor.
pub proof fn lemma_scroll_is_minimal(offset: int, cursor: int, extent: int)
    requires
        extent >= 1,
    ensures
        offset <= cursor ==> offset <= scroll_offset(offset, cursor, extent) <= cursor,
        cursor <= offset ==> scroll_offset(offset, cursor, extent) == cursor,
{
}

/// The part of `line` that a window of `width` columns starting at column
/// `col_offset` shows. A line that ends before the window shows nothing.
pub open spec fn visible_slice(line: Seq<char>, col_offset: int, width: int) -> Seq<char> {
    if line.len() < col_offset || col_offset < 0 || width < 0 {
        Seq::empty()
    } else if line.len() - col_offset > width {
        line.subrange(col_offset, col_offset + width)
    } else {
        line.subrange(col_offset, line.len() as int)
    }
}

/// The visible part is never wider than the window.
pub proof fn lemma_visible_slice_fits(line: Seq<char>, col_offset: int, width: int)
    requires
        0 <= width,
    ensures
        visible_slice(line, col_offset, width).len() <= width,
        forall|i: int|
            0 <= i < visible_slice(line, col_offset, width).len() ==> visible_slice(
                line,
                col_offset,
                width,
            )[i] == line[col_offset + i],
{
}

/// Scrolls one axis.
pub fn scroll_axis(offset: usize, cursor: usize, extent: u16) -> (scrolled: usize)
    requires
        extent >= 1,
    ensures
        scrolled == scroll_offset(offset as int, cursor as int, extent as int),
        in_view(scrolled as int, cursor as int, extent as int),
{
    let pulled = if cursor < offset {
        cursor
    } else {
        offset
    };
    if cursor - pulled >= extent as usize {
        cursor - extent as usize + 1
    } else {
        pulled
    }
}

/// The visible part of `line`.
pub fn visible_part(line: &String, col_offset: usize, width: u16) -> (part: String)
    ensures
        part@ == visible_slice(line@, col_offset as int, width as int),
{
    let len = char_count(line);
    if len < col_offset {
        String::new()
    } else if len - col_offset > width as usize {
        substring(line, col_offset, col_offset + width as usize)
    } else {
        substring(line, col_offset, len)
    }
}

} // verus!
