//! The line buffer as a mathematical object: a sequence of lines, each a
//! sequence of characters, and the edits that the editor makes on it.
//!
//! Every edit is defined for every row and column. A column past the end of
//! its line counts as the end of the line; a row that the buffer does not have
//! leaves the buffer as it is.

use crate::text::{all_lines, is_line, terminator};
use vstd::prelude::*;

verus! {

/// The length of line `row`; a row outside the buffer counts as an empty line.
pub open spec fn line_len(lines: Seq<Seq<char>>, row: int) -> int {
    if 0 <= row < lines.len() {
        lines[row].len() as int
    } else {
        0
    }
}

/// `col` brought into `0 ..= line_len(lines, row)`.
pub open spec fn clamp_col(lines: Seq<Seq<char>>, row: int, col: int) -> int {
    if col < 0 {
        0
    } else if col > line_len(lines, row) {
        line_len(lines, row)
    } else {
        col
    }
}

/// `ch` inserted into line `row` before column `col`. With `row` one past the
/// last line, `ch` starts a new last line.
pub open spec fn insert_char(lines: Seq<Seq<char>>, row: int, col: int, ch: char) -> Seq<
    Seq<char>,
> {
    if 0 <= row < lines.len() {
        lines.update(row, lines[row].insert(clamp_col(lines, row, col), ch))
    } else if row == lines.len() {
        lines.push(seq![ch])
    } else {
        lines
    }
}

/// Line `row` without the character before column `col`; unchanged where no
/// character stands before `col`.
pub open spec fn delete_in_line(lines: Seq<Seq<char>>, row: int, col: int) -> Seq<Seq<char>> {
    if 0 <= row < lines.len() && clamp_col(lines, row, col) > 0 {
        lines.update(row, lines[row].remove(clamp_col(lines, row, col) - 1))
    } else {
        lines
    }
}

/// Line `row` written once more at the end of the line above it.
pub open spec fn append_line(lines: Seq<Seq<char>>, row: int) -> Seq<Seq<char>> {
    if 1 <= row < lines.len() {
        lines.update(row - 1, lines[row - 1] + lines[row])
    } else {
        lines
    }
}

/// The buffer without line `row`.
pub open spec fn remove_line(lines: Seq<Seq<char>>, row: int) -> Seq<Seq<char>> {
    if 0 <= row < lines.len() {
        lines.remove(row)
    } else {
        lines
    }
}

/// Line `row` moved to the end of the line above it.
pub open spec fn join_line(lines: Seq<Seq<char>>, row: int) -> Seq<Seq<char>> {
    remove_line(append_line(lines, row), row)
}

/// What a backspace at `(row, col)` leaves: nothing changes at the start of
/// the buffer or outside it; after a column the character before it goes; at
/// the start of a later line that line joins the one above.
pub open spec fn delete_char_before(lines: Seq<Seq<char>>, row: int, col: int) -> Seq<Seq<char>> {
    if row < 0 || row >= lines.len() {
        lines
    } else if col > 0 {
        delete_in_line(lines, row, col)
    } else if row > 0 {
        join_line(lines, row)
    } else {
        lines
    }
}

/// Line `row` cut before column `col`: what stands before the cut stays in
/// row `row`, the rest becomes a new line below it.
pub open spec fn split_line(lines: Seq<Seq<char>>, row: int, col: int) -> Seq<Seq<char>> {
    if 0 <= row < lines.len() {
        let cut = clamp_col(lines, row, col);
        lines.update(row, lines[row].take(cut)).insert(row + 1, lines[row].skip(cut))
    } else {
        lines
    }
}

/// Splitting a line and then deleting backwards from the start of the new
/// line gives the buffer back, wherever the cut was made.
pub proof fn lemma_split_then_delete(lines: Seq<Seq<char>>, row: int, col: int)
    requires
        0 <= row < lines.len(),
    ensures
        delete_char_before(split_line(lines, row, col), row + 1, 0) == lines,
        line_len(split_line(lines, row, col), row) == clamp_col(lines, row, col),
{
    let cut = clamp_col(lines, row, col);
    let split = split_line(lines, row, col);
    assert(split[row] == lines[row].take(cut));
    assert(split[row + 1] == lines[row].skip(cut));
    assert(lines[row].take(cut) + lines[row].skip(cut) =~= lines[row]);
    assert(join_line(split, row + 1) =~= lines);
}

/// Inserting a character makes the buffer one character longer in its row, or
/// one line longer past the end.
pub proof fn lemma_insert_char_shape(lines: Seq<Seq<char>>, row: int, col: int, ch: char)
    requires
        0 <= row <= lines.len(),
    ensures
        row < lines.len() ==> insert_char(lines, row, col, ch).len() == lines.len(),
        row == lines.len() ==> insert_char(lines, row, col, ch).len() == lines.len() + 1,
        line_len(insert_char(lines, row, col, ch), row) == line_len(lines, row) + 1,
        insert_char(lines, row, col, ch)[row][clamp_col(lines, row, col)] == ch,
{
}

/// Edits keep every line free of terminators; an insertion does so unless the
/// character inserted is itself a terminator.
pub proof fn lemma_edits_keep_lines(lines: Seq<Seq<char>>, row: int, col: int, ch: char)
    requires
        all_lines(lines),
    ensures
        ch != terminator() ==> all_lines(insert_char(lines, row, col, ch)),
        all_lines(delete_in_line(lines, row, col)),
        all_lines(append_line(lines, row)),
        all_lines(remove_line(lines, row)),
        all_lines(join_line(lines, row)),
        all_lines(delete_char_before(lines, row, col)),
        all_lines(split_line(lines, row, col)),
{
    if 0 <= row < lines.len() {
        assert(is_line(lines[row]));
    }
    if ch != terminator() {
        let after = insert_char(lines, row, col, ch);
        assert forall|i: int| 0 <= i < after.len() implies is_line(#[trigger] after[i]) by {
            if i != row {
                assert(after[i] == lines[i]);
            }
        }
    }
    let deleted = delete_in_line(lines, row, col);
    assert forall|i: int| 0 <= i < deleted.len() implies is_line(#[trigger] deleted[i]) by {
        if i != row {
            assert(deleted[i] == lines[i]);
        }
    }
    let appended = append_line(lines, row);
    assert forall|i: int| 0 <= i < appended.len() implies is_line(#[trigger] appended[i]) by {
        if 1 <= row < lines.len() && i == row - 1 {
            assert(is_line(lines[row - 1]));
            assert(is_line(lines[row]));
        } else {
            assert(appended[i] == lines[i]);
        }
    }
    let removed = remove_line(lines, row);
    assert forall|i: int| 0 <= i < removed.len() implies is_line(#[trigger] removed[i]) by {
        if 0 <= row < lines.len() && i >= row {
            assert(removed[i] == lines[i + 1]);
        } else {
            assert(removed[i] == lines[i]);
        }
    }
    let joined = join_line(lines, row);
    assert forall|i: int| 0 <= i < joined.len() implies is_line(#[trigger] joined[i]) by {
        if 0 <= row < appended.len() && i >= row {
            assert(joined[i] == appended[i + 1]);
        } else {
            assert(joined[i] == appended[i]);
        }
    }
    let split = split_line(lines, row, col);
    assert forall|i: int| 0 <= i < split.len() implies is_line(#[trigger] split[i]) by {
        if 0 <= row < lines.len() {
            if i < row {
                assert(split[i] == lines[i]);
            } else if i > row + 1 {
                assert(split[i] == lines[i - 1]);
            }
        }
    }
}

} // verus!
