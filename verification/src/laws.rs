//! What holds of the editor whatever is typed: the cursor stays in the
//! buffer, the window follows the cursor, the edit counter counts edits, and
//! quitting with unsaved changes takes as many requests as were promised.

use crate::buffer::{lemma_edits_keep_lines, lemma_split_then_delete, line_len};
use crate::key::{quit_char, Action, EditorError, EditorKey, Key};
use crate::state::{quit_warning, EditorState};
use crate::text::{
    all_lines, join_lines, lemma_join_split, lemma_split_join, split_lines, terminator,
};
use crate::viewport::in_view;
use vstd::prelude::*;

verus! {

/// One key with the time at which it was pressed.
pub struct Press {
    pub input: Result<Key, EditorError>,
    pub now: int,
}

/// The state after all of `presses`, first to last.
pub open spec fn after_presses(state: EditorState, presses: Seq<Press>) -> EditorState
    decreases presses.len(),
{
    if presses.len() == 0 {
        state
    } else {
        after_presses(state, presses.drop_last()).process_keypress(
            presses.last().input,
            presses.last().now,
        ).0
    }
}

/// The state after `count` requests to quit at time `now`.
pub open spec fn after_quit_requests(state: EditorState, count: int, now: int) -> EditorState
    decreases count,
{
    if count <= 0 {
        state
    } else {
        after_quit_requests(state, count - 1, now).process_keypress(
            Ok(Key::Ctrl(quit_char())),
            now,
        ).0
    }
}

/// Bringing the cursor back into the buffer puts it on a line and not past
/// the end of that line, wherever it was.
pub proof fn lemma_clamped_cursor_is_in_buffer(state: EditorState)
    ensures
        state.clamped().cursor_ok(),
        state.cursor_ok() ==> state.clamped() == state,
{
}

/// Every move of the cursor leaves it in the buffer, from any state.
pub proof fn lemma_move_keeps_cursor_in_buffer(state: EditorState, key: EditorKey, times: int)
    requires
        state.wf(),
    ensures
        state.move_cursor(key).wf(),
        state.move_cursor_times(key, times).wf(),
    decreases times,
{
    if times > 0 {
        lemma_move_keeps_cursor_in_buffer(state, key, times - 1);
        lemma_clamped_cursor_is_in_buffer(state.move_cursor_times(key, times - 1).moved(key));
    }
}

/// Every edit leaves the cursor in the buffer.
pub proof fn lemma_edit_keeps_cursor_in_buffer(state: EditorState, row: int, at: int, c: char)
    requires
        state.wf(),
    ensures
        state.row_insert_char(row, at, c).wf(),
        state.del_row(row).wf(),
        state.insert_row(row).wf(),
        state.row_append_string(row).wf(),
        state.insert_char(c).wf(),
        state.row_del_char(row, at).wf(),
        state.del_char().wf(),
{
}

/// After any key the cursor is on a line of the buffer, or on row zero of an
/// empty buffer, and not past the end of its line.
pub proof fn lemma_key_keeps_cursor_in_buffer(
    state: EditorState,
    input: Result<Key, EditorError>,
    now: int,
)
    requires
        state.wf(),
        0 <= now,
    ensures
        state.process_keypress(input, now).0.wf(),
{
    lemma_move_keeps_cursor_in_buffer(state, EditorKey::Up, state.screen.height);
    lemma_move_keeps_cursor_in_buffer(state, EditorKey::Down, state.screen.height);
    lemma_move_keeps_cursor_in_buffer(state, EditorKey::Right, 0);
    lemma_edit_keeps_cursor_in_buffer(state.move_cursor(EditorKey::Right), 0, 0, ' ');
    lemma_edit_keeps_cursor_in_buffer(state, state.cursor_y + 1, 0, ' ');
}

/// After any sequence of keys the cursor is in the buffer: its row is below
/// the number of lines, or zero in an empty buffer, and its column is at most
/// the length of its line.
pub proof fn lemma_keys_keep_cursor_in_buffer(state: EditorState, presses: Seq<Press>)
    requires
        state.wf(),
        forall|i: int| 0 <= i < presses.len() ==> 0 <= (#[trigger] presses[i]).now,
    ensures
        after_presses(state, presses).wf(),
        0 <= after_presses(state, presses).cursor_y,
        after_presses(state, presses).cursor_y < after_presses(state, presses).lines.len()
            || after_presses(state, presses).cursor_y == 0,
        0 <= after_presses(state, presses).cursor_x <= line_len(
            after_presses(state, presses).lines,
            after_presses(state, presses).cursor_y,
        ),
    decreases presses.len(),
{
    if presses.len() > 0 {
        let before = presses.drop_last();
        assert forall|i: int| 0 <= i < before.len() implies 0 <= (#[trigger] before[i]).now by {
            assert(before[i] == presses[i]);
        }
        lemma_keys_keep_cursor_in_buffer(state, before);
        lemma_key_keeps_cursor_in_buffer(
            after_presses(state, before),
            presses.last().input,
            presses.last().now,
        );
    }
}

/// After scrolling the window shows the cursor, on both axes, whatever the
/// offsets were before; and scrolling once more changes nothing.
pub proof fn lemma_scroll_shows_cursor(state: EditorState)
    requires
        state.wf(),
    ensures
        in_view(state.scroll().row_offset, state.cursor_y, state.screen.height),
        in_view(state.scroll().col_offset, state.cursor_x, state.screen.width),
        state.scroll().scroll() == state.scroll(),
        state.scroll().wf(),
{
}

/// Every drawing of the screen starts by scrolling, so what is drawn always
/// shows the cursor, and the terminal's cursor lands inside the text area.
pub proof fn lemma_frame_shows_cursor(state: EditorState, now: int)
    requires
        state.wf(),
    ensures
        ({
            let drawn = state.frame(now).0;
            &&& in_view(drawn.row_offset, drawn.cursor_y, drawn.screen.height)
            &&& in_view(drawn.col_offset, drawn.cursor_x, drawn.screen.width)
            &&& drawn.cursor_x == state.cursor_x
            &&& drawn.cursor_y == state.cursor_y
            &&& drawn.lines == state.lines
            &&& state.frame(now).1.last() == drawn.cursor_on_screen()
        }),
{
}

/// Moving the cursor changes neither the lines nor the edit counter.
pub proof fn lemma_move_leaves_buffer(state: EditorState, key: EditorKey, times: int)
    ensures
        state.move_cursor(key).lines == state.lines,
        state.move_cursor(key).dirty == state.dirty,
        state.move_cursor_times(key, times).lines == state.lines,
        state.move_cursor_times(key, times).dirty == state.dirty,
    decreases times,
{
    if times > 0 {
        lemma_move_leaves_buffer(state, key, times - 1);
    }
}

/// No key puts a line terminator into a line, but the typing of a
/// terminator itself: a buffer whose lines hold none keeps such lines.
pub proof fn lemma_key_keeps_lines(state: EditorState, input: Result<Key, EditorError>, now: int)
    requires
        all_lines(state.lines),
        input != Ok::<Key, EditorError>(Key::Char(terminator())),
    ensures
        all_lines(state.process_keypress(input, now).0.lines),
{
    lemma_move_leaves_buffer(state, EditorKey::Up, state.screen.height);
    lemma_move_leaves_buffer(state, EditorKey::Down, state.screen.height);
    lemma_move_leaves_buffer(state, EditorKey::Right, 0);
    let right = state.move_cursor(EditorKey::Right);
    lemma_edits_keep_lines(state.lines, state.cursor_y, state.cursor_x, ' ');
    lemma_edits_keep_lines(right.lines, right.cursor_y, right.cursor_x, ' ');
    match input {
        Ok(Key::Char(c)) => {
            lemma_edits_keep_lines(state.lines, state.cursor_y, state.cursor_x, c);
        },
        _ => {},
    }
}

/// Enter and then Backspace give the lines and the cursor back, wherever in
/// the buffer the cursor stands; the two edits are counted.
pub proof fn lemma_enter_then_backspace(state: EditorState, now: int)
    requires
        state.wf(),
        state.lines.len() > 0,
    ensures
        ({
            let split = state.process_keypress(Ok(Key::Enter), now).0;
            let joined = split.process_keypress(Ok(Key::Backspace), now).0;
            &&& split.lines.len() == state.lines.len() + 1
            &&& split.cursor_x == 0
            &&& split.cursor_y == state.cursor_y + 1
            &&& joined.lines == state.lines
            &&& joined.cursor_x == state.cursor_x
            &&& joined.cursor_y == state.cursor_y
            &&& joined.dirty == state.dirty + 2
        }),
{
    lemma_split_then_delete(state.lines, state.cursor_y, state.cursor_x);
}

/// A buffer loaded from a text writes that same text; and a buffer written
/// and loaded again holds the same lines, provided it has a line and no line
/// holds a terminator.
pub proof fn lemma_save_then_load(text: Seq<char>, lines: Seq<Seq<char>>)
    ensures
        join_lines(split_lines(text)) == text,
        lines.len() >= 1 && all_lines(lines) ==> split_lines(join_lines(lines)) == lines,
{
    lemma_join_split(text);
    if lines.len() >= 1 && all_lines(lines) {
        lemma_split_join(lines);
    }
}

/// Typing a character counts as one edit; a save that succeeded leaves
/// nothing unsaved, however many edits were counted; a save that failed
/// leaves the count as it was.
pub proof fn lemma_dirty_counts_edits(state: EditorState, c: char, e: EditorError, now: int)
    ensures
        state.insert_char(c).dirty == state.dirty + 1,
        state.process_keypress(Ok(Key::Char(c)), now).0.dirty == state.dirty + 1,
        state.filename.len() > 0 ==> state.save(Ok(()), now).0.dirty == 0,
        state.save(Err(e), now).0.dirty == state.dirty,
        state.save(Err(e), now).0.lines == state.lines,
{
}

/// With unsaved changes, each request to quit is held back while some are
/// left to hold back: the editor goes on, warns with the number that was
/// left, and has one fewer left. The request after the last one held back
/// quits, though the changes are still unsaved.
pub proof fn lemma_quit_takes_all_attempts(state: EditorState, count: int, now: int)
    requires
        state.wf(),
        state.dirty > 0,
        0 <= count <= state.quit_attempts,
    ensures
        ({
            let reached = after_quit_requests(state, count, now);
            let next = reached.process_keypress(Ok(Key::Ctrl(quit_char())), now);
            &&& reached.quit_attempts == state.quit_attempts - count
            &&& reached.dirty == state.dirty
            &&& reached.lines == state.lines
            &&& count < state.quit_attempts ==> {
                &&& next.1 == Action::Continue
                &&& next.0.quit_attempts == reached.quit_attempts - 1
                &&& next.0.status_msg == quit_warning(reached.quit_attempts as nat)
            }
            &&& count == state.quit_attempts ==> next.1 == Action::Quit && next.0 == reached
        }),
    decreases count,
{
    if count > 0 {
        lemma_quit_takes_all_attempts(state, count - 1, now);
    }
}

/// Without unsaved changes the first request to quit quits.
pub proof fn lemma_clean_buffer_quits(state: EditorState, now: int)
    requires
        state.dirty == 0,
    ensures
        state.process_keypress(Ok(Key::Ctrl(quit_char())), now).1 == Action::Quit,
        state.process_keypress(Ok(Key::Ctrl(quit_char())), now).0 == state,
{
}

} // verus!
