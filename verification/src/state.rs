//! The editor as a mathematical value, and every step it can take as a
//! function from one such value to the next.

use crate::buffer::{
    append_line, delete_char_before, delete_in_line, insert_char, line_len, remove_line,
    split_line,
};
use crate::key::{quit_char, save_char, Action, EditorError, EditorKey, Key};
use crate::screen::{msg_bar_plan, rows_plan, status_bar_plan, Draw, ScreenView};
use crate::text::decimal;
use crate::viewport::scroll_offset;
use vstd::prelude::*;

verus! {

/// The warning shown when quitting is asked for while changes are unsaved
/// and `attempts` more requests are needed.
pub open spec fn quit_warning(attempts: nat) -> Seq<char> {
    "WARNING!!! File has unsaved changes. Press Ctrl-Q "@ + decimal(attempts)
        + " more times to quit."@
}

/// The message shown after `line_count` lines were written to `filename`.
pub open spec fn saved_message(filename: Seq<char>, line_count: nat) -> Seq<char> {
    filename + " "@ + decimal(line_count) + "L written"@
}

/// The message shown after the file could not be written.
pub open spec fn save_failed_message() -> Seq<char> {
    "Can't save! I/O error"@
}

/// The number of quit requests that unsaved changes hold back.
pub open spec fn quit_attempts_at_start() -> int {
    3
}

/// Everything the editor knows.
#[verifier::ext_equal]
pub struct EditorState {
    pub lines: Seq<Seq<char>>,
    pub cursor_x: int,
    pub cursor_y: int,
    pub row_offset: int,
    pub col_offset: int,
    pub filename: Seq<char>,
    pub status_msg: Seq<char>,
    pub status_msg_timestamp: int,
    /// The number of edits since the buffer was last saved.
    pub dirty: int,
    /// The number of quit requests that will still be held back.
    pub quit_attempts: int,
    pub screen: ScreenView,
}

impl EditorState {
    /// The cursor is on a line of the buffer, or on row zero of an empty
    /// buffer, and not past the end of its line.
    pub open spec fn cursor_ok(self) -> bool {
        &&& 0 <= self.cursor_y
        &&& self.cursor_y < self.lines.len() || self.cursor_y == 0
        &&& 0 <= self.cursor_x <= line_len(self.lines, self.cursor_y)
    }

    pub open spec fn wf(self) -> bool {
        &&& self.cursor_ok()
        &&& self.screen.wf()
        &&& 0 <= self.row_offset
        &&& 0 <= self.col_offset
        &&& 0 <= self.status_msg_timestamp
        &&& 0 <= self.dirty
        &&& 0 <= self.quit_attempts
    }

    /// The state with the cursor brought back into the buffer: first onto the
    /// last line where it is below it, then onto the end of its line where it
    /// is past it. An empty buffer counts as one empty line.
    pub open spec fn clamped(self) -> EditorState {
        let y = if self.lines.len() == 0 || self.cursor_y < 0 {
            0
        } else if self.cursor_y > self.lines.len() - 1 {
            self.lines.len() - 1
        } else {
            self.cursor_y
        };
        let len = line_len(self.lines, y);
        let x = if self.cursor_x < 0 {
            0
        } else if self.cursor_x > len {
            len
        } else {
            self.cursor_x
        };
        EditorState { cursor_x: x, cursor_y: y, ..self }
    }

    pub open spec fn row_insert_char(self, row: int, at: int, c: char) -> EditorState {
        if 0 <= row < self.lines.len() {
            EditorState {
                lines: insert_char(self.lines, row, at, c),
                dirty: self.dirty + 1,
                ..self
            }
        } else {
            self
        }
    }

    pub open spec fn del_row(self, at: int) -> EditorState {
        if 0 <= at < self.lines.len() {
            (EditorState {
                lines: remove_line(self.lines, at),
                dirty: self.dirty + 1,
                ..self
            }).clamped()
        } else {
            self
        }
    }

    /// Line `at - 1` is cut at the cursor's column; what follows the cut
    /// becomes line `at`, and the cursor goes to the start of the next row.
    pub open spec fn insert_row(self, at: int) -> EditorState {
        if 1 <= at <= self.lines.len() {
            EditorState {
                lines: split_line(self.lines, at - 1, self.cursor_x),
                cursor_x: 0,
                cursor_y: self.cursor_y + 1,
                dirty: self.dirty + 1,
                ..self
            }
        } else {
            self
        }
    }

    pub open spec fn row_append_string(self, at: int) -> EditorState {
        if 1 <= at < self.lines.len() {
            EditorState {
                lines: append_line(self.lines, at),
                dirty: self.dirty + 1,
                ..self
            }
        } else {
            self
        }
    }

    pub open spec fn insert_char(self, c: char) -> EditorState {
        EditorState {
            lines: insert_char(self.lines, self.cursor_y, self.cursor_x, c),
            cursor_x: self.cursor_x + 1,
            dirty: self.dirty + 1,
            ..self
        }
    }

    pub open spec fn row_del_char(self, row: int, at: int) -> EditorState {
        if 0 <= row < self.lines.len() {
            (EditorState {
                lines: delete_in_line(self.lines, row, at),
                dirty: self.dirty + 1,
                ..self
            }).clamped()
        } else {
            self
        }
    }

    /// A backspace at the cursor. After a join the cursor stands where the
    /// upper line used to end.
    pub open spec fn del_char(self) -> EditorState {
        let x = self.cursor_x;
        let y = self.cursor_y;
        if y >= self.lines.len() || (x == 0 && y == 0) {
            self
        } else if x > 0 {
            EditorState {
                lines: delete_char_before(self.lines, y, x),
                cursor_x: x - 1,
                dirty: self.dirty + 1,
                ..self
            }
        } else {
            EditorState {
                lines: delete_char_before(self.lines, y, x),
                cursor_x: line_len(self.lines, y - 1),
                cursor_y: y - 1,
                dirty: self.dirty + 1,
                ..self
            }
        }
    }

    pub open spec fn set_status_msg(self, message: Seq<char>, now: int) -> EditorState {
        EditorState { status_msg: message, status_msg_timestamp: now, ..self }
    }

    pub open spec fn scroll(self) -> EditorState {
        EditorState {
            row_offset: scroll_offset(self.row_offset, self.cursor_y, self.screen.height),
            col_offset: scroll_offset(self.col_offset, self.cursor_x, self.screen.width),
            ..self
        }
    }

    /// The length of the cursor's line; below the buffer, that of the last
    /// line.
    pub open spec fn row_len(self) -> int {
        if self.lines.len() == 0 {
            0
        } else if self.cursor_y >= self.lines.len() {
            line_len(self.lines, self.lines.len() - 1)
        } else {
            line_len(self.lines, self.cursor_y)
        }
    }

    /// Where `key` sends the cursor before it is brought back into the
    /// buffer.
    pub open spec fn moved(self, key: EditorKey) -> EditorState {
        let x = self.cursor_x;
        let y = self.cursor_y;
        match key {
            EditorKey::Up => EditorState {
                cursor_y: if y >= 1 {
                    y - 1
                } else {
                    0
                },
                ..self
            },
            EditorKey::Down => if y < self.lines.len() - 1 {
                EditorState { cursor_y: y + 1, ..self }
            } else {
                self
            },
            EditorKey::Left => if x > 0 {
                EditorState { cursor_x: x - 1, ..self }
            } else if y > 0 {
                EditorState { cursor_x: line_len(self.lines, y - 1), cursor_y: y - 1, ..self }
            } else {
                self
            },
            EditorKey::Right => if x < self.row_len() {
                EditorState { cursor_x: x + 1, ..self }
            } else if y < self.lines.len() - 1 {
                EditorState { cursor_x: 0, cursor_y: y + 1, ..self }
            } else {
                self
            },
            EditorKey::Home => EditorState { cursor_x: 0, ..self },
            EditorKey::End => EditorState { cursor_x: self.screen.width, ..self },
        }
    }

    pub open spec fn move_cursor(self, key: EditorKey) -> EditorState {
        self.moved(key).clamped()
    }

    /// `key` applied `times` times.
    pub open spec fn move_cursor_times(self, key: EditorKey, times: int) -> EditorState
        decreases times,
    {
        if times <= 0 {
            self
        } else {
            self.move_cursor_times(key, times - 1).move_cursor(key)
        }
    }

    /// A request to quit. A clean buffer quits at once, and so does one whose
    /// held-back requests are used up; else a warning is set and one request
    /// fewer will be held back.
    pub open spec fn quit_requested(self, now: int) -> (EditorState, Action) {
        if self.dirty == 0 || self.quit_attempts == 0 {
            (self, Action::Quit)
        } else {
            (
                EditorState {
                    quit_attempts: self.quit_attempts - 1,
                    ..self.set_status_msg(quit_warning(self.quit_attempts as nat), now)
                },
                Action::Continue,
            )
        }
    }

    /// What a key does. A key that could not be read changes nothing and
    /// fails; so that the host can give the terminal back.
    pub open spec fn process_keypress(self, input: Result<Key, EditorError>, now: int) -> (
        EditorState,
        Action,
    ) {
        match input {
            Err(e) => (self, Action::Fail(e)),
            Ok(Key::Ctrl(c)) => if c == quit_char() {
                self.quit_requested(now)
            } else if c == save_char() && self.filename.len() > 0 {
                (self, Action::Save)
            } else {
                (self, Action::Continue)
            },
            Ok(Key::Enter) => (self.insert_row(self.cursor_y + 1), Action::Continue),
            Ok(Key::Backspace) => (self.del_char(), Action::Continue),
            Ok(Key::Delete) => (self.move_cursor(EditorKey::Right).del_char(), Action::Continue),
            Ok(Key::Up) => (self.move_cursor(EditorKey::Up), Action::Continue),
            Ok(Key::Down) => (self.move_cursor(EditorKey::Down), Action::Continue),
            Ok(Key::Left) => (self.move_cursor(EditorKey::Left), Action::Continue),
            Ok(Key::Right) => (self.move_cursor(EditorKey::Right), Action::Continue),
            Ok(Key::PageUp) => (
                self.move_cursor_times(EditorKey::Up, self.screen.height),
                Action::Continue,
            ),
            Ok(Key::PageDown) => (
                self.move_cursor_times(EditorKey::Down, self.screen.height),
                Action::Continue,
            ),
            Ok(Key::Home) => (self.move_cursor(EditorKey::Home), Action::Continue),
            Ok(Key::End) => (self.move_cursor(EditorKey::End), Action::Continue),
            Ok(Key::Char(c)) => (self.insert_char(c), Action::Continue),
            Ok(Key::Other) => (self, Action::Continue),
        }
    }

    /// The state after the host has tried to write the file. Without a file
    /// name there was nothing to write and nothing changes.
    pub open spec fn save(self, written: Result<(), EditorError>, now: int) -> (
        EditorState,
        Result<nat, EditorError>,
    ) {
        if self.filename.len() == 0 {
            (self, Ok(0nat))
        } else {
            match written {
                Ok(_) => (
                    EditorState {
                        dirty: 0,
                        ..self.set_status_msg(saved_message(self.filename, self.lines.len()), now)
                    },
                    Ok(self.lines.len()),
                ),
                Err(e) => (self.set_status_msg(save_failed_message(), now), Err(e)),
            }
        }
    }

    /// What one drawing of the whole screen queues, for a window that has
    /// been scrolled already.
    pub open spec fn picture(self, now: int) -> Seq<Draw> {
        seq![Draw::ClearAll] + rows_plan(
            self.lines,
            self.row_offset,
            self.col_offset,
            self.screen.width,
            self.screen.height,
            self.screen.height,
        ) + status_bar_plan(
            self.screen.width,
            self.screen.height,
            self.filename,
            self.dirty > 0,
            self.cursor_y as nat,
            self.lines.len(),
        ) + msg_bar_plan(
            self.screen.width,
            self.screen.height,
            self.status_msg,
            self.status_msg_timestamp,
            now,
        )
    }

    /// Where the terminal's cursor goes on the screen.
    pub open spec fn cursor_on_screen(self) -> Draw {
        Draw::MoveTo {
            col: self.cursor_x - self.col_offset,
            row: self.cursor_y - self.row_offset,
        }
    }

    pub open spec fn refresh_screen(self, now: int) -> EditorState {
        let scrolled = self.scroll();
        EditorState { screen: scrolled.screen.queued(scrolled.picture(now)), ..scrolled }
    }

    /// One turn of the host's loop before it reads a key: the screen is
    /// drawn, the terminal's cursor is placed, and all that was queued is
    /// handed out.
    pub open spec fn frame(self, now: int) -> (EditorState, Seq<Draw>) {
        let drawn = self.refresh_screen(now);
        (
            EditorState { screen: ScreenView { plan: Seq::empty(), ..drawn.screen }, ..drawn },
            drawn.screen.plan + seq![drawn.cursor_on_screen()],
        )
    }
}

} // verus!
