//! The editor: a buffer of lines, a cursor in it, a window onto it, and the
//! handling of keys.
//!
//! The editor never reads a key, a clock or a file itself. Its host hands it
//! each key together with the time, draws what [`Editor::frame`] returns, and
//! writes the file when [`Editor::process_keypress`] asks for it.

use crate::buffer::{
    append_line, clamp_col, delete_in_line, insert_char, remove_line, split_line,
};
use crate::key::{is_edit, Action, EditorError, EditorKey, Key};
use crate::screen::{plan_of, DrawCommand, Screen};
use crate::state::{quit_attempts_at_start, EditorState};
use crate::text::{
    all_lines, char_count, decimal_string, join_lines, join_rows, lemma_split_gives_lines,
    lines_of, push_char, split_lines, split_rows, substring,
};
use crate::viewport::{in_view, scroll_axis};
use crate::Position;
use vstd::prelude::*;
use vstd::string::StringExecFns;

verus! {

/// The editor.
pub struct Editor {
    screen: Screen,
    filename: String,
    cursor: Position,
    rows: Vec<String>,
    row_offset: usize,
    col_offset: usize,
    status_msg: String,
    status_msg_timestamp: u64,
    dirty: u64,
    quit_attempts: u8,
}

impl View for Editor {
    type V = EditorState;

    closed spec fn view(&self) -> EditorState {
        EditorState {
            lines: lines_of(self.rows@),
            cursor_x: self.cursor.x as int,
            cursor_y: self.cursor.y as int,
            row_offset: self.row_offset as int,
            col_offset: self.col_offset as int,
            filename: self.filename@,
            status_msg: self.status_msg@,
            status_msg_timestamp: self.status_msg_timestamp as int,
            dirty: self.dirty as int,
            quit_attempts: self.quit_attempts as int,
            screen: self.screen@,
        }
    }
}

impl Editor {
    /// The cursor is in the buffer and the screen can be drawn on.
    pub open spec fn wf(&self) -> bool {
        self@.wf()
    }

    /// The edit counter can still count one more edit.
    pub open spec fn can_edit(&self) -> bool {
        self@.dirty < u64::MAX
    }

    /// An editor on `screen`. With `file`, a name and the text of the file,
    /// the buffer holds the lines of that text under that name; without, the
    /// buffer is empty and has no name. Either way nothing is unsaved yet.
    pub fn new(file: Option<(String, String)>, screen: Screen) -> (editor: Editor)
        requires
            screen.wf(),
        ensures
            editor.wf(),
            all_lines(editor@.lines),
            editor@ == (EditorState {
                lines: match file {
                    Some(named) => split_lines(named.1@),
                    None => Seq::empty(),
                },
                cursor_x: 0,
                cursor_y: 0,
                row_offset: 0,
                col_offset: 0,
                filename: match file {
                    Some(named) => named.0@,
                    None => Seq::empty(),
                },
                status_msg: Seq::empty(),
                status_msg_timestamp: 0,
                dirty: 0,
                quit_attempts: quit_attempts_at_start(),
                screen: screen@,
            }),
    {
        let ghost given = file;
        let (filename, rows) = match file {
            Some((name, text)) => {
                let rows = split_rows(text.as_str());
                (name, rows)
            },
            None => (String::new(), Vec::new()),
        };
        assert(given is None ==> lines_of(rows@) =~= Seq::empty());
        proof {
            if let Some(named) = given {
                lemma_split_gives_lines(named.1@);
            }
        }
        Editor {
            screen,
            filename,
            cursor: Position { x: 0, y: 0 },
            rows,
            row_offset: 0,
            col_offset: 0,
            status_msg: String::new(),
            status_msg_timestamp: 0,
            dirty: 0,
            quit_attempts: 3,
        }
    }

    /// The buffer as one text, its lines joined by line terminators.
    pub fn rows_to_string(&self) -> (text: String)
        ensures
            text@ == join_lines(self@.lines),
    {
        join_rows(&self.rows)
    }

    /// The cursor.
    pub fn cursor(&self) -> (cursor: Position)
        ensures
            cursor.x == self@.cursor_x,
            cursor.y == self@.cursor_y,
    {
        self.cursor
    }

    /// The lines of the buffer.
    pub fn rows(&self) -> (rows: &Vec<String>)
        ensures
            lines_of(rows@) == self@.lines,
    {
        &self.rows
    }

    /// The name of the file, empty where the buffer has none.
    pub fn filename(&self) -> (name: &String)
        ensures
            name@ == self@.filename,
    {
        &self.filename
    }

    /// The number of edits since the last save.
    pub fn dirty(&self) -> (dirty: u64)
        ensures
            dirty == self@.dirty,
    {
        self.dirty
    }

    /// The number of quit requests that unsaved changes will still hold
    /// back.
    pub fn quit_attempts(&self) -> (attempts: u8)
        ensures
            attempts == self@.quit_attempts,
    {
        self.quit_attempts
    }

    /// The status message.
    pub fn status_msg(&self) -> (message: &String)
        ensures
            message@ == self@.status_msg,
    {
        &self.status_msg
    }

    /// The time at which the status message was set, in seconds.
    pub fn status_msg_timestamp(&self) -> (time: u64)
        ensures
            time == self@.status_msg_timestamp,
    {
        self.status_msg_timestamp
    }

    /// The first row and the first column of the buffer that the window
    /// shows: the row in `y`, the column in `x`.
    pub fn offsets(&self) -> (offsets: Position)
        ensures
            offsets.x == self@.col_offset,
            offsets.y == self@.row_offset,
    {
        Position { x: self.col_offset, y: self.row_offset }
    }

    /// The screen.
    pub fn screen(&self) -> (screen: &Screen)
        ensures
            screen@ == self@.screen,
    {
        &self.screen
    }
}

impl Editor {
    fn set_row(&mut self, row: usize, line: String)
        requires
            row < old(self)@.lines.len(),
        ensures
            final(self)@ == (EditorState {
                lines: old(self)@.lines.update(row as int, line@),
                ..old(self)@
            }),
    {
        self.rows.set(row, line);
        assert(lines_of(self.rows@) =~= lines_of(old(self).rows@).update(row as int, line@));
    }

    fn put_char(&mut self, row: usize, at: usize, c: char) -> (next: usize)
        requires
            row < old(self)@.lines.len(),
        ensures
            final(self)@ == (EditorState {
                lines: insert_char(old(self)@.lines, row as int, at as int, c),
                ..old(self)@
            }),
            next == clamp_col(old(self)@.lines, row as int, at as int) + 1,
    {
        let line = &self.rows[row];
        let len = char_count(line);
        let cut = if at < len {
            at
        } else {
            len
        };
        let mut left = substring(line, 0, cut);
        let right = substring(line, cut, len);
        push_char(&mut left, c);
        let next = char_count(&left);
        left.append(right.as_str());
        assert(left@ =~= old(self)@.lines[row as int].insert(cut as int, c));
        self.set_row(row, left);
        next
    }

    fn cut_char(&mut self, row: usize, at: usize)
        requires
            row < old(self)@.lines.len(),
        ensures
            final(self)@ == (EditorState {
                lines: delete_in_line(old(self)@.lines, row as int, at as int),
                ..old(self)@
            }),
    {
        let line = &self.rows[row];
        let len = char_count(line);
        let cut = if at < len {
            at
        } else {
            len
        };
        if cut > 0 {
            let mut left = substring(line, 0, cut - 1);
            let right = substring(line, cut, len);
            left.append(right.as_str());
            assert(left@ =~= old(self)@.lines[row as int].remove(cut - 1));
            self.set_row(row, left);
        }
    }

    fn merge_rows(&mut self, at: usize)
        requires
            1 <= at < old(self)@.lines.len(),
        ensures
            final(self)@ == (EditorState {
                lines: append_line(old(self)@.lines, at as int),
                ..old(self)@
            }),
    {
        let mut upper = self.rows[at - 1].clone();
        upper.append(self.rows[at].as_str());
        self.set_row(at - 1, upper);
    }

    fn remove_row(&mut self, at: usize)
        requires
            at < old(self)@.lines.len(),
        ensures
            final(self)@ == (EditorState {
                lines: remove_line(old(self)@.lines, at as int),
                ..old(self)@
            }),
    {
        let _ = self.rows.remove(at);
        assert(lines_of(self.rows@) =~= lines_of(old(self).rows@).remove(at as int));
    }

    fn clamp_cursor(&mut self)
        ensures
            final(self)@ == old(self)@.clamped(),
    {
        let count = self.rows.len();
        if count == 0 {
            self.cursor.y = 0;
            self.cursor.x = 0;
        } else {
            if self.cursor.y > count - 1 {
                self.cursor.y = count - 1;
            }
            let len = char_count(&self.rows[self.cursor.y]);
            if self.cursor.x > len {
                self.cursor.x = len;
            }
        }
    }

    /// Inserts `c` into row `row` before column `at`, or at the end of the
    /// row where `at` is past it. A row that the buffer does not have is left
    /// alone.
    pub fn row_insert_char(&mut self, row: usize, at: usize, c: char)
        requires
            old(self).wf(),
            old(self).can_edit(),
        ensures
            final(self).wf(),
            final(self)@ == old(self)@.row_insert_char(row as int, at as int, c),
    {
        if row < self.rows.len() {
            let _ = self.put_char(row, at, c);
            self.dirty += 1;
        }
    }

    /// Removes row `at`. Where that leaves the cursor outside the buffer, the
    /// cursor is brought back in.
    pub fn del_row(&mut self, at: usize)
        requires
            old(self).wf(),
            old(self).can_edit(),
        ensures
            final(self).wf(),
            final(self)@ == old(self)@.del_row(at as int),
    {
        if at < self.rows.len() {
            self.remove_row(at);
            self.dirty += 1;
            self.clamp_cursor();
        }
    }

    /// Cuts row `at - 1` at the cursor's column and makes what follows the
    /// cut the new row `at`; the cursor goes to the start of the next row.
    /// Nothing happens where `at` is zero or more than the number of rows.
    pub fn insert_row(&mut self, at: usize)
        requires
            old(self).wf(),
            old(self).can_edit(),
        ensures
            final(self).wf(),
            final(self)@ == old(self)@.insert_row(at as int),
    {
        if at >= 1 && at <= self.rows.len() {
            let line = &self.rows[at - 1];
            let len = char_count(line);
            let cut = if self.cursor.x < len {
                self.cursor.x
            } else {
                len
            };
            let left = substring(line, 0, cut);
            let right = substring(line, cut, len);
            assert(left@ =~= old(self)@.lines[at - 1].take(cut as int));
            assert(right@ =~= old(self)@.lines[at - 1].skip(cut as int));
            self.set_row(at - 1, left);
            assert(self.rows@.len() == lines_of(self.rows@).len());
            self.rows.insert(at, right);
            assert(lines_of(self.rows@) =~= split_line(
                old(self)@.lines,
                at - 1,
                old(self)@.cursor_x,
            ));
            self.cursor.y += 1;
            self.cursor.x = 0;
            self.dirty += 1;
        }
    }

    /// Writes row `at` once more at the end of the row above it. Nothing
    /// happens where `at` is zero or not a row of the buffer.
    pub fn row_append_string(&mut self, at: usize)
        requires
            old(self).wf(),
            old(self).can_edit(),
        ensures
            final(self).wf(),
            final(self)@ == old(self)@.row_append_string(at as int),
    {
        if at >= 1 && at < self.rows.len() {
            self.merge_rows(at);
            self.dirty += 1;
        }
    }

    /// Types `c` at the cursor and moves the cursor behind it. In an empty
    /// buffer `c` starts the first line.
    pub fn insert_char(&mut self, c: char)
        requires
            old(self).wf(),
            old(self).can_edit(),
        ensures
            final(self).wf(),
            final(self)@ == old(self)@.insert_char(c),
    {
        if self.cursor.y == self.rows.len() {
            self.rows.push(String::new());
            assert(lines_of(self.rows@) =~= old(self)@.lines.push(Seq::empty()));
        }
        let next = self.put_char(self.cursor.y, self.cursor.x, c);
        self.cursor.x = next;
        self.dirty += 1;
        assert(self@.lines =~~= insert_char(
            old(self)@.lines,
            old(self)@.cursor_y,
            old(self)@.cursor_x,
            c,
        ));
    }

    /// Removes the character before column `at` of row `row`, the last one
    /// where `at` is past the end. A row that the buffer does not have is left
    /// alone. Where the cursor is then past the end of its line, it is brought
    /// back.
    pub fn row_del_char(&mut self, row: usize, at: usize)
        requires
            old(self).wf(),
            old(self).can_edit(),
        ensures
            final(self).wf(),
            final(self)@ == old(self)@.row_del_char(row as int, at as int),
    {
        if row < self.rows.len() {
            self.cut_char(row, at);
            self.dirty += 1;
            self.clamp_cursor();
        }
    }

    /// A backspace: removes the character before the cursor, or at the start
    /// of a line joins the line to the one above. At the start of the buffer
    /// and in an empty buffer nothing happens.
    pub fn del_char(&mut self)
        requires
            old(self).wf(),
            old(self).can_edit(),
        ensures
            final(self).wf(),
            final(self)@ == old(self)@.del_char(),
    {
        let x = self.cursor.x;
        let y = self.cursor.y;
        if y >= self.rows.len() || (x == 0 && y == 0) {
            return ;
        }
        if x > 0 {
            self.cut_char(y, x);
            self.cursor.x = x - 1;
        } else {
            let upper_len = char_count(&self.rows[y - 1]);
            self.merge_rows(y);
            self.remove_row(y);
            self.cursor.y = y - 1;
            self.cursor.x = upper_len;
        }
        self.dirty += 1;
    }

    /// Sets the status message and remembers `now`, the time in seconds, as
    /// the time it was set.
    pub fn set_status_msg(&mut self, message: String, now: u64)
        ensures
            final(self)@ == old(self)@.set_status_msg(message@, now as int),
    {
        self.status_msg = message;
        self.status_msg_timestamp = now;
    }

    /// Moves the window so that it shows the cursor.
    pub fn scroll(&mut self)
        requires
            old(self).wf(),
        ensures
            final(self).wf(),
            final(self)@ == old(self)@.scroll(),
            in_view(final(self)@.row_offset, final(self)@.cursor_y, final(self)@.screen.height),
            in_view(final(self)@.col_offset, final(self)@.cursor_x, final(self)@.screen.width),
    {
        let bounds = self.screen.bounds();
        self.row_offset = scroll_axis(self.row_offset, self.cursor.y, bounds.y as u16);
        self.col_offset = scroll_axis(self.col_offset, self.cursor.x, bounds.x as u16);
    }
}

impl Editor {
    /// Sends the cursor one step in the direction of `key`, then brings it
    /// back into the buffer. Left at the start of a line goes to the end of
    /// the line above, right at the end of a line to the start of the line
    /// below; `End` goes as far right as the screen is wide.
    pub fn move_cursor(&mut self, key: EditorKey)
        requires
            old(self).wf(),
        ensures
            final(self).wf(),
            final(self)@ == old(self)@.move_cursor(key),
    {
        let count = self.rows.len();
        let row_len = if count == 0 {
            0
        } else if self.cursor.y >= count {
            char_count(&self.rows[count - 1])
        } else {
            char_count(&self.rows[self.cursor.y])
        };
        match key {
            EditorKey::Up => {
                if self.cursor.y >= 1 {
                    self.cursor.y -= 1;
                }
            },
            EditorKey::Down => {
                if count >= 1 && self.cursor.y < count - 1 {
                    self.cursor.y += 1;
                }
            },
            EditorKey::Left => {
                if self.cursor.x > 0 {
                    self.cursor.x -= 1;
                } else if self.cursor.y > 0 {
                    self.cursor.y -= 1;
                    self.cursor.x = char_count(&self.rows[self.cursor.y]);
                }
            },
            EditorKey::Right => {
                if self.cursor.x < row_len {
                    self.cursor.x += 1;
                } else if count >= 1 && self.cursor.y < count - 1 {
                    self.cursor.y += 1;
                    self.cursor.x = 0;
                }
            },
            EditorKey::Home => {
                self.cursor.x = 0;
            },
            EditorKey::End => {
                self.cursor.x = self.screen.bounds().x;
            },
        }
        assert(self@ == old(self)@.moved(key));
        self.clamp_cursor();
    }

    fn move_cursor_times(&mut self, key: EditorKey, times: u16)
        requires
            old(self).wf(),
        ensures
            final(self).wf(),
            final(self)@ == old(self)@.move_cursor_times(key, times as int),
    {
        let ghost start = self@;
        let mut done: u16 = 0;
        while done < times
            invariant
                done <= times,
                self.wf(),
                self@ == start.move_cursor_times(key, done as int),
            decreases times - done,
        {
            self.move_cursor(key);
            done += 1;
        }
    }

    fn quit_requested(&mut self, now: u64) -> (action: Action)
        requires
            old(self).wf(),
        ensures
            final(self).wf(),
            final(self)@ == old(self)@.quit_requested(now as int).0,
            action == old(self)@.quit_requested(now as int).1,
    {
        if self.dirty == 0 || self.quit_attempts == 0 {
            return Action::Quit;
        }
        let mut message = String::from_str("WARNING!!! File has unsaved changes. Press Ctrl-Q ");
        message.append(decimal_string(self.quit_attempts as u128).as_str());
        message.append(" more times to quit.");
        self.set_status_msg(message, now);
        self.quit_attempts -= 1;
        Action::Continue
    }

    /// Handles one key, or the failure to read one, at time `now` in
    /// seconds, and says what the host has to do next.
    ///
    /// Control with `q` asks to quit: at once where nothing is unsaved or
    /// where three requests have been held back already, else a warning is
    /// shown and the request is held back. Control with `s` asks the host to
    /// save, if the buffer has a file name. Enter cuts the line at the cursor,
    /// Backspace deletes backwards, Delete steps right and then deletes
    /// backwards. The arrows, Home and End move the cursor; PageUp and
    /// PageDown move it up or down as many times as the text area has rows. A
    /// character is typed at the cursor. Any other key does nothing.
    pub fn process_keypress(&mut self, input: Result<Key, EditorError>, now: u64) -> (action:
        Action)
        requires
            old(self).wf(),
            input matches Ok(key) && is_edit(key) ==> old(self).can_edit(),
        ensures
            final(self).wf(),
            final(self)@ == old(self)@.process_keypress(input, now as int).0,
            action == old(self)@.process_keypress(input, now as int).1,
    {
        match input {
            Err(e) => Action::Fail(e),
            Ok(Key::Ctrl(c)) => {
                if c == 'q' {
                    self.quit_requested(now)
                } else if c == 's' && char_count(&self.filename) > 0 {
                    Action::Save
                } else {
                    Action::Continue
                }
            },
            Ok(Key::Enter) => {
                if self.rows.len() > 0 {
                    let below = self.cursor.y + 1;
                    self.insert_row(below);
                }
                Action::Continue
            },
            Ok(Key::Backspace) => {
                self.del_char();
                Action::Continue
            },
            Ok(Key::Delete) => {
                self.move_cursor(EditorKey::Right);
                self.del_char();
                Action::Continue
            },
            Ok(Key::Up) => {
                self.move_cursor(EditorKey::Up);
                Action::Continue
            },
            Ok(Key::Down) => {
                self.move_cursor(EditorKey::Down);
                Action::Continue
            },
            Ok(Key::Left) => {
                self.move_cursor(EditorKey::Left);
                Action::Continue
            },
            Ok(Key::Right) => {
                self.move_cursor(EditorKey::Right);
                Action::Continue
            },
            Ok(Key::PageUp) => {
                let rows = self.screen.bounds().y as u16;
                self.move_cursor_times(EditorKey::Up, rows);
                Action::Continue
            },
            Ok(Key::PageDown) => {
                let rows = self.screen.bounds().y as u16;
                self.move_cursor_times(EditorKey::Down, rows);
                Action::Continue
            },
            Ok(Key::Home) => {
                self.move_cursor(EditorKey::Home);
                Action::Continue
            },
            Ok(Key::End) => {
                self.move_cursor(EditorKey::End);
                Action::Continue
            },
            Ok(Key::Char(c)) => {
                self.insert_char(c);
                Action::Continue
            },
            Ok(Key::Other) => Action::Continue,
        }
    }

    /// Takes note of how the writing of the file went, at time `now` in
    /// seconds. After a write that succeeded nothing is unsaved any more, the
    /// status message names the file and the number of lines written, and
    /// that number is returned. After one that failed the status message says
    /// so, the edit counter stays as it is, and the failure is returned. An
    /// editor without a file name has nothing written: it stays as it is and
    /// returns zero.
    pub fn save(&mut self, written: Result<(), EditorError>, now: u64) -> (result: Result<
        usize,
        EditorError,
    >)
        requires
            old(self).wf(),
        ensures
            final(self).wf(),
            final(self)@ == old(self)@.save(written, now as int).0,
            match result {
                Ok(count) => old(self)@.save(written, now as int).1 == Ok::<nat, EditorError>(
                    count as nat,
                ),
                Err(e) => old(self)@.save(written, now as int).1 == Err::<nat, EditorError>(e),
            },
    {
        if char_count(&self.filename) == 0 {
            return Ok(0);
        }
        match written {
            Ok(_) => {
                let count = self.rows.len();
                let mut message = self.filename.clone();
                message.append(" ");
                message.append(decimal_string(count as u128).as_str());
                message.append("L written");
                self.set_status_msg(message, now);
                self.dirty = 0;
                Ok(count)
            },
            Err(e) => {
                self.set_status_msg(String::from_str("Can't save! I/O error"), now);
                Err(e)
            },
        }
    }

    /// Scrolls the window to the cursor and queues the drawing of the whole
    /// screen as it is to look at time `now`, in seconds: the text area, the
    /// status bar and the message bar.
    pub fn refresh_screen(&mut self, now: u64)
        requires
            old(self).wf(),
        ensures
            final(self).wf(),
            final(self)@ == old(self)@.refresh_screen(now as int),
            in_view(final(self)@.row_offset, final(self)@.cursor_y, final(self)@.screen.height),
            in_view(final(self)@.col_offset, final(self)@.cursor_x, final(self)@.screen.width),
    {
        self.scroll();
        let ghost scrolled = self@;
        self.screen.clear();
        self.screen.draw_rows(self.rows.as_slice(), self.row_offset, self.col_offset);
        self.screen.draw_status_bar(
            self.rows.as_slice(),
            &self.filename,
            self.cursor.y,
            self.dirty > 0,
        );
        self.screen.draw_msg_bar(&self.status_msg, self.status_msg_timestamp, now);
        assert(self.screen@.plan =~= scrolled.screen.plan + scrolled.picture(now as int));
    }

    /// Draws the screen for time `now`, in seconds, places the terminal's
    /// cursor on the editor's cursor, and hands out every command queued, in
    /// the order in which the terminal is to carry them out.
    pub fn frame(&mut self, now: u64) -> (commands: Vec<DrawCommand>)
        requires
            old(self).wf(),
        ensures
            final(self).wf(),
            final(self)@ == old(self)@.frame(now as int).0,
            plan_of(commands@) == old(self)@.frame(now as int).1,
    {
        self.refresh_screen(now);
        self.screen.move_to(&self.cursor, self.row_offset, self.col_offset);
        self.screen.flush()
    }
}

} // verus!
