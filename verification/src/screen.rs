//! The screen: the size of the text area and the drawing commands queued for
//! the terminal.
//!
//! Nothing here touches a terminal. Drawing appends commands to a queue, and
//! [`Screen::flush`] hands the queue to whoever owns the terminal. What each
//! drawing function queues is written down as a sequence of [`Draw`] values.

use crate::text::{char_count, decimal, decimal_string, substring};
use crate::viewport::{in_view, visible_part, visible_slice};
use crate::Position;
use vstd::prelude::*;
use vstd::string::StringExecFns;

verus! {

/// How a piece of text is coloured.
#[derive(Clone, Copy, Debug, PartialEq, Eq, Structural)]
pub enum Style {
    /// The terminal's own colours.
    Plain,
    /// On a white background.
    OnWhite,
    /// Black on a white background.
    BlackOnWhite,
}

/// One instruction for the terminal.
#[derive(Debug, PartialEq, Eq)]
pub enum DrawCommand {
    /// Put the terminal's cursor at this column and row of the screen.
    MoveTo { col: u16, row: u16 },
    /// Write `text` at the terminal's cursor.
    Print { text: String, style: Style },
    /// Erase the whole screen.
    ClearAll,
    /// Erase the line the terminal's cursor is on.
    ClearLine,
}

/// A drawing command as a mathematical value.
#[verifier::ext_equal]
pub enum Draw {
    MoveTo { col: int, row: int },
    Print { text: Seq<char>, style: Style },
    ClearAll,
    ClearLine,
}

impl View for DrawCommand {
    type V = Draw;

    open spec fn view(&self) -> Draw {
        match *self {
            DrawCommand::MoveTo { col, row } => Draw::MoveTo { col: col as int, row: row as int },
            DrawCommand::Print { text, style } => Draw::Print { text: text@, style },
            DrawCommand::ClearAll => Draw::ClearAll,
            DrawCommand::ClearLine => Draw::ClearLine,
        }
    }
}

/// The commands that a queue holds, in order.
pub open spec fn plan_of(queue: Seq<DrawCommand>) -> Seq<Draw> {
    Seq::new(queue.len(), |i: int| queue[i]@)
}

/// The text shown in an empty buffer.
pub open spec fn welcome_text() -> Seq<char> {
    "Kilo editor -- version 0.1.0"@
}

/// The marker of a screen row below the end of the buffer.
pub open spec fn tilde() -> Seq<char> {
    "~"@
}

/// `text` in the terminal's own colours.
pub open spec fn plain(text: Seq<char>) -> Draw {
    Draw::Print { text, style: Style::Plain }
}

/// What is drawn in screen row `row`.
///
/// A row that shows a line of the buffer gets the part of the line that is in
/// the window; where the line ends before the window, nothing is drawn. A row
/// below the last line gets a tilde. In an empty buffer the row a third of the
/// way down carries the welcome text, cut to the width and centred behind a
/// tilde where there is room left.
pub open spec fn row_plan(
    lines: Seq<Seq<char>>,
    row_offset: int,
    col_offset: int,
    width: int,
    height: int,
    row: int,
) -> Seq<Draw> {
    let at_start = Draw::MoveTo { col: 0, row };
    let file_row = row + row_offset;
    if file_row >= lines.len() {
        if lines.len() == 0 && row == height / 3 {
            let text = visible_slice(welcome_text(), 0, width);
            if text.len() < width {
                seq![
                    at_start,
                    plain(tilde()),
                    Draw::MoveTo { col: (width - text.len()) / 2, row },
                    plain(text),
                ]
            } else {
                seq![at_start, plain(text)]
            }
        } else {
            seq![at_start, plain(tilde())]
        }
    } else if lines[file_row].len() < col_offset {
        Seq::empty()
    } else {
        seq![at_start, plain(visible_slice(lines[file_row], col_offset, width))]
    }
}

/// What is drawn in the first `count` screen rows, top row first.
pub open spec fn rows_plan(
    lines: Seq<Seq<char>>,
    row_offset: int,
    col_offset: int,
    width: int,
    height: int,
    count: int,
) -> Seq<Draw>
    decreases count,
{
    if count <= 0 {
        Seq::empty()
    } else {
        rows_plan(lines, row_offset, col_offset, width, height, count - 1) + row_plan(
            lines,
            row_offset,
            col_offset,
            width,
            height,
            count - 1,
        )
    }
}

/// The left part of the status bar: the file's name, a mark where there are
/// unsaved changes, and the number of lines.
pub open spec fn status_text(filename: Seq<char>, dirty: bool, line_count: nat) -> Seq<char> {
    let name = if filename.len() == 0 {
        "[No Name]"@
    } else {
        filename
    };
    let mark = if dirty {
        "(modified) "@
    } else {
        Seq::empty()
    };
    name + " "@ + mark + "- "@ + decimal(line_count) + " lines"@
}

/// The right part of the status bar: the cursor's row, counted from one, and
/// the number of lines.
pub open spec fn position_text(cursor_row: nat, line_count: nat) -> Seq<char> {
    decimal(cursor_row + 1) + "/"@ + decimal(line_count)
}

/// Blank cells on white in screen row `row`, one for each column from `from`
/// up to, not including, `to`.
pub open spec fn fill_plan(from: int, to: int, row: int) -> Seq<Draw>
    decreases to - from,
{
    if from >= to {
        Seq::empty()
    } else {
        fill_plan(from, to - 1, row) + seq![
            Draw::MoveTo { col: to - 1, row },
            Draw::Print { text: " "@, style: Style::OnWhite },
        ]
    }
}

/// The columns left of the position indicator.
pub open spec fn status_room(width: int, cursor_row: nat, line_count: nat) -> int {
    let taken = position_text(cursor_row, line_count).len();
    if taken <= width {
        width - taken
    } else {
        0
    }
}

/// The left part of the status bar as it is shown: whole where it fits left of
/// the position indicator, else cut so that one column stays free.
pub open spec fn status_shown(
    width: int,
    filename: Seq<char>,
    dirty: bool,
    cursor_row: nat,
    line_count: nat,
) -> Seq<char> {
    let room = status_room(width, cursor_row, line_count);
    let full = status_text(filename, dirty, line_count);
    if full.len() > room {
        full.take(if room >= 1 {
            room - 1
        } else {
            0
        })
    } else {
        full
    }
}

/// What is drawn for the status bar, which is the screen row just below the
/// text area: the left part from column zero, the position indicator flush
/// right, and blank cells between the two.
pub open spec fn status_bar_plan(
    width: int,
    height: int,
    filename: Seq<char>,
    dirty: bool,
    cursor_row: nat,
    line_count: nat,
) -> Seq<Draw> {
    let room = status_room(width, cursor_row, line_count);
    let shown = status_shown(width, filename, dirty, cursor_row, line_count);
    seq![
        Draw::MoveTo { col: 0, row: height },
        Draw::Print { text: shown, style: Style::BlackOnWhite },
        Draw::MoveTo { col: room, row: height },
        Draw::Print {
            text: position_text(cursor_row, line_count),
            style: Style::BlackOnWhite,
        },
    ] + fill_plan(shown.len() as int, room, height)
}

/// The number of seconds for which a status message is shown.
pub open spec fn message_lifetime() -> int {
    5
}

/// A message set at `message_time` is still shown at `now`.
pub open spec fn message_visible(message_time: int, now: int) -> bool {
    now - message_time < message_lifetime()
}

/// What is drawn for the message bar, the screen row below the status bar:
/// the row is erased, and the message, cut to the width, is written while it
/// is still to be shown.
pub open spec fn msg_bar_plan(
    width: int,
    height: int,
    message: Seq<char>,
    message_time: int,
    now: int,
) -> Seq<Draw> {
    let at_start = Draw::MoveTo { col: 0, row: height + 1 };
    let erase = seq![at_start, Draw::ClearLine];
    if message_visible(message_time, now) {
        erase + seq![at_start, plain(visible_slice(message, 0, width))]
    } else {
        erase
    }
}

/// A screen as a mathematical value.
#[verifier::ext_equal]
pub struct ScreenView {
    /// The number of columns.
    pub width: int,
    /// The number of rows of the text area.
    pub height: int,
    /// The commands queued and not yet handed out.
    pub plan: Seq<Draw>,
}

impl ScreenView {
    /// The same screen with `more` queued behind what is queued already.
    pub open spec fn queued(self, more: Seq<Draw>) -> ScreenView {
        ScreenView { plan: self.plan + more, ..self }
    }

    /// The text area has at least one cell, and the two bars below it have
    /// row numbers that the terminal can address.
    pub open spec fn wf(self) -> bool {
        &&& 1 <= self.width <= u16::MAX
        &&& 1 <= self.height <= u16::MAX - 2
    }
}

/// The text area of a terminal and the drawing commands queued for it.
pub struct Screen {
    width: u16,
    height: u16,
    queue: Vec<DrawCommand>,
}

impl View for Screen {
    type V = ScreenView;

    closed spec fn view(&self) -> ScreenView {
        ScreenView {
            width: self.width as int,
            height: self.height as int,
            plan: plan_of(self.queue@),
        }
    }
}

impl Screen {
    /// The screen's size is one that the editor can draw on.
    pub open spec fn wf(&self) -> bool {
        self@.wf()
    }

    /// A screen for a terminal of `columns` by `rows` cells. The two lowest
    /// rows are kept for the status bar and the message bar; the rows above
    /// them are the text area. There is no screen for a terminal without
    /// columns or without a row left for text.
    pub fn new(columns: u16, rows: u16) -> (screen: Option<Screen>)
        ensures
            screen is Some <==> columns >= 1 && rows >= 3,
            screen matches Some(s) ==> s.wf() && s@ == (ScreenView {
                width: columns as int,
                height: rows - 2,
                plan: Seq::empty(),
            }),
    {
        if columns >= 1 && rows >= 3 {
            let screen = Screen { width: columns, height: rows - 2, queue: Vec::new() };
            assert(screen@.plan =~= Seq::empty());
            Some(screen)
        } else {
            None
        }
    }

    /// The size of the text area: columns in `x`, rows in `y`.
    pub fn bounds(&self) -> (size: Position)
        ensures
            size.x == self@.width,
            size.y == self@.height,
    {
        Position { x: self.width as usize, y: self.height as usize }
    }

    fn queue(&mut self, command: DrawCommand)
        ensures
            final(self)@ == old(self)@.queued(seq![command@]),
    {
        self.queue.push(command);
        assert(plan_of(self.queue@) =~= plan_of(old(self).queue@) + seq![command@]);
    }

    fn queue_move(&mut self, col: u16, row: u16)
        ensures
            final(self)@ == old(self)@.queued(seq![Draw::MoveTo { col: col as int, row: row as int }]),
    {
        self.queue(DrawCommand::MoveTo { col, row });
    }

    fn queue_print(&mut self, text: String, style: Style)
        ensures
            final(self)@ == old(self)@.queued(seq![Draw::Print { text: text@, style }]),
    {
        self.queue(DrawCommand::Print { text, style });
    }

    /// Queues the erasing of the whole screen.
    pub fn clear(&mut self)
        ensures
            final(self)@ == old(self)@.queued(seq![Draw::ClearAll]),
    {
        self.queue(DrawCommand::ClearAll);
    }

    /// Hands out the queued commands, oldest first, and leaves the queue
    /// empty.
    pub fn flush(&mut self) -> (commands: Vec<DrawCommand>)
        ensures
            plan_of(commands@) == old(self)@.plan,
            final(self)@ == (ScreenView { plan: Seq::empty(), ..old(self)@ }),
    {
        let mut commands: Vec<DrawCommand> = Vec::new();
        std::mem::swap(&mut commands, &mut self.queue);
        assert(plan_of(self.queue@) =~= Seq::empty());
        commands
    }

    /// Queues the placing of the terminal's cursor on the cell that shows the
    /// buffer position `pos`, in a window that starts at the two offsets.
    pub fn move_to(&mut self, pos: &Position, row_offset: usize, col_offset: usize)
        requires
            old(self).wf(),
            in_view(col_offset as int, pos.x as int, old(self)@.width),
            in_view(row_offset as int, pos.y as int, old(self)@.height),
        ensures
            final(self)@ == old(self)@.queued(
                seq![Draw::MoveTo { col: pos.x - col_offset, row: pos.y - row_offset }],
            ),
    {
        self.queue_move((pos.x - col_offset) as u16, (pos.y - row_offset) as u16);
    }

    fn draw_row(&mut self, rows: &[String], row_offset: usize, col_offset: usize, row: u16)
        requires
            old(self).wf(),
            row < old(self)@.height,
        ensures
            final(self)@ == old(self)@.queued(
                row_plan(
                    crate::text::lines_of(rows@),
                    row_offset as int,
                    col_offset as int,
                    old(self)@.width,
                    old(self)@.height,
                    row as int,
                ),
            ),
    {
        let ghost before = self@;
        let ghost lines = crate::text::lines_of(rows@);
        if row_offset >= rows.len() || row as usize >= rows.len() - row_offset {
            if rows.len() == 0 && row == self.height / 3 {
                let text = visible_part(&welcome(), 0, self.width);
                let len = char_count(&text);
                if len < self.width as usize {
                    let padding = (self.width - len as u16) / 2;
                    self.queue_move(0, row);
                    self.queue_print(String::from_str("~"), Style::Plain);
                    self.queue_move(padding, row);
                    self.queue_print(text, Style::Plain);
                } else {
                    self.queue_move(0, row);
                    self.queue_print(text, Style::Plain);
                }
            } else {
                self.queue_move(0, row);
                self.queue_print(String::from_str("~"), Style::Plain);
            }
        } else {
            let line = &rows[row_offset + row as usize];
            assert(line@ == lines[row + row_offset]);
            if char_count(line) >= col_offset {
                let part = visible_part(line, col_offset, self.width);
                self.queue_move(0, row);
                self.queue_print(part, Style::Plain);
            }
        }
        assert(self@ =~= before.queued(
            row_plan(
                lines,
                row_offset as int,
                col_offset as int,
                before.width,
                before.height,
                row as int,
            ),
        ));
    }

    /// Queues the drawing of the text area: for each screen row, top row
    /// first, the part of the buffer that a window starting at the two
    /// offsets shows there.
    pub fn draw_rows(&mut self, rows: &[String], row_offset: usize, col_offset: usize)
        requires
            old(self).wf(),
        ensures
            final(self)@ == old(self)@.queued(
                rows_plan(
                    crate::text::lines_of(rows@),
                    row_offset as int,
                    col_offset as int,
                    old(self)@.width,
                    old(self)@.height,
                    old(self)@.height,
                ),
            ),
    {
        let ghost before = self@;
        let ghost lines = crate::text::lines_of(rows@);
        let mut row: u16 = 0;
        assert(self@ =~= before.queued(Seq::empty()));
        while row < self.height
            invariant
                row <= self.height,
                self.wf(),
                lines == crate::text::lines_of(rows@),
                self@ == before.queued(
                    rows_plan(
                        lines,
                        row_offset as int,
                        col_offset as int,
                        before.width,
                        before.height,
                        row as int,
                    ),
                ),
            decreases self.height - row,
        {
            self.draw_row(rows, row_offset, col_offset, row);
            row += 1;
            assert(self@ =~= before.queued(
                rows_plan(
                    lines,
                    row_offset as int,
                    col_offset as int,
                    before.width,
                    before.height,
                    row as int,
                ),
            ));
        }
    }

    /// Queues the drawing of the status bar.
    pub fn draw_status_bar(
        &mut self,
        rows: &[String],
        filename: &String,
        cursor_row: usize,
        dirty: bool,
    )
        requires
            old(self).wf(),
        ensures
            final(self)@ == old(self)@.queued(
                status_bar_plan(
                    old(self)@.width,
                    old(self)@.height,
                    filename@,
                    dirty,
                    cursor_row as nat,
                    rows@.len(),
                ),
            ),
    {
        let ghost before = self@;
        let status_line = self.height;
        let width = self.width as usize;
        let full = status_string(filename, dirty, rows.len());
        let indicator = position_string(cursor_row, rows.len());
        let taken = char_count(&indicator);
        let room: usize = if taken <= width {
            width - taken
        } else {
            0
        };
        let shown = if char_count(&full) > room {
            substring(&full, 0, if room >= 1 {
                room - 1
            } else {
                0
            })
        } else {
            full
        };
        let shown_len = char_count(&shown);
        self.queue_move(0, status_line);
        self.queue_print(shown, Style::BlackOnWhite);
        self.queue_move(room as u16, status_line);
        self.queue_print(indicator, Style::BlackOnWhite);
        let ghost head = self@.plan;
        let mut col = shown_len;
        assert(self@.plan =~= head + fill_plan(shown_len as int, col as int, status_line as int));
        while col < room
            invariant
                room <= u16::MAX,
                shown_len <= col,
                col <= room || col == shown_len,
                self.wf(),
                self@.width == before.width,
                self@.height == before.height,
                self@.plan == head + fill_plan(shown_len as int, col as int, status_line as int),
            decreases room - col,
        {
            self.queue_move(col as u16, status_line);
            self.queue_print(String::from_str(" "), Style::OnWhite);
            col += 1;
            assert(self@.plan =~= head + fill_plan(
                shown_len as int,
                col as int,
                status_line as int,
            ));
        }
        assert(col == room || col == shown_len);
        assert(fill_plan(shown_len as int, col as int, status_line as int) == fill_plan(
            shown_len as int,
            room as int,
            status_line as int,
        ));
        assert(self@ =~= before.queued(
            status_bar_plan(
                before.width,
                before.height,
                filename@,
                dirty,
                cursor_row as nat,
                rows@.len(),
            ),
        ));
    }

    /// Queues the drawing of the message bar as it is to look at time `now`,
    /// for a message that was set at time `message_time`; both are in seconds.
    pub fn draw_msg_bar(&mut self, message: &String, message_time: u64, now: u64)
        requires
            old(self).wf(),
        ensures
            final(self)@ == old(self)@.queued(
                msg_bar_plan(
                    old(self)@.width,
                    old(self)@.height,
                    message@,
                    message_time as int,
                    now as int,
                ),
            ),
    {
        let ghost before = self@;
        let message_line = self.height + 1;
        self.queue_move(0, message_line);
        self.queue(DrawCommand::ClearLine);
        if now < message_time || now - message_time < 5 {
            let text = visible_part(message, 0, self.width);
            self.queue_move(0, message_line);
            self.queue_print(text, Style::Plain);
        }
        assert(self@ =~= before.queued(
            msg_bar_plan(
                before.width,
                before.height,
                message@,
                message_time as int,
                now as int,
            ),
        ));
    }
}

fn welcome() -> (text: String)
    ensures
        text@ == welcome_text(),
{
    String::from_str("Kilo editor -- version 0.1.0")
}

fn status_string(filename: &String, dirty: bool, line_count: usize) -> (text: String)
    ensures
        text@ == status_text(filename@, dirty, line_count as nat),
{
    let mut text = if char_count(filename) == 0 {
        String::from_str("[No Name]")
    } else {
        filename.clone()
    };
    text.append(" ");
    if dirty {
        text.append("(modified) ");
    }
    text.append("- ");
    text.append(decimal_string(line_count as u128).as_str());
    text.append(" lines");
    assert(text@ =~= status_text(filename@, dirty, line_count as nat));
    text
}

fn position_string(cursor_row: usize, line_count: usize) -> (text: String)
    ensures
        text@ == position_text(cursor_row as nat, line_count as nat),
{
    let mut text = decimal_string(cursor_row as u128 + 1);
    text.append("/");
    text.append(decimal_string(line_count as u128).as_str());
    text
}

} // verus!
