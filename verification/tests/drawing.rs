use kilo_rust::editor::Editor;
use kilo_rust::key::{EditorKey, Key};
use kilo_rust::screen::{DrawCommand, Screen, Style};
use kilo_rust::text::{char_count, decimal_string, join_rows, split_rows, substring};
use kilo_rust::viewport::{scroll_axis, visible_part};
use kilo_rust::Position;

fn drawing_move(col: u16, row: u16) -> DrawCommand {
    DrawCommand::MoveTo { col, row }
}

fn drawing_plain(text: &str) -> DrawCommand {
    DrawCommand::Print { text: text.to_string(), style: Style::Plain }
}

fn drawing_styled(text: &str, style: Style) -> DrawCommand {
    DrawCommand::Print { text: text.to_string(), style }
}

fn drawing_rows(lines: &[&str]) -> Vec<String> {
    lines.iter().map(|line| line.to_string()).collect()
}

#[test]
fn screen_keeps_two_rows_for_the_bars() {
    let screen = Screen::new(80, 24).unwrap();
    assert_eq!(screen.bounds(), Position { x: 80, y: 22 });
}

#[test]
fn screen_needs_a_column_and_a_text_row() {
    assert!(Screen::new(0, 24).is_none());
    assert!(Screen::new(80, 0).is_none());
    assert!(Screen::new(80, 2).is_none());
    assert!(Screen::new(1, 3).is_some());
    assert_eq!(Screen::new(65535, 65535).unwrap().bounds(), Position { x: 65535, y: 65533 });
}

#[test]
fn clear_and_flush_queue_and_hand_out_commands() {
    let mut screen = Screen::new(80, 24).unwrap();
    assert!(screen.flush().is_empty());
    screen.clear();
    screen.clear();
    assert_eq!(screen.flush(), vec![DrawCommand::ClearAll, DrawCommand::ClearAll]);
    assert!(screen.flush().is_empty());
    assert_eq!(screen.bounds(), Position { x: 80, y: 22 });
}

#[test]
fn move_to_subtracts_offsets() {
    let mut screen = Screen::new(80, 24).unwrap();
    screen.move_to(&Position { x: 12, y: 30 }, 20, 10);
    assert_eq!(screen.flush(), vec![drawing_move(2, 10)]);
}

#[test]
fn scroll_axis_pulls_window_to_cursor() {
    assert_eq!(scroll_axis(0, 0, 10), 0);
    assert_eq!(scroll_axis(0, 9, 10), 0);
    assert_eq!(scroll_axis(0, 10, 10), 1);
    assert_eq!(scroll_axis(5, 3, 10), 3);
    assert_eq!(scroll_axis(5, 40, 10), 31);
    assert_eq!(scroll_axis(7, 7, 1), 7);
    assert_eq!(scroll_axis(7, 8, 1), 8);
    assert_eq!(scroll_axis(31, 40, 10), 31);
}

#[test]
fn scroll_shows_cursor_and_is_idempotent() {
    let text = (0..50).map(|i| "x".repeat(i)).collect::<Vec<_>>().join("\n");
    let mut editor =
        Editor::new(Some(("f".to_string(), text)), Screen::new(10, 7).unwrap());
    for _ in 0..49 {
        editor.move_cursor(EditorKey::Down);
    }
    editor.move_cursor(EditorKey::End);
    editor.move_cursor(EditorKey::Right);
    editor.move_cursor(EditorKey::Left);
    for _ in 0..30 {
        editor.move_cursor(EditorKey::Right);
    }
    assert_eq!(editor.cursor(), Position { x: 40, y: 49 });
    editor.scroll();
    assert_eq!(editor.offsets(), Position { x: 31, y: 45 });
    editor.scroll();
    assert_eq!(editor.offsets(), Position { x: 31, y: 45 });
    for _ in 0..10 {
        editor.move_cursor(EditorKey::Up);
    }
    editor.scroll();
    let cursor = editor.cursor();
    let offsets = editor.offsets();
    assert_eq!(offsets, Position { x: 31, y: 39 });
    assert!(offsets.y <= cursor.y && cursor.y < offsets.y + 5);
    assert!(offsets.x <= cursor.x && cursor.x < offsets.x + 10);
}

#[test]
fn visible_part_cuts_line_to_window() {
    let line = "abcdefghij".to_string();
    assert_eq!(visible_part(&line, 0, 4), "abcd");
    assert_eq!(visible_part(&line, 3, 4), "defg");
    assert_eq!(visible_part(&line, 8, 4), "ij");
    assert_eq!(visible_part(&line, 10, 4), "");
    assert_eq!(visible_part(&line, 11, 4), "");
    assert_eq!(visible_part(&line, 0, 0), "");
}

#[test]
fn draw_rows_shows_lines_and_tildes() {
    let mut screen = Screen::new(4, 5).unwrap();
    let rows = drawing_rows(&["abcdef", "g"]);
    screen.draw_rows(&rows, 0, 0);
    assert_eq!(
        screen.flush(),
        vec![
            drawing_move(0, 0),
            drawing_plain("abcd"),
            drawing_move(0, 1),
            drawing_plain("g"),
            drawing_move(0, 2),
            drawing_plain("~"),
        ]
    );
}

#[test]
fn draw_rows_honours_offsets_and_skips_lines_left_of_window() {
    let mut screen = Screen::new(3, 5).unwrap();
    let rows = drawing_rows(&["zero", "abcdef", "g", "hi"]);
    screen.draw_rows(&rows, 1, 2);
    assert_eq!(
        screen.flush(),
        vec![
            drawing_move(0, 0),
            drawing_plain("cde"),
            drawing_move(0, 2),
            drawing_plain(""),
        ]
    );
}

#[test]
fn draw_rows_below_scrolled_buffer_shows_tildes() {
    let mut screen = Screen::new(3, 5).unwrap();
    let rows = drawing_rows(&["a", "b", "c", "d"]);
    screen.draw_rows(&rows, 2, 0);
    assert_eq!(
        screen.flush(),
        vec![
            drawing_move(0, 0),
            drawing_plain("c"),
            drawing_move(0, 1),
            drawing_plain("d"),
            drawing_move(0, 2),
            drawing_plain("~"),
        ]
    );
}

#[test]
fn draw_rows_of_empty_buffer_shows_centred_welcome() {
    let mut screen = Screen::new(40, 8).unwrap();
    screen.draw_rows(&[], 0, 0);
    let mut expected = Vec::new();
    for row in 0..6u16 {
        expected.push(drawing_move(0, row));
        expected.push(drawing_plain("~"));
        if row == 2 {
            expected.push(drawing_move(6, row));
            expected.push(drawing_plain("Kilo editor -- version 0.1.0"));
        }
    }
    assert_eq!(screen.flush(), expected);
}

#[test]
fn draw_rows_cuts_welcome_on_narrow_screen() {
    let mut screen = Screen::new(4, 3).unwrap();
    screen.draw_rows(&[], 0, 0);
    assert_eq!(screen.flush(), vec![drawing_move(0, 0), drawing_plain("Kilo")]);
}

#[test]
fn draw_status_bar_shows_name_lines_and_position() {
    let mut screen = Screen::new(30, 10).unwrap();
    let rows = drawing_rows(&["a", "b", "c"]);
    screen.draw_status_bar(&rows, &"notes.txt".to_string(), 1, false);
    let mut expected = vec![
        drawing_move(0, 8),
        drawing_styled("notes.txt - 3 lines", Style::BlackOnWhite),
        drawing_move(27, 8),
        drawing_styled("2/3", Style::BlackOnWhite),
    ];
    for col in 19..27u16 {
        expected.push(drawing_move(col, 8));
        expected.push(drawing_styled(" ", Style::OnWhite));
    }
    assert_eq!(screen.flush(), expected);
}

#[test]
fn draw_status_bar_marks_unsaved_and_unnamed() {
    let mut screen = Screen::new(40, 10).unwrap();
    screen.draw_status_bar(&[], &String::new(), 0, true);
    let commands = screen.flush();
    assert_eq!(commands[1], drawing_styled("[No Name] (modified) - 0 lines", Style::BlackOnWhite));
    assert_eq!(commands[2], drawing_move(37, 8));
    assert_eq!(commands[3], drawing_styled("1/0", Style::BlackOnWhite));
    assert_eq!(commands.len(), 4 + 2 * 7);
}

#[test]
fn draw_status_bar_cuts_text_that_does_not_fit() {
    let mut screen = Screen::new(12, 10).unwrap();
    let rows = drawing_rows(&["a"]);
    screen.draw_status_bar(&rows, &"notes.txt".to_string(), 0, false);
    assert_eq!(
        screen.flush(),
        vec![
            drawing_move(0, 8),
            drawing_styled("notes.tx", Style::BlackOnWhite),
            drawing_move(9, 8),
            drawing_styled("1/1", Style::BlackOnWhite),
            drawing_move(8, 8),
            drawing_styled(" ", Style::OnWhite),
        ]
    );
}

#[test]
fn draw_status_bar_on_screen_narrower_than_position() {
    let mut screen = Screen::new(2, 10).unwrap();
    screen.draw_status_bar(&[], &"n".to_string(), 0, false);
    assert_eq!(
        screen.flush(),
        vec![
            drawing_move(0, 8),
            drawing_styled("", Style::BlackOnWhite),
            drawing_move(0, 8),
            drawing_styled("1/0", Style::BlackOnWhite),
        ]
    );
}

#[test]
fn draw_msg_bar_shows_message_for_five_seconds() {
    let mut screen = Screen::new(5, 10).unwrap();
    let message = "saved it".to_string();
    screen.draw_msg_bar(&message, 100, 104);
    assert_eq!(
        screen.flush(),
        vec![
            drawing_move(0, 9),
            DrawCommand::ClearLine,
            drawing_move(0, 9),
            drawing_plain("saved"),
        ]
    );
    screen.draw_msg_bar(&message, 100, 105);
    assert_eq!(screen.flush(), vec![drawing_move(0, 9), DrawCommand::ClearLine]);
    screen.draw_msg_bar(&message, 100, 99);
    assert_eq!(screen.flush().len(), 4);
}

#[test]
fn frame_hands_out_whole_picture_then_cursor() {
    let mut editor =
        Editor::new(Some(("n".to_string(), "ab".to_string())), Screen::new(20, 4).unwrap());
    editor.set_status_msg("hello".to_string(), 10);
    let mut expected = vec![
        DrawCommand::ClearAll,
        drawing_move(0, 0),
        drawing_plain("ab"),
        drawing_move(0, 1),
        drawing_plain("~"),
        drawing_move(0, 2),
        drawing_styled("n - 1 lines", Style::BlackOnWhite),
        drawing_move(17, 2),
        drawing_styled("1/1", Style::BlackOnWhite),
    ];
    for col in 11..17u16 {
        expected.push(drawing_move(col, 2));
        expected.push(drawing_styled(" ", Style::OnWhite));
    }
    expected.push(drawing_move(0, 3));
    expected.push(DrawCommand::ClearLine);
    expected.push(drawing_move(0, 3));
    expected.push(drawing_plain("hello"));
    expected.push(drawing_move(0, 0));
    assert_eq!(editor.frame(12), expected);
    assert!(editor.screen().bounds() == Position { x: 20, y: 2 });
}

#[test]
fn refresh_screen_queues_until_next_frame() {
    let mut editor =
        Editor::new(Some(("n".to_string(), "ab".to_string())), Screen::new(20, 4).unwrap());
    let once = editor.frame(100).len();
    editor.refresh_screen(100);
    assert_eq!(editor.frame(100).len(), 2 * once - 1);
    assert_eq!(editor.frame(100).len(), once);
}

#[test]
fn message_expires_after_five_seconds_in_frame() {
    let mut editor =
        Editor::new(Some(("n".to_string(), "ab".to_string())), Screen::new(20, 4).unwrap());
    editor.set_status_msg("hello".to_string(), 10);
    let shown = editor.frame(14);
    let gone = editor.frame(15);
    assert!(shown.contains(&drawing_plain("hello")));
    assert!(!gone.contains(&drawing_plain("hello")));
    assert_eq!(shown.len(), gone.len() + 2);
}

#[test]
fn frame_draws_then_places_cursor() {
    let mut editor =
        Editor::new(Some(("n".to_string(), "abcdef\nxy".to_string())), Screen::new(4, 3).unwrap());
    editor.process_keypress(Ok(Key::End), 0);
    editor.process_keypress(Ok(Key::Right), 0);
    editor.process_keypress(Ok(Key::Right), 0);
    assert_eq!(editor.cursor(), Position { x: 6, y: 0 });
    editor.process_keypress(Ok(Key::Down), 0);
    assert_eq!(editor.cursor(), Position { x: 2, y: 1 });
    let commands = editor.frame(100);
    assert_eq!(editor.offsets(), Position { x: 0, y: 1 });
    assert_eq!(commands[0], DrawCommand::ClearAll);
    assert_eq!(commands[1], drawing_move(0, 0));
    assert_eq!(commands[2], drawing_plain("xy"));
    assert_eq!(commands[commands.len() - 1], drawing_move(2, 0));
    assert!(editor.screen().bounds() == Position { x: 4, y: 1 });
    assert!(editor.frame(100).len() == commands.len());
}

#[test]
fn decimal_string_writes_numbers() {
    assert_eq!(decimal_string(0), "0");
    assert_eq!(decimal_string(7), "7");
    assert_eq!(decimal_string(10), "10");
    assert_eq!(decimal_string(1234567890), "1234567890");
    assert_eq!(decimal_string(u128::MAX), u128::MAX.to_string());
}

#[test]
fn split_rows_and_join_rows_are_inverse() {
    assert_eq!(split_rows(""), vec![""]);
    assert_eq!(split_rows("\n"), vec!["", ""]);
    assert_eq!(split_rows("a\n\nb"), vec!["a", "", "b"]);
    assert_eq!(split_rows("a\r\nb"), vec!["a\r", "b"]);
    assert_eq!(join_rows(&drawing_rows(&["a", "", "b"])), "a\n\nb");
    assert_eq!(join_rows(&drawing_rows(&[""])), "");
    assert_eq!(join_rows(&Vec::new()), "");
    for text in ["", "x", "x\ny", "\n\n", "été\nhiver\n"] {
        assert_eq!(join_rows(&split_rows(text)), text);
    }
}

#[test]
fn string_helpers_count_and_cut_by_character() {
    let s = "héllo".to_string();
    assert_eq!(char_count(&s), 5);
    assert_eq!(substring(&s, 1, 3), "él");
    assert_eq!(substring(&s, 2, 2), "");
    assert_eq!(substring(&s, 0, 5), "héllo");
}
