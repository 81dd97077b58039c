use kilo_rust::editor::Editor;
use kilo_rust::key::{Action, EditorError, EditorKey, Key};
use kilo_rust::screen::Screen;
use kilo_rust::Position;

fn keys_editor(text: &str, columns: u16, rows: u16) -> Editor {
    Editor::new(
        Some(("notes.txt".to_string(), text.to_string())),
        Screen::new(columns, rows).unwrap(),
    )
}

fn keys_press(editor: &mut Editor, key: Key) -> Action {
    editor.process_keypress(Ok(key), 100)
}

#[test]
fn quit_on_clean_buffer_quits_at_once() {
    let mut editor = keys_editor("ab", 80, 24);
    assert_eq!(keys_press(&mut editor, Key::Ctrl('q')), Action::Quit);
    assert_eq!(editor.quit_attempts(), 3);
    assert_eq!(editor.status_msg(), "");
}

#[test]
fn quit_confirmation_sequence() {
    let mut editor = keys_editor("ab", 80, 24);
    editor.insert_char('x');
    assert_eq!(editor.dirty(), 1);
    assert_eq!(editor.quit_attempts(), 3);

    assert_eq!(keys_press(&mut editor, Key::Ctrl('q')), Action::Continue);
    assert_eq!(editor.quit_attempts(), 2);
    assert_eq!(
        editor.status_msg(),
        "WARNING!!! File has unsaved changes. Press Ctrl-Q 3 more times to quit."
    );
    assert_eq!(editor.status_msg_timestamp(), 100);

    assert_eq!(keys_press(&mut editor, Key::Ctrl('q')), Action::Continue);
    assert_eq!(editor.quit_attempts(), 1);
    assert!(editor.status_msg().contains("2 more times"));

    assert_eq!(keys_press(&mut editor, Key::Ctrl('q')), Action::Continue);
    assert_eq!(editor.quit_attempts(), 0);
    assert!(editor.status_msg().contains("1 more times"));

    assert_eq!(keys_press(&mut editor, Key::Ctrl('q')), Action::Quit);
    assert_eq!(editor.dirty(), 1);
    assert_eq!(editor.quit_attempts(), 0);
}

#[test]
fn other_keys_do_not_reset_quit_counter() {
    let mut editor = keys_editor("ab", 80, 24);
    editor.insert_char('x');
    keys_press(&mut editor, Key::Ctrl('q'));
    keys_press(&mut editor, Key::Char('y'));
    keys_press(&mut editor, Key::Left);
    assert_eq!(editor.quit_attempts(), 2);
    assert_eq!(keys_press(&mut editor, Key::Ctrl('q')), Action::Continue);
    assert_eq!(editor.quit_attempts(), 1);
}

#[test]
fn quit_after_save_quits_at_once() {
    let mut editor = keys_editor("ab", 80, 24);
    editor.insert_char('x');
    keys_press(&mut editor, Key::Ctrl('q'));
    assert_eq!(editor.save(Ok(()), 100), Ok(1));
    assert_eq!(keys_press(&mut editor, Key::Ctrl('q')), Action::Quit);
}

#[test]
fn key_read_failure_fails_and_changes_nothing() {
    let mut editor = keys_editor("ab", 80, 24);
    assert_eq!(
        editor.process_keypress(Err(EditorError::KeyReadFail), 5),
        Action::Fail(EditorError::KeyReadFail)
    );
    assert_eq!(editor.rows().clone(), vec!["ab"]);
    assert_eq!(editor.dirty(), 0);
    assert_eq!(editor.cursor(), Position { x: 0, y: 0 });
}

#[test]
fn unknown_keys_are_ignored() {
    let mut editor = keys_editor("ab", 80, 24);
    assert_eq!(keys_press(&mut editor, Key::Other), Action::Continue);
    assert_eq!(keys_press(&mut editor, Key::Ctrl('a')), Action::Continue);
    assert_eq!(editor.rows().clone(), vec!["ab"]);
    assert_eq!(editor.dirty(), 0);
    assert_eq!(editor.cursor(), Position { x: 0, y: 0 });
}

#[test]
fn plain_q_and_s_are_typed() {
    let mut editor = keys_editor("", 80, 24);
    assert_eq!(keys_press(&mut editor, Key::Char('q')), Action::Continue);
    assert_eq!(keys_press(&mut editor, Key::Char('s')), Action::Continue);
    assert_eq!(editor.rows().clone(), vec!["qs"]);
}

#[test]
fn up_stops_at_first_row() {
    let mut editor = keys_editor("a\nb", 80, 24);
    editor.move_cursor(EditorKey::Up);
    assert_eq!(editor.cursor(), Position { x: 0, y: 0 });
    editor.move_cursor(EditorKey::Down);
    editor.move_cursor(EditorKey::Up);
    assert_eq!(editor.cursor(), Position { x: 0, y: 0 });
}

#[test]
fn down_stops_at_last_row() {
    let mut editor = keys_editor("a\nb", 80, 24);
    editor.move_cursor(EditorKey::Down);
    assert_eq!(editor.cursor(), Position { x: 0, y: 1 });
    editor.move_cursor(EditorKey::Down);
    assert_eq!(editor.cursor(), Position { x: 0, y: 1 });
}

#[test]
fn left_at_line_start_wraps_to_end_of_line_above() {
    let mut editor = keys_editor("abc\nd", 80, 24);
    editor.move_cursor(EditorKey::Down);
    editor.move_cursor(EditorKey::Left);
    assert_eq!(editor.cursor(), Position { x: 3, y: 0 });
    editor.move_cursor(EditorKey::Left);
    assert_eq!(editor.cursor(), Position { x: 2, y: 0 });
}

#[test]
fn left_at_start_of_buffer_stays() {
    let mut editor = keys_editor("abc", 80, 24);
    editor.move_cursor(EditorKey::Left);
    assert_eq!(editor.cursor(), Position { x: 0, y: 0 });
}

#[test]
fn right_at_line_end_wraps_to_start_of_line_below() {
    let mut editor = keys_editor("a\nbc", 80, 24);
    editor.move_cursor(EditorKey::Right);
    assert_eq!(editor.cursor(), Position { x: 1, y: 0 });
    editor.move_cursor(EditorKey::Right);
    assert_eq!(editor.cursor(), Position { x: 0, y: 1 });
}

#[test]
fn right_at_end_of_buffer_stays() {
    let mut editor = keys_editor("a", 80, 24);
    editor.move_cursor(EditorKey::Right);
    editor.move_cursor(EditorKey::Right);
    assert_eq!(editor.cursor(), Position { x: 1, y: 0 });
}

#[test]
fn moving_to_shorter_line_clamps_column() {
    let mut editor = keys_editor("abcdef\nab", 80, 24);
    editor.move_cursor(EditorKey::End);
    assert_eq!(editor.cursor(), Position { x: 6, y: 0 });
    editor.move_cursor(EditorKey::Down);
    assert_eq!(editor.cursor(), Position { x: 2, y: 1 });
}

#[test]
fn home_goes_to_column_zero() {
    let mut editor = keys_editor("abc", 80, 24);
    editor.move_cursor(EditorKey::End);
    editor.move_cursor(EditorKey::Home);
    assert_eq!(editor.cursor(), Position { x: 0, y: 0 });
}

#[test]
fn end_goes_no_further_than_screen_width() {
    let mut editor = keys_editor("abcdefghij", 4, 24);
    editor.move_cursor(EditorKey::End);
    assert_eq!(editor.cursor(), Position { x: 4, y: 0 });
}

#[test]
fn moves_in_empty_buffer_stay_at_origin() {
    let mut editor = Editor::new(None, Screen::new(80, 24).unwrap());
    for key in [
        EditorKey::Up,
        EditorKey::Down,
        EditorKey::Left,
        EditorKey::Right,
        EditorKey::Home,
        EditorKey::End,
    ] {
        editor.move_cursor(key);
        assert_eq!(editor.cursor(), Position { x: 0, y: 0 });
    }
    assert_eq!(editor.process_keypress(Ok(Key::PageDown), 0), Action::Continue);
    assert_eq!(editor.cursor(), Position { x: 0, y: 0 });
}

#[test]
fn page_down_and_up_move_by_screen_height() {
    let text = (0..30).map(|i| i.to_string()).collect::<Vec<_>>().join("\n");
    let mut editor = keys_editor(&text, 80, 12);
    assert_eq!(keys_press(&mut editor, Key::PageDown), Action::Continue);
    assert_eq!(editor.cursor(), Position { x: 0, y: 10 });
    keys_press(&mut editor, Key::PageDown);
    keys_press(&mut editor, Key::PageDown);
    assert_eq!(editor.cursor(), Position { x: 0, y: 29 });
    keys_press(&mut editor, Key::PageUp);
    assert_eq!(editor.cursor(), Position { x: 0, y: 19 });
    keys_press(&mut editor, Key::PageUp);
    keys_press(&mut editor, Key::PageUp);
    assert_eq!(editor.cursor(), Position { x: 0, y: 0 });
}

#[test]
fn page_down_clamps_column_on_every_line_passed() {
    let mut editor = keys_editor("abcdef\nab\nabcdef", 80, 4);
    editor.move_cursor(EditorKey::End);
    keys_press(&mut editor, Key::PageDown);
    assert_eq!(editor.cursor(), Position { x: 2, y: 2 });
}

#[test]
fn cursor_stays_in_buffer_after_every_key() {
    let mut editor = keys_editor("ab\n\ncdef", 80, 5);
    let keys = [
        Key::End, Key::Down, Key::Down, Key::End, Key::Up, Key::Backspace, Key::Right,
        Key::Right, Key::Delete, Key::PageDown, Key::Enter, Key::Char('z'), Key::Left,
        Key::Left, Key::Left, Key::PageUp, Key::Backspace, Key::Delete, Key::Delete,
        Key::Delete, Key::Delete, Key::Delete, Key::Delete, Key::Delete, Key::Delete,
        Key::Home, Key::Other, Key::Ctrl('x'),
    ];
    for key in keys {
        keys_press(&mut editor, key);
        let cursor = editor.cursor();
        let rows = editor.rows();
        assert!(cursor.y < rows.len().max(1));
        let len = rows.get(cursor.y).map_or(0, |row| row.chars().count());
        assert!(cursor.x <= len);
    }
}
