//! What the keyboard can tell the editor, and what the editor asks of its
//! host in return.

use vstd::prelude::*;

verus! {

/// One key press, already decoded.
#[derive(Clone, Copy, Debug, PartialEq, Eq, Structural)]
pub enum Key {
    /// A character typed on its own, or with any modifier but a lone Control.
    Char(char),
    /// A character typed with Control held, and no other modifier.
    Ctrl(char),
    Enter,
    Backspace,
    Delete,
    Up,
    Down,
    Left,
    Right,
    PageUp,
    PageDown,
    Home,
    End,
    /// Any key that the editor has no use for.
    Other,
}

/// A direction in which the cursor can be sent.
#[derive(Clone, Copy, Debug, PartialEq, Eq, Structural)]
pub enum EditorKey {
    Up,
    Left,
    Down,
    Right,
    Home,
    End,
}

/// What can go wrong around the editor.
#[derive(Clone, Copy, Debug, PartialEq, Eq, Structural)]
pub enum EditorError {
    /// The keyboard could not be read.
    KeyReadFail,
    /// The file could not be written.
    IoFail,
}

/// What the host has to do after a key was handled.
#[derive(Clone, Copy, Debug, PartialEq, Eq, Structural)]
pub enum Action {
    /// Draw, and read the next key.
    Continue,
    /// Leave the editor.
    Quit,
    /// Write the buffer's text to the file, then report how that went.
    Save,
    /// Give the terminal back, report the error and end with a failure.
    Fail(EditorError),
}

/// The keys that change the buffer.
pub open spec fn is_edit(key: Key) -> bool {
    key is Char || key is Enter || key is Backspace || key is Delete
}

/// The character that, pressed with Control, asks to quit.
pub open spec fn quit_char() -> char {
    'q'
}

/// The character that, pressed with Control, asks to save.
pub open spec fn save_char() -> char {
    's'
}

} // verus!
