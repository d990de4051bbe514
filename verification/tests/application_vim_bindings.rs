use rvim::application::vim_bindings::{VimBindings, VimCommand};
use rvim::domain::cursor::CursorPosition;
use rvim::domain::editor_mode::EditorMode;
use rvim::domain::text_buffer::TextBuffer;
use rvim::vim::keymap::Key;

#[test]
fn test_vim_bindings_new() {
    let bindings = VimBindings::new();
    assert_eq!(bindings.current_mode(), &EditorMode::Normal);
}

#[test]
fn test_normal_mode_movement_keys() {
    let mut bindings = VimBindings::new();

    assert_eq!(bindings.parse_key(Key::char('h')), VimCommand::MoveLeft);
    assert_eq!(bindings.parse_key(Key::char('j')), VimCommand::MoveDown);
    assert_eq!(bindings.parse_key(Key::char('k')), VimCommand::MoveUp);
    assert_eq!(bindings.parse_key(Key::char('l')), VimCommand::MoveRight);
}

#[test]
fn test_normal_to_insert_mode_transition() {
    let mut bindings = VimBindings::new();

    let command = bindings.parse_key(Key::char('i'));

    assert_eq!(command, VimCommand::EnterInsertMode);
    assert_eq!(bindings.current_mode(), &EditorMode::Insert);
}

#[test]
fn test_insert_mode_character_input() {
    let mut bindings = VimBindings::new();

    bindings.parse_key(Key::char('i'));

    let command = bindings.parse_key(Key::char('a'));

    assert_eq!(command, VimCommand::InsertChar('a'));
}

#[test]
fn test_insert_to_normal_mode_transition() {
    let mut bindings = VimBindings::new();

    bindings.parse_key(Key::char('i'));

    let command = bindings.parse_key(Key::escape());

    assert_eq!(command, VimCommand::ExitToNormal);
    assert_eq!(bindings.current_mode(), &EditorMode::Normal);
}

#[test]
fn test_execute_movement_commands() {
    let bindings = VimBindings::new();
    let mut cursor = CursorPosition::new(0, 2);
    let mut buffer = TextBuffer::from_content("Hello\nWorld\nTest");

    bindings
        .execute_command(VimCommand::MoveLeft, &mut cursor, &mut buffer)
        .unwrap();
    assert_eq!(cursor.col, 1);

    bindings
        .execute_command(VimCommand::MoveRight, &mut cursor, &mut buffer)
        .unwrap();
    assert_eq!(cursor.col, 2);
}

#[test]
fn test_execute_insert_char() {
    let bindings = VimBindings::new();
    let mut cursor = CursorPosition::new(0, 0);
    let mut buffer = TextBuffer::new();

    bindings
        .execute_command(VimCommand::InsertChar('H'), &mut cursor, &mut buffer)
        .unwrap();
    bindings
        .execute_command(VimCommand::InsertChar('i'), &mut cursor, &mut buffer)
        .unwrap();

    assert_eq!(buffer.get_line(0), Some(&"Hi".to_string()));
    assert_eq!(cursor.col, 2);
}

#[test]
fn test_execute_delete_char() {
    let bindings = VimBindings::new();
    let mut cursor = CursorPosition::new(0, 1);
    let mut buffer = TextBuffer::from_content("Hello");

    bindings
        .execute_command(VimCommand::DeleteChar, &mut cursor, &mut buffer)
        .unwrap();

    assert_eq!(buffer.get_line(0), Some(&"Hllo".to_string()));
}

#[test]
fn test_execute_undo_redo() {
    let bindings = VimBindings::new();
    let mut cursor = CursorPosition::new(0, 0);
    let mut buffer = TextBuffer::new();

    bindings
        .execute_command(VimCommand::InsertChar('X'), &mut cursor, &mut buffer)
        .unwrap();
    assert_eq!(buffer.get_line(0), Some(&"X".to_string()));

    bindings
        .execute_command(VimCommand::Undo, &mut cursor, &mut buffer)
        .unwrap();
    assert_eq!(buffer.get_line(0), Some(&"".to_string()));

    bindings
        .execute_command(VimCommand::Redo, &mut cursor, &mut buffer)
        .unwrap();
    assert_eq!(buffer.get_line(0), Some(&"X".to_string()));
}

#[test]
fn test_default_implementation() {
    let _bindings = VimBindings::default();
}

// An empty buffer and a backspace at the origin: nothing happens, because
// row zero has no previous line.
#[test]
fn backspace_at_origin_is_a_no_op() {
    let bindings = VimBindings::new();
    let mut cursor = CursorPosition::new(0, 0);
    let mut buffer = TextBuffer::new();

    let result = bindings.execute_command(VimCommand::Backspace, &mut cursor, &mut buffer);
    assert!(result.is_ok());
    assert_eq!(buffer.line_count(), 1);
    assert_eq!(buffer.get_line(0), Some(&String::new()));
    assert_eq!(cursor, CursorPosition::new(0, 0));
    assert!(!buffer.is_modified());
}

// Backspace at column zero merges the line with the one above, rebuilt
// character by character.
#[test]
fn backspace_merges_with_previous_line() {
    let bindings = VimBindings::new();
    let mut cursor = CursorPosition::new(1, 0);
    let mut buffer = TextBuffer::from_content("He\nllo");

    bindings
        .execute_command(VimCommand::Backspace, &mut cursor, &mut buffer)
        .unwrap();
    assert_eq!(buffer.line_count(), 1);
    assert_eq!(buffer.get_line(0), Some(&"Hello".to_string()));
    assert_eq!(cursor.row, 0);
    assert_eq!(cursor.col, 5);
}

// A line break typed in insert mode opens a new line under the cursor.
#[test]
fn newline_character_opens_a_line() {
    let bindings = VimBindings::new();
    let mut cursor = CursorPosition::new(0, 2);
    let mut buffer = TextBuffer::from_content("Hello");

    bindings
        .execute_command(VimCommand::InsertChar('\n'), &mut cursor, &mut buffer)
        .unwrap();
    assert_eq!(buffer.line_count(), 2);
    assert_eq!(buffer.get_line(1), Some(&String::new()));
    assert_eq!(cursor.row, 1);
    assert_eq!(cursor.col, 0);
}
