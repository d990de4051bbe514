use rvim::editor::buffer::Buffer;
use rvim::editor::cursor::Position;
use rvim::error::EditorError;

#[test]
fn buffer_test_new_buffer() {
    let buffer = Buffer::new();
    assert_eq!(buffer.line_count(), 1);
    assert_eq!(buffer.line(0).unwrap(), "");
    assert!(!buffer.is_modified());
    assert!(buffer.file_path().is_none());
}

#[test]
fn buffer_test_from_content_empty() {
    let buffer = Buffer::from_content("");
    assert_eq!(buffer.line_count(), 1);
    assert_eq!(buffer.line(0).unwrap(), "");
}

#[test]
fn buffer_test_from_content_single_line() {
    let buffer = Buffer::from_content("Hello, world!");
    assert_eq!(buffer.line_count(), 1);
    assert_eq!(buffer.line(0).unwrap(), "Hello, world!");
}

#[test]
fn buffer_test_from_content_multiple_lines() {
    let buffer = Buffer::from_content("Line 1\nLine 2\nLine 3");
    assert_eq!(buffer.line_count(), 3);
    assert_eq!(buffer.line(0).unwrap(), "Line 1");
    assert_eq!(buffer.line(1).unwrap(), "Line 2");
    assert_eq!(buffer.line(2).unwrap(), "Line 3");
}

#[test]
fn buffer_test_with_file_path() {
    let path = String::from("/path/to/file.txt");
    let buffer = Buffer::new().with_file_path(path.clone());
    assert_eq!(buffer.file_path(), Some(&path));
}

#[test]
fn buffer_test_insert_char() {
    let mut buffer = Buffer::from_content("Hello");
    let pos = Position::new(0, 5);

    buffer.insert_char(pos, '!').unwrap();
    assert_eq!(buffer.line(0).unwrap(), "Hello!");
    assert!(buffer.is_modified());
}

#[test]
fn buffer_test_insert_char_middle() {
    let mut buffer = Buffer::from_content("Hello");
    let pos = Position::new(0, 2);

    buffer.insert_char(pos, 'X').unwrap();
    assert_eq!(buffer.line(0).unwrap(), "HeXllo");
}

#[test]
fn buffer_test_insert_char_out_of_bounds() {
    let mut buffer = Buffer::from_content("Hello");
    let pos = Position::new(1, 0);

    let result = buffer.insert_char(pos, 'X');
    assert!(result.is_err());
    assert!(!buffer.is_modified());
}

#[test]
fn buffer_test_delete_char() {
    let mut buffer = Buffer::from_content("Hello");
    let pos = Position::new(0, 1);

    let deleted = buffer.delete_char(pos).unwrap();
    assert_eq!(deleted, Some('e'));
    assert_eq!(buffer.line(0).unwrap(), "Hllo");
    assert!(buffer.is_modified());
}

#[test]
fn buffer_test_delete_char_at_end() {
    let mut buffer = Buffer::from_content("Hello");
    let pos = Position::new(0, 5);

    let deleted = buffer.delete_char(pos).unwrap();
    assert_eq!(deleted, None);
    assert_eq!(buffer.line(0).unwrap(), "Hello");
}

#[test]
fn test_line_length() {
    let buffer = Buffer::from_content("Hello\nWorld!");
    assert_eq!(buffer.line_count(), 2);
    assert_eq!(buffer.line_length(0).unwrap(), 5);
    assert_eq!(buffer.line_length(1).unwrap(), 6);

    let buffer2 = Buffer::from_content("Hello\nWorld!\n");
    assert_eq!(buffer2.line_count(), 2);
    assert_eq!(buffer2.line_length(0).unwrap(), 5);
    assert_eq!(buffer2.line_length(1).unwrap(), 6);

    let buffer3 = Buffer::from_content("Hello\n\nWorld!");
    assert_eq!(buffer3.line_count(), 3);
    assert_eq!(buffer3.line_length(0).unwrap(), 5);
    assert_eq!(buffer3.line_length(1).unwrap(), 0);
    assert_eq!(buffer3.line_length(2).unwrap(), 6);
}

#[test]
fn test_line_length_out_of_bounds() {
    let buffer = Buffer::from_content("Hello");
    let result = buffer.line_length(999);
    assert!(result.is_err());
}

#[test]
fn buffer_test_undo_insert_char() {
    let mut buffer = Buffer::from_content("Hello");
    let pos = Position::new(0, 5);

    buffer.insert_char(pos, '!').unwrap();
    assert_eq!(buffer.line(0).unwrap(), "Hello!");

    buffer.undo().unwrap();
    assert_eq!(buffer.line(0).unwrap(), "Hello");
    assert!(!buffer.is_modified());
}

#[test]
fn buffer_test_undo_delete_char() {
    let mut buffer = Buffer::from_content("Hello");
    let pos = Position::new(0, 1);

    buffer.delete_char(pos).unwrap();
    assert_eq!(buffer.line(0).unwrap(), "Hllo");

    buffer.undo().unwrap();
    assert_eq!(buffer.line(0).unwrap(), "Hello");
    assert!(!buffer.is_modified());
}

#[test]
fn buffer_test_redo_after_undo() {
    let mut buffer = Buffer::from_content("Hello");
    let pos = Position::new(0, 5);

    buffer.insert_char(pos, '!').unwrap();
    buffer.undo().unwrap();
    buffer.redo().unwrap();

    assert_eq!(buffer.line(0).unwrap(), "Hello!");
    assert!(buffer.is_modified());
}

#[test]
fn buffer_test_can_undo_redo() {
    let mut buffer = Buffer::new();

    assert!(!buffer.can_undo());
    assert!(!buffer.can_redo());

    let pos = Position::new(0, 0);
    buffer.insert_char(pos, 'X').unwrap();
    assert!(buffer.can_undo());
    assert!(!buffer.can_redo());

    buffer.undo().unwrap();
    assert!(!buffer.can_undo());
    assert!(buffer.can_redo());
}

#[test]
fn test_empty_undo_stack() {
    let mut buffer = Buffer::new();
    let result = buffer.undo();
    assert!(matches!(result, Err(EditorError::EmptyUndoStack)));
}

#[test]
fn test_empty_redo_stack() {
    let mut buffer = Buffer::new();
    let result = buffer.redo();
    assert!(matches!(result, Err(EditorError::EmptyRedoStack)));
}

// The buffer never drops below one line, even when its only line is deleted.
#[test]
fn delete_line_keeps_one_line() {
    let mut buffer = Buffer::from_content("Only line");
    let deleted = buffer.delete_line(0).unwrap();
    assert_eq!(deleted, Some("Only line".to_string()));
    assert_eq!(buffer.line_count(), 1);
    assert_eq!(buffer.line(0).unwrap(), "");
    let deleted2 = buffer.delete_line(0).unwrap();
    assert_eq!(deleted2, Some(String::new()));
    assert_eq!(buffer.line_count(), 1);
}

// Inserting a run of characters and undoing the same number of times
// restores the text and clears the modified flag.
#[test]
fn insert_run_then_undo_run_round_trip() {
    let mut buffer = Buffer::from_content("ab");
    buffer.insert_char(Position::new(0, 2), 'c').unwrap();
    buffer.insert_char(Position::new(0, 0), 'z').unwrap();
    buffer.insert_char(Position::new(0, 2), 'q').unwrap();
    assert_eq!(buffer.line(0).unwrap(), "zaqbc");
    buffer.undo().unwrap();
    buffer.undo().unwrap();
    buffer.undo().unwrap();
    assert_eq!(buffer.line(0).unwrap(), "ab");
    assert!(!buffer.is_modified());
    assert!(!buffer.can_undo());
}

// A fresh edit clears the redo stack.
#[test]
fn new_edit_clears_redo() {
    let mut buffer = Buffer::from_content("abc");
    buffer.insert_char(Position::new(0, 0), 'x').unwrap();
    buffer.undo().unwrap();
    assert!(buffer.can_redo());
    buffer.insert_char(Position::new(0, 1), 'y').unwrap();
    assert!(!buffer.can_redo());
}

// Undo and redo invert line operations as well.
#[test]
fn undo_redo_line_operations() {
    let mut buffer = Buffer::from_content("one\ntwo");
    buffer.insert_line(1).unwrap();
    assert_eq!(buffer.line_count(), 3);
    buffer.undo().unwrap();
    assert_eq!(buffer.line_count(), 2);
    assert_eq!(buffer.line(0).unwrap(), "one");
    assert_eq!(buffer.line(1).unwrap(), "two");
    buffer.redo().unwrap();
    assert_eq!(buffer.line_count(), 3);
    assert_eq!(buffer.line(1).unwrap(), "");

    let mut buffer2 = Buffer::from_content("one\ntwo\nthree");
    buffer2.delete_line(1).unwrap();
    assert_eq!(buffer2.line_count(), 2);
    buffer2.undo().unwrap();
    assert_eq!(buffer2.line_count(), 3);
    assert_eq!(buffer2.line(1).unwrap(), "two");
}

#[test]
fn buffer_to_string_joins_lines() {
    let buffer = Buffer::from_content("Line 1\nLine 2\nLine 3");
    assert_eq!(buffer.to_string(), "Line 1\nLine 2\nLine 3");
    let empty = Buffer::new();
    assert_eq!(empty.to_string(), "");
}

#[test]
fn buffer_mark_saved_clears_flag() {
    let mut buffer = Buffer::new();
    buffer.insert_char(Position::new(0, 0), 'X').unwrap();
    assert!(buffer.is_modified());
    buffer.mark_saved();
    assert!(!buffer.is_modified());
    assert!(buffer.can_undo());
}

// A carriage return directly before a line break is dropped with it; one
// not followed by a break stays.
#[test]
fn from_content_strips_carriage_returns_at_breaks() {
    let buffer = Buffer::from_content("alpha\r\nbeta\r\n");
    assert_eq!(buffer.line_count(), 2);
    assert_eq!(buffer.line(0).unwrap(), "alpha");
    assert_eq!(buffer.line(1).unwrap(), "beta");

    let mixed = Buffer::from_content("a\rb\nc\r");
    assert_eq!(mixed.line_count(), 2);
    assert_eq!(mixed.line(0).unwrap(), "a\rb");
    assert_eq!(mixed.line(1).unwrap(), "c\r");
}
