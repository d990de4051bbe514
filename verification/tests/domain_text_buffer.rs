use rvim::domain::text_buffer::TextBuffer;

#[test]
fn text_buffer_test_new_buffer() {
    let buffer = TextBuffer::new();
    assert_eq!(buffer.line_count(), 1);
    assert_eq!(buffer.get_line(0), Some(&String::new()));
    assert!(!buffer.is_modified());
    assert!(buffer.file_path().is_none());
}

#[test]
fn text_buffer_test_from_content_empty() {
    let buffer = TextBuffer::from_content("");
    assert_eq!(buffer.line_count(), 1);
    assert_eq!(buffer.get_line(0), Some(&String::new()));
}

#[test]
fn text_buffer_test_from_content_single_line() {
    let buffer = TextBuffer::from_content("Hello, world!");
    assert_eq!(buffer.line_count(), 1);
    assert_eq!(buffer.get_line(0), Some(&"Hello, world!".to_string()));
}

#[test]
fn text_buffer_test_from_content_multiple_lines() {
    let buffer = TextBuffer::from_content("Line 1\nLine 2\nLine 3");
    assert_eq!(buffer.line_count(), 3);
    assert_eq!(buffer.get_line(0), Some(&"Line 1".to_string()));
    assert_eq!(buffer.get_line(1), Some(&"Line 2".to_string()));
    assert_eq!(buffer.get_line(2), Some(&"Line 3".to_string()));
}

#[test]
fn text_buffer_test_with_file_path() {
    let path = String::from("/path/to/file.txt");
    let buffer = TextBuffer::new().with_file_path(path.clone());
    assert_eq!(buffer.file_path(), Some(&path));
}

#[test]
fn text_buffer_test_insert_char() {
    let mut buffer = TextBuffer::from_content("Hello");

    buffer.insert_char(0, 5, '!').unwrap();
    assert_eq!(buffer.get_line(0), Some(&"Hello!".to_string()));
    assert!(buffer.is_modified());
}

#[test]
fn text_buffer_test_insert_char_middle() {
    let mut buffer = TextBuffer::from_content("Hello");

    buffer.insert_char(0, 2, 'X').unwrap();
    assert_eq!(buffer.get_line(0), Some(&"HeXllo".to_string()));
}

#[test]
fn text_buffer_test_insert_char_out_of_bounds() {
    let mut buffer = TextBuffer::from_content("Hello");

    let result = buffer.insert_char(1, 0, 'X');
    assert!(result.is_err());
    assert!(!buffer.is_modified());
}

#[test]
fn text_buffer_test_delete_char() {
    let mut buffer = TextBuffer::from_content("Hello");

    let deleted = buffer.delete_char(0, 1).unwrap();
    assert_eq!(deleted, Some('e'));
    assert_eq!(buffer.get_line(0), Some(&"Hllo".to_string()));
    assert!(buffer.is_modified());
}

#[test]
fn text_buffer_test_delete_char_at_end() {
    let mut buffer = TextBuffer::from_content("Hello");

    let deleted = buffer.delete_char(0, 5).unwrap();
    assert_eq!(deleted, None);
    assert_eq!(buffer.get_line(0), Some(&"Hello".to_string()));
}

#[test]
fn test_insert_line() {
    let mut buffer = TextBuffer::from_content("Line 1");

    buffer.insert_line(1).unwrap();
    assert_eq!(buffer.line_count(), 2);
    assert_eq!(buffer.get_line(0), Some(&"Line 1".to_string()));
    assert_eq!(buffer.get_line(1), Some(&String::new()));
    assert!(buffer.is_modified());
}

#[test]
fn test_delete_line() {
    let mut buffer = TextBuffer::from_content("Line 1\nLine 2\nLine 3");

    let deleted = buffer.delete_line(1).unwrap();
    assert_eq!(deleted, Some("Line 2".to_string()));
    assert_eq!(buffer.line_count(), 2);
    assert_eq!(buffer.get_line(0), Some(&"Line 1".to_string()));
    assert_eq!(buffer.get_line(1), Some(&"Line 3".to_string()));
    assert!(buffer.is_modified());
}

#[test]
fn test_delete_last_line() {
    let mut buffer = TextBuffer::from_content("Only line");

    let deleted = buffer.delete_line(0).unwrap();
    assert_eq!(deleted, Some("Only line".to_string()));
    assert_eq!(buffer.line_count(), 1);
    assert_eq!(buffer.get_line(0), Some(&String::new()));
    assert!(buffer.is_modified());
}

#[test]
fn text_buffer_test_undo_insert_char() {
    let mut buffer = TextBuffer::from_content("Hello");

    buffer.insert_char(0, 5, '!').unwrap();
    assert_eq!(buffer.get_line(0), Some(&"Hello!".to_string()));

    buffer.undo().unwrap();
    assert_eq!(buffer.get_line(0), Some(&"Hello".to_string()));
    assert!(!buffer.is_modified());
}

#[test]
fn text_buffer_test_undo_delete_char() {
    let mut buffer = TextBuffer::from_content("Hello");

    buffer.delete_char(0, 1).unwrap();
    assert_eq!(buffer.get_line(0), Some(&"Hllo".to_string()));

    buffer.undo().unwrap();
    assert_eq!(buffer.get_line(0), Some(&"Hello".to_string()));
    assert!(!buffer.is_modified());
}

#[test]
fn text_buffer_test_redo_after_undo() {
    let mut buffer = TextBuffer::from_content("Hello");

    buffer.insert_char(0, 5, '!').unwrap();
    buffer.undo().unwrap();
    buffer.redo().unwrap();

    assert_eq!(buffer.get_line(0), Some(&"Hello!".to_string()));
    assert!(buffer.is_modified());
}

#[test]
fn text_buffer_test_can_undo_redo() {
    let mut buffer = TextBuffer::new();

    assert!(!buffer.can_undo());
    assert!(!buffer.can_redo());

    buffer.insert_char(0, 0, 'X').unwrap();
    assert!(buffer.can_undo());
    assert!(!buffer.can_redo());

    buffer.undo().unwrap();
    assert!(!buffer.can_undo());
    assert!(buffer.can_redo());
}

#[test]
fn test_get_line_length() {
    let buffer = TextBuffer::from_content("Hello\nWorld!\n");
    assert_eq!(buffer.get_line_length(0), 5);
    assert_eq!(buffer.get_line_length(1), 6);
    assert_eq!(buffer.get_line_length(2), 0);
    assert_eq!(buffer.get_line_length(999), 0);
}

#[test]
fn test_to_string() {
    let buffer = TextBuffer::from_content("Line 1\nLine 2\nLine 3");
    assert_eq!(buffer.to_string(), "Line 1\nLine 2\nLine 3");
}

#[test]
fn test_mark_saved() {
    let mut buffer = TextBuffer::new();
    buffer.insert_char(0, 0, 'X').unwrap();
    assert!(buffer.is_modified());

    buffer.mark_saved();
    assert!(!buffer.is_modified());
}

// The failure messages name the offending row or column.
#[test]
fn error_messages_name_the_position() {
    let mut buffer = TextBuffer::from_content("Hi");
    let err = buffer.insert_char(7, 0, 'x').unwrap_err();
    assert_eq!(err, "Row 7 out of bounds");
    let err = buffer.insert_char(0, 3, 'x').unwrap_err();
    assert_eq!(err, "Column 3 out of bounds for row 0");
    let err = buffer.delete_char(12, 0).unwrap_err();
    assert_eq!(err, "Row 12 out of bounds");
    let err = buffer.undo().unwrap_err();
    assert_eq!(err, "Nothing to undo");
    let err = buffer.redo().unwrap_err();
    assert_eq!(err, "Nothing to redo");
}

#[test]
fn lines_view_matches_get_line() {
    let buffer = TextBuffer::from_content("a\nbc");
    let lines = buffer.lines();
    assert_eq!(lines.len(), 2);
    assert_eq!(lines[0], "a");
    assert_eq!(lines[1], "bc");
}
