use rvim::domain::cursor::CursorPosition;

#[test]
fn test_cursor_new() {
    let cursor = CursorPosition::new(5, 10);
    assert_eq!(cursor.row, 5);
    assert_eq!(cursor.col, 10);
}

#[test]
fn test_cursor_movement_right() {
    let mut cursor = CursorPosition::new(0, 0);
    let line_length = 10;

    cursor.move_right(line_length);

    assert_eq!(cursor.col, 1);
    assert_eq!(cursor.row, 0);
}

#[test]
fn test_cursor_movement_right_at_line_end() {
    let mut cursor = CursorPosition::new(0, 10);
    let line_length = 10;

    cursor.move_right(line_length);

    assert_eq!(cursor.col, 10);
    assert_eq!(cursor.row, 0);
}

#[test]
fn test_cursor_movement_left() {
    let mut cursor = CursorPosition::new(0, 5);

    cursor.move_left();

    assert_eq!(cursor.col, 4);
    assert_eq!(cursor.row, 0);
}

#[test]
fn test_cursor_movement_left_at_line_start() {
    let mut cursor = CursorPosition::new(0, 0);

    cursor.move_left();

    assert_eq!(cursor.col, 0);
    assert_eq!(cursor.row, 0);
}

#[test]
fn test_cursor_movement_up() {
    let mut cursor = CursorPosition::new(5, 3);

    cursor.move_up();

    assert_eq!(cursor.row, 4);
    assert_eq!(cursor.col, 3);
}

#[test]
fn test_cursor_movement_up_at_buffer_start() {
    let mut cursor = CursorPosition::new(0, 3);

    cursor.move_up();

    assert_eq!(cursor.row, 0);
    assert_eq!(cursor.col, 3);
}

#[test]
fn test_cursor_movement_down() {
    let mut cursor = CursorPosition::new(0, 3);
    let buffer_height = 10;

    cursor.move_down(buffer_height);

    assert_eq!(cursor.row, 1);
    assert_eq!(cursor.col, 3);
}

#[test]
fn test_cursor_movement_down_at_buffer_end() {
    let mut cursor = CursorPosition::new(9, 3);
    let buffer_height = 10;

    cursor.move_down(buffer_height);

    assert_eq!(cursor.row, 9);
    assert_eq!(cursor.col, 3);
}

#[test]
fn test_cursor_move_to_line_start() {
    let mut cursor = CursorPosition::new(5, 10);

    cursor.move_to_line_start();

    assert_eq!(cursor.row, 5);
    assert_eq!(cursor.col, 0);
}

#[test]
fn test_cursor_move_to_line_end() {
    let mut cursor = CursorPosition::new(5, 3);
    let line_length = 15;

    cursor.move_to_line_end(line_length);

    assert_eq!(cursor.row, 5);
    assert_eq!(cursor.col, 15);
}

#[test]
fn test_cursor_move_to_buffer_start() {
    let mut cursor = CursorPosition::new(10, 20);

    cursor.move_to_buffer_start();

    assert_eq!(cursor.row, 0);
    assert_eq!(cursor.col, 0);
}

#[test]
fn test_cursor_move_to_buffer_end() {
    let mut cursor = CursorPosition::new(0, 0);
    let buffer_height = 10;
    let last_line_length = 25;

    cursor.move_to_buffer_end(buffer_height, last_line_length);

    assert_eq!(cursor.row, 9);
    assert_eq!(cursor.col, 25);
}

#[test]
fn test_cursor_move_to_buffer_end_empty_buffer() {
    let mut cursor = CursorPosition::new(5, 10);
    let buffer_height = 0;
    let last_line_length = 0;

    cursor.move_to_buffer_end(buffer_height, last_line_length);

    assert_eq!(cursor.row, 5);
    assert_eq!(cursor.col, 10);
}
