use rvim::application::editor_service::{CommandLine, EditorState, FileRequest};
use rvim::application::vim_bindings::{VimBindings, VimCommand};

#[test]
fn test_editor_state_new() {
    let state = EditorState::new();
    assert_eq!(state.cursor.row, 0);
    assert_eq!(state.cursor.col, 0);
    assert!(state.file_path.is_none());
    assert!(!state.should_quit);
    assert!(state.status_message.is_empty());
}

#[test]
fn test_editor_state_with_file() {
    let file_path = String::from("test.txt");
    let content = "Hello\nWorld".to_string();

    let state = EditorState::with_file(file_path.clone(), content);
    assert_eq!(state.file_path, Some(file_path));
    assert_eq!(state.buffer.line_count(), 2);
}

#[test]
fn test_execute_save_command() {
    let bindings = VimBindings::new();
    let mut state = EditorState::new();
    state.file_path = Some(String::from("test.txt"));

    let request = state.execute_command(&bindings, VimCommand::Save);
    match request {
        FileRequest::Write {
            path,
            content,
            and_quit,
        } => {
            assert_eq!(path, "test.txt");
            assert_eq!(content, "");
            assert!(!and_quit);
        }
        FileRequest::Nothing => panic!("Expected a write request"),
    }

    state.complete_save(true, false);
    assert!(!state.buffer.is_modified());
    assert!(!state.should_quit);
}

#[test]
fn test_execute_quit_command_with_unsaved_changes() {
    let bindings = VimBindings::new();
    let mut state = EditorState::new();
    state.buffer.insert_char(0, 0, 'X').unwrap();

    let request = state.execute_command(&bindings, VimCommand::Quit);
    assert_eq!(request, FileRequest::Nothing);
    assert!(!state.should_quit);
    assert!(!state.status_message.is_empty());
}

#[test]
fn test_execute_force_quit_command() {
    let bindings = VimBindings::new();
    let mut state = EditorState::new();
    state.buffer.insert_char(0, 0, 'X').unwrap();

    let request = state.execute_command(&bindings, VimCommand::ForceQuit);
    assert_eq!(request, FileRequest::Nothing);
    assert!(state.should_quit);
}

#[test]
fn test_adjust_cursor_position() {
    let mut state = EditorState::new();
    state.cursor.row = 100;
    state.cursor.col = 100;

    state.adjust_cursor_position(false);

    assert_eq!(state.cursor.row, 0);
    assert_eq!(state.cursor.col, 0);
}

#[test]
fn test_command_line_functionality() {
    let bindings = VimBindings::new();
    let mut state = EditorState::new();

    let request = state.execute_command(&bindings, VimCommand::EnterCommandMode);
    assert_eq!(request, FileRequest::Nothing);
    assert!(state.command_line.active);
    assert_eq!(state.command_line.content, ":");
    assert_eq!(state.command_line.cursor_pos, 1);

    let request = state.execute_command(&bindings, VimCommand::CommandChar('w'));
    assert_eq!(request, FileRequest::Nothing);
    assert_eq!(state.command_line.content, ":w");
    assert_eq!(state.command_line.cursor_pos, 2);

    let request = state.execute_command(&bindings, VimCommand::CommandBackspace);
    assert_eq!(request, FileRequest::Nothing);
    assert_eq!(state.command_line.content, ":");
    assert_eq!(state.command_line.cursor_pos, 1);

    let request = state.execute_command(&bindings, VimCommand::ExitToNormal);
    assert_eq!(request, FileRequest::Nothing);
    assert!(!state.command_line.active);
}

// Quit never sets the quit flag while the buffer is modified; ForceQuit
// always does, modified or not.
#[test]
fn quit_rules_scenario() {
    let bindings = VimBindings::new();

    let mut clean = EditorState::new();
    clean.execute_command(&bindings, VimCommand::Quit);
    assert!(clean.should_quit);

    let mut dirty = EditorState::new();
    dirty.buffer.insert_char(0, 0, 'X').unwrap();
    let request = dirty.execute_command(&bindings, VimCommand::Quit);
    assert_eq!(request, FileRequest::Nothing);
    assert!(!dirty.should_quit);
    assert_eq!(
        dirty.status_message,
        "No write since last change (add ! to override)"
    );
    assert_eq!(dirty.buffer.get_line(0), Some(&"X".to_string()));
    assert!(dirty.buffer.is_modified());
    assert!(dirty.buffer.can_undo());
    let request = dirty.execute_command(&bindings, VimCommand::ForceQuit);
    assert_eq!(request, FileRequest::Nothing);
    assert!(dirty.should_quit);
    assert_eq!(dirty.buffer.get_line(0), Some(&"X".to_string()));
    assert!(dirty.buffer.is_modified());
}

// Typing ":wq" on the command line and executing it produces the
// write-then-quit request; a successful write then quits.
#[test]
fn command_line_wq_executes_save_and_quit() {
    let bindings = VimBindings::new();
    let mut state = EditorState::with_file(String::from("file.txt"), String::from("text"));

    state.execute_command(&bindings, VimCommand::EnterCommandMode);
    state.execute_command(&bindings, VimCommand::CommandChar('w'));
    state.execute_command(&bindings, VimCommand::CommandChar('q'));
    let request = state.execute_command(&bindings, VimCommand::CommandExecute);
    match request {
        FileRequest::Write {
            path,
            content,
            and_quit,
        } => {
            assert_eq!(path, "file.txt");
            assert_eq!(content, "text");
            assert!(and_quit);
        }
        FileRequest::Nothing => panic!("Expected a write request"),
    }
    assert!(!state.command_line.active);
    assert!(!state.should_quit);
    state.complete_save(true, true);
    assert!(state.should_quit);
    assert!(!state.buffer.is_modified());
}

// An unknown command-line verb only leaves a message.
#[test]
fn unknown_command_line_verb() {
    let mut state = EditorState::new();
    let request = state.execute_vim_command("nonsense");
    assert_eq!(request, FileRequest::Nothing);
    assert_eq!(state.status_message, "Unknown command: nonsense");
    assert!(!state.should_quit);
}

// A failed write leaves the editor open even for a write-then-quit.
#[test]
fn failed_save_does_not_quit() {
    let mut state = EditorState::with_file(String::from("f"), String::from("x"));
    state.buffer.insert_char(0, 0, 'y').unwrap();
    let request = state.execute_vim_command("wq");
    assert!(matches!(request, FileRequest::Write { .. }));
    state.complete_save(false, true);
    assert!(!state.should_quit);
    assert!(state.buffer.is_modified());
    assert_eq!(state.status_message, "write failed");
}

// Saving with no file name only reports it.
#[test]
fn save_without_file_name() {
    let mut state = EditorState::new();
    let request = state.execute_vim_command("w");
    assert_eq!(request, FileRequest::Nothing);
    assert_eq!(state.status_message, "No file name");
}

#[test]
fn command_line_keeps_trigger_on_backspace() {
    let mut cl = CommandLine::new();
    cl.activate();
    cl.delete_char();
    assert_eq!(cl.content, ":");
    assert_eq!(cl.cursor_pos, 1);
    cl.insert_char('q');
    assert_eq!(cl.get_command(), "q");
    cl.deactivate();
    assert_eq!(cl.get_command(), "");
}

// After any command the cursor respects the mode's column bound: the line
// length in insert mode, the last character in normal mode.
#[test]
fn cursor_bound_depends_on_mode() {
    let mut normal = EditorState::with_file(String::from("f"), String::from("abc"));
    normal.cursor.col = 10;
    normal.adjust_cursor_position(false);
    assert_eq!(normal.cursor.col, 2);

    let mut insert = EditorState::with_file(String::from("f"), String::from("abc"));
    insert.cursor.col = 10;
    insert.adjust_cursor_position(true);
    assert_eq!(insert.cursor.col, 3);
}

// Typing ":q!" quits even a modified buffer, and the typed "q" refuses one.
#[test]
fn command_line_quit_verbs() {
    let bindings = VimBindings::new();
    let mut state = EditorState::new();
    state.buffer.insert_char(0, 0, 'X').unwrap();

    state.execute_command(&bindings, VimCommand::EnterCommandMode);
    state.execute_command(&bindings, VimCommand::CommandChar('q'));
    let request = state.execute_command(&bindings, VimCommand::CommandExecute);
    assert_eq!(request, FileRequest::Nothing);
    assert!(!state.should_quit);
    assert_eq!(
        state.status_message,
        "No write since last change (add ! to override)"
    );

    state.execute_command(&bindings, VimCommand::EnterCommandMode);
    state.execute_command(&bindings, VimCommand::CommandChar('q'));
    state.execute_command(&bindings, VimCommand::CommandChar('!'));
    let request = state.execute_command(&bindings, VimCommand::CommandExecute);
    assert_eq!(request, FileRequest::Nothing);
    assert!(state.should_quit);
    assert_eq!(state.buffer.get_line(0), Some(&"X".to_string()));
}
