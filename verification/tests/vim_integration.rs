use rvim::editor::{Buffer, Position};
use rvim::vim::command::{CommandResult, VimCommand};
use rvim::vim::keymap::{Key, KeyMapper};
use rvim::vim::mode::{Mode, ModeManager};

#[test]
fn test_vim_module_integration() {
    let mut mode_manager = ModeManager::new();
    let key_mapper = KeyMapper::new();
    let mut buffer = Buffer::new();
    let mut cursor = Position::new(0, 0);

    assert!(mode_manager.current().is_normal());

    let key = Key::char('i');
    let cmd = key_mapper.map_key(&key, mode_manager.current());
    assert_eq!(cmd, VimCommand::EnterInsert);

    mode_manager.enter_insert();
    assert!(mode_manager.current().is_insert());

    let key = Key::char('H');
    let cmd = key_mapper.map_key(&key, mode_manager.current());
    assert_eq!(cmd, VimCommand::InsertChar('H'));

    let result = cmd.execute(&mut buffer, &mut cursor);
    assert!(result.is_ok());
    assert_eq!(buffer.line(0).unwrap(), "H");
    assert_eq!(cursor.col, 1);

    let key = Key::escape();
    let cmd = key_mapper.map_key(&key, mode_manager.current());
    assert_eq!(cmd, VimCommand::ExitToNormal);

    mode_manager.enter_normal();
    assert!(mode_manager.current().is_normal());
}

#[test]
fn test_vim_movement_integration() {
    let key_mapper = KeyMapper::new();
    let mut buffer = Buffer::from_content("Hello\nWorld");
    let mut cursor = Position::new(0, 0);

    let key = Key::char('l');
    let cmd = key_mapper.map_key(&key, &Mode::Normal);
    cmd.execute(&mut buffer, &mut cursor).unwrap();
    assert_eq!(cursor.col, 1);

    let key = Key::char('j');
    let cmd = key_mapper.map_key(&key, &Mode::Normal);
    cmd.execute(&mut buffer, &mut cursor).unwrap();
    assert_eq!(cursor.row, 1);
    assert_eq!(cursor.col, 1);

    let key = Key::char('0');
    let cmd = key_mapper.map_key(&key, &Mode::Normal);
    cmd.execute(&mut buffer, &mut cursor).unwrap();
    assert_eq!(cursor.col, 0);
}

#[test]
fn test_vim_editing_integration() {
    let key_mapper = KeyMapper::new();
    let mut buffer = Buffer::from_content("Hello");
    let mut cursor = Position::new(0, 5);

    let key = Key::char('x');
    let cmd = key_mapper.map_key(&key, &Mode::Normal);
    let result = cmd.execute(&mut buffer, &mut cursor).unwrap();
    assert_eq!(result, CommandResult::Nothing);

    cursor.col = 1;
    let result = cmd.execute(&mut buffer, &mut cursor).unwrap();
    assert_eq!(result, CommandResult::DeletedChar('e'));
    assert_eq!(buffer.line(0).unwrap(), "Hllo");

    let key = Key::char('u');
    let cmd = key_mapper.map_key(&key, &Mode::Normal);
    cmd.execute(&mut buffer, &mut cursor).unwrap();
    assert_eq!(buffer.line(0).unwrap(), "Hello");

    let key = Key::ctrl('r');
    let cmd = key_mapper.map_key(&key, &Mode::Normal);
    cmd.execute(&mut buffer, &mut cursor).unwrap();
    assert_eq!(buffer.line(0).unwrap(), "Hllo");
}

#[test]
fn test_mode_transitions_integration() {
    let mut mode_manager = ModeManager::new();
    let key_mapper = KeyMapper::new();

    let key = Key::char('i');
    let cmd = key_mapper.map_key(&key, mode_manager.current());
    assert_eq!(cmd, VimCommand::EnterInsert);
    mode_manager.enter_insert();
    assert!(mode_manager.current().is_insert());

    let key = Key::escape();
    let cmd = key_mapper.map_key(&key, mode_manager.current());
    assert_eq!(cmd, VimCommand::ExitToNormal);
    mode_manager.enter_normal();
    assert!(mode_manager.current().is_normal());

    let key = Key::char('v');
    let cmd = key_mapper.map_key(&key, mode_manager.current());
    assert_eq!(cmd, VimCommand::EnterVisual);
    mode_manager.enter_visual(Position::new(0, 0));
    assert!(mode_manager.current().is_visual());

    let key = Key::escape();
    let cmd = key_mapper.map_key(&key, mode_manager.current());
    assert_eq!(cmd, VimCommand::ExitToNormal);
    mode_manager.enter_normal();
    assert!(mode_manager.current().is_normal());

    let key = Key::char(':');
    let cmd = key_mapper.map_key(&key, mode_manager.current());
    assert_eq!(cmd, VimCommand::EnterCommand);
    mode_manager.enter_command();
    assert!(mode_manager.current().is_command());
}

// Normal mode, key ':': Command mode opens with empty input; typing 'w','q'
// and Enter resolves to the command text "wq", the save-then-quit request.
#[test]
fn command_line_wq_scenario() {
    let mut mode_manager = ModeManager::new();
    let key_mapper = KeyMapper::new();

    let cmd = key_mapper.map_key(&Key::char(':'), mode_manager.current());
    assert_eq!(cmd, VimCommand::EnterCommand);
    mode_manager.enter_command();
    if let Mode::Command { input } = mode_manager.current() {
        assert!(input.is_empty());
    } else {
        panic!("Expected Command mode");
    }

    for c in ['w', 'q'] {
        let cmd = key_mapper.map_key(&Key::char(c), mode_manager.current());
        assert_eq!(cmd, VimCommand::CommandInput(c));
        if let Mode::Command { input } = mode_manager.current() {
            let mut next = input.clone();
            next.push(c);
            mode_manager.update_command_input(next).unwrap();
        }
    }

    let cmd = key_mapper.map_key(&Key::enter(), mode_manager.current());
    assert_eq!(cmd, VimCommand::ExecuteCommand("wq".to_string()));

    let mut buffer = Buffer::new();
    let mut cursor = Position::new(0, 0);
    let result = cmd.execute(&mut buffer, &mut cursor).unwrap();
    assert_eq!(result, CommandResult::SaveAndQuitRequested);
}
