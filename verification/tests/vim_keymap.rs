use rvim::editor::Position;
use rvim::vim::keymap::{Key, KeyCode, KeyMapper, KeyModifiers};
use rvim::vim::mode::Mode;
use rvim::vim::command::VimCommand;

#[test]
fn test_key_creation() {
    let key = Key::char('h');
    assert_eq!(key.code, KeyCode::Char('h'));
    assert_eq!(key.modifiers, KeyModifiers::Plain);

    let ctrl_key = Key::ctrl('r');
    assert_eq!(ctrl_key.code, KeyCode::Char('r'));
    assert_eq!(ctrl_key.modifiers, KeyModifiers::Control);

    let escape = Key::escape();
    assert_eq!(escape.code, KeyCode::Esc);
    assert_eq!(escape.modifiers, KeyModifiers::Plain);
}

#[test]
fn test_normal_mode_movement_mapping() {
    let mapper = KeyMapper::new();
    let mode = Mode::Normal;

    let test_cases = [
        (Key::char('h'), VimCommand::MoveLeft),
        (Key::char('j'), VimCommand::MoveDown),
        (Key::char('k'), VimCommand::MoveUp),
        (Key::char('l'), VimCommand::MoveRight),
        (Key::char('0'), VimCommand::MoveLineStart),
        (Key::char('$'), VimCommand::MoveLineEnd),
        (Key::char('w'), VimCommand::MoveWordForward),
        (Key::char('b'), VimCommand::MoveWordBackward),
    ];

    for (key, expected_cmd) in &test_cases {
        let cmd = mapper.map_key(key, &mode);
        assert_eq!(cmd, *expected_cmd);
    }
}

#[test]
fn test_normal_mode_editing_mapping() {
    let mapper = KeyMapper::new();
    let mode = Mode::Normal;

    let test_cases = [
        (Key::char('i'), VimCommand::EnterInsert),
        (Key::char('a'), VimCommand::EnterInsertAfter),
        (Key::char('o'), VimCommand::EnterInsertNewLine),
        (Key::char('v'), VimCommand::EnterVisual),
        (Key::char(':'), VimCommand::EnterCommand),
        (Key::char('x'), VimCommand::DeleteChar),
        (Key::char('d'), VimCommand::DeleteLine),
        (Key::char('u'), VimCommand::Undo),
    ];

    for (key, expected_cmd) in &test_cases {
        let cmd = mapper.map_key(key, &mode);
        assert_eq!(cmd, *expected_cmd);
    }
}

#[test]
fn test_normal_mode_arrow_keys() {
    let mapper = KeyMapper::new();
    let mode = Mode::Normal;

    let test_cases = [
        (
            Key::new(KeyCode::Left, KeyModifiers::Plain),
            VimCommand::MoveLeft,
        ),
        (
            Key::new(KeyCode::Down, KeyModifiers::Plain),
            VimCommand::MoveDown,
        ),
        (
            Key::new(KeyCode::Up, KeyModifiers::Plain),
            VimCommand::MoveUp,
        ),
        (
            Key::new(KeyCode::Right, KeyModifiers::Plain),
            VimCommand::MoveRight,
        ),
    ];

    for (key, expected_cmd) in &test_cases {
        let cmd = mapper.map_key(key, &mode);
        assert_eq!(cmd, *expected_cmd);
    }
}

#[test]
fn test_insert_mode_mapping() {
    let mapper = KeyMapper::new();
    let mode = Mode::Insert;

    let cmd = mapper.map_key(&Key::char('a'), &mode);
    assert_eq!(cmd, VimCommand::InsertChar('a'));

    let test_cases = [
        (Key::escape(), VimCommand::ExitToNormal),
        (Key::enter(), VimCommand::NewLine),
        (Key::backspace(), VimCommand::DeleteCharBackward),
    ];

    for (key, expected_cmd) in &test_cases {
        let cmd = mapper.map_key(key, &mode);
        assert_eq!(cmd, *expected_cmd);
    }
}

#[test]
fn test_visual_mode_mapping() {
    let mapper = KeyMapper::new();
    let mode = Mode::Visual {
        start: Position::new(0, 0),
    };

    let test_cases = [
        (Key::escape(), VimCommand::ExitToNormal),
        (Key::char('i'), VimCommand::EnterInsert),
        (Key::char('h'), VimCommand::MoveLeft),
        (Key::char('j'), VimCommand::MoveDown),
        (Key::char('k'), VimCommand::MoveUp),
        (Key::char('l'), VimCommand::MoveRight),
    ];

    for (key, expected_cmd) in &test_cases {
        let cmd = mapper.map_key(key, &mode);
        assert_eq!(cmd, *expected_cmd);
    }
}

#[test]
fn test_command_mode_mapping() {
    let mapper = KeyMapper::new();
    let mode = Mode::Command {
        input: String::new(),
    };

    let cmd = mapper.map_key(&Key::escape(), &mode);
    assert_eq!(cmd, VimCommand::ExitToNormal);

    let cmd = mapper.map_key(&Key::enter(), &mode);
    assert_eq!(cmd, VimCommand::ExecuteCommand(String::new()));

    let mode_with_input = Mode::Command {
        input: "q".to_string(),
    };
    let cmd = mapper.map_key(&Key::enter(), &mode_with_input);
    assert_eq!(cmd, VimCommand::ExecuteCommand("q".to_string()));

    let cmd = mapper.map_key(&Key::char('q'), &mode);
    assert_eq!(cmd, VimCommand::CommandInput('q'));

    let cmd = mapper.map_key(&Key::backspace(), &mode);
    assert_eq!(cmd, VimCommand::CommandBackspace);
}

#[test]
fn test_ctrl_key_mapping() {
    let mapper = KeyMapper::new();
    let mode = Mode::Normal;

    let test_cases = [
        (Key::ctrl('r'), VimCommand::Redo),
        (Key::ctrl('f'), VimCommand::MoveBufferEnd),
        (Key::ctrl('b'), VimCommand::MoveBufferStart),
    ];

    for (key, expected_cmd) in &test_cases {
        let cmd = mapper.map_key(key, &mode);
        assert_eq!(cmd, *expected_cmd);
    }
}

#[test]
fn test_unmapped_key() {
    let mapper = KeyMapper::new();
    let mode = Mode::Normal;

    let cmd = mapper.map_key(&Key::char('z'), &mode);
    assert_eq!(cmd, VimCommand::Noop);
}
