use rvim::editor::Position;
use rvim::vim::mode::{Mode, ModeManager};

#[test]
fn test_mode_display() {
    assert_eq!(Mode::Normal.to_string(), "NORMAL");
    assert_eq!(Mode::Insert.to_string(), "INSERT");
    assert_eq!(
        Mode::Visual {
            start: Position::new(0, 0)
        }
        .to_string(),
        "VISUAL"
    );
    assert_eq!(
        Mode::Command {
            input: "test".to_string()
        }
        .to_string(),
        "COMMAND"
    );
}

#[test]
fn test_mode_predicates() {
    let normal = Mode::Normal;
    assert!(normal.is_normal());
    assert!(!normal.is_insert());
    assert!(!normal.is_visual());
    assert!(!normal.is_command());

    let insert = Mode::Insert;
    assert!(!insert.is_normal());
    assert!(insert.is_insert());
    assert!(!insert.is_visual());
    assert!(!insert.is_command());

    let visual = Mode::Visual {
        start: Position::new(0, 0),
    };
    assert!(!visual.is_normal());
    assert!(!visual.is_insert());
    assert!(visual.is_visual());
    assert!(!visual.is_command());

    let command = Mode::Command {
        input: String::new(),
    };
    assert!(!command.is_normal());
    assert!(!command.is_insert());
    assert!(!command.is_visual());
    assert!(command.is_command());
}

#[test]
fn mode_test_mode_manager_new() {
    let manager = ModeManager::new();
    assert!(manager.current().is_normal());
    assert!(manager.previous().is_none());
}

#[test]
fn mode_test_mode_manager_default() {
    let manager = ModeManager::default();
    assert!(manager.current().is_normal());
    assert!(manager.previous().is_none());
}

#[test]
fn test_normal_to_insert_transition() {
    let mut manager = ModeManager::new();

    manager.enter_insert();
    assert!(manager.current().is_insert());
    assert!(manager.previous().unwrap().is_normal());
}

#[test]
fn mode_test_normal_to_visual_transition() {
    let mut manager = ModeManager::new();
    let start_pos = Position::new(5, 10);

    manager.enter_visual(start_pos);
    assert!(manager.current().is_visual());
    if let Mode::Visual { start } = manager.current() {
        assert_eq!(*start, start_pos);
    } else {
        panic!("Expected Visual mode");
    }
}

#[test]
fn mode_test_normal_to_command_transition() {
    let mut manager = ModeManager::new();

    manager.enter_command();
    assert!(manager.current().is_command());
    if let Mode::Command { input } = manager.current() {
        assert!(input.is_empty());
    } else {
        panic!("Expected Command mode");
    }
}

#[test]
fn test_insert_to_normal_transition() {
    let mut manager = ModeManager::new();
    manager.enter_insert();

    manager.enter_normal();
    assert!(manager.current().is_normal());
    assert!(manager.previous().unwrap().is_insert());
}

#[test]
fn test_can_transition_from_normal() {
    let manager = ModeManager::new();

    assert!(manager.can_transition_to(&Mode::Insert));
    assert!(manager.can_transition_to(&Mode::Visual {
        start: Position::new(0, 0)
    }));
    assert!(manager.can_transition_to(&Mode::Command {
        input: String::new()
    }));
    assert!(manager.can_transition_to(&Mode::Normal));
}

#[test]
fn mode_test_can_transition_from_insert() {
    let mut manager = ModeManager::new();
    manager.enter_insert();

    assert!(manager.can_transition_to(&Mode::Normal));
    assert!(!manager.can_transition_to(&Mode::Insert));
    assert!(!manager.can_transition_to(&Mode::Visual {
        start: Position::new(0, 0)
    }));
    assert!(!manager.can_transition_to(&Mode::Command {
        input: String::new()
    }));
}

#[test]
fn test_can_transition_from_visual() {
    let mut manager = ModeManager::new();
    manager.enter_visual(Position::new(0, 0));

    assert!(manager.can_transition_to(&Mode::Normal));
    assert!(manager.can_transition_to(&Mode::Insert));
    assert!(!manager.can_transition_to(&Mode::Visual {
        start: Position::new(1, 1)
    }));
    assert!(!manager.can_transition_to(&Mode::Command {
        input: String::new()
    }));
}

#[test]
fn test_can_transition_from_command() {
    let mut manager = ModeManager::new();
    manager.enter_command();

    assert!(manager.can_transition_to(&Mode::Normal));
    assert!(!manager.can_transition_to(&Mode::Insert));
    assert!(!manager.can_transition_to(&Mode::Visual {
        start: Position::new(0, 0)
    }));
    assert!(!manager.can_transition_to(&Mode::Command {
        input: String::new()
    }));
}

#[test]
fn test_try_transition_to_success() {
    let mut manager = ModeManager::new();

    let result = manager.try_transition_to(Mode::Insert);
    assert!(result.is_ok());
    assert!(manager.current().is_insert());
}

#[test]
fn test_try_transition_to_failure() {
    let mut manager = ModeManager::new();
    manager.enter_insert();

    let result = manager.try_transition_to(Mode::Visual {
        start: Position::new(0, 0),
    });
    assert!(result.is_err());
    assert!(manager.current().is_insert());
}

#[test]
fn test_update_command_input() {
    let mut manager = ModeManager::new();
    manager.enter_command();

    let result = manager.update_command_input("w".to_string());
    assert!(result.is_ok());

    if let Mode::Command { input } = manager.current() {
        assert_eq!(input, "w");
    } else {
        panic!("Expected Command mode");
    }
}

#[test]
fn test_update_command_input_wrong_mode() {
    let mut manager = ModeManager::new();

    let result = manager.update_command_input("w".to_string());
    assert!(result.is_err());
}

// A trigger that only means something in another mode leaves the mode
// unchanged: transitions happen along the table alone.
#[test]
fn foreign_triggers_change_nothing() {
    let mut manager = ModeManager::new();
    manager.enter_insert();
    manager.enter_visual(Position::new(0, 0));
    assert!(manager.current().is_insert());
    manager.enter_command();
    assert!(manager.current().is_insert());
    manager.enter_insert();
    assert!(manager.current().is_insert());
}
