//! The key-to-command mapping: a pure function of the current mode and the
//! pressed key.
//!
//! Keys are modelled by the library's own [`Key`] type — a key code plus a
//! modifier — so the mapping itself carries no terminal dependency; the host
//! converts its input events into this shape. Unrecognized input maps to
//! `Noop`, never to an error.

use vstd::prelude::*;

use crate::vim::command::VimCommand;
use crate::vim::mode::Mode;

verus! {

#[derive(Debug, Clone, Copy, PartialEq, Eq, Structural)]
pub enum KeyCode {
    Char(char),
    Esc,
    Enter,
    Backspace,
    Tab,
    Left,
    Right,
    Up,
    Down,
    Other,
}

#[derive(Debug, Clone, Copy, PartialEq, Eq, Structural)]
pub enum KeyModifiers {
    Plain,
    Shift,
    Control,
}

#[derive(Debug, Clone, Copy, PartialEq, Eq, Structural)]
pub struct Key {
    pub code: KeyCode,
    pub modifiers: KeyModifiers,
}

impl Key {
    pub fn new(code: KeyCode, modifiers: KeyModifiers) -> (r: Self)
        ensures
            r == (Key { code, modifiers }),
    {
        Self { code, modifiers }
    }

    pub fn char(c: char) -> (r: Self)
        ensures
            r == (Key { code: KeyCode::Char(c), modifiers: KeyModifiers::Plain }),
    {
        Self { code: KeyCode::Char(c), modifiers: KeyModifiers::Plain }
    }

    pub fn ctrl(c: char) -> (r: Self)
        ensures
            r == (Key { code: KeyCode::Char(c), modifiers: KeyModifiers::Control }),
    {
        Self { code: KeyCode::Char(c), modifiers: KeyModifiers::Control }
    }

    pub fn escape() -> (r: Self)
        ensures
            r == (Key { code: KeyCode::Esc, modifiers: KeyModifiers::Plain }),
    {
        Self { code: KeyCode::Esc, modifiers: KeyModifiers::Plain }
    }

    pub fn enter() -> (r: Self)
        ensures
            r == (Key { code: KeyCode::Enter, modifiers: KeyModifiers::Plain }),
    {
        Self { code: KeyCode::Enter, modifiers: KeyModifiers::Plain }
    }

    pub fn backspace() -> (r: Self)
        ensures
            r == (Key { code: KeyCode::Backspace, modifiers: KeyModifiers::Plain }),
    {
        Self { code: KeyCode::Backspace, modifiers: KeyModifiers::Plain }
    }
}

/// The Normal-mode mapping for a plain character key.
pub open spec fn spec_map_normal_char(c: char) -> VimCommand {
    if c == 'h' {
        VimCommand::MoveLeft
    } else if c == 'j' {
        VimCommand::MoveDown
    } else if c == 'k' {
        VimCommand::MoveUp
    } else if c == 'l' {
        VimCommand::MoveRight
    } else if c == '0' {
        VimCommand::MoveLineStart
    } else if c == '$' {
        VimCommand::MoveLineEnd
    } else if c == 'w' {
        VimCommand::MoveWordForward
    } else if c == 'b' {
        VimCommand::MoveWordBackward
    } else if c == 'i' {
        VimCommand::EnterInsert
    } else if c == 'a' {
        VimCommand::EnterInsertAfter
    } else if c == 'o' {
        VimCommand::EnterInsertNewLine
    } else if c == 'v' {
        VimCommand::EnterVisual
    } else if c == ':' {
        VimCommand::EnterCommand
    } else if c == 'x' {
        VimCommand::DeleteChar
    } else if c == 'd' {
        VimCommand::DeleteLine
    } else if c == 'u' {
        VimCommand::Undo
    } else {
        VimCommand::Noop
    }
}

/// The mapping for a key pressed with Control held.
pub open spec fn spec_map_ctrl(key: Key) -> VimCommand {
    match key.code {
        KeyCode::Char(c) => if c == 'r' {
            VimCommand::Redo
        } else if c == 'f' {
            VimCommand::MoveBufferEnd
        } else if c == 'b' {
            VimCommand::MoveBufferStart
        } else {
            VimCommand::Noop
        },
        _ => VimCommand::Noop,
    }
}

/// The Normal-mode mapping.
pub open spec fn spec_map_normal(key: Key) -> VimCommand {
    if key.modifiers is Control {
        spec_map_ctrl(key)
    } else {
        match key.code {
            KeyCode::Char(c) => spec_map_normal_char(c),
            KeyCode::Left => VimCommand::MoveLeft,
            KeyCode::Down => VimCommand::MoveDown,
            KeyCode::Up => VimCommand::MoveUp,
            KeyCode::Right => VimCommand::MoveRight,
            _ => VimCommand::Noop,
        }
    }
}

/// The Insert-mode mapping: characters insert themselves.
pub open spec fn spec_map_insert(key: Key) -> VimCommand {
    match key.code {
        KeyCode::Esc => VimCommand::ExitToNormal,
        KeyCode::Char(c) => VimCommand::InsertChar(c),
        KeyCode::Enter => VimCommand::NewLine,
        KeyCode::Backspace => VimCommand::DeleteCharBackward,
        _ => VimCommand::Noop,
    }
}

/// The Visual-mode mapping: movement, escape, and entry into Insert.
pub open spec fn spec_map_visual(key: Key) -> VimCommand {
    match key.code {
        KeyCode::Esc => VimCommand::ExitToNormal,
        KeyCode::Char(c) => if c == 'i' {
            VimCommand::EnterInsert
        } else if c == 'h' {
            VimCommand::MoveLeft
        } else if c == 'j' {
            VimCommand::MoveDown
        } else if c == 'k' {
            VimCommand::MoveUp
        } else if c == 'l' {
            VimCommand::MoveRight
        } else {
            VimCommand::Noop
        },
        _ => VimCommand::Noop,
    }
}

/// The Command-mode mapping: characters extend the command line, Enter
/// executes it.
pub open spec fn spec_map_command(key: Key, mode: Mode) -> VimCommand {
    match key.code {
        KeyCode::Esc => VimCommand::ExitToNormal,
        KeyCode::Enter => match mode {
            Mode::Command { input } => VimCommand::ExecuteCommand(input),
            _ => VimCommand::ExitToNormal,
        },
        KeyCode::Char(c) => VimCommand::CommandInput(c),
        KeyCode::Backspace => VimCommand::CommandBackspace,
        _ => VimCommand::Noop,
    }
}

/// The whole key-to-command mapping, conditioned on the current mode.
pub open spec fn spec_map_key(key: Key, mode: Mode) -> VimCommand {
    match mode {
        Mode::Normal => spec_map_normal(key),
        Mode::Insert => spec_map_insert(key),
        Mode::Visual { .. } => spec_map_visual(key),
        Mode::Command { .. } => spec_map_command(key, mode),
    }
}

pub struct KeyMapper {}

impl KeyMapper {
    pub fn new() -> Self {
        Self {  }
    }

    /// Resolves a key in the given mode; the mode itself is never changed
    /// here.
    pub fn map_key(&self, key: &Key, mode: &Mode) -> (r: VimCommand)
        ensures
            r == spec_map_key(*key, *mode),
    {
        match mode {
            Mode::Normal => self.map_normal_mode(key),
            Mode::Insert => self.map_insert_mode(key),
            Mode::Visual { .. } => self.map_visual_mode(key),
            Mode::Command { .. } => self.map_command_mode(key, mode),
        }
    }

    fn map_normal_mode(&self, key: &Key) -> (r: VimCommand)
        ensures
            r == spec_map_normal(*key),
    {
        if matches!(key.modifiers, KeyModifiers::Control) {
            return self.map_ctrl_keys(key);
        }
        match key.code {
            KeyCode::Char(c) => {
                if c == 'h' {
                    VimCommand::MoveLeft
                } else if c == 'j' {
                    VimCommand::MoveDown
                } else if c == 'k' {
                    VimCommand::MoveUp
                } else if c == 'l' {
                    VimCommand::MoveRight
                } else if c == '0' {
                    VimCommand::MoveLineStart
                } else if c == '$' {
                    VimCommand::MoveLineEnd
                } else if c == 'w' {
                    VimCommand::MoveWordForward
                } else if c == 'b' {
                    VimCommand::MoveWordBackward
                } else if c == 'i' {
                    VimCommand::EnterInsert
                } else if c == 'a' {
                    VimCommand::EnterInsertAfter
                } else if c == 'o' {
                    VimCommand::EnterInsertNewLine
                } else if c == 'v' {
                    VimCommand::EnterVisual
                } else if c == ':' {
                    VimCommand::EnterCommand
                } else if c == 'x' {
                    VimCommand::DeleteChar
                } else if c == 'd' {
                    VimCommand::DeleteLine
                } else if c == 'u' {
                    VimCommand::Undo
                } else {
                    VimCommand::Noop
                }
            },
            KeyCode::Left => VimCommand::MoveLeft,
            KeyCode::Down => VimCommand::MoveDown,
            KeyCode::Up => VimCommand::MoveUp,
            KeyCode::Right => VimCommand::MoveRight,
            _ => VimCommand::Noop,
        }
    }

    fn map_insert_mode(&self, key: &Key) -> (r: VimCommand)
        ensures
            r == spec_map_insert(*key),
    {
        match key.code {
            KeyCode::Esc => VimCommand::ExitToNormal,
            KeyCode::Char(c) => VimCommand::InsertChar(c),
            KeyCode::Enter => VimCommand::NewLine,
            KeyCode::Backspace => VimCommand::DeleteCharBackward,
            _ => VimCommand::Noop,
        }
    }

    fn map_visual_mode(&self, key: &Key) -> (r: VimCommand)
        ensures
            r == spec_map_visual(*key),
    {
        match key.code {
            KeyCode::Esc => VimCommand::ExitToNormal,
            KeyCode::Char(c) => {
                if c == 'i' {
                    VimCommand::EnterInsert
                } else if c == 'h' {
                    VimCommand::MoveLeft
                } else if c == 'j' {
                    VimCommand::MoveDown
                } else if c == 'k' {
                    VimCommand::MoveUp
                } else if c == 'l' {
                    VimCommand::MoveRight
                } else {
                    VimCommand::Noop
                }
            },
            _ => VimCommand::Noop,
        }
    }

    fn map_command_mode(&self, key: &Key, mode: &Mode) -> (r: VimCommand)
        ensures
            r == spec_map_command(*key, *mode),
    {
        match key.code {
            KeyCode::Esc => VimCommand::ExitToNormal,
            KeyCode::Enter => {
                if let Mode::Command { input } = mode {
                    VimCommand::ExecuteCommand(input.clone())
                } else {
                    VimCommand::ExitToNormal
                }
            },
            KeyCode::Char(c) => VimCommand::CommandInput(c),
            KeyCode::Backspace => VimCommand::CommandBackspace,
            _ => VimCommand::Noop,
        }
    }

    fn map_ctrl_keys(&self, key: &Key) -> (r: VimCommand)
        ensures
            r == spec_map_ctrl(*key),
    {
        match key.code {
            KeyCode::Char(c) => {
                if c == 'r' {
                    VimCommand::Redo
                } else if c == 'f' {
                    VimCommand::MoveBufferEnd
                } else if c == 'b' {
                    VimCommand::MoveBufferStart
                } else {
                    VimCommand::Noop
                }
            },
            _ => VimCommand::Noop,
        }
    }
}

impl Default for KeyMapper {
    fn default() -> Self {
        Self::new()
    }
}

} // verus!
