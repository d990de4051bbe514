//! Key parsing and command execution over the plain-value domain: the
//! command vocabulary, the binding of keys to commands per mode, and the
//! executor applying commands to a [`CursorPosition`] and [`TextBuffer`].
//!
//! The executor's whole effect is captured by the spec-level step functions
//! [`spec_step_buffer`], [`spec_step_cursor`] and [`spec_step_err`], which
//! the editor state layer reuses.

use vstd::prelude::*;
use vstd::string::*;

use crate::domain::cursor::CursorPosition;
use crate::domain::editor_mode::{EditorMode, ModeManager, spec_key_target};
use crate::domain::text_buffer::{TextBuffer, row_oob_msg, col_oob_msg, make_row_oob_msg};
use crate::editor::buffer::{BufferView, spec_insert_char, spec_delete_char, spec_insert_line,
    spec_delete_line, spec_undo, spec_redo};
use crate::vim::command::spec_backspace_join;
use crate::vim::keymap::{Key, KeyCode, KeyModifiers};

verus! {

#[derive(Debug, Clone, PartialEq)]
pub enum VimCommand {
    // Movement commands
    MoveLeft,
    MoveRight,
    MoveUp,
    MoveDown,
    MoveWordForward,
    MoveWordBackward,
    MoveLineStart,
    MoveLineEnd,
    MoveBufferStart,
    MoveBufferEnd,
    // Mode transitions
    EnterInsertMode,
    EnterInsertModeAfter,
    EnterInsertModeNewLine,
    EnterInsertModeNewLineAbove,
    EnterVisualMode,
    EnterCommandMode,
    ExitToNormal,
    // Edit commands
    InsertChar(char),
    DeleteChar,
    Backspace,
    DeleteLine,
    Undo,
    Redo,
    // File operations
    Save,
    Quit,
    SaveAndQuit,
    ForceQuit,
    // Special
    PageUp,
    PageDown,
    // Command line
    CommandChar(char),
    CommandBackspace,
    CommandExecute,
    Unknown,
}

/// `n + 1` over the integers, stopped at the top of `usize`.
pub open spec fn spec_inc_int(n: int) -> int {
    if n < usize::MAX {
        n + 1
    } else {
        n
    }
}

/// What executing a command does to the buffer.
pub open spec fn spec_step_buffer(bv: BufferView, row: int, col: int, cmd: VimCommand) -> BufferView {
    match cmd {
        VimCommand::InsertChar(c) => if c == '\n' {
            if row < bv.lines.len() {
                spec_insert_line(bv, row + 1)
            } else {
                bv
            }
        } else {
            if row < bv.lines.len() && col <= bv.lines[row].len() {
                spec_insert_char(bv, row, col, c)
            } else {
                bv
            }
        },
        VimCommand::DeleteChar => if row < bv.lines.len() && col < bv.lines[row].len() {
            spec_delete_char(bv, row, col)
        } else {
            bv
        },
        VimCommand::Backspace => if col > 0 {
            if row < bv.lines.len() && col - 1 < bv.lines[row].len() {
                spec_delete_char(bv, row, col - 1)
            } else {
                bv
            }
        } else if row > 0 && row < bv.lines.len() {
            spec_backspace_join(bv, row)
        } else {
            bv
        },
        VimCommand::DeleteLine => if row < bv.lines.len() {
            spec_delete_line(bv, row)
        } else {
            bv
        },
        VimCommand::Undo => if bv.undo_stack.len() > 0 {
            spec_undo(bv)
        } else {
            bv
        },
        VimCommand::Redo => if bv.redo_stack.len() > 0 {
            spec_redo(bv)
        } else {
            bv
        },
        _ => bv,
    }
}

/// What executing a command does to the cursor.
pub open spec fn spec_step_cursor(bv: BufferView, row: int, col: int, cmd: VimCommand) -> (
    int,
    int,
) {
    let len = bv.lines.len() as int;
    match cmd {
        VimCommand::MoveLeft => (row, if col > 0 { col - 1 } else { 0 }),
        VimCommand::MoveRight => {
            let l = if row < len { bv.lines[row].len() as int } else { 0 };
            (row, if col < l {
                col + 1
            } else if col > l && l > 0 {
                l - 1
            } else {
                col
            })
        },
        VimCommand::MoveUp => (if row > 0 { row - 1 } else { row }, col),
        VimCommand::MoveDown => (if len > 0 && row < len - 1 { row + 1 } else { row }, col),
        VimCommand::MoveLineStart => (row, 0),
        VimCommand::MoveLineEnd => (row, if row < len { bv.lines[row].len() as int } else { 0 }),
        VimCommand::MoveBufferStart => (0, 0),
        VimCommand::MoveBufferEnd => if len > 0 {
            (len - 1, bv.lines[len - 1].len() as int)
        } else {
            (row, col)
        },
        VimCommand::InsertChar(c) => if c == '\n' {
            if row < len {
                (row + 1, 0)
            } else {
                (row, col)
            }
        } else {
            if row < len && col <= bv.lines[row].len() {
                (row, col + 1)
            } else {
                (row, col)
            }
        },
        VimCommand::Backspace => if col > 0 {
            (row, col - 1)
        } else if row > 0 && row < len {
            (row - 1, bv.lines[row - 1].len() + bv.lines[row].len() as int)
        } else {
            (row, col)
        },
        VimCommand::DeleteLine => if row < len {
            (row, 0)
        } else {
            (row, col)
        },
        _ => (row, col),
    }
}

/// The error message a command reports, if any.
pub open spec fn spec_step_err(bv: BufferView, row: int, col: int, cmd: VimCommand) -> Option<
    Seq<char>,
> {
    let len = bv.lines.len() as int;
    match cmd {
        VimCommand::InsertChar(c) => if c == '\n' {
            if row >= len {
                Some(row_oob_msg(spec_inc_int(row)))
            } else {
                None
            }
        } else {
            if row >= len {
                Some(row_oob_msg(row))
            } else if col > bv.lines[row].len() {
                Some(col_oob_msg(row, col))
            } else {
                None
            }
        },
        VimCommand::DeleteChar => if row >= len {
            Some(row_oob_msg(row))
        } else {
            None
        },
        VimCommand::Backspace => if col > 0 {
            if row >= len {
                Some(row_oob_msg(row))
            } else {
                None
            }
        } else if row > 0 && row >= len {
            Some(row_oob_msg(row))
        } else {
            None
        },
        VimCommand::DeleteLine => if row >= len {
            Some(row_oob_msg(row))
        } else {
            None
        },
        VimCommand::Undo => if bv.undo_stack.len() == 0 {
            Some("Nothing to undo"@)
        } else {
            None
        },
        VimCommand::Redo => if bv.redo_stack.len() == 0 {
            Some("Nothing to redo"@)
        } else {
            None
        },
        _ => None,
    }
}

/// The command a key resolves to in Normal mode.
pub open spec fn spec_parse_normal(key: Key) -> VimCommand {
    match key {
        Key { code: KeyCode::Char(c), modifiers: KeyModifiers::Plain } => if c == 'h' {
            VimCommand::MoveLeft
        } else if c == 'j' {
            VimCommand::MoveDown
        } else if c == 'k' {
            VimCommand::MoveUp
        } else if c == 'l' {
            VimCommand::MoveRight
        } else if c == 'w' {
            VimCommand::MoveWordForward
        } else if c == 'b' {
            VimCommand::MoveWordBackward
        } else if c == '0' {
            VimCommand::MoveLineStart
        } else if c == '$' {
            VimCommand::MoveLineEnd
        } else if c == 'g' {
            VimCommand::MoveBufferStart
        } else if c == 'i' {
            VimCommand::EnterInsertMode
        } else if c == 'a' {
            VimCommand::EnterInsertModeAfter
        } else if c == 'o' {
            VimCommand::EnterInsertModeNewLine
        } else if c == 'v' {
            VimCommand::EnterVisualMode
        } else if c == ':' {
            VimCommand::EnterCommandMode
        } else if c == 'x' {
            VimCommand::DeleteChar
        } else if c == 'd' {
            VimCommand::DeleteLine
        } else if c == 'u' {
            VimCommand::Undo
        } else {
            VimCommand::Unknown
        },
        Key { code: KeyCode::Char(c), modifiers: KeyModifiers::Shift } => if c == 'G' {
            VimCommand::MoveBufferEnd
        } else if c == 'O' {
            VimCommand::EnterInsertModeNewLineAbove
        } else {
            VimCommand::Unknown
        },
        Key { code: KeyCode::Char(c), modifiers: KeyModifiers::Control } => if c == 'r' {
            VimCommand::Redo
        } else if c == 'f' {
            VimCommand::PageDown
        } else if c == 'b' {
            VimCommand::PageUp
        } else {
            VimCommand::Unknown
        },
        _ => VimCommand::Unknown,
    }
}

/// The command a key resolves to in Insert mode.
pub open spec fn spec_parse_insert(key: Key) -> VimCommand {
    match key {
        Key { code: KeyCode::Esc, .. } => VimCommand::ExitToNormal,
        Key { code: KeyCode::Char(c), modifiers: KeyModifiers::Plain } => VimCommand::InsertChar(
            c,
        ),
        Key { code: KeyCode::Char(c), modifiers: KeyModifiers::Shift } => VimCommand::InsertChar(
            c,
        ),
        Key { code: KeyCode::Backspace, .. } => VimCommand::Backspace,
        Key { code: KeyCode::Enter, .. } => VimCommand::InsertChar('\n'),
        Key { code: KeyCode::Tab, .. } => VimCommand::InsertChar('\t'),
        _ => VimCommand::Unknown,
    }
}

/// The command a key resolves to in Visual mode.
pub open spec fn spec_parse_visual(key: Key) -> VimCommand {
    match key {
        Key { code: KeyCode::Esc, .. } => VimCommand::ExitToNormal,
        Key { code: KeyCode::Char(c), modifiers: KeyModifiers::Plain } => if c == 'h' {
            VimCommand::MoveLeft
        } else if c == 'j' {
            VimCommand::MoveDown
        } else if c == 'k' {
            VimCommand::MoveUp
        } else if c == 'l' {
            VimCommand::MoveRight
        } else {
            VimCommand::Unknown
        },
        _ => VimCommand::Unknown,
    }
}

/// The command a key resolves to in Command mode.
pub open spec fn spec_parse_command(key: Key) -> VimCommand {
    match key {
        Key { code: KeyCode::Esc, .. } => VimCommand::ExitToNormal,
        Key { code: KeyCode::Enter, .. } => VimCommand::CommandExecute,
        Key { code: KeyCode::Backspace, .. } => VimCommand::CommandBackspace,
        Key { code: KeyCode::Char(c), modifiers: KeyModifiers::Plain } => VimCommand::CommandChar(
            c,
        ),
        Key { code: KeyCode::Char(c), modifiers: KeyModifiers::Shift } => VimCommand::CommandChar(
            c,
        ),
        _ => VimCommand::Unknown,
    }
}

/// The command a key resolves to, given the current mode.
pub open spec fn spec_parse_key(m: EditorMode, key: Key) -> VimCommand {
    match m {
        EditorMode::Normal => spec_parse_normal(key),
        EditorMode::Insert => spec_parse_insert(key),
        EditorMode::Visual => spec_parse_visual(key),
        EditorMode::Command => spec_parse_command(key),
    }
}

/// The mode after a key was parsed: parsing performs the mode transitions
/// its command implies.
pub open spec fn spec_mode_after_key(m: EditorMode, key: Key) -> EditorMode {
    match m {
        EditorMode::Normal => match key {
            Key { code: KeyCode::Char(c), modifiers: KeyModifiers::Plain } => match spec_key_target(
                m,
                c,
            ) {
                Some(t) => if c == 'i' || c == 'a' || c == 'o' || c == 'v' || c == ':' {
                    t
                } else {
                    m
                },
                None => m,
            },
            Key { code: KeyCode::Char(c), modifiers: KeyModifiers::Shift } => if c == 'O' {
                EditorMode::Insert
            } else {
                m
            },
            _ => m,
        },
        _ => match key.code {
            KeyCode::Esc => EditorMode::Normal,
            _ => m,
        },
    }
}

pub struct VimBindings {
    mode_manager: ModeManager,
}

impl VimBindings {
    pub closed spec fn spec_mode(&self) -> EditorMode {
        self.mode_manager.spec_current()
    }

    pub fn new() -> (r: Self)
        ensures
            r.spec_mode() == EditorMode::Normal,
    {
        Self { mode_manager: ModeManager::new() }
    }

    pub fn current_mode(&self) -> (r: &EditorMode)
        ensures
            *r == self.spec_mode(),
    {
        self.mode_manager.current_mode()
    }

    /// Resolves a key to a command and performs the mode transition the key
    /// implies.
    pub fn parse_key(&mut self, key: Key) -> (r: VimCommand)
        ensures
            r == spec_parse_key(old(self).spec_mode(), key),
            final(self).spec_mode() == spec_mode_after_key(old(self).spec_mode(), key),
    {
        match self.mode_manager.current_mode() {
            EditorMode::Normal => self.parse_normal_mode_key(key),
            EditorMode::Insert => self.parse_insert_mode_key(key),
            EditorMode::Visual => self.parse_visual_mode_key(key),
            EditorMode::Command => self.parse_command_mode_key(key),
        }
    }

    fn parse_normal_mode_key(&mut self, key: Key) -> (r: VimCommand)
        requires
            old(self).spec_mode() == EditorMode::Normal,
        ensures
            r == spec_parse_normal(key),
            final(self).spec_mode() == spec_mode_after_key(old(self).spec_mode(), key),
    {
        match (key.code, key.modifiers) {
            (KeyCode::Char(c), KeyModifiers::Plain) => {
                if c == 'h' {
                    VimCommand::MoveLeft
                } else if c == 'j' {
                    VimCommand::MoveDown
                } else if c == 'k' {
                    VimCommand::MoveUp
                } else if c == 'l' {
                    VimCommand::MoveRight
                } else if c == 'w' {
                    VimCommand::MoveWordForward
                } else if c == 'b' {
                    VimCommand::MoveWordBackward
                } else if c == '0' {
                    VimCommand::MoveLineStart
                } else if c == '$' {
                    VimCommand::MoveLineEnd
                } else if c == 'g' {
                    VimCommand::MoveBufferStart
                } else if c == 'i' {
                    self.mode_manager.transition_with_key('i');
                    VimCommand::EnterInsertMode
                } else if c == 'a' {
                    self.mode_manager.transition_with_key('a');
                    VimCommand::EnterInsertModeAfter
                } else if c == 'o' {
                    self.mode_manager.transition_with_key('o');
                    VimCommand::EnterInsertModeNewLine
                } else if c == 'v' {
                    self.mode_manager.transition_with_key('v');
                    VimCommand::EnterVisualMode
                } else if c == ':' {
                    self.mode_manager.transition_with_key(':');
                    VimCommand::EnterCommandMode
                } else if c == 'x' {
                    VimCommand::DeleteChar
                } else if c == 'd' {
                    VimCommand::DeleteLine
                } else if c == 'u' {
                    VimCommand::Undo
                } else {
                    VimCommand::Unknown
                }
            },
            (KeyCode::Char(c), KeyModifiers::Shift) => {
                if c == 'G' {
                    VimCommand::MoveBufferEnd
                } else if c == 'O' {
                    self.mode_manager.transition_with_key('O');
                    VimCommand::EnterInsertModeNewLineAbove
                } else {
                    VimCommand::Unknown
                }
            },
            (KeyCode::Char(c), KeyModifiers::Control) => {
                if c == 'r' {
                    VimCommand::Redo
                } else if c == 'f' {
                    VimCommand::PageDown
                } else if c == 'b' {
                    VimCommand::PageUp
                } else {
                    VimCommand::Unknown
                }
            },
            _ => VimCommand::Unknown,
        }
    }

    fn parse_insert_mode_key(&mut self, key: Key) -> (r: VimCommand)
        requires
            old(self).spec_mode() == EditorMode::Insert,
        ensures
            r == spec_parse_insert(key),
            final(self).spec_mode() == spec_mode_after_key(old(self).spec_mode(), key),
    {
        match (key.code, key.modifiers) {
            (KeyCode::Esc, _) => {
                self.mode_manager.transition_with_escape();
                VimCommand::ExitToNormal
            },
            (KeyCode::Char(c), KeyModifiers::Plain) => VimCommand::InsertChar(c),
            (KeyCode::Char(c), KeyModifiers::Shift) => VimCommand::InsertChar(c),
            (KeyCode::Backspace, _) => VimCommand::Backspace,
            (KeyCode::Enter, _) => VimCommand::InsertChar('\n'),
            (KeyCode::Tab, _) => VimCommand::InsertChar('\t'),
            _ => VimCommand::Unknown,
        }
    }

    fn parse_visual_mode_key(&mut self, key: Key) -> (r: VimCommand)
        requires
            old(self).spec_mode() == EditorMode::Visual,
        ensures
            r == spec_parse_visual(key),
            final(self).spec_mode() == spec_mode_after_key(old(self).spec_mode(), key),
    {
        match (key.code, key.modifiers) {
            (KeyCode::Esc, _) => {
                self.mode_manager.transition_with_escape();
                VimCommand::ExitToNormal
            },
            (KeyCode::Char(c), KeyModifiers::Plain) => {
                if c == 'h' {
                    VimCommand::MoveLeft
                } else if c == 'j' {
                    VimCommand::MoveDown
                } else if c == 'k' {
                    VimCommand::MoveUp
                } else if c == 'l' {
                    VimCommand::MoveRight
                } else {
                    VimCommand::Unknown
                }
            },
            _ => VimCommand::Unknown,
        }
    }

    fn parse_command_mode_key(&mut self, key: Key) -> (r: VimCommand)
        requires
            old(self).spec_mode() == EditorMode::Command,
        ensures
            r == spec_parse_command(key),
            final(self).spec_mode() == spec_mode_after_key(old(self).spec_mode(), key),
    {
        match (key.code, key.modifiers) {
            (KeyCode::Esc, _) => {
                self.mode_manager.transition_with_escape();
                VimCommand::ExitToNormal
            },
            (KeyCode::Enter, _) => VimCommand::CommandExecute,
            (KeyCode::Backspace, _) => VimCommand::CommandBackspace,
            (KeyCode::Char(c), KeyModifiers::Plain) => VimCommand::CommandChar(c),
            (KeyCode::Char(c), KeyModifiers::Shift) => VimCommand::CommandChar(c),
            _ => VimCommand::Unknown,
        }
    }

    /// Applies an editing or movement command to the cursor and buffer; the
    /// whole effect is [`spec_step_buffer`] / [`spec_step_cursor`] /
    /// [`spec_step_err`]. Mode, file and command-line commands are no-ops
    /// here.
    pub fn execute_command(
        &self,
        command: VimCommand,
        cursor: &mut CursorPosition,
        buffer: &mut TextBuffer,
    ) -> (r: Result<(), String>)
        ensures
            old(buffer).wf() ==> final(buffer).wf(),
            final(buffer)@ == spec_step_buffer(
                old(buffer)@,
                old(cursor).row as int,
                old(cursor).col as int,
                command,
            ),
            ({
                let (r2, c2) = spec_step_cursor(
                    old(buffer)@,
                    old(cursor).row as int,
                    old(cursor).col as int,
                    command,
                );
                final(cursor).row == r2 && final(cursor).col == c2
            }),
            (match spec_step_err(
                old(buffer)@,
                old(cursor).row as int,
                old(cursor).col as int,
                command,
            ) {
                Some(m) => r matches Err(e) && e@ == m,
                None => r is Ok,
            }),
    {
        match command {
            VimCommand::MoveLeft => {
                cursor.move_left();
                Ok(())
            },
            VimCommand::MoveRight => {
                let line_length = buffer.get_line_length(cursor.row);
                cursor.move_right(line_length);
                if cursor.col > line_length && line_length > 0 {
                    cursor.col = line_length - 1;
                }
                Ok(())
            },
            VimCommand::MoveUp => {
                cursor.move_up();
                Ok(())
            },
            VimCommand::MoveDown => {
                cursor.move_down(buffer.line_count());
                Ok(())
            },
            VimCommand::MoveLineStart => {
                cursor.move_to_line_start();
                Ok(())
            },
            VimCommand::MoveLineEnd => {
                let line_length = buffer.get_line_length(cursor.row);
                cursor.move_to_line_end(line_length);
                Ok(())
            },
            VimCommand::MoveBufferStart => {
                cursor.move_to_buffer_start();
                Ok(())
            },
            VimCommand::MoveBufferEnd => {
                let count = buffer.line_count();
                let last_line_length = if count > 0 {
                    buffer.get_line_length(count - 1)
                } else {
                    0
                };
                cursor.move_to_buffer_end(count, last_line_length);
                Ok(())
            },
            VimCommand::InsertChar(c) => {
                if c == '\n' {
                    let count = buffer.line_count();
                    if cursor.row >= count {
                        let next: usize = if cursor.row < usize::MAX {
                            cursor.row + 1
                        } else {
                            cursor.row
                        };
                        return Err(make_row_oob_msg(next));
                    }
                    match buffer.insert_line(cursor.row + 1) {
                        Ok(()) => {},
                        Err(e) => {
                            return Err(e);
                        },
                    }
                    cursor.move_down(buffer.line_count());
                    cursor.move_to_line_start();
                } else {
                    match buffer.insert_char(cursor.row, cursor.col, c) {
                        Ok(()) => {},
                        Err(e) => {
                            return Err(e);
                        },
                    }
                    cursor.move_right(buffer.get_line_length(cursor.row));
                }
                Ok(())
            },
            VimCommand::DeleteChar => {
                match buffer.delete_char(cursor.row, cursor.col) {
                    Ok(_) => Ok(()),
                    Err(e) => Err(e),
                }
            },
            VimCommand::Backspace => self.execute_backspace(cursor, buffer),
            VimCommand::DeleteLine => {
                match buffer.delete_line(cursor.row) {
                    Ok(_) => {},
                    Err(e) => {
                        return Err(e);
                    },
                }
                cursor.move_to_line_start();
                Ok(())
            },
            VimCommand::Undo => {
                match buffer.undo() {
                    Ok(()) => Ok(()),
                    Err(e) => Err(e),
                }
            },
            VimCommand::Redo => {
                match buffer.redo() {
                    Ok(()) => Ok(()),
                    Err(e) => Err(e),
                }
            },
            _ => Ok(()),
        }
    }

    /// Backspace over the domain buffer: delete left of the cursor, or join
    /// the current line onto the previous one character by character.
    fn execute_backspace(&self, cursor: &mut CursorPosition, buffer: &mut TextBuffer) -> (r:
        Result<(), String>)
        ensures
            old(buffer).wf() ==> final(buffer).wf(),
            final(buffer)@ == spec_step_buffer(
                old(buffer)@,
                old(cursor).row as int,
                old(cursor).col as int,
                VimCommand::Backspace,
            ),
            ({
                let (r2, c2) = spec_step_cursor(
                    old(buffer)@,
                    old(cursor).row as int,
                    old(cursor).col as int,
                    VimCommand::Backspace,
                );
                final(cursor).row == r2 && final(cursor).col == c2
            }),
            (match spec_step_err(
                old(buffer)@,
                old(cursor).row as int,
                old(cursor).col as int,
                VimCommand::Backspace,
            ) {
                Some(m) => r matches Err(e) && e@ == m,
                None => r is Ok,
            }),
    {
        let ghost orig = old(buffer)@;
        if cursor.col > 0 {
            cursor.move_left();
            match buffer.delete_char(cursor.row, cursor.col) {
                Ok(_) => Ok(()),
                Err(e) => Err(e),
            }
        } else if cursor.row > 0 {
            if cursor.row >= buffer.line_count() {
                return Err(make_row_oob_msg(cursor.row));
            }
            let ghost row = cursor.row as int;
            let current_line: String = match buffer.get_line(cursor.row) {
                Some(l) => l.clone(),
                None => String::new(),
            };
            let prev_len = buffer.get_line_length(cursor.row - 1);
            match buffer.delete_line(cursor.row) {
                Ok(_) => {},
                Err(e) => {
                    return Err(e);
                },
            }
            cursor.row = cursor.row - 1;
            cursor.col = prev_len;
            let ghost content = orig.lines[row];
            let ghost after_delete = buffer@;
            let n = current_line.as_str().unicode_len();
            let mut k: usize = 0;
            proof {
                assert(crate::vim::command::spec_join_actions(row, prev_len as int, content).take(
                    0,
                ) =~= Seq::<crate::editor::buffer::ActionView>::empty());
                assert(after_delete.undo_stack + Seq::<
                    crate::editor::buffer::ActionView,
                >::empty() =~= after_delete.undo_stack);
                assert(after_delete.lines[row - 1] + content.take(0) =~= after_delete.lines[row
                    - 1]);
                assert(after_delete.lines.update(row - 1, after_delete.lines[row - 1])
                    =~= after_delete.lines);
            }
            while k < n
                invariant
                    old(buffer).wf() ==> buffer.wf(),
                    0 <= k <= n,
                    n == content.len(),
                    current_line@ == content,
                    0 < row < orig.lines.len(),
                    orig.lines.len() >= 2,
                    prev_len == orig.lines[row - 1].len(),
                    after_delete == spec_delete_line(orig, row),
                    after_delete.lines.len() == orig.lines.len() - 1,
                    after_delete.lines[row - 1] == orig.lines[row - 1],
                    cursor.row == row - 1,
                    cursor.col == prev_len + k,
                    buffer@ == (BufferView {
                        lines: after_delete.lines.update(
                            row - 1,
                            after_delete.lines[row - 1] + content.take(k as int),
                        ),
                        modified: true,
                        undo_stack: after_delete.undo_stack
                            + crate::vim::command::spec_join_actions(
                            row,
                            prev_len as int,
                            content,
                        ).take(k as int),
                        redo_stack: Seq::empty(),
                        file_path: after_delete.file_path,
                    }),
                decreases n - k,
            {
                let ch = current_line.as_str().get_char(k);
                let ghost before = buffer@;
                let res = buffer.insert_char(cursor.row, cursor.col, ch);
                proof {
                    assert(before.lines[row - 1].len() == prev_len + k);
                    assert(res is Ok);
                    assert(ch == content[k as int]);
                    assert(content.take(k + 1) =~= content.take(k as int).push(
                        content[k as int],
                    ));
                    assert(before.lines[row - 1].insert(prev_len + k, ch)
                        =~= after_delete.lines[row - 1] + content.take(k + 1));
                    assert(buffer@.lines =~= after_delete.lines.update(
                        row - 1,
                        after_delete.lines[row - 1] + content.take(k + 1),
                    ));
                    assert(buffer@.undo_stack =~= after_delete.undo_stack
                        + crate::vim::command::spec_join_actions(row, prev_len as int, content).take(
                        k + 1,
                    ));
                }
                let merged_len = buffer.get_line_length(cursor.row);
                cursor.col = merged_len;
                k = k + 1;
            }
            proof {
                assert(content.take(n as int) =~= content);
                assert(crate::vim::command::spec_join_actions(row, prev_len as int, content).take(
                    n as int,
                ) =~= crate::vim::command::spec_join_actions(row, prev_len as int, content));
                assert(buffer@ =~= spec_backspace_join(orig, row));
            }
            Ok(())
        } else {
            Ok(())
        }
    }
}

impl Default for VimBindings {
    fn default() -> (r: Self)
        ensures
            r.spec_mode() == EditorMode::Normal,
    {
        Self::new()
    }
}

} // verus!
