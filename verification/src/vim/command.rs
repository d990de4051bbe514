//! The closed vocabulary of editing intents and the executor that applies
//! them to a buffer and cursor.
//!
//! Movement clamps at boundaries instead of failing; addressing errors from
//! buffer edits surface in the result for the control loop to show, and
//! mode-changing commands only report that a transition is wanted — the mode
//! manager performs it.

use vstd::prelude::*;
use vstd::string::*;

use crate::editor::buffer::{Buffer, BufferView, spec_insert_char, spec_delete_char,
    spec_insert_line, spec_delete_line, spec_undo, spec_redo, ActionType, ActionView};
use crate::editor::cursor::Position;
use crate::error::EditorError;
use crate::text::{push_char, str_eq, string_drop_last};
use crate::vim::mode::{Mode, ModeManager, spec_can_transition};

verus! {

#[derive(Debug, Clone, PartialEq)]
pub enum VimCommand {
    // Movement commands
    MoveLeft,
    MoveDown,
    MoveUp,
    MoveRight,
    MoveLineStart,
    MoveLineEnd,
    MoveBufferStart,
    MoveBufferEnd,
    MoveWordForward,
    MoveWordBackward,
    // Editing commands
    InsertChar(char),
    DeleteChar,
    DeleteCharBackward,
    DeleteLine,
    NewLine,
    // Mode transitions
    EnterInsert,
    EnterInsertAfter,
    EnterInsertNewLine,
    EnterVisual,
    EnterCommand,
    ExitToNormal,
    // Command-line editing
    CommandInput(char),
    CommandBackspace,
    ExecuteCommand(String),
    // File operations
    Save,
    Quit,
    SaveAndQuit,
    ForceQuit,
    // Undo/Redo
    Undo,
    Redo,
    // No operation
    Noop,
}

#[derive(Debug, Clone, PartialEq)]
pub enum CommandResult {
    Nothing,
    DeletedChar(char),
    DeletedLine(String),
    ModeTransition,
    SaveRequested,
    QuitRequested,
    SaveAndQuitRequested,
    ForceQuitRequested,
    UnknownCommand(String),
}

/// `col` forced back inside a line of length `len`.
pub open spec fn spec_clamp(col: int, len: int) -> int {
    if col > len {
        len
    } else {
        col
    }
}

/// The row after moving down one line among `len` lines.
pub open spec fn spec_row_down(row: int, len: int) -> int {
    if row + 1 < len {
        row + 1
    } else {
        row
    }
}

/// The row after moving up one line.
pub open spec fn spec_row_up(row: int) -> int {
    if row > 0 {
        row - 1
    } else {
        row
    }
}

/// The column after the row changed: clamped to the new line where the new
/// row exists, untouched otherwise.
pub open spec fn spec_col_after_row_change(bv: BufferView, nrow: int, col: int) -> int {
    if 0 <= nrow < bv.lines.len() {
        spec_clamp(col, bv.lines[nrow].len() as int)
    } else {
        col
    }
}

/// The undo records that re-inserting a deleted line's text, character by
/// character, appends after a line of length `prev_len`.
pub open spec fn spec_join_actions(row: int, prev_len: int, content: Seq<char>) -> Seq<
    ActionView,
> {
    Seq::new(
        content.len(),
        |k: int|
            ActionView {
                kind: ActionType::Insert,
                row: row - 1,
                col: prev_len + k,
                content: seq![content[k]],
            },
    )
}

/// The buffer after a backspace at column zero of row `row` joined that row
/// onto the previous one: the two lines merge, and the history records the
/// line deletion followed by one insertion per rejoined character.
pub open spec fn spec_backspace_join(bv: BufferView, row: int) -> BufferView {
    let content = bv.lines[row];
    let prev_len = bv.lines[row - 1].len() as int;
    BufferView {
        lines: bv.lines.remove(row).update(row - 1, bv.lines[row - 1] + content),
        modified: true,
        undo_stack: bv.undo_stack.push(
            ActionView { kind: ActionType::DeleteLine, row, col: 0, content },
        ) + spec_join_actions(row, prev_len, content),
        redo_stack: Seq::empty(),
        ..bv
    }
}

impl VimCommand {
    /// Applies this command to the buffer and cursor, returning what the
    /// control loop should do next. Movement stops at boundaries; editing
    /// commands report `OutOfBounds` or empty-history errors instead of
    /// panicking; file operations and mode changes only produce a request.
    pub fn execute(&self, buffer: &mut Buffer, cursor: &mut Position) -> (r: Result<
        CommandResult,
        EditorError,
    >)
        ensures
            old(buffer).wf() ==> final(buffer).wf(),
            // Movement: the buffer is never touched.
            (self is MoveLeft || self is MoveDown || self is MoveUp || self is MoveRight
                || self is MoveLineStart || self is MoveLineEnd || self is MoveBufferStart
                || self is MoveBufferEnd || self is MoveWordForward || self is MoveWordBackward)
                ==> final(buffer)@ == old(buffer)@ && (r matches Ok(CommandResult::Nothing)),
            self is MoveLeft ==> final(cursor).row == old(cursor).row && final(cursor).col == (
            if old(cursor).col > 0 {
                old(cursor).col - 1
            } else {
                0int
            }),
            self is MoveDown ==> final(cursor).row == spec_row_down(
                old(cursor).row as int,
                old(buffer)@.lines.len() as int,
            ) && final(cursor).col == spec_col_after_row_change(
                old(buffer)@,
                final(cursor).row as int,
                old(cursor).col as int,
            ),
            self is MoveUp ==> final(cursor).row == spec_row_up(old(cursor).row as int) && final(cursor).col == spec_col_after_row_change(
                old(buffer)@,
                final(cursor).row as int,
                old(cursor).col as int,
            ),
            self is MoveRight ==> final(cursor).row == old(cursor).row && final(cursor).col == (
            if old(cursor).row < old(buffer)@.lines.len() && old(cursor).col < old(buffer)@.lines[old(cursor).row as int].len() {
                old(cursor).col + 1
            } else {
                old(cursor).col as int
            }),
            self is MoveLineStart ==> final(cursor).row == old(cursor).row && final(cursor).col
                == 0,
            self is MoveLineEnd ==> final(cursor).row == old(cursor).row && final(cursor).col == (
            if old(cursor).row < old(buffer)@.lines.len() {
                old(buffer)@.lines[old(cursor).row as int].len() as int
            } else {
                old(cursor).col as int
            }),
            self is MoveBufferStart ==> final(cursor).row == 0 && final(cursor).col == 0,
            (self is MoveBufferEnd && old(buffer)@.lines.len() > 0) ==> final(cursor).row == old(buffer)@.lines.len() - 1 && final(cursor).col == old(buffer)@.lines[old(buffer)@.lines.len() - 1].len(),
            (self is MoveWordForward || self is MoveWordBackward || self is Noop) ==> *final(cursor) == *old(cursor) && final(buffer)@ == old(buffer)@ && (r matches Ok(
                CommandResult::Nothing,
            )),
            // InsertChar: splice at the cursor, then step right.
            (self matches VimCommand::InsertChar(ch) ==> ((old(cursor).row < old(buffer)@.lines.len() && old(cursor).col <= old(buffer)@.lines[old(cursor).row as int].len())
                ==> (r matches Ok(CommandResult::Nothing)) && final(buffer)@ == spec_insert_char(
                old(buffer)@,
                old(cursor).row as int,
                old(cursor).col as int,
                *ch,
            ) && final(cursor).row == old(cursor).row && final(cursor).col == old(cursor).col + 1)),
            (self matches VimCommand::InsertChar(ch) ==> (!(old(cursor).row < old(buffer)@.lines.len() && old(cursor).col <= old(buffer)@.lines[old(cursor).row as int].len())
                ==> (r matches Err(EditorError::OutOfBounds { row, col }) && row == old(cursor).row && col == old(cursor).col) && final(buffer)@ == old(buffer)@ && *final(cursor)
                == *old(cursor))),
            // DeleteChar at the cursor.
            self is DeleteChar ==> *final(cursor) == *old(cursor),
            (self is DeleteChar && old(cursor).row >= old(buffer)@.lines.len()) ==> (r matches Err(
                EditorError::OutOfBounds { row, col },
            ) && row == old(cursor).row && col == old(cursor).col) && final(buffer)@ == old(buffer)@,
            (self is DeleteChar && old(cursor).row < old(buffer)@.lines.len() && old(cursor).col
                >= old(buffer)@.lines[old(cursor).row as int].len()) ==> (r matches Ok(
                CommandResult::Nothing,
            )) && final(buffer)@ == old(buffer)@,
            (self is DeleteChar && old(cursor).row < old(buffer)@.lines.len() && old(cursor).col
                < old(buffer)@.lines[old(cursor).row as int].len()) ==> (r matches Ok(
                CommandResult::DeletedChar(c),
            ) && c == old(buffer)@.lines[old(cursor).row as int][old(cursor).col as int]) && final(buffer)@ == spec_delete_char(old(buffer)@, old(cursor).row as int, old(cursor).col as int),
            // DeleteLine at the cursor's row, with the cursor pulled back
            // inside the text afterwards.
            (self is DeleteLine && old(cursor).row >= old(buffer)@.lines.len()) ==> (r matches Err(
                EditorError::OutOfBounds { row, col },
            ) && row == old(cursor).row && col == 0) && final(buffer)@ == old(buffer)@ && *final(cursor) == *old(cursor),
            (self is DeleteLine && old(cursor).row < old(buffer)@.lines.len()) ==> (r matches Ok(
                CommandResult::DeletedLine(s),
            ) && s@ == old(buffer)@.lines[old(cursor).row as int]) && final(buffer)@
                == spec_delete_line(old(buffer)@, old(cursor).row as int),
            (self is DeleteLine && old(cursor).row < old(buffer)@.lines.len()) ==> final(cursor).row == (if old(cursor).row < final(buffer)@.lines.len() {
                old(cursor).row as int
            } else {
                final(buffer)@.lines.len() - 1
            }) && final(cursor).col == spec_col_after_row_change(
                final(buffer)@,
                final(cursor).row as int,
                old(cursor).col as int,
            ),
            // NewLine: an empty line after the cursor's row, cursor at its
            // start.
            (self is NewLine && old(cursor).row < old(buffer)@.lines.len()) ==> (r matches Ok(
                CommandResult::Nothing,
            )) && final(buffer)@ == spec_insert_line(old(buffer)@, old(cursor).row + 1) && final(cursor).row == old(cursor).row + 1 && final(cursor).col == 0,
            (self is NewLine && old(cursor).row >= old(buffer)@.lines.len()) ==> r is Err && final(buffer)@ == old(buffer)@ && *final(cursor) == *old(cursor),
            // Backspace: delete left of the cursor, or join with the line
            // above when at column zero.
            (self is DeleteCharBackward && old(cursor).col > 0 && old(cursor).row < old(buffer)@.lines.len()) ==> (r matches Ok(CommandResult::Nothing)) && final(cursor).row == old(cursor).row && final(cursor).col == old(cursor).col - 1 && final(buffer)@ == (if old(cursor).col - 1 < old(buffer)@.lines[old(cursor).row as int].len() {
                spec_delete_char(old(buffer)@, old(cursor).row as int, old(cursor).col - 1)
            } else {
                old(buffer)@
            }),
            (self is DeleteCharBackward && old(cursor).col > 0 && old(cursor).row >= old(buffer)@.lines.len()) ==> (r matches Err(EditorError::OutOfBounds { .. })) && final(buffer)@ == old(buffer)@,
            (self is DeleteCharBackward && old(cursor).col == 0 && old(cursor).row == 0) ==> (
            r matches Ok(CommandResult::Nothing)) && final(buffer)@ == old(buffer)@ && *final(cursor)
                == *old(cursor),
            (self is DeleteCharBackward && old(cursor).col == 0 && old(cursor).row > 0 && old(cursor).row >= old(buffer)@.lines.len()) ==> (r matches Err(EditorError::OutOfBounds {
                ..
            })) && final(buffer)@ == old(buffer)@ && *final(cursor) == *old(cursor),
            (self is DeleteCharBackward && old(cursor).col == 0 && old(cursor).row > 0 && old(cursor).row < old(buffer)@.lines.len()) ==> (r matches Ok(CommandResult::Nothing)) && final(buffer)@ == spec_backspace_join(old(buffer)@, old(cursor).row as int) && final(cursor).row
                == old(cursor).row - 1 && final(cursor).col == old(buffer)@.lines[old(cursor).row - 1].len() + old(buffer)@.lines[old(cursor).row as int].len(),
            // Undo and redo.
            (self is Undo && old(buffer)@.undo_stack.len() == 0) ==> (r matches Err(
                EditorError::EmptyUndoStack,
            )) && final(buffer)@ == old(buffer)@ && *final(cursor) == *old(cursor),
            (self is Undo && old(buffer)@.undo_stack.len() > 0) ==> (r matches Ok(
                CommandResult::Nothing,
            )) && final(buffer)@ == spec_undo(old(buffer)@) && *final(cursor) == *old(cursor),
            (self is Redo && old(buffer)@.redo_stack.len() == 0) ==> (r matches Err(
                EditorError::EmptyRedoStack,
            )) && final(buffer)@ == old(buffer)@ && *final(cursor) == *old(cursor),
            (self is Redo && old(buffer)@.redo_stack.len() > 0) ==> (r matches Ok(
                CommandResult::Nothing,
            )) && final(buffer)@ == spec_redo(old(buffer)@) && *final(cursor) == *old(cursor),
            // Mode transitions are the mode manager's work; nothing changes
            // here.
            (self is EnterInsert || self is EnterInsertAfter || self is EnterInsertNewLine
                || self is EnterVisual || self is EnterCommand || self is ExitToNormal
                || self matches VimCommand::CommandInput(_) || self is CommandBackspace) ==> (
            r matches Ok(CommandResult::ModeTransition)) && final(buffer)@ == old(buffer)@
                && *final(cursor) == *old(cursor),
            // The typed command line, parsed after its trigger was stripped.
            (self matches VimCommand::ExecuteCommand(s) ==> final(buffer)@ == old(buffer)@
                && *final(cursor) == *old(cursor) && (if s@ == "w"@ {
                r matches Ok(CommandResult::SaveRequested)
            } else if s@ == "q"@ {
                r matches Ok(CommandResult::QuitRequested)
            } else if s@ == "wq"@ {
                r matches Ok(CommandResult::SaveAndQuitRequested)
            } else if s@ == "q!"@ {
                r matches Ok(CommandResult::ForceQuitRequested)
            } else {
                r matches Ok(CommandResult::UnknownCommand(u)) && u@ == s@
            })),
            // File operations only produce a request.
            self is Save ==> (r matches Ok(CommandResult::SaveRequested)) && final(buffer)@ == old(buffer)@ && *final(cursor) == *old(cursor),
            self is Quit ==> (r matches Ok(CommandResult::QuitRequested)) && final(buffer)@ == old(buffer)@ && *final(cursor) == *old(cursor),
            self is SaveAndQuit ==> (r matches Ok(CommandResult::SaveAndQuitRequested)) && final(buffer)@ == old(buffer)@ && *final(cursor) == *old(cursor),
            self is ForceQuit ==> (r matches Ok(CommandResult::ForceQuitRequested)) && final(buffer)@ == old(buffer)@ && *final(cursor) == *old(cursor),
            // A row-changing movement leaves the column inside the new line.
            ((self is MoveDown || self is MoveUp) && old(buffer).wf() && old(cursor).row < old(buffer)@.lines.len()) ==> final(cursor).row < final(buffer)@.lines.len() && final(cursor).col
                <= final(buffer)@.lines[final(cursor).row as int].len(),
            (self is DeleteLine && old(buffer).wf() && old(cursor).row < old(buffer)@.lines.len())
                ==> final(cursor).row < final(buffer)@.lines.len() && final(cursor).col <= final(buffer)@.lines[final(cursor).row as int].len(),
    {
        match self {
            VimCommand::MoveLeft => {
                let _ = cursor.move_left();
                Ok(CommandResult::Nothing)
            },
            VimCommand::MoveDown => {
                let total_lines = buffer.line_count();
                let _ = cursor.move_down(total_lines);
                if let Ok(line_length) = buffer.line_length(cursor.row) {
                    cursor.clamp_to_line(line_length);
                }
                Ok(CommandResult::Nothing)
            },
            VimCommand::MoveUp => {
                let _ = cursor.move_up();
                if let Ok(line_length) = buffer.line_length(cursor.row) {
                    cursor.clamp_to_line(line_length);
                }
                Ok(CommandResult::Nothing)
            },
            VimCommand::MoveRight => {
                if let Ok(line_length) = buffer.line_length(cursor.row) {
                    let _ = cursor.move_right(line_length);
                }
                Ok(CommandResult::Nothing)
            },
            VimCommand::MoveLineStart => {
                cursor.move_to_line_start();
                Ok(CommandResult::Nothing)
            },
            VimCommand::MoveLineEnd => {
                if let Ok(line_length) = buffer.line_length(cursor.row) {
                    cursor.move_to_line_end(line_length);
                }
                Ok(CommandResult::Nothing)
            },
            VimCommand::MoveBufferStart => {
                cursor.move_to_buffer_start();
                Ok(CommandResult::Nothing)
            },
            VimCommand::MoveBufferEnd => {
                let total_lines = buffer.line_count();
                let last_line_length = if total_lines > 0 {
                    match buffer.line_length(total_lines - 1) {
                        Ok(l) => l,
                        Err(_) => 0,
                    }
                } else {
                    0
                };
                cursor.move_to_buffer_end(total_lines, last_line_length);
                Ok(CommandResult::Nothing)
            },
            VimCommand::InsertChar(ch) => {
                match buffer.insert_char(*cursor, *ch) {
                    Ok(()) => {},
                    Err(e) => {
                        return Err(e);
                    },
                }
                if let Ok(line_length) = buffer.line_length(cursor.row) {
                    let _ = cursor.move_right(line_length);
                }
                Ok(CommandResult::Nothing)
            },
            VimCommand::DeleteChar => {
                match buffer.delete_char(*cursor) {
                    Ok(Some(deleted)) => Ok(CommandResult::DeletedChar(deleted)),
                    Ok(None) => Ok(CommandResult::Nothing),
                    Err(e) => Err(e),
                }
            },
            VimCommand::DeleteLine => {
                match buffer.delete_line(cursor.row) {
                    Ok(Some(deleted)) => {
                        let total_lines = buffer.line_count();
                        if cursor.row >= total_lines && total_lines > 0 {
                            cursor.row = total_lines - 1;
                        }
                        if let Ok(line_length) = buffer.line_length(cursor.row) {
                            cursor.clamp_to_line(line_length);
                        }
                        Ok(CommandResult::DeletedLine(deleted))
                    },
                    Ok(None) => Ok(CommandResult::Nothing),
                    Err(e) => Err(e),
                }
            },
            VimCommand::NewLine => {
                let count = buffer.line_count();
                if cursor.row >= count {
                    let next: usize = if cursor.row < usize::MAX {
                        cursor.row + 1
                    } else {
                        cursor.row
                    };
                    return Err(EditorError::out_of_bounds(next, 0));
                }
                match buffer.insert_line(cursor.row + 1) {
                    Ok(()) => {},
                    Err(e) => {
                        return Err(e);
                    },
                }
                cursor.row = cursor.row + 1;
                cursor.col = 0;
                Ok(CommandResult::Nothing)
            },
            VimCommand::DeleteCharBackward => self.execute_backspace(buffer, cursor),
            VimCommand::Undo => {
                match buffer.undo() {
                    Ok(()) => Ok(CommandResult::Nothing),
                    Err(e) => Err(e),
                }
            },
            VimCommand::Redo => {
                match buffer.redo() {
                    Ok(()) => Ok(CommandResult::Nothing),
                    Err(e) => Err(e),
                }
            },
            VimCommand::EnterInsert | VimCommand::EnterInsertAfter | VimCommand::EnterInsertNewLine
                | VimCommand::EnterVisual | VimCommand::EnterCommand | VimCommand::ExitToNormal
                | VimCommand::CommandInput(_) | VimCommand::CommandBackspace => {
                // The mode manager performs the transition or payload edit.
                Ok(CommandResult::ModeTransition)
            },
            VimCommand::ExecuteCommand(s) => {
                if str_eq(s.as_str(), "w") {
                    Ok(CommandResult::SaveRequested)
                } else if str_eq(s.as_str(), "q") {
                    Ok(CommandResult::QuitRequested)
                } else if str_eq(s.as_str(), "wq") {
                    Ok(CommandResult::SaveAndQuitRequested)
                } else if str_eq(s.as_str(), "q!") {
                    Ok(CommandResult::ForceQuitRequested)
                } else {
                    Ok(CommandResult::UnknownCommand(s.clone()))
                }
            },
            VimCommand::Save => Ok(CommandResult::SaveRequested),
            VimCommand::Quit => Ok(CommandResult::QuitRequested),
            VimCommand::SaveAndQuit => Ok(CommandResult::SaveAndQuitRequested),
            VimCommand::ForceQuit => Ok(CommandResult::ForceQuitRequested),
            VimCommand::MoveWordForward | VimCommand::MoveWordBackward => {
                // Word movement is outside this editor's vocabulary so far.
                Ok(CommandResult::Nothing)
            },
            VimCommand::Noop => Ok(CommandResult::Nothing),
        }
    }

    /// Backspace: one character to the left, or — at the start of a line that
    /// is not the first — a join with the previous line, rebuilt as a line
    /// deletion plus one insertion per character so that each keeps its own
    /// undo step.
    fn execute_backspace(&self, buffer: &mut Buffer, cursor: &mut Position) -> (r: Result<
        CommandResult,
        EditorError,
    >)
        ensures
            old(buffer).wf() ==> final(buffer).wf(),
            old(cursor).col > 0 && old(cursor).row < old(buffer)@.lines.len() ==> (r matches Ok(
                CommandResult::Nothing,
            )) && final(cursor).row == old(cursor).row && final(cursor).col == old(cursor).col - 1
                && final(buffer)@ == (if old(cursor).col - 1 < old(buffer)@.lines[old(cursor).row as int].len() {
                spec_delete_char(old(buffer)@, old(cursor).row as int, old(cursor).col - 1)
            } else {
                old(buffer)@
            }),
            old(cursor).col > 0 && old(cursor).row >= old(buffer)@.lines.len() ==> (r matches Err(
                EditorError::OutOfBounds { .. },
            )) && final(buffer)@ == old(buffer)@,
            old(cursor).col == 0 && old(cursor).row == 0 ==> (r matches Ok(CommandResult::Nothing))
                && final(buffer)@ == old(buffer)@ && *final(cursor) == *old(cursor),
            old(cursor).col == 0 && old(cursor).row > 0 && old(cursor).row >= old(buffer)@.lines.len() ==> (r matches Err(EditorError::OutOfBounds { .. })) && final(buffer)@
                == old(buffer)@ && *final(cursor) == *old(cursor),
            old(cursor).col == 0 && old(cursor).row > 0 && old(cursor).row < old(buffer)@.lines.len() ==> (r matches Ok(CommandResult::Nothing)) && final(buffer)@
                == spec_backspace_join(old(buffer)@, old(cursor).row as int) && final(cursor).row
                == old(cursor).row - 1 && final(cursor).col == old(buffer)@.lines[old(cursor).row - 1].len() + old(buffer)@.lines[old(cursor).row as int].len(),
    {
        let ghost orig = old(buffer)@;
        if cursor.col > 0 {
            let _ = cursor.move_left();
            match buffer.delete_char(*cursor) {
                Ok(_) => Ok(CommandResult::Nothing),
                Err(e) => Err(e),
            }
        } else if cursor.row > 0 {
            if cursor.row >= buffer.line_count() {
                return Err(EditorError::out_of_bounds(cursor.row, 0));
            }
            let ghost row = cursor.row as int;
            let current_line: String = match buffer.line(cursor.row) {
                Ok(l) => l.to_owned(),
                Err(_) => String::new(),
            };
            let prev_len = match buffer.line_length(cursor.row - 1) {
                Ok(l) => l,
                Err(_) => 0,
            };
            match buffer.delete_line(cursor.row) {
                Ok(_) => {},
                Err(e) => {
                    return Err(e);
                },
            }
            cursor.row = cursor.row - 1;
            cursor.col = prev_len;
            let ghost content = orig.lines[row];
            let ghost after_delete = buffer@;
            let n = current_line.as_str().unicode_len();
            let mut k: usize = 0;
            proof {
                assert(spec_join_actions(row, prev_len as int, content).take(0)
                    =~= Seq::<ActionView>::empty());
                assert(after_delete.undo_stack + Seq::<ActionView>::empty()
                    =~= after_delete.undo_stack);
                assert(after_delete.lines[row - 1] + content.take(0) =~= after_delete.lines[row
                    - 1]);
                assert(after_delete.lines.update(row - 1, after_delete.lines[row - 1])
                    =~= after_delete.lines);
            }
            while k < n
                invariant
                    old(buffer).wf() ==> buffer.wf(),
                    0 <= k <= n,
                    n == content.len(),
                    current_line@ == content,
                    0 < row < orig.lines.len(),
                    orig.lines.len() >= 2,
                    prev_len == orig.lines[row - 1].len(),
                    after_delete == spec_delete_line(orig, row),
                    after_delete.lines.len() == orig.lines.len() - 1,
                    after_delete.lines[row - 1] == orig.lines[row - 1],
                    cursor.row == row - 1,
                    cursor.col == prev_len + k,
                    buffer@ == (BufferView {
                        lines: after_delete.lines.update(
                            row - 1,
                            after_delete.lines[row - 1] + content.take(k as int),
                        ),
                        modified: true,
                        undo_stack: after_delete.undo_stack + spec_join_actions(
                            row,
                            prev_len as int,
                            content,
                        ).take(k as int),
                        redo_stack: Seq::empty(),
                        file_path: after_delete.file_path,
                    }),
                decreases n - k,
            {
                let ch = current_line.as_str().get_char(k);
                let ghost before = buffer@;
                let res = buffer.insert_char(*cursor, ch);
                proof {
                    assert(before.lines[row - 1].len() == prev_len + k);
                    assert(res is Ok);
                    assert(ch == content[k as int]);
                    assert(content.take(k + 1) =~= content.take(k as int).push(
                        content[k as int],
                    ));
                    assert(before.lines[row - 1].insert(prev_len + k, ch)
                        =~= after_delete.lines[row - 1] + content.take(k + 1));
                    assert(buffer@.lines =~= after_delete.lines.update(
                        row - 1,
                        after_delete.lines[row - 1] + content.take(k + 1),
                    ));
                    assert(buffer@.undo_stack =~= after_delete.undo_stack + spec_join_actions(
                        row,
                        prev_len as int,
                        content,
                    ).take(k + 1));
                }
                if let Ok(l) = buffer.line_length(cursor.row) {
                    cursor.col = l;
                }
                k = k + 1;
            }
            proof {
                assert(content.take(n as int) =~= content);
                assert(spec_join_actions(row, prev_len as int, content).take(n as int)
                    =~= spec_join_actions(row, prev_len as int, content));
                assert(buffer@ =~= spec_backspace_join(orig, row));
            }
            Ok(CommandResult::Nothing)
        } else {
            Ok(CommandResult::Nothing)
        }
    }
}

/// Performs the mode change a command asks for: entry commands go through
/// the transition table, `a` also steps the cursor right, `o` opens a line
/// below the cursor, and the command-line editing commands rewrite the
/// Command mode's payload in place.
pub fn apply_mode_transition(
    command: &VimCommand,
    mode_manager: &mut ModeManager,
    buffer: &mut Buffer,
    cursor: &mut Position,
) -> (r: Result<(), EditorError>)
    ensures
        r is Ok,
        old(buffer).wf() ==> final(buffer).wf(),
        (command is EnterInsert || command is EnterInsertAfter) ==> (if spec_can_transition(
            old(mode_manager).spec_current(),
            Mode::Insert,
        ) {
            final(mode_manager).spec_current() == Mode::Insert
        } else {
            final(mode_manager).spec_current() == old(mode_manager).spec_current()
        }) && final(buffer)@ == old(buffer)@,
        command is EnterInsert ==> *final(cursor) == *old(cursor),
        command is EnterInsertAfter ==> final(cursor).row == old(cursor).row && final(cursor).col
            == (if old(cursor).row < old(buffer)@.lines.len() && old(cursor).col < old(buffer)@.lines[old(cursor).row as int].len() {
            old(cursor).col + 1
        } else {
            old(cursor).col as int
        }),
        (command is EnterInsertNewLine && old(cursor).row < old(buffer)@.lines.len()) ==> final(buffer)@ == spec_insert_line(old(buffer)@, old(cursor).row + 1) && final(cursor).row == old(cursor).row + 1 && final(cursor).col == 0,
        (command is EnterInsertNewLine && old(cursor).row >= old(buffer)@.lines.len()) ==> final(buffer)@ == old(buffer)@ && *final(cursor) == *old(cursor),
        command is EnterInsertNewLine ==> (if spec_can_transition(
            old(mode_manager).spec_current(),
            Mode::Insert,
        ) {
            final(mode_manager).spec_current() == Mode::Insert
        } else {
            final(mode_manager).spec_current() == old(mode_manager).spec_current()
        }),
        command is EnterVisual ==> final(buffer)@ == old(buffer)@ && *final(cursor) == *old(cursor)
            && (if spec_can_transition(
            old(mode_manager).spec_current(),
            Mode::Visual { start: *old(cursor) },
        ) {
            final(mode_manager).spec_current() == (Mode::Visual { start: *old(cursor) })
        } else {
            final(mode_manager).spec_current() == old(mode_manager).spec_current()
        }),
        command is EnterCommand ==> final(buffer)@ == old(buffer)@ && *final(cursor) == *old(cursor) && (if old(mode_manager).spec_current() is Normal {
            final(mode_manager).spec_current() matches Mode::Command { input } && input@
                == Seq::<char>::empty()
        } else {
            final(mode_manager).spec_current() == old(mode_manager).spec_current()
        }),
        (command is ExitToNormal || command matches VimCommand::ExecuteCommand(_)) ==> final(mode_manager).spec_current() == Mode::Normal && final(buffer)@ == old(buffer)@ && *final(cursor)
            == *old(cursor),
        (command matches VimCommand::CommandInput(c) ==> final(buffer)@ == old(buffer)@ && *final(cursor) == *old(cursor) && (match old(mode_manager).spec_current() {
            Mode::Command { input } => final(mode_manager).spec_current() matches Mode::Command {
                input: ni,
            } && ni@ == input@.push(*c),
            _ => final(mode_manager).spec_current() == old(mode_manager).spec_current(),
        })),
        command is CommandBackspace ==> final(buffer)@ == old(buffer)@ && *final(cursor) == *old(cursor) && (match old(mode_manager).spec_current() {
            Mode::Command { input } => final(mode_manager).spec_current() matches Mode::Command {
                input: ni,
            } && ni@ == (if input@.len() > 0 {
                input@.drop_last()
            } else {
                input@
            }),
            _ => final(mode_manager).spec_current() == old(mode_manager).spec_current(),
        }),
{
    match command {
        VimCommand::EnterInsert => {
            mode_manager.enter_insert();
        },
        VimCommand::EnterInsertAfter => {
            mode_manager.enter_insert();
            if let Ok(line_length) = buffer.line_length(cursor.row) {
                let _ = cursor.move_right(line_length);
            }
        },
        VimCommand::EnterInsertNewLine => {
            if cursor.row < buffer.line_count() {
                match buffer.insert_line(cursor.row + 1) {
                    Ok(()) => {},
                    Err(_) => {},
                }
                cursor.row = cursor.row + 1;
                cursor.col = 0;
            }
            mode_manager.enter_insert();
        },
        VimCommand::EnterVisual => {
            mode_manager.enter_visual(*cursor);
        },
        VimCommand::EnterCommand => {
            mode_manager.enter_command();
        },
        VimCommand::ExitToNormal => {
            mode_manager.enter_normal();
        },
        VimCommand::CommandInput(ch) => {
            if let Mode::Command { input } = mode_manager.current() {
                let mut new_input = input.clone();
                push_char(&mut new_input, *ch);
                let _ = mode_manager.update_command_input(new_input);
            }
        },
        VimCommand::CommandBackspace => {
            if let Mode::Command { input } = mode_manager.current() {
                let new_input = string_drop_last(input);
                let _ = mode_manager.update_command_input(new_input);
            }
        },
        VimCommand::ExecuteCommand(_) => {
            mode_manager.enter_normal();
        },
        _ => {},
    }
    Ok(())
}

} // verus!
