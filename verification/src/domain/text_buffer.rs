//! A text buffer with per-character history, reporting failures as plain
//! message strings.
//!
//! The abstract model — lines, modified flag and the two action stacks — is
//! the one defined in [`crate::editor::buffer`]; both buffer types meet the
//! same [`buffer_inv`] history invariant and the same transition functions,
//! so the undo/redo laws proved there cover this type as well.

use vstd::prelude::*;
use vstd::pervasive::VecAdditionalExecFns;
use vstd::string::*;

use crate::editor::buffer::{BufferView, ActionView, ActionType as ModelActionType, buffer_inv,
    spec_insert_char, spec_delete_char, spec_insert_line, spec_delete_line, spec_undo, spec_redo,
    apply_undo_action, apply_redo_action};
use crate::domain::cursor::CursorPosition;
use crate::text::{line_insert, line_remove, push_char, split_lines, join_lines, spec_lines,
    spec_join, usize_to_string, spec_dec};

verus! {

#[derive(Debug, Clone, PartialEq, Eq, Structural)]
pub enum ActionType {
    Insert,
    Delete,
    InsertLine,
    DeleteLine,
}

/// One recorded reversible edit.
#[derive(Debug, Clone)]
pub struct Action {
    pub action_type: ActionType,
    pub position: CursorPosition,
    pub content: String,
}

/// The model kind of an action.
pub open spec fn kind_view(t: ActionType) -> ModelActionType {
    match t {
        ActionType::Insert => ModelActionType::Insert,
        ActionType::Delete => ModelActionType::Delete,
        ActionType::InsertLine => ModelActionType::InsertLine,
        ActionType::DeleteLine => ModelActionType::DeleteLine,
    }
}

impl View for Action {
    type V = ActionView;

    open spec fn view(&self) -> ActionView {
        ActionView {
            kind: kind_view(self.action_type),
            row: self.position.row as int,
            col: self.position.col as int,
            content: self.content@,
        }
    }
}

impl DeepView for Action {
    type V = ActionView;

    open spec fn deep_view(&self) -> ActionView {
        self.view()
    }
}

/// The message reporting a row outside the buffer.
pub open spec fn row_oob_msg(row: int) -> Seq<char> {
    "Row "@ + spec_dec(row as nat) + " out of bounds"@
}

/// The message reporting a column outside its row.
pub open spec fn col_oob_msg(row: int, col: int) -> Seq<char> {
    "Column "@ + spec_dec(col as nat) + " out of bounds for row "@ + spec_dec(row as nat)
}

pub(crate) fn make_row_oob_msg(row: usize) -> (r: String)
    ensures
        r@ == row_oob_msg(row as int),
{
    let r = String::from_str("Row ").concat(usize_to_string(row).as_str()).concat(
        " out of bounds",
    );
    proof {
        assert(r@ =~= row_oob_msg(row as int));
    }
    r
}

pub(crate) fn make_col_oob_msg(row: usize, col: usize) -> (r: String)
    ensures
        r@ == col_oob_msg(row as int, col as int),
{
    let r = String::from_str("Column ").concat(usize_to_string(col).as_str()).concat(
        " out of bounds for row ",
    ).concat(usize_to_string(row).as_str());
    proof {
        assert(r@ =~= col_oob_msg(row as int, col as int));
    }
    r
}

#[derive(Debug, Clone)]
pub struct TextBuffer {
    lines: Vec<String>,
    file_path: Option<String>,
    modified: bool,
    undo_stack: Vec<Action>,
    redo_stack: Vec<Action>,
}

impl View for TextBuffer {
    type V = BufferView;

    closed spec fn view(&self) -> BufferView {
        BufferView {
            lines: self.lines.deep_view(),
            file_path: self.file_path.deep_view(),
            modified: self.modified,
            undo_stack: self.undo_stack.deep_view(),
            redo_stack: self.redo_stack.deep_view(),
        }
    }
}

impl TextBuffer {
    pub open spec fn wf(&self) -> bool {
        buffer_inv(self@)
    }

    /// An empty buffer: one empty line, no history.
    pub fn new() -> (r: Self)
        ensures
            r@.lines =~= seq![Seq::<char>::empty()],
            r@.file_path is None,
            !r@.modified,
            r@.undo_stack =~= Seq::<ActionView>::empty(),
            r@.redo_stack =~= Seq::<ActionView>::empty(),
            r.wf(),
    {
        let r = Self {
            lines: vec![String::new()],
            file_path: None,
            modified: false,
            undo_stack: Vec::new(),
            redo_stack: Vec::new(),
        };
        proof {
            assert(r@.lines =~= seq![Seq::<char>::empty()]);
            assert(r@.undo_stack =~= Seq::<ActionView>::empty());
            assert(r@.redo_stack =~= Seq::<ActionView>::empty());
        }
        r
    }

    /// A buffer holding the given text, split at line breaks; empty content
    /// still yields one empty line.
    pub fn from_content(content: &str) -> (r: Self)
        ensures
            r@.lines == if content@.len() == 0 {
                seq![Seq::<char>::empty()]
            } else {
                spec_lines(content@)
            },
            r@.file_path is None,
            !r@.modified,
            r@.undo_stack =~= Seq::<ActionView>::empty(),
            r@.redo_stack =~= Seq::<ActionView>::empty(),
            r.wf(),
    {
        let lines = if content.is_empty() {
            vec![String::new()]
        } else {
            split_lines(content)
        };
        proof {
            if content@.len() != 0 {
                crate::text::lemma_first_nl_bounds(content@);
            }
        }
        let r = Self {
            lines,
            file_path: None,
            modified: false,
            undo_stack: Vec::new(),
            redo_stack: Vec::new(),
        };
        proof {
            if content@.len() == 0 {
                assert(r@.lines =~= seq![Seq::<char>::empty()]);
            }
            assert(r@.undo_stack =~= Seq::<ActionView>::empty());
            assert(r@.redo_stack =~= Seq::<ActionView>::empty());
        }
        r
    }

    /// The same buffer, now associated with a file path.
    pub fn with_file_path(self, path: String) -> (r: Self)
        ensures
            r@ == (BufferView { file_path: Some(path@), ..self@ }),
    {
        Self { file_path: Some(path), ..self }
    }

    /// All lines of the buffer.
    pub fn lines(&self) -> (r: &[String])
        ensures
            r.deep_view() == self@.lines,
    {
        let r = self.lines.as_slice();
        proof {
            assert(r.deep_view() =~= self@.lines);
        }
        r
    }

    pub fn line_count(&self) -> (r: usize)
        ensures
            r == self@.lines.len(),
    {
        self.lines.len()
    }

    /// The line at `index`, if it exists.
    pub fn get_line(&self, index: usize) -> (r: Option<&String>)
        ensures
            index < self@.lines.len() ==> (r matches Some(s) && s@ == self@.lines[index as int]),
            index >= self@.lines.len() ==> r is None,
    {
        if index < self.lines.len() {
            Some(&self.lines[index])
        } else {
            None
        }
    }

    /// The character length of the line at `index`; zero past the end.
    pub fn get_line_length(&self, index: usize) -> (r: usize)
        ensures
            index < self@.lines.len() ==> r == self@.lines[index as int].len(),
            index >= self@.lines.len() ==> r == 0,
    {
        if index < self.lines.len() {
            self.lines[index].as_str().unicode_len()
        } else {
            0
        }
    }

    pub fn is_modified(&self) -> (r: bool)
        ensures
            r == self@.modified,
    {
        self.modified
    }

    pub fn file_path(&self) -> (r: Option<&String>)
        ensures
            (r matches Some(p) ==> self@.file_path == Some(p@)),
            (r is None ==> self@.file_path is None),
    {
        self.file_path.as_ref()
    }

    pub fn can_undo(&self) -> (r: bool)
        ensures
            r == (self@.undo_stack.len() > 0),
    {
        self.undo_stack.len() > 0
    }

    pub fn can_redo(&self) -> (r: bool)
        ensures
            r == (self@.redo_stack.len() > 0),
    {
        self.redo_stack.len() > 0
    }

    /// Clears the modified flag without touching the history stacks.
    pub fn mark_saved(&mut self)
        ensures
            final(self)@ == (BufferView { modified: false, ..old(self)@ }),
            old(self).wf() ==> final(self).wf(),
    {
        self.modified = false;
    }

    /// The whole text, lines joined with line breaks.
    pub fn to_string(&self) -> (r: String)
        ensures
            r@ == spec_join(self@.lines),
    {
        join_lines(&self.lines)
    }

    fn push_action(&mut self, action: Action)
        ensures
            final(self)@ == (BufferView {
                undo_stack: old(self)@.undo_stack.push(action@),
                redo_stack: Seq::empty(),
                ..old(self)@
            }),
    {
        self.undo_stack.push(action);
        self.redo_stack.clear();
        proof {
            assert(self@.undo_stack =~= old(self)@.undo_stack.push(action@));
            assert(self@.redo_stack =~= Seq::<ActionView>::empty());
        }
    }

    /// Splices `ch` into the line at `(row, col)`; reports the offending row
    /// or column otherwise (a column just past the end of the line is
    /// allowed).
    pub fn insert_char(&mut self, row: usize, col: usize, ch: char) -> (r: Result<(), String>)
        ensures
            (r is Ok <==> row < old(self)@.lines.len() && col <= old(self)@.lines[
                row as int
            ].len()),
            r is Ok ==> final(self)@ == spec_insert_char(old(self)@, row as int, col as int, ch),
            r is Err ==> final(self)@ == old(self)@,
            (r matches Err(m) ==> m@ == if row >= old(self)@.lines.len() {
                row_oob_msg(row as int)
            } else {
                col_oob_msg(row as int, col as int)
            }),
            old(self).wf() ==> final(self).wf(),
    {
        if row >= self.lines.len() {
            return Err(make_row_oob_msg(row));
        }
        let line_len = self.lines[row].as_str().unicode_len();
        if col > line_len {
            return Err(make_col_oob_msg(row, col));
        }
        let mut content = String::new();
        push_char(&mut content, ch);
        let action = Action { action_type: ActionType::Insert, position: CursorPosition { row, col }, content };
        let new_line = line_insert(self.lines[row].as_str(), col, ch);
        let ghost prev = self@;
        self.lines.set(row, new_line);
        self.modified = true;
        proof {
            assert(self@.lines =~= prev.lines.update(
                row as int,
                prev.lines[row as int].insert(col as int, ch),
            ));
            assert(action@.content =~= seq![ch]);
        }
        self.push_action(action);
        proof {
            let target = spec_insert_char(prev, row as int, col as int, ch);
            assert(self@.undo_stack =~= target.undo_stack);
            assert(self@ =~= target);
            if buffer_inv(prev) {
                crate::editor::buffer::lemma_history_push_insert(prev, row as int, col as int, ch);
            }
        }
        Ok(())
    }

    /// Removes and returns the character at `(row, col)`. A column at or
    /// past the end of the line is a no-op (`Ok(None)`); a row outside the
    /// text is an error.
    pub fn delete_char(&mut self, row: usize, col: usize) -> (r: Result<Option<char>, String>)
        ensures
            (r is Ok <==> row < old(self)@.lines.len()),
            (r matches Err(m) ==> m@ == row_oob_msg(row as int) && final(self)@ == old(self)@),
            row < old(self)@.lines.len() && col >= old(self)@.lines[row as int].len() ==> (
            r matches Ok(o) && o is None) && final(self)@ == old(self)@,
            row < old(self)@.lines.len() && col < old(self)@.lines[row as int].len() ==> (
            r matches Ok(o) && o == Some(old(self)@.lines[row as int][col as int])) && final(self)@
                == spec_delete_char(old(self)@, row as int, col as int),
            old(self).wf() ==> final(self).wf(),
    {
        if row >= self.lines.len() {
            return Err(make_row_oob_msg(row));
        }
        let line_len = self.lines[row].as_str().unicode_len();
        if col >= line_len {
            return Ok(None);
        }
        let (new_line, deleted) = line_remove(self.lines[row].as_str(), col);
        let mut content = String::new();
        push_char(&mut content, deleted);
        let action = Action { action_type: ActionType::Delete, position: CursorPosition { row, col }, content };
        let ghost prev = self@;
        self.lines.set(row, new_line);
        self.modified = true;
        proof {
            assert(self@.lines =~= prev.lines.update(
                row as int,
                prev.lines[row as int].remove(col as int),
            ));
            assert(action@.content =~= seq![prev.lines[row as int][col as int]]);
        }
        self.push_action(action);
        proof {
            let target = spec_delete_char(prev, row as int, col as int);
            assert(self@.undo_stack =~= target.undo_stack);
            assert(self@ =~= target);
            if buffer_inv(prev) {
                crate::editor::buffer::lemma_history_push_delete(prev, row as int, col as int);
            }
        }
        Ok(Some(deleted))
    }

    /// Inserts an empty line before `row`; `row` may equal the line count,
    /// which appends at the end.
    pub fn insert_line(&mut self, row: usize) -> (r: Result<(), String>)
        ensures
            (r is Ok <==> row <= old(self)@.lines.len()),
            r is Ok ==> final(self)@ == spec_insert_line(old(self)@, row as int),
            r is Err ==> final(self)@ == old(self)@,
            (r matches Err(m) ==> m@ == row_oob_msg(row as int)),
            old(self).wf() ==> final(self).wf(),
    {
        if row > self.lines.len() {
            return Err(make_row_oob_msg(row));
        }
        let action = Action {
            action_type: ActionType::InsertLine,
            position: CursorPosition { row, col: 0 },
            content: String::new(),
        };
        let ghost prev = self@;
        self.lines.insert(row, String::new());
        self.modified = true;
        proof {
            assert(self@.lines =~= prev.lines.insert(row as int, Seq::<char>::empty()));
            assert(action@.content =~= Seq::<char>::empty());
        }
        self.push_action(action);
        proof {
            let target = spec_insert_line(prev, row as int);
            assert(self@.undo_stack =~= target.undo_stack);
            assert(self@ =~= target);
            if buffer_inv(prev) {
                crate::editor::buffer::lemma_history_push_insert_line(prev, row as int);
            }
        }
        Ok(())
    }

    /// Removes the line at `row` and returns its text. The buffer never
    /// drops below one line: deleting the only line clears it in place.
    pub fn delete_line(&mut self, row: usize) -> (r: Result<Option<String>, String>)
        ensures
            (r is Ok <==> row < old(self)@.lines.len()),
            (r matches Err(m) ==> m@ == row_oob_msg(row as int) && final(self)@ == old(self)@),
            (r matches Ok(o) ==> o matches Some(s) && s@ == old(self)@.lines[row as int]
                && final(self)@ == spec_delete_line(old(self)@, row as int)),
            old(self)@.lines.len() >= 1 ==> final(self)@.lines.len() >= 1,
            old(self).wf() ==> final(self).wf(),
    {
        if row >= self.lines.len() {
            return Err(make_row_oob_msg(row));
        }
        let ghost prev = self@;
        if self.lines.len() == 1 {
            let content = self.lines[0].clone();
            let action = Action {
                action_type: ActionType::DeleteLine,
                position: CursorPosition { row, col: 0 },
                content: content.clone(),
            };
            self.lines.set(0, String::new());
            self.modified = true;
            proof {
                assert(self@.lines =~= seq![Seq::<char>::empty()]);
            }
            self.push_action(action);
            proof {
                let target = spec_delete_line(prev, row as int);
                assert(self@.undo_stack =~= target.undo_stack);
                assert(self@ =~= target);
                if buffer_inv(prev) {
                    crate::editor::buffer::lemma_history_push_delete_line(prev, row as int);
                }
            }
            return Ok(Some(content));
        }
        let deleted = self.lines.remove(row);
        let action = Action {
            action_type: ActionType::DeleteLine,
            position: CursorPosition { row, col: 0 },
            content: deleted.clone(),
        };
        self.modified = true;
        proof {
            assert(self@.lines =~= prev.lines.remove(row as int));
        }
        self.push_action(action);
        proof {
            let target = spec_delete_line(prev, row as int);
            assert(self@.undo_stack =~= target.undo_stack);
            assert(self@ =~= target);
            if buffer_inv(prev) {
                crate::editor::buffer::lemma_history_push_delete_line(prev, row as int);
            }
        }
        Ok(Some(deleted))
    }

    /// Pops the most recent action and reverse-applies it.
    pub fn undo(&mut self) -> (r: Result<(), String>)
        ensures
            (r is Ok <==> old(self)@.undo_stack.len() > 0),
            r is Ok ==> final(self)@ == spec_undo(old(self)@),
            (r matches Err(m) ==> final(self)@ == old(self)@ && m@ == "Nothing to undo"@),
            old(self).wf() ==> final(self).wf(),
    {
        let action = match self.undo_stack.pop() {
            Some(a) => a,
            None => {
                return Err(String::from_str("Nothing to undo"));
            },
        };
        let ghost orig = old(self)@;
        let ghost a = action@;
        proof {
            assert(orig.undo_stack.last() == a);
            assert(self@.undo_stack =~= orig.undo_stack.drop_last());
        }
        self.apply_undo(&action);
        proof {
            assert(self@.lines =~= apply_undo_action(orig.lines, a));
        }
        self.redo_stack.push(action);
        self.modified = self.undo_stack.len() > 0;
        proof {
            assert(self@.redo_stack =~= orig.redo_stack.push(a));
            assert(self@ =~= spec_undo(orig));
            if buffer_inv(orig) {
                crate::editor::buffer::lemma_undo_preserves_inv(orig);
            }
        }
        Ok(())
    }

    /// Pops the most recent undone action and re-applies it; redoing always
    /// marks the buffer modified.
    pub fn redo(&mut self) -> (r: Result<(), String>)
        ensures
            (r is Ok <==> old(self)@.redo_stack.len() > 0),
            r is Ok ==> final(self)@ == spec_redo(old(self)@),
            (r matches Err(m) ==> final(self)@ == old(self)@ && m@ == "Nothing to redo"@),
            old(self).wf() ==> final(self).wf(),
    {
        let action = match self.redo_stack.pop() {
            Some(a) => a,
            None => {
                return Err(String::from_str("Nothing to redo"));
            },
        };
        let ghost orig = old(self)@;
        let ghost a = action@;
        proof {
            assert(orig.redo_stack.last() == a);
            assert(self@.redo_stack =~= orig.redo_stack.drop_last());
        }
        self.apply_redo(&action);
        proof {
            assert(self@.lines =~= apply_redo_action(orig.lines, a));
        }
        self.undo_stack.push(action);
        self.modified = true;
        proof {
            assert(self@.undo_stack =~= orig.undo_stack.push(a));
            assert(self@ =~= spec_redo(orig));
            if buffer_inv(orig) {
                crate::editor::buffer::lemma_redo_preserves_inv(orig);
            }
        }
        Ok(())
    }

    /// Reverse-applies one action to the lines alone.
    fn apply_undo(&mut self, action: &Action)
        ensures
            final(self)@ == (BufferView {
                lines: apply_undo_action(old(self)@.lines, action@),
                ..old(self)@
            }),
    {
        let ghost prev = self@;
        match action.action_type {
            ActionType::Insert => {
                let row = action.position.row;
                let col = action.position.col;
                if row < self.lines.len() && col < self.lines[row].as_str().unicode_len() {
                    let (new_line, _c) = line_remove(self.lines[row].as_str(), col);
                    self.lines.set(row, new_line);
                    proof {
                        assert(self@.lines =~= apply_undo_action(prev.lines, action@));
                    }
                }
            },
            ActionType::Delete => {
                let row = action.position.row;
                let col = action.position.col;
                if row < self.lines.len() && col <= self.lines[row].as_str().unicode_len()
                    && action.content.as_str().unicode_len() > 0 {
                    let ch = action.content.as_str().get_char(0);
                    let new_line = line_insert(self.lines[row].as_str(), col, ch);
                    self.lines.set(row, new_line);
                    proof {
                        assert(self@.lines =~= apply_undo_action(prev.lines, action@));
                    }
                }
            },
            ActionType::InsertLine => {
                let row = action.position.row;
                if row < self.lines.len() {
                    self.lines.remove(row);
                    proof {
                        assert(self@.lines =~= apply_undo_action(prev.lines, action@));
                    }
                }
            },
            ActionType::DeleteLine => {
                let row = action.position.row;
                if row <= self.lines.len() {
                    self.lines.insert(row, action.content.clone());
                    proof {
                        assert(self@.lines =~= apply_undo_action(prev.lines, action@));
                    }
                }
            },
        }
        proof {
            assert(self@ =~= (BufferView { lines: apply_undo_action(prev.lines, action@), ..prev }));
        }
    }

    /// Re-applies one action to the lines alone.
    fn apply_redo(&mut self, action: &Action)
        ensures
            final(self)@ == (BufferView {
                lines: apply_redo_action(old(self)@.lines, action@),
                ..old(self)@
            }),
    {
        let ghost prev = self@;
        match action.action_type {
            ActionType::Insert => {
                let row = action.position.row;
                let col = action.position.col;
                if row < self.lines.len() && col <= self.lines[row].as_str().unicode_len()
                    && action.content.as_str().unicode_len() > 0 {
                    let ch = action.content.as_str().get_char(0);
                    let new_line = line_insert(self.lines[row].as_str(), col, ch);
                    self.lines.set(row, new_line);
                    proof {
                        assert(self@.lines =~= apply_redo_action(prev.lines, action@));
                    }
                }
            },
            ActionType::Delete => {
                let row = action.position.row;
                let col = action.position.col;
                if row < self.lines.len() && col < self.lines[row].as_str().unicode_len() {
                    let (new_line, _c) = line_remove(self.lines[row].as_str(), col);
                    self.lines.set(row, new_line);
                    proof {
                        assert(self@.lines =~= apply_redo_action(prev.lines, action@));
                    }
                }
            },
            ActionType::InsertLine => {
                let row = action.position.row;
                if row <= self.lines.len() {
                    self.lines.insert(row, action.content.clone());
                    proof {
                        assert(self@.lines =~= apply_redo_action(prev.lines, action@));
                    }
                }
            },
            ActionType::DeleteLine => {
                let row = action.position.row;
                if row < self.lines.len() {
                    self.lines.remove(row);
                    proof {
                        assert(self@.lines =~= apply_redo_action(prev.lines, action@));
                    }
                }
            },
        }
        proof {
            assert(self@ =~= (BufferView { lines: apply_redo_action(prev.lines, action@), ..prev }));
        }
    }
}

impl Default for TextBuffer {
    fn default() -> (r: Self)
        ensures
            r@.lines =~= seq![Seq::<char>::empty()],
            !r@.modified,
            r.wf(),
    {
        Self::new()
    }
}

} // verus!
