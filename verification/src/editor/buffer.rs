//! The document buffer: an ordered sequence of text lines with
//! character-level mutation and an undo/redo action log.
//!
//! The buffer always holds at least one line; deleting the only line clears
//! it in place. Every mutation records an [`Action`] on the undo stack and
//! clears the redo stack, so the history stays linear. The specification
//! models the buffer as a sequence of character sequences together with the
//! two action stacks, and [`buffer_inv`] captures the history invariant that
//! makes undo and redo exact inverses.

use vstd::prelude::*;
use vstd::pervasive::VecAdditionalExecFns;
use vstd::string::*;

use crate::editor::cursor::Position;
use crate::error::EditorError;
use crate::text::{line_insert, line_remove, push_char, split_lines, join_lines, spec_lines,
    spec_join};

verus! {

#[derive(Debug, Clone, PartialEq, Eq, Structural)]
pub enum ActionType {
    Insert,
    Delete,
    InsertLine,
    DeleteLine,
}

/// One recorded reversible edit.
#[derive(Debug, Clone)]
pub struct Action {
    pub action_type: ActionType,
    pub position: Position,
    pub content: String,
}

/// The mathematical shadow of an [`Action`].
#[verifier::ext_equal]
pub struct ActionView {
    pub kind: ActionType,
    pub row: int,
    pub col: int,
    pub content: Seq<char>,
}

impl View for Action {
    type V = ActionView;

    open spec fn view(&self) -> ActionView {
        ActionView {
            kind: self.action_type,
            row: self.position.row as int,
            col: self.position.col as int,
            content: self.content@,
        }
    }
}

impl DeepView for Action {
    type V = ActionView;

    open spec fn deep_view(&self) -> ActionView {
        self.view()
    }
}

/// The mathematical shadow of a [`Buffer`].
#[verifier::ext_equal]
pub struct BufferView {
    pub lines: Seq<Seq<char>>,
    pub file_path: Option<Seq<char>>,
    pub modified: bool,
    pub undo_stack: Seq<ActionView>,
    pub redo_stack: Seq<ActionView>,
}

/// What undoing one action does to the lines: the exact reverse-application,
/// guarded so that an out-of-range record leaves the text alone.
pub open spec fn apply_undo_action(lines: Seq<Seq<char>>, a: ActionView) -> Seq<Seq<char>> {
    match a.kind {
        ActionType::Insert => if 0 <= a.row < lines.len() && 0 <= a.col < lines[a.row].len() {
            lines.update(a.row, lines[a.row].remove(a.col))
        } else {
            lines
        },
        ActionType::Delete => if 0 <= a.row < lines.len() && 0 <= a.col <= lines[a.row].len()
            && a.content.len() > 0 {
            lines.update(a.row, lines[a.row].insert(a.col, a.content[0]))
        } else {
            lines
        },
        ActionType::InsertLine => if 0 <= a.row < lines.len() {
            lines.remove(a.row)
        } else {
            lines
        },
        ActionType::DeleteLine => if 0 <= a.row <= lines.len() {
            lines.insert(a.row, a.content)
        } else {
            lines
        },
    }
}

/// What redoing one action does to the lines: the guarded re-application.
pub open spec fn apply_redo_action(lines: Seq<Seq<char>>, a: ActionView) -> Seq<Seq<char>> {
    match a.kind {
        ActionType::Insert => if 0 <= a.row < lines.len() && 0 <= a.col <= lines[a.row].len()
            && a.content.len() > 0 {
            lines.update(a.row, lines[a.row].insert(a.col, a.content[0]))
        } else {
            lines
        },
        ActionType::Delete => if 0 <= a.row < lines.len() && 0 <= a.col < lines[a.row].len() {
            lines.update(a.row, lines[a.row].remove(a.col))
        } else {
            lines
        },
        ActionType::InsertLine => if 0 <= a.row <= lines.len() {
            lines.insert(a.row, a.content)
        } else {
            lines
        },
        ActionType::DeleteLine => if 0 <= a.row < lines.len() {
            lines.remove(a.row)
        } else {
            lines
        },
    }
}

/// The action sits inside bounds, and redoing it after undoing it lands back
/// on the given lines.
pub open spec fn undo_inverts(lines: Seq<Seq<char>>, a: ActionView) -> bool {
    match a.kind {
        ActionType::Insert => 0 <= a.row < lines.len() && 0 <= a.col < lines[a.row].len()
            && a.content =~= seq![lines[a.row][a.col]],
        ActionType::Delete => 0 <= a.row < lines.len() && 0 <= a.col <= lines[a.row].len()
            && a.content.len() == 1,
        ActionType::InsertLine => 0 <= a.row < lines.len() && a.content =~= lines[a.row],
        ActionType::DeleteLine => 0 <= a.row <= lines.len(),
    }
}

/// The action sits inside bounds, and undoing it after redoing it lands back
/// on the given lines.
pub open spec fn redo_inverts(lines: Seq<Seq<char>>, a: ActionView) -> bool {
    match a.kind {
        ActionType::Insert => 0 <= a.row < lines.len() && 0 <= a.col <= lines[a.row].len()
            && a.content.len() == 1,
        ActionType::Delete => 0 <= a.row < lines.len() && 0 <= a.col < lines[a.row].len()
            && a.content =~= seq![lines[a.row][a.col]],
        ActionType::InsertLine => 0 <= a.row <= lines.len(),
        ActionType::DeleteLine => 0 <= a.row < lines.len() && a.content =~= lines[a.row],
    }
}

/// Every entry of the undo stack, applied newest first, inverts exactly and
/// never rewinds the text below one line.
pub open spec fn undo_consistent(lines: Seq<Seq<char>>, stack: Seq<ActionView>) -> bool
    decreases stack.len(),
{
    stack.len() == 0 || {
        let a = stack.last();
        undo_inverts(lines, a) && apply_undo_action(lines, a).len() >= 1 && undo_consistent(
            apply_undo_action(lines, a),
            stack.drop_last(),
        )
    }
}

/// Every entry of the redo stack, applied newest first, inverts exactly and
/// never replays the text below one line.
pub open spec fn redo_consistent(lines: Seq<Seq<char>>, stack: Seq<ActionView>) -> bool
    decreases stack.len(),
{
    stack.len() == 0 || {
        let a = stack.last();
        redo_inverts(lines, a) && apply_redo_action(lines, a).len() >= 1 && redo_consistent(
            apply_redo_action(lines, a),
            stack.drop_last(),
        )
    }
}

/// The buffer invariant: at least one line, and both history stacks are
/// consistent with the text they would rewind or replay.
pub open spec fn buffer_inv(bv: BufferView) -> bool {
    bv.lines.len() >= 1 && undo_consistent(bv.lines, bv.undo_stack) && redo_consistent(
        bv.lines,
        bv.redo_stack,
    )
}

/// The buffer after a successful `insert_char` at `(row, col)`.
pub open spec fn spec_insert_char(bv: BufferView, row: int, col: int, ch: char) -> BufferView {
    BufferView {
        lines: bv.lines.update(row, bv.lines[row].insert(col, ch)),
        modified: true,
        undo_stack: bv.undo_stack.push(
            ActionView { kind: ActionType::Insert, row, col, content: seq![ch] },
        ),
        redo_stack: Seq::empty(),
        ..bv
    }
}

/// The buffer after a `delete_char` at `(row, col)` that removed a character.
pub open spec fn spec_delete_char(bv: BufferView, row: int, col: int) -> BufferView {
    BufferView {
        lines: bv.lines.update(row, bv.lines[row].remove(col)),
        modified: true,
        undo_stack: bv.undo_stack.push(
            ActionView {
                kind: ActionType::Delete,
                row,
                col,
                content: seq![bv.lines[row][col]],
            },
        ),
        redo_stack: Seq::empty(),
        ..bv
    }
}

/// The buffer after a successful `insert_line` at `row`.
pub open spec fn spec_insert_line(bv: BufferView, row: int) -> BufferView {
    BufferView {
        lines: bv.lines.insert(row, Seq::empty()),
        modified: true,
        undo_stack: bv.undo_stack.push(
            ActionView { kind: ActionType::InsertLine, row, col: 0, content: Seq::empty() },
        ),
        redo_stack: Seq::empty(),
        ..bv
    }
}

/// The buffer after a successful `delete_line` at `row`: the line is removed
/// outright, or cleared in place when it is the only one.
pub open spec fn spec_delete_line(bv: BufferView, row: int) -> BufferView {
    BufferView {
        lines: if bv.lines.len() == 1 {
            seq![Seq::empty()]
        } else {
            bv.lines.remove(row)
        },
        modified: true,
        undo_stack: bv.undo_stack.push(
            ActionView {
                kind: ActionType::DeleteLine,
                row,
                col: 0,
                content: bv.lines[row],
            },
        ),
        redo_stack: Seq::empty(),
        ..bv
    }
}

/// The buffer after a successful `undo`.
pub open spec fn spec_undo(bv: BufferView) -> BufferView {
    let a = bv.undo_stack.last();
    BufferView {
        lines: apply_undo_action(bv.lines, a),
        modified: bv.undo_stack.len() > 1,
        undo_stack: bv.undo_stack.drop_last(),
        redo_stack: bv.redo_stack.push(a),
        ..bv
    }
}

/// The buffer after a successful `redo`.
pub open spec fn spec_redo(bv: BufferView) -> BufferView {
    let a = bv.redo_stack.last();
    BufferView {
        lines: apply_redo_action(bv.lines, a),
        modified: true,
        undo_stack: bv.undo_stack.push(a),
        redo_stack: bv.redo_stack.drop_last(),
        ..bv
    }
}

proof fn lemma_insert_then_remove<A>(s: Seq<A>, i: int, a: A)
    requires
        0 <= i <= s.len(),
    ensures
        s.insert(i, a).remove(i) =~= s,
{
}

proof fn lemma_remove_then_insert<A>(s: Seq<A>, i: int)
    requires
        0 <= i < s.len(),
    ensures
        s.remove(i).insert(i, s[i]) =~= s,
{
}

/// An action that undoes exactly also redoes exactly from the undone state.
proof fn lemma_undo_inverts(lines: Seq<Seq<char>>, a: ActionView)
    requires
        undo_inverts(lines, a),
    ensures
        redo_inverts(apply_undo_action(lines, a), a),
        apply_redo_action(apply_undo_action(lines, a), a) == lines,
{
    let l2 = apply_undo_action(lines, a);
    match a.kind {
        ActionType::Insert => {
            lemma_remove_then_insert(lines[a.row], a.col);
            assert(l2.update(a.row, l2[a.row].insert(a.col, a.content[0])) =~= lines);
        },
        ActionType::Delete => {
            lemma_insert_then_remove(lines[a.row], a.col, a.content[0]);
            assert(l2[a.row][a.col] == a.content[0]);
            assert(l2.update(a.row, l2[a.row].remove(a.col)) =~= lines);
        },
        ActionType::InsertLine => {
            lemma_remove_then_insert(lines, a.row);
            assert(l2.insert(a.row, a.content) =~= lines);
        },
        ActionType::DeleteLine => {
            lemma_insert_then_remove(lines, a.row, a.content);
            assert(l2[a.row] =~= a.content);
            assert(l2.remove(a.row) =~= lines);
        },
    }
}

/// An action that redoes exactly also undoes exactly from the redone state.
proof fn lemma_redo_inverts(lines: Seq<Seq<char>>, a: ActionView)
    requires
        redo_inverts(lines, a),
    ensures
        undo_inverts(apply_redo_action(lines, a), a),
        apply_undo_action(apply_redo_action(lines, a), a) == lines,
{
    let l2 = apply_redo_action(lines, a);
    match a.kind {
        ActionType::Insert => {
            lemma_insert_then_remove(lines[a.row], a.col, a.content[0]);
            assert(l2[a.row][a.col] == a.content[0]);
            assert(l2.update(a.row, l2[a.row].remove(a.col)) =~= lines);
        },
        ActionType::Delete => {
            lemma_remove_then_insert(lines[a.row], a.col);
            assert(l2.update(a.row, l2[a.row].insert(a.col, a.content[0])) =~= lines);
        },
        ActionType::InsertLine => {
            lemma_insert_then_remove(lines, a.row, a.content);
            assert(l2[a.row] =~= a.content);
            assert(l2.remove(a.row) =~= lines);
        },
        ActionType::DeleteLine => {
            lemma_remove_then_insert(lines, a.row);
            assert(l2.insert(a.row, a.content) =~= lines);
        },
    }
}

/// A newly recorded action that exactly inverts the step from `old_lines` to
/// `new_lines` keeps the whole undo stack consistent.
proof fn lemma_undo_push(
    old_lines: Seq<Seq<char>>,
    new_lines: Seq<Seq<char>>,
    stack: Seq<ActionView>,
    a: ActionView,
)
    requires
        undo_consistent(old_lines, stack),
        undo_inverts(new_lines, a),
        apply_undo_action(new_lines, a) == old_lines,
        old_lines.len() >= 1,
    ensures
        undo_consistent(new_lines, stack.push(a)),
{
    assert(stack.push(a).drop_last() =~= stack);
    assert(stack.push(a).last() == a);
}

proof fn lemma_redo_push(
    old_lines: Seq<Seq<char>>,
    new_lines: Seq<Seq<char>>,
    stack: Seq<ActionView>,
    a: ActionView,
)
    requires
        redo_consistent(old_lines, stack),
        redo_inverts(new_lines, a),
        apply_redo_action(new_lines, a) == old_lines,
        old_lines.len() >= 1,
    ensures
        redo_consistent(new_lines, stack.push(a)),
{
    assert(stack.push(a).drop_last() =~= stack);
    assert(stack.push(a).last() == a);
}

/// Consistency survives appending one extra line at the end of the text:
/// every recorded action acts strictly inside the existing lines.
proof fn lemma_undo_consistent_append(
    lines: Seq<Seq<char>>,
    stack: Seq<ActionView>,
    tail: Seq<char>,
)
    requires
        undo_consistent(lines, stack),
    ensures
        undo_consistent(lines.push(tail), stack),
    decreases stack.len(),
{
    if stack.len() > 0 {
        let a = stack.last();
        let ext = lines.push(tail);
        match a.kind {
            ActionType::Insert => {
                assert(ext.update(a.row, ext[a.row].remove(a.col)) =~= apply_undo_action(
                    lines,
                    a,
                ).push(tail));
            },
            ActionType::Delete => {
                assert(ext.update(a.row, ext[a.row].insert(a.col, a.content[0]))
                    =~= apply_undo_action(lines, a).push(tail));
            },
            ActionType::InsertLine => {
                assert(ext.remove(a.row) =~= apply_undo_action(lines, a).push(tail));
            },
            ActionType::DeleteLine => {
                assert(ext.insert(a.row, a.content) =~= apply_undo_action(lines, a).push(tail));
            },
        }
        assert(apply_undo_action(ext, a) == apply_undo_action(lines, a).push(tail));
        assert(undo_inverts(ext, a));
        lemma_undo_consistent_append(apply_undo_action(lines, a), stack.drop_last(), tail);
    }
}

#[derive(Debug, Clone)]
pub struct Buffer {
    lines: Vec<String>,
    file_path: Option<String>,
    modified: bool,
    undo_stack: Vec<Action>,
    redo_stack: Vec<Action>,
}

impl View for Buffer {
    type V = BufferView;

    closed spec fn view(&self) -> BufferView {
        BufferView {
            lines: self.lines.deep_view(),
            file_path: self.file_path.deep_view(),
            modified: self.modified,
            undo_stack: self.undo_stack.deep_view(),
            redo_stack: self.redo_stack.deep_view(),
        }
    }
}

impl Buffer {
    pub open spec fn wf(&self) -> bool {
        buffer_inv(self@)
    }

    /// An empty buffer: one empty line, no history.
    pub fn new() -> (r: Self)
        ensures
            r@.lines =~= seq![Seq::<char>::empty()],
            r@.file_path is None,
            !r@.modified,
            r@.undo_stack =~= Seq::<ActionView>::empty(),
            r@.redo_stack =~= Seq::<ActionView>::empty(),
            r.wf(),
    {
        let r = Self {
            lines: vec![String::new()],
            file_path: None,
            modified: false,
            undo_stack: Vec::new(),
            redo_stack: Vec::new(),
        };
        proof {
            assert(r@.lines =~= seq![Seq::<char>::empty()]);
            assert(r@.undo_stack =~= Seq::<ActionView>::empty());
            assert(r@.redo_stack =~= Seq::<ActionView>::empty());
        }
        r
    }

    /// A buffer holding the given text, split at line breaks; empty content
    /// still yields one empty line.
    pub fn from_content(content: &str) -> (r: Self)
        ensures
            r@.lines == if content@.len() == 0 {
                seq![Seq::<char>::empty()]
            } else {
                spec_lines(content@)
            },
            r@.file_path is None,
            !r@.modified,
            r@.undo_stack =~= Seq::<ActionView>::empty(),
            r@.redo_stack =~= Seq::<ActionView>::empty(),
            r.wf(),
    {
        let lines = if content.is_empty() {
            vec![String::new()]
        } else {
            split_lines(content)
        };
        proof {
            if content@.len() == 0 {
            } else {
                crate::text::lemma_first_nl_bounds(content@);
            }
        }
        let r = Self {
            lines,
            file_path: None,
            modified: false,
            undo_stack: Vec::new(),
            redo_stack: Vec::new(),
        };
        proof {
            if content@.len() == 0 {
                assert(r@.lines =~= seq![Seq::<char>::empty()]);
            }
            assert(r@.undo_stack =~= Seq::<ActionView>::empty());
            assert(r@.redo_stack =~= Seq::<ActionView>::empty());
        }
        r
    }

    /// The same buffer, now associated with a file path.
    pub fn with_file_path(self, path: String) -> (r: Self)
        ensures
            r@ == (BufferView { file_path: Some(path@), ..self@ }),
    {
        Self { file_path: Some(path), ..self }
    }

    pub fn line_count(&self) -> (r: usize)
        ensures
            r == self@.lines.len(),
    {
        self.lines.len()
    }

    /// The line at `index`, or `OutOfBounds` past the end.
    pub fn line(&self, index: usize) -> (r: Result<&str, EditorError>)
        ensures
            index < self@.lines.len() ==> (r matches Ok(s) && s@ == self@.lines[index as int]),
            index >= self@.lines.len() ==> (r matches Err(EditorError::OutOfBounds {
                row,
                col,
            }) && row == index && col == 0),
    {
        if index < self.lines.len() {
            Ok(self.lines[index].as_str())
        } else {
            Err(EditorError::out_of_bounds(index, 0))
        }
    }

    /// The character length of the line at `index`, or `OutOfBounds`.
    pub fn line_length(&self, index: usize) -> (r: Result<usize, EditorError>)
        ensures
            index < self@.lines.len() ==> (r matches Ok(n) && n == self@.lines[index as int].len()),
            index >= self@.lines.len() ==> (r matches Err(EditorError::OutOfBounds {
                row,
                col,
            }) && row == index && col == 0),
    {
        if index < self.lines.len() {
            Ok(self.lines[index].as_str().unicode_len())
        } else {
            Err(EditorError::out_of_bounds(index, 0))
        }
    }

    pub fn is_modified(&self) -> (r: bool)
        ensures
            r == self@.modified,
    {
        self.modified
    }

    pub fn file_path(&self) -> (r: Option<&String>)
        ensures
            (r matches Some(p) ==> self@.file_path == Some(p@)),
            (r is None ==> self@.file_path is None),
    {
        self.file_path.as_ref()
    }

    pub fn can_undo(&self) -> (r: bool)
        ensures
            r == (self@.undo_stack.len() > 0),
    {
        self.undo_stack.len() > 0
    }

    pub fn can_redo(&self) -> (r: bool)
        ensures
            r == (self@.redo_stack.len() > 0),
    {
        self.redo_stack.len() > 0
    }

    /// Clears the modified flag without touching the history stacks.
    pub fn mark_saved(&mut self)
        ensures
            final(self)@ == (BufferView { modified: false, ..old(self)@ }),
            old(self).wf() ==> final(self).wf(),
    {
        self.modified = false;
    }

    /// The whole text, lines joined with line breaks.
    pub fn to_string(&self) -> (r: String)
        ensures
            r@ == spec_join(self@.lines),
    {
        join_lines(&self.lines)
    }

    fn push_action(&mut self, action: Action)
        ensures
            final(self)@ == (BufferView {
                undo_stack: old(self)@.undo_stack.push(action@),
                redo_stack: Seq::empty(),
                ..old(self)@
            }),
    {
        self.undo_stack.push(action);
        self.redo_stack.clear();
        proof {
            assert(self@.undo_stack =~= old(self)@.undo_stack.push(action@));
            assert(self@.redo_stack =~= Seq::<ActionView>::empty());
        }
    }

    /// Splices `ch` into the line at `pos`; `OutOfBounds` when `pos` lies
    /// outside the text (a column just past the end of the line is allowed).
    pub fn insert_char(&mut self, pos: Position, ch: char) -> (r: Result<(), EditorError>)
        ensures
            (r is Ok <==> pos.row < old(self)@.lines.len() && pos.col <= old(self)@.lines[
                pos.row as int
            ].len()),
            r is Ok ==> final(self)@ == spec_insert_char(
                old(self)@,
                pos.row as int,
                pos.col as int,
                ch,
            ),
            r is Err ==> final(self)@ == old(self)@,
            (r matches Err(e) ==> e == (EditorError::OutOfBounds { row: pos.row, col: pos.col })),
            old(self).wf() ==> final(self).wf(),
    {
        if pos.row >= self.lines.len() {
            return Err(EditorError::out_of_bounds(pos.row, pos.col));
        }
        let line_len = self.lines[pos.row].as_str().unicode_len();
        if pos.col > line_len {
            return Err(EditorError::out_of_bounds(pos.row, pos.col));
        }
        let mut content = String::new();
        push_char(&mut content, ch);
        let action = Action { action_type: ActionType::Insert, position: pos, content };
        let new_line = line_insert(self.lines[pos.row].as_str(), pos.col, ch);
        let ghost prev = self@;
        let ghost row = pos.row as int;
        let ghost col = pos.col as int;
        self.lines.set(pos.row, new_line);
        self.modified = true;
        proof {
            assert(self@.lines =~= prev.lines.update(row, prev.lines[row].insert(col, ch)));
            assert(action@.content =~= seq![ch]);
        }
        self.push_action(action);
        proof {
            let target = spec_insert_char(prev, row, col, ch);
            assert(self@.undo_stack =~= target.undo_stack);
            assert(self@ =~= target);
            if buffer_inv(prev) {
                lemma_insert_then_remove(prev.lines[row], col, ch);
                assert(apply_undo_action(self@.lines, action@) =~= prev.lines);
                lemma_undo_push(prev.lines, self@.lines, prev.undo_stack, action@);
            }
        }
        Ok(())
    }

    /// Removes the character at `pos` and returns it. A column at or past the
    /// end of the line is a no-op (`Ok(None)`), not an error; a row outside
    /// the text is `OutOfBounds`.
    pub fn delete_char(&mut self, pos: Position) -> (r: Result<Option<char>, EditorError>)
        ensures
            (r is Ok <==> pos.row < old(self)@.lines.len()),
            (r matches Err(e) ==> e == (EditorError::OutOfBounds { row: pos.row, col: pos.col })
                && final(self)@ == old(self)@),
            pos.row < old(self)@.lines.len() && pos.col >= old(self)@.lines[pos.row as int].len()
                ==> (r matches Ok(o) && o is None) && final(self)@ == old(self)@,
            pos.row < old(self)@.lines.len() && pos.col < old(self)@.lines[pos.row as int].len()
                ==> (r matches Ok(o) && o == Some(old(self)@.lines[pos.row as int][pos.col as int]))
                && final(self)@ == spec_delete_char(old(self)@, pos.row as int, pos.col as int),
            old(self).wf() ==> final(self).wf(),
    {
        if pos.row >= self.lines.len() {
            return Err(EditorError::out_of_bounds(pos.row, pos.col));
        }
        let line_len = self.lines[pos.row].as_str().unicode_len();
        if pos.col >= line_len {
            return Ok(None);
        }
        let (new_line, deleted) = line_remove(self.lines[pos.row].as_str(), pos.col);
        let mut content = String::new();
        push_char(&mut content, deleted);
        let action = Action { action_type: ActionType::Delete, position: pos, content };
        let ghost prev = self@;
        let ghost row = pos.row as int;
        let ghost col = pos.col as int;
        self.lines.set(pos.row, new_line);
        self.modified = true;
        proof {
            assert(self@.lines =~= prev.lines.update(row, prev.lines[row].remove(col)));
            assert(action@.content =~= seq![prev.lines[row][col]]);
        }
        self.push_action(action);
        proof {
            let target = spec_delete_char(prev, row, col);
            assert(self@.undo_stack =~= target.undo_stack);
            assert(self@ =~= target);
            if buffer_inv(prev) {
                lemma_remove_then_insert(prev.lines[row], col);
                assert(apply_undo_action(self@.lines, action@) =~= prev.lines);
                lemma_undo_push(prev.lines, self@.lines, prev.undo_stack, action@);
            }
        }
        Ok(Some(deleted))
    }

    /// Inserts an empty line before `row`; `row` may equal the line count,
    /// which appends at the end.
    pub fn insert_line(&mut self, row: usize) -> (r: Result<(), EditorError>)
        ensures
            (r is Ok <==> row <= old(self)@.lines.len()),
            r is Ok ==> final(self)@ == spec_insert_line(old(self)@, row as int),
            r is Err ==> final(self)@ == old(self)@,
            (r matches Err(e) ==> e == (EditorError::OutOfBounds { row, col: 0usize })),
            old(self).wf() ==> final(self).wf(),
    {
        if row > self.lines.len() {
            return Err(EditorError::out_of_bounds(row, 0));
        }
        let action = Action {
            action_type: ActionType::InsertLine,
            position: Position::new(row, 0),
            content: String::new(),
        };
        let ghost prev = self@;
        self.lines.insert(row, String::new());
        self.modified = true;
        proof {
            assert(self@.lines =~= prev.lines.insert(row as int, Seq::<char>::empty()));
            assert(action@.content =~= Seq::<char>::empty());
        }
        self.push_action(action);
        proof {
            let target = spec_insert_line(prev, row as int);
            assert(self@.undo_stack =~= target.undo_stack);
            assert(self@ =~= target);
            if buffer_inv(prev) {
                lemma_insert_then_remove(prev.lines, row as int, Seq::<char>::empty());
                assert(self@.lines[row as int] =~= action@.content);
                assert(apply_undo_action(self@.lines, action@) =~= prev.lines);
                lemma_undo_push(prev.lines, self@.lines, prev.undo_stack, action@);
            }
        }
        Ok(())
    }

    /// Removes the line at `row` and returns its text. The buffer never drops
    /// below one line: deleting the only line clears it in place instead.
    pub fn delete_line(&mut self, row: usize) -> (r: Result<Option<String>, EditorError>)
        ensures
            (r is Ok <==> row < old(self)@.lines.len()),
            (r matches Err(e) ==> e == (EditorError::OutOfBounds { row, col: 0usize })
                && final(self)@ == old(self)@),
            (r matches Ok(o) ==> o matches Some(s) && s@ == old(self)@.lines[row as int]
                && final(self)@ == spec_delete_line(old(self)@, row as int)),
            old(self)@.lines.len() >= 1 ==> final(self)@.lines.len() >= 1,
            old(self).wf() ==> final(self).wf(),
    {
        if row >= self.lines.len() {
            return Err(EditorError::out_of_bounds(row, 0));
        }
        let ghost prev = self@;
        if self.lines.len() == 1 {
            let content = self.lines[0].clone();
            let action = Action {
                action_type: ActionType::DeleteLine,
                position: Position::new(row, 0),
                content: content.clone(),
            };
            self.lines.set(0, String::new());
            self.modified = true;
            proof {
                assert(self@.lines =~= seq![Seq::<char>::empty()]);
            }
            self.push_action(action);
            proof {
                let target = spec_delete_line(prev, row as int);
                assert(self@.undo_stack =~= target.undo_stack);
                assert(self@ =~= target);
                if buffer_inv(prev) {
                    assert(apply_undo_action(self@.lines, action@) =~= prev.lines.push(
                        Seq::<char>::empty(),
                    ));
                    lemma_undo_consistent_append(prev.lines, prev.undo_stack, Seq::empty());
                    lemma_undo_push(
                        prev.lines.push(Seq::empty()),
                        self@.lines,
                        prev.undo_stack,
                        action@,
                    );
                }
            }
            return Ok(Some(content));
        }
        let deleted = self.lines.remove(row);
        let action = Action {
            action_type: ActionType::DeleteLine,
            position: Position::new(row, 0),
            content: deleted.clone(),
        };
        self.modified = true;
        proof {
            assert(self@.lines =~= prev.lines.remove(row as int));
        }
        self.push_action(action);
        proof {
            let target = spec_delete_line(prev, row as int);
            assert(self@.undo_stack =~= target.undo_stack);
            assert(self@ =~= target);
            if buffer_inv(prev) {
                lemma_remove_then_insert(prev.lines, row as int);
                assert(apply_undo_action(self@.lines, action@) =~= prev.lines);
                lemma_undo_push(prev.lines, self@.lines, prev.undo_stack, action@);
            }
        }
        Ok(Some(deleted))
    }

    /// Pops the most recent action and reverse-applies it; the modified flag
    /// afterwards reports whether any history remains to unwind.
    pub fn undo(&mut self) -> (r: Result<(), EditorError>)
        ensures
            (r is Ok <==> old(self)@.undo_stack.len() > 0),
            r is Ok ==> final(self)@ == spec_undo(old(self)@),
            r is Err ==> final(self)@ == old(self)@ && (r matches Err(
                EditorError::EmptyUndoStack,
            )),
            old(self).wf() ==> final(self).wf(),
    {
        let action = match self.undo_stack.pop() {
            Some(a) => a,
            None => {
                return Err(EditorError::EmptyUndoStack);
            },
        };
        let ghost prev = self@;
        let ghost orig = old(self)@;
        let ghost a = action@;
        proof {
            assert(orig.undo_stack.last() == a);
            assert(prev.undo_stack =~= orig.undo_stack.drop_last());
        }
        self.apply_undo(&action);
        proof {
            assert(self@.lines =~= apply_undo_action(orig.lines, a));
        }
        self.redo_stack.push(action);
        self.modified = self.undo_stack.len() > 0;
        proof {
            assert(self@.redo_stack =~= orig.redo_stack.push(a));
            assert(self@ =~= spec_undo(orig));
            if buffer_inv(orig) {
                lemma_undo_inverts(orig.lines, a);
                lemma_redo_push(orig.lines, self@.lines, orig.redo_stack, a);
            }
        }
        Ok(())
    }

    /// Pops the most recent undone action and re-applies it; redoing always
    /// marks the buffer modified.
    pub fn redo(&mut self) -> (r: Result<(), EditorError>)
        ensures
            (r is Ok <==> old(self)@.redo_stack.len() > 0),
            r is Ok ==> final(self)@ == spec_redo(old(self)@),
            r is Err ==> final(self)@ == old(self)@ && (r matches Err(
                EditorError::EmptyRedoStack,
            )),
            old(self).wf() ==> final(self).wf(),
    {
        let action = match self.redo_stack.pop() {
            Some(a) => a,
            None => {
                return Err(EditorError::EmptyRedoStack);
            },
        };
        let ghost prev = self@;
        let ghost orig = old(self)@;
        let ghost a = action@;
        proof {
            assert(orig.redo_stack.last() == a);
            assert(prev.redo_stack =~= orig.redo_stack.drop_last());
        }
        self.apply_redo(&action);
        proof {
            assert(self@.lines =~= apply_redo_action(orig.lines, a));
        }
        self.undo_stack.push(action);
        self.modified = true;
        proof {
            assert(self@.undo_stack =~= orig.undo_stack.push(a));
            assert(self@ =~= spec_redo(orig));
            if buffer_inv(orig) {
                lemma_redo_inverts(orig.lines, a);
                lemma_undo_push(orig.lines, self@.lines, orig.undo_stack, a);
            }
        }
        Ok(())
    }

    /// Reverse-applies one action to the lines alone.
    fn apply_undo(&mut self, action: &Action)
        ensures
            final(self)@ == (BufferView {
                lines: apply_undo_action(old(self)@.lines, action@),
                ..old(self)@
            }),
    {
        let ghost prev = self@;
        match action.action_type {
            ActionType::Insert => {
                let pos = action.position;
                if pos.row < self.lines.len() && pos.col < self.lines[pos.row].as_str().unicode_len() {
                    let (new_line, _c) = line_remove(self.lines[pos.row].as_str(), pos.col);
                    self.lines.set(pos.row, new_line);
                    proof {
                        assert(self@.lines =~= apply_undo_action(prev.lines, action@));
                    }
                }
            },
            ActionType::Delete => {
                let pos = action.position;
                if pos.row < self.lines.len() && pos.col <= self.lines[pos.row].as_str().unicode_len()
                    && action.content.as_str().unicode_len() > 0 {
                    let ch = action.content.as_str().get_char(0);
                    let new_line = line_insert(self.lines[pos.row].as_str(), pos.col, ch);
                    self.lines.set(pos.row, new_line);
                    proof {
                        assert(self@.lines =~= apply_undo_action(prev.lines, action@));
                    }
                }
            },
            ActionType::InsertLine => {
                let pos = action.position;
                if pos.row < self.lines.len() {
                    self.lines.remove(pos.row);
                    proof {
                        assert(self@.lines =~= apply_undo_action(prev.lines, action@));
                    }
                }
            },
            ActionType::DeleteLine => {
                let pos = action.position;
                if pos.row <= self.lines.len() {
                    self.lines.insert(pos.row, action.content.clone());
                    proof {
                        assert(self@.lines =~= apply_undo_action(prev.lines, action@));
                    }
                }
            },
        }
        proof {
            assert(self@ =~= (BufferView { lines: apply_undo_action(prev.lines, action@), ..prev }));
        }
    }

    /// Re-applies one action to the lines alone.
    fn apply_redo(&mut self, action: &Action)
        ensures
            final(self)@ == (BufferView {
                lines: apply_redo_action(old(self)@.lines, action@),
                ..old(self)@
            }),
    {
        let ghost prev = self@;
        match action.action_type {
            ActionType::Insert => {
                let pos = action.position;
                if pos.row < self.lines.len() && pos.col <= self.lines[pos.row].as_str().unicode_len()
                    && action.content.as_str().unicode_len() > 0 {
                    let ch = action.content.as_str().get_char(0);
                    let new_line = line_insert(self.lines[pos.row].as_str(), pos.col, ch);
                    self.lines.set(pos.row, new_line);
                    proof {
                        assert(self@.lines =~= apply_redo_action(prev.lines, action@));
                    }
                }
            },
            ActionType::Delete => {
                let pos = action.position;
                if pos.row < self.lines.len() && pos.col < self.lines[pos.row].as_str().unicode_len() {
                    let (new_line, _c) = line_remove(self.lines[pos.row].as_str(), pos.col);
                    self.lines.set(pos.row, new_line);
                    proof {
                        assert(self@.lines =~= apply_redo_action(prev.lines, action@));
                    }
                }
            },
            ActionType::InsertLine => {
                let pos = action.position;
                if pos.row <= self.lines.len() {
                    self.lines.insert(pos.row, action.content.clone());
                    proof {
                        assert(self@.lines =~= apply_redo_action(prev.lines, action@));
                    }
                }
            },
            ActionType::DeleteLine => {
                let pos = action.position;
                if pos.row < self.lines.len() {
                    self.lines.remove(pos.row);
                    proof {
                        assert(self@.lines =~= apply_redo_action(prev.lines, action@));
                    }
                }
            },
        }
        proof {
            assert(self@ =~= (BufferView { lines: apply_redo_action(prev.lines, action@), ..prev }));
        }
    }
}

/// Recording a character insertion keeps the history invariant.
pub proof fn lemma_history_push_insert(bv: BufferView, row: int, col: int, ch: char)
    requires
        buffer_inv(bv),
        0 <= row < bv.lines.len(),
        0 <= col <= bv.lines[row].len(),
    ensures
        buffer_inv(spec_insert_char(bv, row, col, ch)),
{
    let new = spec_insert_char(bv, row, col, ch);
    let av = ActionView { kind: ActionType::Insert, row, col, content: seq![ch] };
    lemma_insert_then_remove(bv.lines[row], col, ch);
    assert(apply_undo_action(new.lines, av) =~= bv.lines);
    lemma_undo_push(bv.lines, new.lines, bv.undo_stack, av);
}

/// Recording a character deletion keeps the history invariant.
pub proof fn lemma_history_push_delete(bv: BufferView, row: int, col: int)
    requires
        buffer_inv(bv),
        0 <= row < bv.lines.len(),
        0 <= col < bv.lines[row].len(),
    ensures
        buffer_inv(spec_delete_char(bv, row, col)),
{
    let new = spec_delete_char(bv, row, col);
    let av = ActionView { kind: ActionType::Delete, row, col, content: seq![bv.lines[row][col]] };
    lemma_remove_then_insert(bv.lines[row], col);
    assert(apply_undo_action(new.lines, av) =~= bv.lines);
    lemma_undo_push(bv.lines, new.lines, bv.undo_stack, av);
}

/// Recording a line insertion keeps the history invariant.
pub proof fn lemma_history_push_insert_line(bv: BufferView, row: int)
    requires
        buffer_inv(bv),
        0 <= row <= bv.lines.len(),
    ensures
        buffer_inv(spec_insert_line(bv, row)),
{
    let new = spec_insert_line(bv, row);
    let av = ActionView { kind: ActionType::InsertLine, row, col: 0, content: Seq::empty() };
    lemma_insert_then_remove(bv.lines, row, Seq::<char>::empty());
    assert(new.lines[row] =~= av.content);
    assert(apply_undo_action(new.lines, av) =~= bv.lines);
    lemma_undo_push(bv.lines, new.lines, bv.undo_stack, av);
}

/// Recording a line deletion keeps the history invariant, in both the
/// removing and the clearing-in-place case.
pub proof fn lemma_history_push_delete_line(bv: BufferView, row: int)
    requires
        buffer_inv(bv),
        0 <= row < bv.lines.len(),
    ensures
        buffer_inv(spec_delete_line(bv, row)),
{
    let new = spec_delete_line(bv, row);
    let av = ActionView { kind: ActionType::DeleteLine, row, col: 0, content: bv.lines[row] };
    if bv.lines.len() == 1 {
        assert(apply_undo_action(new.lines, av) =~= bv.lines.push(Seq::<char>::empty()));
        lemma_undo_consistent_append(bv.lines, bv.undo_stack, Seq::empty());
        lemma_undo_push(bv.lines.push(Seq::empty()), new.lines, bv.undo_stack, av);
    } else {
        lemma_remove_then_insert(bv.lines, row);
        assert(apply_undo_action(new.lines, av) =~= bv.lines);
        lemma_undo_push(bv.lines, new.lines, bv.undo_stack, av);
    }
}

/// Undoing keeps the history invariant.
pub proof fn lemma_undo_preserves_inv(bv: BufferView)
    requires
        buffer_inv(bv),
        bv.undo_stack.len() > 0,
    ensures
        buffer_inv(spec_undo(bv)),
{
    let a = bv.undo_stack.last();
    lemma_undo_inverts(bv.lines, a);
    lemma_redo_push(bv.lines, spec_undo(bv).lines, bv.redo_stack, a);
}

/// Redoing keeps the history invariant.
pub proof fn lemma_redo_preserves_inv(bv: BufferView)
    requires
        buffer_inv(bv),
        bv.redo_stack.len() > 0,
    ensures
        buffer_inv(spec_redo(bv)),
{
    let a = bv.redo_stack.last();
    lemma_redo_inverts(bv.lines, a);
    lemma_undo_push(bv.lines, spec_redo(bv).lines, bv.undo_stack, a);
}

/// Law: undoing and then redoing restores the pre-undo text and both history
/// stacks exactly. The modified flag afterwards is always set — a redo
/// deliberately marks the buffer as modified even when the text matches the
/// last saved snapshot — so a buffer whose flag had been cleared by
/// `mark_saved` between the edit and the undo gets it back set, not clear.
pub proof fn lemma_redo_after_undo(bv: BufferView)
    requires
        buffer_inv(bv),
        bv.undo_stack.len() > 0,
    ensures
        spec_redo(spec_undo(bv)).lines == bv.lines,
        spec_redo(spec_undo(bv)).undo_stack == bv.undo_stack,
        spec_redo(spec_undo(bv)).redo_stack == bv.redo_stack,
        spec_redo(spec_undo(bv)).file_path == bv.file_path,
        spec_redo(spec_undo(bv)).modified,
{
    let a = bv.undo_stack.last();
    let u = spec_undo(bv);
    assert(undo_inverts(bv.lines, a));
    lemma_undo_inverts(bv.lines, a);
    assert(u.redo_stack.last() == a);
    assert(u.redo_stack.drop_last() =~= bv.redo_stack);
    assert(u.undo_stack.push(a) =~= bv.undo_stack);
}

/// Law: every new mutating edit clears the redo stack, so `can_redo` is
/// false immediately after it.
pub proof fn lemma_edit_clears_redo(bv: BufferView, row: int, col: int, ch: char)
    ensures
        spec_insert_char(bv, row, col, ch).redo_stack.len() == 0,
        spec_delete_char(bv, row, col).redo_stack.len() == 0,
        spec_insert_line(bv, row).redo_stack.len() == 0,
        spec_delete_line(bv, row).redo_stack.len() == 0,
{
}

/// The insertion at the head of `edits` stays inside the text.
pub open spec fn insert_char_valid(bv: BufferView, e: (int, int, char)) -> bool {
    0 <= e.0 < bv.lines.len() && 0 <= e.1 <= bv.lines[e.0].len()
}

/// Every insertion of `edits`, applied in order, stays inside the text.
pub open spec fn inserts_valid(bv: BufferView, edits: Seq<(int, int, char)>) -> bool
    decreases edits.len(),
{
    edits.len() == 0 || (insert_char_valid(bv, edits.first()) && inserts_valid(
        spec_insert_char(bv, edits.first().0, edits.first().1, edits.first().2),
        edits.drop_first(),
    ))
}

/// The buffer after applying every insertion of `edits` in order.
pub open spec fn apply_inserts(bv: BufferView, edits: Seq<(int, int, char)>) -> BufferView
    decreases edits.len(),
{
    if edits.len() == 0 {
        bv
    } else {
        apply_inserts(
            spec_insert_char(bv, edits.first().0, edits.first().1, edits.first().2),
            edits.drop_first(),
        )
    }
}

/// The buffer after `n` successive undos.
pub open spec fn apply_undos(bv: BufferView, n: nat) -> BufferView
    decreases n,
{
    if n == 0 {
        bv
    } else {
        apply_undos(spec_undo(bv), (n - 1) as nat)
    }
}

proof fn lemma_apply_undos_add(bv: BufferView, m: nat, n: nat)
    ensures
        apply_undos(bv, m + n) == apply_undos(apply_undos(bv, m), n),
    decreases m,
{
    if m > 0 {
        lemma_apply_undos_add(spec_undo(bv), (m - 1) as nat, n);
    }
}

proof fn lemma_inserts_then_undos(bv: BufferView, edits: Seq<(int, int, char)>)
    requires
        inserts_valid(bv, edits),
        edits.len() > 0,
    ensures
        apply_undos(apply_inserts(bv, edits), edits.len()).lines == bv.lines,
        apply_undos(apply_inserts(bv, edits), edits.len()).undo_stack == bv.undo_stack,
        apply_undos(apply_inserts(bv, edits), edits.len()).file_path == bv.file_path,
        apply_undos(apply_inserts(bv, edits), edits.len()).modified == (bv.undo_stack.len() > 0),
    decreases edits.len(),
{
    let e = edits.first();
    let bv1 = spec_insert_char(bv, e.0, e.1, e.2);
    let rest = edits.drop_first();
    let inserted = apply_inserts(bv, edits);
    lemma_apply_undos_add(inserted, rest.len(), 1);
    lemma_insert_then_remove(bv.lines[e.0], e.1, e.2);
    if rest.len() == 0 {
        assert(inserted == bv1);
        let a = bv1.undo_stack.last();
        assert(apply_undo_action(bv1.lines, a) =~= bv.lines);
        assert(bv1.undo_stack.drop_last() =~= bv.undo_stack);
        assert(apply_undos(spec_undo(bv1), 0) == spec_undo(bv1));
        assert(apply_undos(bv1, 1) == spec_undo(bv1));
    } else {
        lemma_inserts_then_undos(bv1, rest);
        let r1 = apply_undos(apply_inserts(bv1, rest), rest.len());
        assert(r1.undo_stack == bv1.undo_stack);
        let a = r1.undo_stack.last();
        assert(a == bv1.undo_stack.last());
        assert(apply_undo_action(r1.lines, a) =~= bv.lines);
        assert(r1.undo_stack.drop_last() =~= bv.undo_stack);
        assert(apply_undos(spec_undo(r1), 0) == spec_undo(r1));
        assert(apply_undos(r1, 1) == spec_undo(r1));
        assert(apply_undos(inserted, edits.len() as nat) == spec_undo(r1));
    }
}

/// Law: a run of character insertions followed by as many undos leaves the
/// buffer's text exactly as it started, and — when the buffer carried no
/// earlier history — leaves the modified flag clear.
pub proof fn lemma_insert_undo_round_trip(bv: BufferView, edits: Seq<(int, int, char)>)
    requires
        inserts_valid(bv, edits),
        bv.undo_stack.len() == 0,
    ensures
        apply_undos(apply_inserts(bv, edits), edits.len()).lines == bv.lines,
        edits.len() > 0 ==> !apply_undos(apply_inserts(bv, edits), edits.len()).modified,
{
    if edits.len() > 0 {
        lemma_inserts_then_undos(bv, edits);
    }
}

} // verus!
