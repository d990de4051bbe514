//! The modal state machine: the four editing modes and the fixed transition
//! table between them.
//!
//! Normal reaches every mode; Insert, Visual and Command fall back to Normal;
//! Visual may also enter Insert directly (a documented design choice). Any
//! pair outside the table is a no-op, never an error.

use vstd::prelude::*;
use vstd::string::*;

use crate::editor::cursor::Position;
use crate::error::EditorError;

verus! {

#[derive(Debug, Clone, PartialEq, Default)]
pub enum Mode {
    #[default]
    Normal,
    Insert,
    Visual { start: Position },
    Command { input: String },
}

/// The display name of a mode.
pub open spec fn spec_mode_name(m: Mode) -> Seq<char> {
    match m {
        Mode::Normal => "NORMAL"@,
        Mode::Insert => "INSERT"@,
        Mode::Visual { .. } => "VISUAL"@,
        Mode::Command { .. } => "COMMAND"@,
    }
}

impl Mode {
    pub fn is_normal(&self) -> (r: bool)
        ensures
            r == (*self is Normal),
    {
        matches!(self, Mode::Normal)
    }

    pub fn is_insert(&self) -> (r: bool)
        ensures
            r == (*self is Insert),
    {
        matches!(self, Mode::Insert)
    }

    pub fn is_visual(&self) -> (r: bool)
        ensures
            r == (*self is Visual),
    {
        matches!(self, Mode::Visual { .. })
    }

    pub fn is_command(&self) -> (r: bool)
        ensures
            r == (*self is Command),
    {
        matches!(self, Mode::Command { .. })
    }

    /// The mode's display name.
    pub fn to_string(&self) -> (r: String)
        ensures
            r@ == spec_mode_name(*self),
    {
        match self {
            Mode::Normal => String::from_str("NORMAL"),
            Mode::Insert => String::from_str("INSERT"),
            Mode::Visual { .. } => String::from_str("VISUAL"),
            Mode::Command { .. } => String::from_str("COMMAND"),
        }
    }
}

/// An exact copy of a mode value.
pub fn clone_mode(m: &Mode) -> (r: Mode)
    ensures
        r == *m,
{
    match m {
        Mode::Normal => Mode::Normal,
        Mode::Insert => Mode::Insert,
        Mode::Visual { start } => Mode::Visual { start: *start },
        Mode::Command { input } => Mode::Command { input: input.clone() },
    }
}

/// The transition table: from Normal anywhere, from anywhere back to Normal,
/// and from Visual directly into Insert.
pub open spec fn spec_can_transition(from: Mode, to: Mode) -> bool {
    match (from, to) {
        (Mode::Normal, _) => true,
        (Mode::Insert, Mode::Normal) => true,
        (Mode::Visual { .. }, Mode::Normal) => true,
        (Mode::Visual { .. }, Mode::Insert) => true,
        (Mode::Command { .. }, Mode::Normal) => true,
        _ => false,
    }
}

/// Law: the table admits exactly three families of transitions — out of
/// Normal, back into Normal, and Visual into Insert. Everything else is
/// refused, so a trigger that is only meaningful in another mode cannot
/// change the mode.
pub proof fn lemma_mode_table(from: Mode, to: Mode)
    ensures
        spec_can_transition(from, to) <==> (from is Normal || to is Normal || (from is Visual
            && to is Insert)),
{
}

#[derive(Debug, Clone)]
pub struct ModeManager {
    current: Mode,
    previous: Option<Mode>,
}

impl ModeManager {
    pub closed spec fn spec_current(&self) -> Mode {
        self.current
    }

    pub closed spec fn spec_previous(&self) -> Option<Mode> {
        self.previous
    }

    pub fn new() -> (r: Self)
        ensures
            r.spec_current() == Mode::Normal,
            r.spec_previous() is None,
    {
        Self { current: Mode::Normal, previous: None }
    }

    pub fn current(&self) -> (r: &Mode)
        ensures
            *r == self.spec_current(),
    {
        &self.current
    }

    pub fn previous(&self) -> (r: Option<&Mode>)
        ensures
            (r matches Some(m) ==> self.spec_previous() == Some(*m)),
            (r is None ==> self.spec_previous() is None),
    {
        self.previous.as_ref()
    }

    pub fn enter_insert(&mut self)
        ensures
            spec_can_transition(old(self).spec_current(), Mode::Insert) ==> final(self).spec_current() == Mode::Insert && final(self).spec_previous() == Some(old(self).spec_current()),
            !spec_can_transition(old(self).spec_current(), Mode::Insert) ==> *final(self) == *old(self),
    {
        self.transition_to(Mode::Insert);
    }

    pub fn enter_visual(&mut self, start: Position)
        ensures
            spec_can_transition(old(self).spec_current(), Mode::Visual { start }) ==> final(self).spec_current() == (Mode::Visual { start }) && final(self).spec_previous() == Some(old(self).spec_current()),
            !spec_can_transition(old(self).spec_current(), Mode::Visual { start }) ==> *final(self)
                == *old(self),
    {
        self.transition_to(Mode::Visual { start });
    }

    pub fn enter_command(&mut self)
        ensures
            old(self).spec_current() is Normal ==> (final(self).spec_current() matches
                Mode::Command { input } && input@.len() == 0) && final(self).spec_previous()
                == Some(old(self).spec_current()),
            !(old(self).spec_current() is Normal) ==> *final(self) == *old(self),
    {
        self.transition_to(Mode::Command { input: String::new() });
    }

    pub fn enter_normal(&mut self)
        ensures
            final(self).spec_current() == Mode::Normal,
            final(self).spec_previous() == Some(old(self).spec_current()),
    {
        self.transition_to(Mode::Normal);
    }

    /// Replaces the in-progress command-line text; refused outside Command
    /// mode.
    pub fn update_command_input(&mut self, input: String) -> (r: Result<(), EditorError>)
        ensures
            old(self).spec_current() is Command ==> r is Ok && final(self).spec_current() == (
            Mode::Command { input: input }) && final(self).spec_previous() == old(self).spec_previous(),
            !(old(self).spec_current() is Command) ==> *final(self) == *old(self) && (r matches Err(
                EditorError::InvalidModeTransition { from, to },
            ) && from@ == spec_mode_name(old(self).spec_current()) && to@
                == "Command input update"@),
    {
        match &mut self.current {
            Mode::Command { input: cmd_input } => {
                *cmd_input = input;
                Ok(())
            },
            _ => Err(
                EditorError::invalid_mode_transition(
                    self.current.to_string().as_str(),
                    "Command input update",
                ),
            ),
        }
    }

    pub fn can_transition_to(&self, target: &Mode) -> (r: bool)
        ensures
            r == spec_can_transition(self.spec_current(), *target),
    {
        match (&self.current, target) {
            (Mode::Normal, _) => true,
            (Mode::Insert, Mode::Normal) => true,
            (Mode::Visual { .. }, Mode::Normal) => true,
            (Mode::Visual { .. }, Mode::Insert) => true,
            (Mode::Command { .. }, Mode::Normal) => true,
            _ => false,
        }
    }

    /// Moves to `target` when the table allows it; otherwise a no-op.
    pub fn transition_to(&mut self, target: Mode)
        ensures
            spec_can_transition(old(self).spec_current(), target) ==> final(self).spec_current()
                == target && final(self).spec_previous() == Some(old(self).spec_current()),
            !spec_can_transition(old(self).spec_current(), target) ==> *final(self) == *old(self),
    {
        if self.can_transition_to(&target) {
            self.previous = Some(clone_mode(&self.current));
            self.current = target;
        }
    }

    /// Moves to `target` when the table allows it; otherwise reports the
    /// refused transition.
    pub fn try_transition_to(&mut self, target: Mode) -> (r: Result<(), EditorError>)
        ensures
            spec_can_transition(old(self).spec_current(), target) ==> r is Ok && final(self).spec_current() == target && final(self).spec_previous() == Some(old(self).spec_current()),
            !spec_can_transition(old(self).spec_current(), target) ==> *final(self) == *old(self)
                && (r matches Err(EditorError::InvalidModeTransition { from, to }) && from@
                == spec_mode_name(old(self).spec_current()) && to@ == spec_mode_name(target)),
    {
        if self.can_transition_to(&target) {
            self.transition_to(target);
            Ok(())
        } else {
            Err(
                EditorError::invalid_mode_transition(
                    self.current.to_string().as_str(),
                    target.to_string().as_str(),
                ),
            )
        }
    }
}

impl Default for ModeManager {
    fn default() -> (r: Self)
        ensures
            r.spec_current() == Mode::Normal,
            r.spec_previous() is None,
    {
        Self::new()
    }
}

} // verus!
