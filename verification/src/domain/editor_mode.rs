//! The editing modes and a mode manager driven by an explicit transition
//! table.
//!
//! The manager holds the table as data — one record per legal transition —
//! and resolves every trigger by scanning it, so the table itself is the
//! single source of truth. Its contents are pinned by a type invariant, and
//! the lookups are specified against [`spec_key_target`],
//! [`spec_escape_target`] and [`spec_command_target`].

use vstd::prelude::*;

verus! {

#[derive(Debug, Clone, Copy, PartialEq, Eq, Structural)]
pub enum EditorMode {
    Normal,
    Insert,
    Visual,
    Command,
}

impl EditorMode {
    pub fn is_normal(&self) -> (r: bool)
        ensures
            r == (*self is Normal),
    {
        matches!(self, EditorMode::Normal)
    }

    pub fn is_insert(&self) -> (r: bool)
        ensures
            r == (*self is Insert),
    {
        matches!(self, EditorMode::Insert)
    }

    pub fn is_visual(&self) -> (r: bool)
        ensures
            r == (*self is Visual),
    {
        matches!(self, EditorMode::Visual)
    }

    pub fn is_command(&self) -> (r: bool)
        ensures
            r == (*self is Command),
    {
        matches!(self, EditorMode::Command)
    }

    /// The mode's display name.
    pub fn to_string(&self) -> (r: &'static str)
        ensures
            *self is Normal ==> r@ == "NORMAL"@,
            *self is Insert ==> r@ == "INSERT"@,
            *self is Visual ==> r@ == "VISUAL"@,
            *self is Command ==> r@ == "COMMAND"@,
    {
        match self {
            EditorMode::Normal => "NORMAL",
            EditorMode::Insert => "INSERT",
            EditorMode::Visual => "VISUAL",
            EditorMode::Command => "COMMAND",
        }
    }
}

impl Default for EditorMode {
    fn default() -> (r: Self)
        ensures
            r == EditorMode::Normal,
    {
        EditorMode::Normal
    }
}

#[derive(Debug, Clone)]
pub struct ModeTransition {
    pub from: EditorMode,
    pub to: EditorMode,
    pub trigger: TransitionTrigger,
}

#[derive(Debug, Clone, PartialEq)]
pub enum TransitionTrigger {
    Key(char),
    Escape,
    Command(String),
}

/// The mode a key stroke leads to, by the table; `None` means no entry.
pub open spec fn spec_key_target(m: EditorMode, key: char) -> Option<EditorMode> {
    match m {
        EditorMode::Normal => if key == 'i' || key == 'a' || key == 'o' || key == 'O' {
            Some(EditorMode::Insert)
        } else if key == 'v' {
            Some(EditorMode::Visual)
        } else if key == ':' {
            Some(EditorMode::Command)
        } else {
            None
        },
        _ => None,
    }
}

/// The mode Escape leads to: back to Normal from everywhere but Normal.
pub open spec fn spec_escape_target(m: EditorMode) -> Option<EditorMode> {
    match m {
        EditorMode::Normal => None,
        _ => Some(EditorMode::Normal),
    }
}

/// The table holds no command-string triggers, so none ever fires.
pub open spec fn spec_command_target(m: EditorMode) -> Option<EditorMode> {
    None
}

/// The fixed transition table, record by record.
pub open spec fn is_standard_table(t: Seq<ModeTransition>) -> bool {
    t.len() == 9 && t[0] == (ModeTransition {
        from: EditorMode::Normal,
        to: EditorMode::Insert,
        trigger: TransitionTrigger::Key('i'),
    }) && t[1] == (ModeTransition {
        from: EditorMode::Normal,
        to: EditorMode::Insert,
        trigger: TransitionTrigger::Key('a'),
    }) && t[2] == (ModeTransition {
        from: EditorMode::Normal,
        to: EditorMode::Insert,
        trigger: TransitionTrigger::Key('o'),
    }) && t[3] == (ModeTransition {
        from: EditorMode::Normal,
        to: EditorMode::Insert,
        trigger: TransitionTrigger::Key('O'),
    }) && t[4] == (ModeTransition {
        from: EditorMode::Normal,
        to: EditorMode::Visual,
        trigger: TransitionTrigger::Key('v'),
    }) && t[5] == (ModeTransition {
        from: EditorMode::Normal,
        to: EditorMode::Command,
        trigger: TransitionTrigger::Key(':'),
    }) && t[6] == (ModeTransition {
        from: EditorMode::Insert,
        to: EditorMode::Normal,
        trigger: TransitionTrigger::Escape,
    }) && t[7] == (ModeTransition {
        from: EditorMode::Visual,
        to: EditorMode::Normal,
        trigger: TransitionTrigger::Escape,
    }) && t[8] == (ModeTransition {
        from: EditorMode::Command,
        to: EditorMode::Normal,
        trigger: TransitionTrigger::Escape,
    })
}

/// A table entry that fires on `key` from `m` agrees with
/// [`spec_key_target`].
proof fn lemma_table_key_sound(t: Seq<ModeTransition>, m: EditorMode, key: char, j: int)
    requires
        is_standard_table(t),
        0 <= j < t.len(),
        t[j].from == m,
        t[j].trigger == TransitionTrigger::Key(key),
    ensures
        spec_key_target(m, key) == Some(t[j].to),
{
}

/// With no table entry firing on `key` from `m`, [`spec_key_target`] is
/// `None`.
proof fn lemma_table_key_complete(t: Seq<ModeTransition>, m: EditorMode, key: char)
    requires
        is_standard_table(t),
        forall|j: int|
            0 <= j < t.len() ==> !(#[trigger] t[j].from == m && t[j].trigger
                == TransitionTrigger::Key(key)),
    ensures
        spec_key_target(m, key) is None,
{
    if m is Normal {
        if key == 'i' {
            assert(!(t[0].from == m && t[0].trigger == TransitionTrigger::Key(key)));
            assert(false);
        } else if key == 'a' {
            assert(!(t[1].from == m && t[1].trigger == TransitionTrigger::Key(key)));
            assert(false) by {
                assert(t[1].from == m && t[1].trigger == TransitionTrigger::Key(key));
            }
        } else if key == 'o' {
            assert(!(t[2].from == m && t[2].trigger == TransitionTrigger::Key(key)));
            assert(false) by {
                assert(t[2].from == m && t[2].trigger == TransitionTrigger::Key(key));
            }
        } else if key == 'O' {
            assert(!(t[3].from == m && t[3].trigger == TransitionTrigger::Key(key)));
            assert(false) by {
                assert(t[3].from == m && t[3].trigger == TransitionTrigger::Key(key));
            }
        } else if key == 'v' {
            assert(!(t[4].from == m && t[4].trigger == TransitionTrigger::Key(key)));
            assert(false) by {
                assert(t[4].from == m && t[4].trigger == TransitionTrigger::Key(key));
            }
        } else if key == ':' {
            assert(!(t[5].from == m && t[5].trigger == TransitionTrigger::Key(key)));
            assert(false) by {
                assert(t[5].from == m && t[5].trigger == TransitionTrigger::Key(key));
            }
        }
    }
}

proof fn lemma_table_escape_sound(t: Seq<ModeTransition>, m: EditorMode, j: int)
    requires
        is_standard_table(t),
        0 <= j < t.len(),
        t[j].from == m,
        t[j].trigger == TransitionTrigger::Escape,
    ensures
        spec_escape_target(m) == Some(t[j].to),
{
}

proof fn lemma_table_escape_complete(t: Seq<ModeTransition>, m: EditorMode)
    requires
        is_standard_table(t),
        forall|j: int|
            0 <= j < t.len() ==> !(#[trigger] t[j].from == m && t[j].trigger
                == TransitionTrigger::Escape),
    ensures
        spec_escape_target(m) is None,
{
    match m {
        EditorMode::Insert => {
            assert(false) by {
                assert(t[6].from == m && t[6].trigger == TransitionTrigger::Escape);
            }
        },
        EditorMode::Visual => {
            assert(false) by {
                assert(t[7].from == m && t[7].trigger == TransitionTrigger::Escape);
            }
        },
        EditorMode::Command => {
            assert(false) by {
                assert(t[8].from == m && t[8].trigger == TransitionTrigger::Escape);
            }
        },
        EditorMode::Normal => {},
    }
}

pub struct ModeManager {
    current_mode: EditorMode,
    previous_mode: Option<EditorMode>,
    transitions: Vec<ModeTransition>,
}

impl ModeManager {
    #[verifier::type_invariant]
    spec fn inv(self) -> bool {
        is_standard_table(self.transitions@)
    }

    pub closed spec fn spec_current(&self) -> EditorMode {
        self.current_mode
    }

    pub closed spec fn spec_previous(&self) -> Option<EditorMode> {
        self.previous_mode
    }

    /// A manager in Normal mode, holding the standard table.
    pub fn new() -> (r: Self)
        ensures
            r.spec_current() == EditorMode::Normal,
            r.spec_previous() is None,
    {
        let mut transitions: Vec<ModeTransition> = Vec::new();
        transitions.push(
            ModeTransition {
                from: EditorMode::Normal,
                to: EditorMode::Insert,
                trigger: TransitionTrigger::Key('i'),
            },
        );
        transitions.push(
            ModeTransition {
                from: EditorMode::Normal,
                to: EditorMode::Insert,
                trigger: TransitionTrigger::Key('a'),
            },
        );
        transitions.push(
            ModeTransition {
                from: EditorMode::Normal,
                to: EditorMode::Insert,
                trigger: TransitionTrigger::Key('o'),
            },
        );
        transitions.push(
            ModeTransition {
                from: EditorMode::Normal,
                to: EditorMode::Insert,
                trigger: TransitionTrigger::Key('O'),
            },
        );
        transitions.push(
            ModeTransition {
                from: EditorMode::Normal,
                to: EditorMode::Visual,
                trigger: TransitionTrigger::Key('v'),
            },
        );
        transitions.push(
            ModeTransition {
                from: EditorMode::Normal,
                to: EditorMode::Command,
                trigger: TransitionTrigger::Key(':'),
            },
        );
        transitions.push(
            ModeTransition {
                from: EditorMode::Insert,
                to: EditorMode::Normal,
                trigger: TransitionTrigger::Escape,
            },
        );
        transitions.push(
            ModeTransition {
                from: EditorMode::Visual,
                to: EditorMode::Normal,
                trigger: TransitionTrigger::Escape,
            },
        );
        transitions.push(
            ModeTransition {
                from: EditorMode::Command,
                to: EditorMode::Normal,
                trigger: TransitionTrigger::Escape,
            },
        );
        Self { current_mode: EditorMode::Normal, previous_mode: None, transitions }
    }

    pub fn current_mode(&self) -> (r: &EditorMode)
        ensures
            *r == self.spec_current(),
    {
        &self.current_mode
    }

    pub fn previous_mode(&self) -> (r: Option<&EditorMode>)
        ensures
            (r matches Some(m) ==> self.spec_previous() == Some(*m)),
            (r is None ==> self.spec_previous() is None),
    {
        self.previous_mode.as_ref()
    }

    /// Follows the table entry for `key` in the current mode, if any; `true`
    /// reports that a transition happened.
    pub fn transition_with_key(&mut self, key: char) -> (r: bool)
        ensures
            (old(self).spec_current() != EditorMode::Normal || spec_key_target(
                old(self).spec_current(),
                key,
            ) is None) ==> !r && final(self).spec_current() == old(self).spec_current() && final(self).spec_previous() == old(self).spec_previous(),
            (spec_key_target(old(self).spec_current(), key) matches Some(t) ==> r
                && final(self).spec_current() == t && final(self).spec_previous() == Some(
                old(self).spec_current(),
            )),
    {
        proof {
            use_type_invariant(&*self);
        }
        let n = self.transitions.len();
        let mut i: usize = 0;
        while i < n
            invariant
                is_standard_table(self.transitions@),
                n == self.transitions@.len(),
                0 <= i <= n,
                *self == *old(self),
                forall|j: int|
                    0 <= j < i ==> !(#[trigger] self.transitions@[j].from == self.current_mode
                        && self.transitions@[j].trigger == TransitionTrigger::Key(key)),
            decreases n - i,
        {
            let matches_entry = {
                let entry = &self.transitions[i];
                let from_matches = entry.from == self.current_mode;
                let trigger_matches = match &entry.trigger {
                    TransitionTrigger::Key(c) => *c == key,
                    _ => false,
                };
                from_matches && trigger_matches
            };
            if matches_entry {
                let to = self.transitions[i].to;
                proof {
                    lemma_table_key_sound(self.transitions@, self.current_mode, key, i as int);
                }
                self.previous_mode = Some(self.current_mode);
                self.current_mode = to;
                return true;
            }
            i = i + 1;
        }
        proof {
            lemma_table_key_complete(self.transitions@, self.current_mode, key);
        }
        false
    }

    /// Follows the table entry for Escape in the current mode, if any.
    pub fn transition_with_escape(&mut self) -> (r: bool)
        ensures
            spec_escape_target(old(self).spec_current()) is None ==> !r && final(self).spec_current() == old(self).spec_current() && final(self).spec_previous() == old(self).spec_previous(),
            (spec_escape_target(old(self).spec_current()) matches Some(t) ==> r
                && final(self).spec_current() == t && final(self).spec_previous() == Some(
                old(self).spec_current(),
            )),
    {
        proof {
            use_type_invariant(&*self);
        }
        let n = self.transitions.len();
        let mut i: usize = 0;
        while i < n
            invariant
                is_standard_table(self.transitions@),
                n == self.transitions@.len(),
                0 <= i <= n,
                *self == *old(self),
                forall|j: int|
                    0 <= j < i ==> !(#[trigger] self.transitions@[j].from == self.current_mode
                        && self.transitions@[j].trigger == TransitionTrigger::Escape),
            decreases n - i,
        {
            let matches_entry = {
                let entry = &self.transitions[i];
                let from_matches = entry.from == self.current_mode;
                let trigger_matches = matches!(&entry.trigger, TransitionTrigger::Escape);
                from_matches && trigger_matches
            };
            if matches_entry {
                let to = self.transitions[i].to;
                proof {
                    lemma_table_escape_sound(self.transitions@, self.current_mode, i as int);
                }
                self.previous_mode = Some(self.current_mode);
                self.current_mode = to;
                return true;
            }
            i = i + 1;
        }
        proof {
            lemma_table_escape_complete(self.transitions@, self.current_mode);
        }
        false
    }

    /// The table holds no command-string triggers, so this never transitions.
    pub fn transition_with_command(&mut self, command: &str) -> (r: bool)
        ensures
            r == (spec_command_target(old(self).spec_current()) is Some),
            !r,
            final(self).spec_current() == old(self).spec_current(),
            final(self).spec_previous() == old(self).spec_previous(),
    {
        proof {
            use_type_invariant(&*self);
        }
        let n = self.transitions.len();
        let mut i: usize = 0;
        while i < n
            invariant
                is_standard_table(self.transitions@),
                n == self.transitions@.len(),
                0 <= i <= n,
                *self == *old(self),
            decreases n - i,
        {
            let trigger_matches = match &self.transitions[i].trigger {
                TransitionTrigger::Command(c) => crate::text::str_eq(c.as_str(), command),
                _ => false,
            };
            if self.transitions[i].from == self.current_mode && trigger_matches {
                proof {
                    assert(!(self.transitions@[i as int].trigger matches
                        TransitionTrigger::Command(_)));
                }
                self.previous_mode = Some(self.current_mode);
                self.current_mode = self.transitions[i].to;
                return true;
            }
            i = i + 1;
        }
        false
    }

    /// Whether `key` triggers a transition from the current mode.
    pub fn can_transition_with_key(&self, key: char) -> (r: bool)
        ensures
            r == (spec_key_target(self.spec_current(), key) is Some),
    {
        proof {
            use_type_invariant(self);
        }
        let n = self.transitions.len();
        let mut i: usize = 0;
        while i < n
            invariant
                is_standard_table(self.transitions@),
                n == self.transitions@.len(),
                0 <= i <= n,
                forall|j: int|
                    0 <= j < i ==> !(#[trigger] self.transitions@[j].from == self.current_mode
                        && self.transitions@[j].trigger == TransitionTrigger::Key(key)),
            decreases n - i,
        {
            let entry = &self.transitions[i];
            let from_matches = entry.from == self.current_mode;
            let trigger_matches = match &entry.trigger {
                TransitionTrigger::Key(c) => *c == key,
                _ => false,
            };
            if from_matches && trigger_matches {
                proof {
                    lemma_table_key_sound(self.transitions@, self.current_mode, key, i as int);
                }
                return true;
            }
            i = i + 1;
        }
        proof {
            lemma_table_key_complete(self.transitions@, self.current_mode, key);
        }
        false
    }

    /// Whether Escape triggers a transition from the current mode.
    pub fn can_transition_with_escape(&self) -> (r: bool)
        ensures
            r == (spec_escape_target(self.spec_current()) is Some),
    {
        proof {
            use_type_invariant(self);
        }
        let n = self.transitions.len();
        let mut i: usize = 0;
        while i < n
            invariant
                is_standard_table(self.transitions@),
                n == self.transitions@.len(),
                0 <= i <= n,
                forall|j: int|
                    0 <= j < i ==> !(#[trigger] self.transitions@[j].from == self.current_mode
                        && self.transitions@[j].trigger == TransitionTrigger::Escape),
            decreases n - i,
        {
            let entry = &self.transitions[i];
            let from_matches = entry.from == self.current_mode;
            let trigger_matches = matches!(&entry.trigger, TransitionTrigger::Escape);
            if from_matches && trigger_matches {
                proof {
                    lemma_table_escape_sound(self.transitions@, self.current_mode, i as int);
                }
                return true;
            }
            i = i + 1;
        }
        proof {
            lemma_table_escape_complete(self.transitions@, self.current_mode);
        }
        false
    }

    /// Back to Normal unconditionally, remembering where it came from.
    pub fn reset_to_normal(&mut self)
        ensures
            final(self).spec_current() == EditorMode::Normal,
            final(self).spec_previous() == Some(old(self).spec_current()),
    {
        proof {
            use_type_invariant(&*self);
        }
        self.previous_mode = Some(self.current_mode);
        self.current_mode = EditorMode::Normal;
    }
}

impl Default for ModeManager {
    fn default() -> (r: Self)
        ensures
            r.spec_current() == EditorMode::Normal,
            r.spec_previous() is None,
    {
        Self::new()
    }
}

} // verus!
