//! The error vocabulary of the editing core.

use vstd::prelude::*;
use vstd::string::*;

use crate::text::{spec_dec, usize_to_string};

verus! {

/// Declares `std::io::Error` so that it can be carried inside [`EditorError`].
/// The value is opaque to the library; the host produces it and may read it
/// back out of the `Io` variant.
#[verifier::external_type_specification]
#[verifier::external_body]
pub struct ExIoError(std::io::Error);

#[derive(Debug)]
pub enum EditorError {
    Io(std::io::Error),
    OutOfBounds { row: usize, col: usize },
    InvalidCommand(String),
    InvalidModeTransition { from: String, to: String },
    FileNotFound { path: String },
    PermissionDenied { path: String },
    EmptyUndoStack,
    EmptyRedoStack,
    Terminal(String),
    Parse(String),
    Config(String),
}

impl EditorError {
    pub fn out_of_bounds(row: usize, col: usize) -> (r: Self)
        ensures
            r == (EditorError::OutOfBounds { row, col }),
    {
        Self::OutOfBounds { row, col }
    }

    pub fn invalid_command(cmd: &str) -> (r: Self)
        ensures
            (r matches EditorError::InvalidCommand(s) && s@ == cmd@),
    {
        Self::InvalidCommand(cmd.to_owned())
    }

    pub fn invalid_mode_transition(from: &str, to: &str) -> (r: Self)
        ensures
            (r matches EditorError::InvalidModeTransition { from: f, to: t } && f@ == from@
                && t@ == to@),
    {
        Self::InvalidModeTransition { from: from.to_owned(), to: to.to_owned() }
    }

    pub fn file_not_found(path: &str) -> (r: Self)
        ensures
            (r matches EditorError::FileNotFound { path: p } && p@ == path@),
    {
        Self::FileNotFound { path: path.to_owned() }
    }

    pub fn permission_denied(path: &str) -> (r: Self)
        ensures
            (r matches EditorError::PermissionDenied { path: p } && p@ == path@),
    {
        Self::PermissionDenied { path: path.to_owned() }
    }

    pub fn terminal(msg: &str) -> (r: Self)
        ensures
            (r matches EditorError::Terminal(s) && s@ == msg@),
    {
        Self::Terminal(msg.to_owned())
    }

    pub fn parse(msg: &str) -> (r: Self)
        ensures
            (r matches EditorError::Parse(s) && s@ == msg@),
    {
        Self::Parse(msg.to_owned())
    }

    pub fn config(msg: &str) -> (r: Self)
        ensures
            (r matches EditorError::Config(s) && s@ == msg@),
    {
        Self::Config(msg.to_owned())
    }

    /// The error's display text. For an `Io` error the tail comes from the
    /// wrapped error's own description, of which nothing further is claimed.
    pub fn to_string(&self) -> (r: String)
        ensures
            (*self is Io ==> r@.len() >= "IO error: "@.len() && r@.subrange(
                0,
                "IO error: "@.len() as int,
            ) == "IO error: "@),
            (*self matches EditorError::OutOfBounds { row, col } ==> r@ == spec_oob_message(
                row as int,
                col as int,
            )),
            (*self matches EditorError::InvalidCommand(c) ==> r@ == "Invalid command: "@ + c@),
            (*self matches EditorError::InvalidModeTransition { from, to } ==> r@
                == "Invalid mode transition from "@ + from@ + " to "@ + to@),
            (*self matches EditorError::FileNotFound { path } ==> r@ == "File not found: "@
                + path@),
            (*self matches EditorError::PermissionDenied { path } ==> r@ == "Permission denied: "@
                + path@),
            (*self is EmptyUndoStack ==> r@ == "Undo stack is empty"@),
            (*self is EmptyRedoStack ==> r@ == "Redo stack is empty"@),
            (*self matches EditorError::Terminal(m) ==> r@ == "Terminal error: "@ + m@),
            (*self matches EditorError::Parse(m) ==> r@ == "Parse error: "@ + m@),
            (*self matches EditorError::Config(m) ==> r@ == "Configuration error: "@ + m@),
    {
        match self {
            EditorError::Io(e) => {
                let r = String::from_str("IO error: ").concat(io_error_text(e).as_str());
                proof {
                    assert(r@.subrange(0, "IO error: "@.len() as int) =~= "IO error: "@);
                }
                r
            },
            EditorError::OutOfBounds { row, col } => {
                let r = String::from_str("Position out of bounds: row ").concat(
                    usize_to_string(*row).as_str(),
                ).concat(", col ").concat(usize_to_string(*col).as_str());
                proof {
                    assert(r@ =~= spec_oob_message(*row as int, *col as int));
                }
                r
            },
            EditorError::InvalidCommand(c) => String::from_str("Invalid command: ").concat(
                c.as_str(),
            ),
            EditorError::InvalidModeTransition { from, to } => String::from_str(
                "Invalid mode transition from ",
            ).concat(from.as_str()).concat(" to ").concat(to.as_str()),
            EditorError::FileNotFound { path } => String::from_str("File not found: ").concat(
                path.as_str(),
            ),
            EditorError::PermissionDenied { path } => String::from_str(
                "Permission denied: ",
            ).concat(path.as_str()),
            EditorError::EmptyUndoStack => String::from_str("Undo stack is empty"),
            EditorError::EmptyRedoStack => String::from_str("Redo stack is empty"),
            EditorError::Terminal(m) => String::from_str("Terminal error: ").concat(m.as_str()),
            EditorError::Parse(m) => String::from_str("Parse error: ").concat(m.as_str()),
            EditorError::Config(m) => String::from_str("Configuration error: ").concat(m.as_str()),
        }
    }
}

/// The display text of an out-of-bounds error.
pub open spec fn spec_oob_message(row: int, col: int) -> Seq<char> {
    "Position out of bounds: row "@ + spec_dec(row as nat) + ", col "@ + spec_dec(col as nat)
}

/// Relies on the `Display` impl of `std::io::Error` for the wrapped error's
/// own description; nothing is claimed of the text.
#[verifier::external_body]
fn io_error_text(e: &std::io::Error) -> String {
    format!("{}", e)
}

impl From<std::io::Error> for EditorError {
    fn from(e: std::io::Error) -> Self {
        EditorError::Io(e)
    }
}

impl vstd::std_specs::convert::FromSpecImpl<std::io::Error> for EditorError {
    open spec fn obeys_from_spec() -> bool {
        true
    }

    open spec fn from_spec(e: std::io::Error) -> Self {
        EditorError::Io(e)
    }
}

} // verus!
