//! The editor's aggregate state and its command dispatch: the command line,
//! the save and quit decisions, and the cursor bounds adjustment that runs
//! after every command.
//!
//! File access stays with the host: a command that wants a write returns a
//! [`FileRequest`], the host performs it and reports back through
//! [`EditorState::complete_save`]. A `Quit` against a modified buffer never
//! sets the quit flag; `ForceQuit` always does.

use vstd::prelude::*;
use vstd::string::*;

use crate::application::vim_bindings::{VimBindings, VimCommand, spec_step_buffer,
    spec_step_cursor, spec_step_err};
use crate::domain::cursor::CursorPosition;
use crate::domain::editor_mode::EditorMode;
use crate::domain::text_buffer::TextBuffer;
use crate::editor::buffer::BufferView;
use crate::text::{line_insert, line_remove, str_eq, spec_join};

verus! {

broadcast use vstd::string::group_string_axioms;

/// What the host should do with the file system after a command.
#[derive(Debug, Clone, PartialEq)]
pub enum FileRequest {
    Nothing,
    Write { path: String, content: String, and_quit: bool },
}

/// The in-progress `:` command line.
#[derive(Debug, Clone)]
pub struct CommandLine {
    pub active: bool,
    pub content: String,
    pub cursor_pos: usize,
}

impl CommandLine {
    /// The caret never strays past the text.
    pub open spec fn wf(&self) -> bool {
        self.cursor_pos <= self.content@.len()
    }

    pub fn new() -> (r: Self)
        ensures
            !r.active,
            r.content@ == Seq::<char>::empty(),
            r.cursor_pos == 0,
            r.wf(),
    {
        Self { active: false, content: String::new(), cursor_pos: 0 }
    }

    /// Opens the command line holding its `:` trigger.
    pub fn activate(&mut self)
        ensures
            final(self).active,
            final(self).content@ == ":"@,
            final(self).cursor_pos == 1,
            final(self).wf(),
    {
        proof {
            reveal_strlit(":");
        }
        self.active = true;
        self.content = String::from_str(":");
        self.cursor_pos = 1;
    }

    pub fn deactivate(&mut self)
        ensures
            !final(self).active,
            final(self).content@ == Seq::<char>::empty(),
            final(self).cursor_pos == 0,
            final(self).wf(),
    {
        self.active = false;
        self.content = String::new();
        self.cursor_pos = 0;
    }

    /// Types one character at the caret.
    pub fn insert_char(&mut self, ch: char)
        requires
            old(self).wf(),
        ensures
            final(self).active == old(self).active,
            final(self).content@ == old(self).content@.insert(old(self).cursor_pos as int, ch),
            final(self).cursor_pos == old(self).cursor_pos + 1,
            final(self).wf(),
    {
        let new_content = line_insert(self.content.as_str(), self.cursor_pos, ch);
        let new_len = new_content.as_str().unicode_len();
        proof {
            assert(new_len == old(self).content@.len() + 1);
        }
        self.content = new_content;
        self.cursor_pos = self.cursor_pos + 1;
    }

    /// Deletes the character left of the caret, sparing the `:` trigger.
    pub fn delete_char(&mut self)
        requires
            old(self).wf(),
        ensures
            final(self).active == old(self).active,
            old(self).cursor_pos > 1 ==> final(self).content@ == old(self).content@.remove(
                old(self).cursor_pos - 1,
            ) && final(self).cursor_pos == old(self).cursor_pos - 1,
            old(self).cursor_pos <= 1 ==> final(self).content@ == old(self).content@ && final(self).cursor_pos == old(self).cursor_pos,
            final(self).wf(),
    {
        if self.cursor_pos > 1 {
            self.cursor_pos = self.cursor_pos - 1;
            let (new_content, _c) = line_remove(self.content.as_str(), self.cursor_pos);
            self.content = new_content;
        }
    }

    /// The executable command text, without the leading `:` trigger.
    pub fn get_command(&self) -> (r: String)
        ensures
            self.content@.len() > 1 ==> r@ == self.content@.skip(1),
            self.content@.len() <= 1 ==> r@ == Seq::<char>::empty(),
    {
        let len = self.content.as_str().unicode_len();
        if len > 1 {
            self.content.as_str().substring_char(1, len).to_owned()
        } else {
            String::new()
        }
    }
}

impl Default for CommandLine {
    fn default() -> (r: Self)
        ensures
            !r.active,
            r.cursor_pos == 0,
            r.wf(),
    {
        Self::new()
    }
}

/// The cursor pulled back inside the text: the row into the line range, the
/// column under the mode's bound — the line length in insert mode, the last
/// character otherwise.
pub open spec fn spec_adjust(bv: BufferView, insert_mode: bool, row: int, col: int) -> (int, int) {
    let len = bv.lines.len() as int;
    let nrow = if len > 0 && row >= len {
        len - 1
    } else {
        row
    };
    let line_len = if 0 <= nrow < len {
        bv.lines[nrow].len() as int
    } else {
        0
    };
    let max_col = if insert_mode {
        line_len
    } else if line_len > 0 {
        line_len - 1
    } else {
        0
    };
    (nrow, if col > max_col {
        max_col
    } else {
        col
    })
}

/// The whole in-process editor state.
#[derive(Debug, Clone)]
pub struct EditorState {
    pub cursor: CursorPosition,
    pub buffer: TextBuffer,
    pub file_path: Option<String>,
    pub should_quit: bool,
    pub status_message: String,
    pub command_line: CommandLine,
}

impl EditorState {
    pub open spec fn wf(&self) -> bool {
        self.command_line.wf() && self.buffer.wf()
    }

    pub fn new() -> (r: Self)
        ensures
            r.cursor == (CursorPosition { row: 0usize, col: 0usize }),
            r.buffer@.lines =~= seq![Seq::<char>::empty()],
            !r.buffer@.modified,
            r.file_path is None,
            !r.should_quit,
            r.status_message@ == Seq::<char>::empty(),
            !r.command_line.active,
            r.wf(),
    {
        Self {
            cursor: CursorPosition::new(0, 0),
            buffer: TextBuffer::new(),
            file_path: None,
            should_quit: false,
            status_message: String::new(),
            command_line: CommandLine::new(),
        }
    }

    /// State opened on a file: the buffer holds `content` and remembers the
    /// path.
    pub fn with_file(file_path: String, content: String) -> (r: Self)
        ensures
            r.cursor == (CursorPosition { row: 0usize, col: 0usize }),
            r.buffer@.lines == if content@.len() == 0 {
                seq![Seq::<char>::empty()]
            } else {
                crate::text::spec_lines(content@)
            },
            !r.buffer@.modified,
            (r.file_path matches Some(p) && p@ == file_path@),
            r.buffer@.file_path == Some(file_path@),
            !r.should_quit,
            !r.command_line.active,
            r.wf(),
    {
        let buffer = TextBuffer::from_content(content.as_str()).with_file_path(file_path.clone());
        Self {
            cursor: CursorPosition::new(0, 0),
            buffer,
            file_path: Some(file_path),
            should_quit: false,
            status_message: String::new(),
            command_line: CommandLine::new(),
        }
    }

    /// Pulls the cursor back inside the text, under the mode's column bound.
    pub fn adjust_cursor_position(&mut self, insert_mode: bool)
        ensures
            final(self).buffer == old(self).buffer,
            final(self).file_path == old(self).file_path,
            final(self).should_quit == old(self).should_quit,
            final(self).status_message == old(self).status_message,
            final(self).command_line == old(self).command_line,
            ({
                let (r2, c2) = spec_adjust(
                    old(self).buffer@,
                    insert_mode,
                    old(self).cursor.row as int,
                    old(self).cursor.col as int,
                );
                final(self).cursor.row == r2 && final(self).cursor.col == c2
            }),
    {
        let buffer_height = self.buffer.line_count();
        if buffer_height > 0 && self.cursor.row >= buffer_height {
            self.cursor.row = buffer_height - 1;
        }
        let line_length = self.buffer.get_line_length(self.cursor.row);
        let max_col = if insert_mode {
            line_length
        } else if line_length > 0 {
            line_length - 1
        } else {
            0
        };
        if self.cursor.col > max_col {
            self.cursor.col = max_col;
        }
    }

    /// Executes the text typed on the command line: `w` asks for a write,
    /// `q` quits only an unmodified buffer, `wq` asks for a write that quits
    /// on success, `q!` quits unconditionally, and anything else reports an
    /// unknown command.
    pub fn execute_vim_command(&mut self, command: &str) -> (r: FileRequest)
        ensures
            final(self).cursor == old(self).cursor,
            final(self).buffer == old(self).buffer,
            final(self).file_path == old(self).file_path,
            final(self).command_line == old(self).command_line,
            command@ == "w"@ ==> final(self).should_quit == old(self).should_quit && (match old(self).file_path {
                Some(p) => r matches FileRequest::Write { path, content, and_quit } && path@ == p@
                    && content@ == spec_join(old(self).buffer@.lines) && !and_quit,
                None => r is Nothing && final(self).status_message@ == "No file name"@,
            }),
            command@ == "q"@ ==> r is Nothing && (if old(self).buffer@.modified {
                final(self).should_quit == old(self).should_quit && final(self).status_message@
                    == "No write since last change (add ! to override)"@
            } else {
                final(self).should_quit
            }),
            command@ == "wq"@ ==> r is Nothing ==> old(self).file_path is None && final(self).should_quit,
            command@ == "wq"@ ==> (old(self).file_path matches Some(p) ==> (r matches
                FileRequest::Write { path, content, and_quit } && path@ == p@ && content@
                == spec_join(old(self).buffer@.lines) && and_quit) && final(self).should_quit
                == old(self).should_quit),
            (command@ == "wq"@ && old(self).file_path is None) ==> r is Nothing && final(self).should_quit,
            command@ == "q!"@ ==> r is Nothing && final(self).should_quit,
            (command@ != "w"@ && command@ != "q"@ && command@ != "wq"@ && command@ != "q!"@) ==> (
            r is Nothing && final(self).should_quit == old(self).should_quit && final(self).status_message@ == "Unknown command: "@ + command@),
            old(self).wf() ==> final(self).wf(),
    {
        proof {
            reveal_strlit("w");
            reveal_strlit("q");
            reveal_strlit("wq");
            reveal_strlit("q!");
            assert("q"@.len() == 1);
            assert("w"@.len() == 1);
            assert("wq"@.len() == 2);
            assert("q!"@.len() == 2);
            assert("q"@[0] == 'q');
            assert("w"@[0] == 'w');
            assert("wq"@[0] == 'w');
            assert("q!"@[0] == 'q');
        }
        if str_eq(command, "w") {
            match &self.file_path {
                Some(path) => {
                    FileRequest::Write {
                        path: path.clone(),
                        content: self.buffer.to_string(),
                        and_quit: false,
                    }
                },
                None => {
                    self.status_message = String::from_str("No file name");
                    FileRequest::Nothing
                },
            }
        } else if str_eq(command, "q") {
            if self.buffer.is_modified() {
                self.status_message = String::from_str(
                    "No write since last change (add ! to override)",
                );
            } else {
                self.should_quit = true;
            }
            FileRequest::Nothing
        } else if str_eq(command, "wq") {
            match &self.file_path {
                Some(path) => {
                    FileRequest::Write {
                        path: path.clone(),
                        content: self.buffer.to_string(),
                        and_quit: true,
                    }
                },
                None => {
                    self.should_quit = true;
                    FileRequest::Nothing
                },
            }
        } else if str_eq(command, "q!") {
            self.should_quit = true;
            FileRequest::Nothing
        } else {
            self.status_message = String::from_str("Unknown command: ").concat(command);
            FileRequest::Nothing
        }
    }

    /// The host reports how the requested write went: success marks the
    /// buffer saved (and quits, for a write-and-quit request); failure only
    /// leaves a message, the editor stays open.
    pub fn complete_save(&mut self, saved: bool, and_quit: bool)
        ensures
            final(self).cursor == old(self).cursor,
            final(self).file_path == old(self).file_path,
            final(self).command_line == old(self).command_line,
            saved ==> final(self).buffer@ == (BufferView { modified: false, ..old(self).buffer@ })
                && final(self).should_quit == (old(self).should_quit || and_quit) && final(self).status_message@ == "written"@,
            !saved ==> final(self).buffer == old(self).buffer && final(self).should_quit == old(self).should_quit && final(self).status_message@ == "write failed"@,
            old(self).wf() ==> final(self).wf(),
    {
        if saved {
            self.buffer.mark_saved();
            self.status_message = String::from_str("written");
            if and_quit {
                self.should_quit = true;
            }
        } else {
            self.status_message = String::from_str("write failed");
        }
    }

    /// Dispatches one command against the whole editor state: command-line
    /// editing and execution, the quit decisions, and — for editing and
    /// movement commands — the executor in `bindings`, followed by the
    /// cursor-bounds adjustment. A `Quit` against a modified buffer refuses
    /// and leaves a warning; `ForceQuit` always quits.
    pub fn execute_command(&mut self, bindings: &VimBindings, command: VimCommand) -> (r:
        FileRequest)
        requires
            old(self).command_line.wf(),
        ensures
            final(self).command_line.wf(),
            old(self).buffer.wf() ==> final(self).buffer.wf(),
            final(self).file_path == old(self).file_path,
            // The quit rules.
            (command is Quit && old(self).buffer@.modified) ==> final(self).should_quit == old(self).should_quit && final(self).status_message@
                == "No write since last change (add ! to override)"@,
            (command is Quit && !old(self).buffer@.modified) ==> final(self).should_quit,
            command is ForceQuit ==> final(self).should_quit,
            // File-operation and command-line arms never touch the buffer;
            // their cursor still goes through the bounds adjustment.
            (command is EnterCommandMode || command matches VimCommand::CommandChar(_)
                || command is CommandBackspace || command is CommandExecute
                || command is ExitToNormal || command is Save || command is Quit
                || command is SaveAndQuit || command is ForceQuit) ==> final(self).buffer == old(self).buffer && ({
                let (r3, c3) = spec_adjust(
                    old(self).buffer@,
                    bindings.spec_mode() is Insert,
                    old(self).cursor.row as int,
                    old(self).cursor.col as int,
                );
                final(self).cursor.row == r3 && final(self).cursor.col == c3
            }),
            command is Quit ==> r is Nothing && final(self).command_line == old(self).command_line,
            command is ForceQuit ==> r is Nothing && final(self).command_line == old(self).command_line && final(self).status_message == old(self).status_message,
            command is Save ==> final(self).should_quit == old(self).should_quit && final(self).command_line == old(self).command_line,
            command is SaveAndQuit ==> final(self).command_line == old(self).command_line && final(self).status_message == old(self).status_message,
            // Command-line editing.
            command is EnterCommandMode ==> r is Nothing && final(self).command_line.active
                && final(self).command_line.content@ == ":"@ && final(self).buffer == old(self).buffer,
            (command matches VimCommand::CommandChar(c) ==> (old(self).command_line.active ==> (
            r is Nothing && final(self).command_line.active && final(self).command_line.content@
                == old(self).command_line.content@.insert(
                old(self).command_line.cursor_pos as int,
                c,
            ) && final(self).buffer == old(self).buffer))),
            (command is CommandBackspace && old(self).command_line.active) ==> r is Nothing
                && final(self).buffer == old(self).buffer && final(self).command_line.content@
                == (if old(self).command_line.cursor_pos > 1 {
                old(self).command_line.content@.remove(old(self).command_line.cursor_pos - 1)
            } else {
                old(self).command_line.content@
            }),
            (command is CommandExecute && !old(self).command_line.active) ==> r is Nothing && final(self).command_line == old(self).command_line,
            (command is CommandExecute && old(self).command_line.active) ==> !final(self).command_line.active,
            // Each typed command-line verb keeps the outcome stated one
            // level down: `w` asks for a write, `q` quits only an unmodified
            // buffer, `q!` quits unconditionally, unknown text only reports.
            (command is CommandExecute && old(self).command_line.active && old(self).command_line.content@.len() > 1 && old(self).command_line.content@.skip(1) == "w"@)
                ==> final(self).should_quit == old(self).should_quit && (match old(self).file_path {
                Some(p) => r matches FileRequest::Write { path, content, and_quit } && path@ == p@
                    && content@ == spec_join(old(self).buffer@.lines) && !and_quit,
                None => r is Nothing && final(self).status_message@ == "No file name"@,
            }),
            (command is CommandExecute && old(self).command_line.active && old(self).command_line.content@.len() > 1 && old(self).command_line.content@.skip(1) == "q"@)
                ==> r is Nothing && (if old(self).buffer@.modified {
                final(self).should_quit == old(self).should_quit && final(self).status_message@
                    == "No write since last change (add ! to override)"@
            } else {
                final(self).should_quit
            }),
            (command is CommandExecute && old(self).command_line.active && old(self).command_line.content@.len() > 1 && old(self).command_line.content@.skip(1) == "wq"@
                && old(self).file_path is None) ==> r is Nothing && final(self).should_quit,
            (command is CommandExecute && old(self).command_line.active && old(self).command_line.content@.len() > 1 && old(self).command_line.content@.skip(1) == "q!"@)
                ==> r is Nothing && final(self).should_quit,
            (command is CommandExecute && old(self).command_line.active && old(self).command_line.content@.len() > 1 && old(self).command_line.content@.skip(1) != "w"@
                && old(self).command_line.content@.skip(1) != "q"@
                && old(self).command_line.content@.skip(1) != "wq"@
                && old(self).command_line.content@.skip(1) != "q!"@) ==> r is Nothing
                && final(self).should_quit == old(self).should_quit && final(self).status_message@
                == "Unknown command: "@ + old(self).command_line.content@.skip(1),
            (command is CommandExecute && old(self).command_line.active && old(self).command_line.content@.len() <= 1)
                ==> r is Nothing && final(self).should_quit == old(self).should_quit && final(self).status_message@ == "Unknown command: "@,
            // Typing `:wq` and executing it asks for the write-then-quit.
            (command is CommandExecute && old(self).command_line.active && old(
                self,
            ).command_line.content@.len() > 1 && old(self).command_line.content@.skip(1) == "wq"@)
                ==> (old(self).file_path matches Some(p) ==> (r matches FileRequest::Write {
                path,
                content,
                and_quit,
            } && path@ == p@ && content@ == spec_join(old(self).buffer@.lines) && and_quit)),
            (command is ExitToNormal) ==> r is Nothing && !final(self).command_line.active && final(self).buffer == old(self).buffer,
            // Direct file operations.
            command is Save ==> (match old(self).file_path {
                Some(p) => r matches FileRequest::Write { path, content, and_quit } && path@ == p@
                    && content@ == spec_join(old(self).buffer@.lines) && !and_quit,
                None => r is Nothing && final(self).status_message@ == "No file name"@,
            }),
            command is SaveAndQuit ==> (old(self).file_path matches Some(p) ==> (r matches
                FileRequest::Write { path, content, and_quit } && path@ == p@ && content@
                == spec_join(old(self).buffer@.lines) && and_quit)),
            (command is SaveAndQuit && old(self).file_path is None) ==> r is Nothing && final(self).should_quit,
            // Everything else goes to the executor, then the cursor is
            // adjusted to the mode's bounds.
            (command is MoveLeft || command is MoveRight || command is MoveUp
                || command is MoveDown || command is MoveWordForward || command is MoveWordBackward
                || command is MoveLineStart || command is MoveLineEnd || command is MoveBufferStart
                || command is MoveBufferEnd || command matches VimCommand::InsertChar(_)
                || command is DeleteChar || command is Backspace || command is DeleteLine
                || command is Undo || command is Redo || command is EnterInsertMode
                || command is EnterInsertModeAfter || command is EnterInsertModeNewLine
                || command is EnterInsertModeNewLineAbove || command is EnterVisualMode
                || command is PageUp || command is PageDown || command is Unknown) ==> (r
                is Nothing && final(self).should_quit == old(self).should_quit && final(self).buffer@ == spec_step_buffer(
                old(self).buffer@,
                old(self).cursor.row as int,
                old(self).cursor.col as int,
                command,
            ) && final(self).command_line == old(self).command_line && ({
                let (r2, c2) = spec_step_cursor(
                    old(self).buffer@,
                    old(self).cursor.row as int,
                    old(self).cursor.col as int,
                    command,
                );
                let (r3, c3) = spec_adjust(
                    final(self).buffer@,
                    bindings.spec_mode() is Insert,
                    r2,
                    c2,
                );
                final(self).cursor.row == r3 && final(self).cursor.col == c3
            }) && (match spec_step_err(
                old(self).buffer@,
                old(self).cursor.row as int,
                old(self).cursor.col as int,
                command,
            ) {
                Some(m) => final(self).status_message@ == m,
                None => final(self).status_message == old(self).status_message,
            })),
            // Any command leaves the cursor inside the text afterwards.
            old(self).buffer.wf() ==> final(self).cursor.row < final(self).buffer@.lines.len(),
            old(self).buffer.wf() ==> final(self).cursor.col <= final(self).buffer@.lines[final(self).cursor.row as int].len(),
    {
        let insert_mode = matches!(bindings.current_mode(), EditorMode::Insert);
        let request = match command {
            VimCommand::EnterCommandMode => {
                self.command_line.activate();
                FileRequest::Nothing
            },
            VimCommand::CommandChar(c) => {
                if self.command_line.active {
                    self.command_line.insert_char(c);
                }
                FileRequest::Nothing
            },
            VimCommand::CommandBackspace => {
                if self.command_line.active {
                    self.command_line.delete_char();
                }
                FileRequest::Nothing
            },
            VimCommand::CommandExecute => {
                if self.command_line.active {
                    let cmd = self.command_line.get_command();
                    proof {
                        reveal_strlit("w");
                        reveal_strlit("q");
                        reveal_strlit("wq");
                        reveal_strlit("q!");
                        assert("w"@.len() == 1);
                        assert("q"@.len() == 1);
                        assert("wq"@.len() == 2);
                        assert("q!"@.len() == 2);
                        assert("Unknown command: "@ + Seq::<char>::empty()
                            =~= "Unknown command: "@);
                    }
                    let req = self.execute_vim_command(cmd.as_str());
                    self.command_line.deactivate();
                    req
                } else {
                    FileRequest::Nothing
                }
            },
            VimCommand::ExitToNormal => {
                if self.command_line.active {
                    self.command_line.deactivate();
                }
                FileRequest::Nothing
            },
            VimCommand::Save => {
                match &self.file_path {
                    Some(path) => {
                        FileRequest::Write {
                            path: path.clone(),
                            content: self.buffer.to_string(),
                            and_quit: false,
                        }
                    },
                    None => {
                        self.status_message = String::from_str("No file name");
                        FileRequest::Nothing
                    },
                }
            },
            VimCommand::Quit => {
                if self.buffer.is_modified() {
                    self.status_message = String::from_str(
                        "No write since last change (add ! to override)",
                    );
                } else {
                    self.should_quit = true;
                }
                FileRequest::Nothing
            },
            VimCommand::SaveAndQuit => {
                match &self.file_path {
                    Some(path) => {
                        FileRequest::Write {
                            path: path.clone(),
                            content: self.buffer.to_string(),
                            and_quit: true,
                        }
                    },
                    None => {
                        self.should_quit = true;
                        FileRequest::Nothing
                    },
                }
            },
            VimCommand::ForceQuit => {
                self.should_quit = true;
                FileRequest::Nothing
            },
            _ => {
                match bindings.execute_command(command, &mut self.cursor, &mut self.buffer) {
                    Ok(()) => {},
                    Err(e) => {
                        self.status_message = e;
                    },
                }
                FileRequest::Nothing
            },
        };
        self.adjust_cursor_position(insert_mode);
        request
    }
}

impl Default for EditorState {
    fn default() -> (r: Self)
        ensures
            r.cursor == (CursorPosition { row: 0usize, col: 0usize }),
            !r.should_quit,
            r.wf(),
    {
        Self::new()
    }
}

} // verus!
