//! The interactive terminal: a registered command table, an input buffer
//! with a cursor, a command history, and a dispatcher over a fixed set of
//! built-in commands.  No display is attached in this build, so command
//! output is composed and then discarded.

use crate::kernel::text;
use vstd::prelude::*;
use vstd::string::StringSliceAdditionalSpecFns;

verus! {

/// Errors of the terminal.
#[derive(Debug, Clone, Copy, PartialEq, Eq, Structural)]
pub enum TerminalError {
    CommandNotFound,
    InvalidCommand,
    BufferFull,
    InvalidArgument,
    PermissionDenied,
    SystemError,
}

/// Result type of the terminal.
pub type TerminalResult<T> = Result<T, TerminalError>;

/// Kind of a registered command.
#[derive(Debug, Clone, Copy, PartialEq, Eq, Structural)]
pub enum CommandType {
    Builtin,
    External,
    Alias,
}

/// One registered command; name and description are stored zero-padded.
#[derive(Debug, Clone, Copy, PartialEq)]
pub struct Command {
    pub name: [u8; 32],
    pub name_len: u8,
    pub command_type: CommandType,
    pub description: [u8; 64],
    pub description_len: u8,
}

/// State of the terminal.
#[derive(Debug, Clone, Copy, PartialEq, Eq, Structural)]
pub enum TerminalState {
    Ready,
    Input,
    Processing,
    Error,
}

/// Configuration of the terminal.
#[derive(Debug, Clone, Copy, PartialEq)]
pub struct TerminalConfig {
    pub prompt: [u8; 32],
    pub prompt_len: u8,
    pub max_history: u8,
    pub auto_complete: bool,
    pub color_support: bool,
}

/// The terminal: its state, configuration, input line, history and the
/// table of registered commands.
pub struct Terminal {
    pub state: TerminalState,
    pub config: TerminalConfig,
    pub input_buffer: [u8; 256],
    pub input_len: u8,
    pub cursor_pos: u8,
    pub history: [[u8; 256]; 16],
    pub history_count: u8,
    pub history_index: u8,
    pub commands: [Option<Command>; 32],
    pub command_count: u8,
}

/// The terminal's invariant: the command table is filled from the front,
/// every stored name and description fits its array, the cursor sits at
/// the end of the input, and the counters stay in range.
pub open spec fn term_wf(t: Terminal) -> bool {
    &&& t.command_count <= 32
    &&& (forall|i: int| 0 <= i < 32 ==> (#[trigger] t.commands@[i] is Some <==> i < t.command_count))
    &&& (forall|i: int|
        0 <= i < t.command_count ==> (#[trigger] t.commands@[i])->0.name_len <= 31 && t.commands@[i]->0.description_len
            <= 63)
    &&& t.input_len <= 255
    &&& t.cursor_pos == t.input_len
    &&& t.history_count <= 16
    &&& t.config.prompt_len <= 32
}

/// Commands that run without arguments.
pub open spec fn simple_command(w: Seq<u8>) -> bool {
    ||| w == "help".spec_bytes()
    ||| w == "ls".spec_bytes()
    ||| w == "pwd".spec_bytes()
    ||| w == "cd".spec_bytes()
    ||| w == "echo".spec_bytes()
    ||| w == "clear".spec_bytes()
    ||| w == "exit".spec_bytes()
    ||| w == "version".spec_bytes()
    ||| w == "info".spec_bytes()
}

/// What `execute_command` returns for a line whose first word spans
/// `[start, end)`: an empty line and every known command succeed, `cat`
/// demands an argument, and anything else is unknown.
pub open spec fn dispatch_result(s: Seq<u8>, start: int, end: int, r: TerminalResult<()>) -> bool {
    let w = s.subrange(start, end);
    &&& (start == end ==> r is Ok)
    &&& (start < end && simple_command(w) ==> r is Ok)
    &&& (start < end && w == "cat".spec_bytes() ==> (if text::has_word_after(s, end) {
        r is Ok
    } else {
        r == TerminalResult::<()>::Err(TerminalError::InvalidArgument)
    }))
    &&& (start < end && !simple_command(w) && w != "cat".spec_bytes() ==> r
        == TerminalResult::<()>::Err(TerminalError::CommandNotFound))
}

impl Terminal {
    /// Create a terminal with the built-in commands registered.
    pub fn new() -> (r: Self)
        ensures
            term_wf(r),
            r.command_count == 10,
            command_named(r.commands@[0], "help".spec_bytes()),
            command_named(r.commands@[1], "ls".spec_bytes()),
            command_named(r.commands@[2], "pwd".spec_bytes()),
            command_named(r.commands@[3], "cd".spec_bytes()),
            command_named(r.commands@[4], "cat".spec_bytes()),
            command_named(r.commands@[5], "echo".spec_bytes()),
            command_named(r.commands@[6], "clear".spec_bytes()),
            command_named(r.commands@[7], "exit".spec_bytes()),
            command_named(r.commands@[8], "version".spec_bytes()),
            command_named(r.commands@[9], "info".spec_bytes()),
            r.state == TerminalState::Ready,
            text::stored(r.config.prompt@, r.config.prompt_len as int) == "retron$ ".spec_bytes(),
            r.config.prompt_len == 8,
            r.config.max_history == 16,
            r.config.auto_complete,
            r.config.color_support,
            r.input_len == 0,
            r.cursor_pos == 0,
            r.history_count == 0,
    {
        let mut terminal = Self {
            state: TerminalState::Ready,
            config: TerminalConfig {
                prompt: {
                    let p = "retron$ ";
                    proof {
                        reveal_strlit("retron$ ");
                        broadcast use vstd::string::is_ascii_spec_bytes;

                        assert(p.is_ascii());
                    }
                    text::copy_to_array::<32>(p.as_bytes())
                },
                prompt_len: 8,
                max_history: 16,
                auto_complete: true,
                color_support: true,
            },
            input_buffer: [0; 256],
            input_len: 0,
            cursor_pos: 0,
            history: [[0; 256]; 16],
            history_count: 0,
            history_index: 0,
            commands: [None; 32],
            command_count: 0,
        };
        proof {
            reveal_strlit("retron$ ");
            assert(text::stored(terminal.config.prompt@, 8) =~= "retron$ ".spec_bytes());
        }
        terminal.register_default_commands();
        terminal
    }

    /// Register the ten built-in commands.
    fn register_default_commands(&mut self)
        requires
            term_wf(*old(self)),
            old(self).command_count == 0,
        ensures
            term_wf(*final(self)),
            final(self).command_count == 10,
            command_named(final(self).commands@[0], "help".spec_bytes()),
            command_named(final(self).commands@[1], "ls".spec_bytes()),
            command_named(final(self).commands@[2], "pwd".spec_bytes()),
            command_named(final(self).commands@[3], "cd".spec_bytes()),
            command_named(final(self).commands@[4], "cat".spec_bytes()),
            command_named(final(self).commands@[5], "echo".spec_bytes()),
            command_named(final(self).commands@[6], "clear".spec_bytes()),
            command_named(final(self).commands@[7], "exit".spec_bytes()),
            command_named(final(self).commands@[8], "version".spec_bytes()),
            command_named(final(self).commands@[9], "info".spec_bytes()),
            final(self).state == old(self).state,
            final(self).config == old(self).config,
            final(self).input_buffer == old(self).input_buffer,
            final(self).input_len == old(self).input_len,
            final(self).cursor_pos == old(self).cursor_pos,
            final(self).history == old(self).history,
            final(self).history_count == old(self).history_count,
    {
        proof {
            broadcast use vstd::string::is_ascii_spec_bytes;

            reveal_strlit("help");
            reveal_strlit("Show available commands");
            reveal_strlit("ls");
            reveal_strlit("List directory contents");
            reveal_strlit("pwd");
            reveal_strlit("Print working directory");
            reveal_strlit("cd");
            reveal_strlit("Change directory");
            reveal_strlit("cat");
            reveal_strlit("Display file contents");
            reveal_strlit("echo");
            reveal_strlit("Display text");
            reveal_strlit("clear");
            reveal_strlit("Clear screen");
            reveal_strlit("exit");
            reveal_strlit("Exit terminal");
            reveal_strlit("version");
            reveal_strlit("Show system version");
            reveal_strlit("info");
            reveal_strlit("Show system information");
            assert("help".is_ascii() && "Show available commands".is_ascii());
            assert("ls".is_ascii() && "List directory contents".is_ascii());
            assert("pwd".is_ascii() && "Print working directory".is_ascii());
            assert("cd".is_ascii() && "Change directory".is_ascii());
            assert("cat".is_ascii() && "Display file contents".is_ascii());
            assert("echo".is_ascii() && "Display text".is_ascii());
            assert("clear".is_ascii() && "Clear screen".is_ascii());
            assert("exit".is_ascii() && "Exit terminal".is_ascii());
            assert("version".is_ascii() && "Show system version".is_ascii());
            assert("info".is_ascii() && "Show system information".is_ascii());
        }
        let _ = self.register_command("help", CommandType::Builtin, "Show available commands");
        let _ = self.register_command("ls", CommandType::Builtin, "List directory contents");
        let _ = self.register_command("pwd", CommandType::Builtin, "Print working directory");
        let _ = self.register_command("cd", CommandType::Builtin, "Change directory");
        let _ = self.register_command("cat", CommandType::Builtin, "Display file contents");
        let _ = self.register_command("echo", CommandType::Builtin, "Display text");
        let _ = self.register_command("clear", CommandType::Builtin, "Clear screen");
        let _ = self.register_command("exit", CommandType::Builtin, "Exit terminal");
        let _ = self.register_command("version", CommandType::Builtin, "Show system version");
        let _ = self.register_command("info", CommandType::Builtin, "Show system information");
        proof {
            assert(text::stored(self.commands@[0]->0.name@, self.commands@[0]->0.name_len as int)
                =~= "help".spec_bytes());
            assert(text::stored(self.commands@[1]->0.name@, self.commands@[1]->0.name_len as int)
                =~= "ls".spec_bytes());
            assert(text::stored(self.commands@[2]->0.name@, self.commands@[2]->0.name_len as int)
                =~= "pwd".spec_bytes());
            assert(text::stored(self.commands@[3]->0.name@, self.commands@[3]->0.name_len as int)
                =~= "cd".spec_bytes());
            assert(text::stored(self.commands@[4]->0.name@, self.commands@[4]->0.name_len as int)
                =~= "cat".spec_bytes());
            assert(text::stored(self.commands@[5]->0.name@, self.commands@[5]->0.name_len as int)
                =~= "echo".spec_bytes());
            assert(text::stored(self.commands@[6]->0.name@, self.commands@[6]->0.name_len as int)
                =~= "clear".spec_bytes());
            assert(text::stored(self.commands@[7]->0.name@, self.commands@[7]->0.name_len as int)
                =~= "exit".spec_bytes());
            assert(text::stored(self.commands@[8]->0.name@, self.commands@[8]->0.name_len as int)
                =~= "version".spec_bytes());
            assert(text::stored(self.commands@[9]->0.name@, self.commands@[9]->0.name_len as int)
                =~= "info".spec_bytes());
        }
    }

    /// Register a command.  Success is owed exactly when the table has
    /// room, the name fits 31 bytes and the description 63.
    pub fn register_command(&mut self, name: &str, command_type: CommandType, description: &str)
        -> (r: TerminalResult<()>)
        requires
            term_wf(*old(self)),
        ensures
            term_wf(*final(self)),
            r is Ok <==> old(self).command_count < 32 && name.spec_bytes().len() <= 31
                && description.spec_bytes().len() <= 63,
            r is Ok ==> {
                &&& final(self).commands@ =~= old(self).commands@.update(
                    old(self).command_count as int,
                    Some(final(self).commands@[old(self).command_count as int]->0),
                )
                &&& final(self).commands@[old(self).command_count as int] is Some
                &&& {
                    let c = final(self).commands@[old(self).command_count as int]->0;
                    &&& text::padded(name.spec_bytes(), c.name@)
                    &&& c.name_len == name.spec_bytes().len()
                    &&& c.command_type == command_type
                    &&& text::padded(description.spec_bytes(), c.description@)
                    &&& c.description_len == description.spec_bytes().len()
                }
                &&& final(self).command_count == old(self).command_count + 1
                &&& final(self).state == old(self).state
                &&& final(self).config == old(self).config
                &&& final(self).input_buffer == old(self).input_buffer
                &&& final(self).input_len == old(self).input_len
                &&& final(self).cursor_pos == old(self).cursor_pos
                &&& final(self).history == old(self).history
                &&& final(self).history_count == old(self).history_count
            },
            r is Err ==> *final(self) == *old(self),
            old(self).command_count >= 32 ==> r == TerminalResult::<()>::Err(
                TerminalError::BufferFull,
            ),
            old(self).command_count < 32 && (name.spec_bytes().len() > 31
                || description.spec_bytes().len() > 63) ==> r == TerminalResult::<()>::Err(
                TerminalError::InvalidCommand,
            ),
    {
        if self.command_count >= 32 {
            return Err(TerminalError::BufferFull);
        }
        let name_bytes = name.as_bytes();
        if name_bytes.len() > 31 {
            return Err(TerminalError::InvalidCommand);
        }
        let desc_bytes = description.as_bytes();
        if desc_bytes.len() > 63 {
            return Err(TerminalError::InvalidCommand);
        }
        let command = Command {
            name: text::copy_to_array::<32>(name_bytes),
            name_len: name_bytes.len() as u8,
            command_type,
            description: text::copy_to_array::<64>(desc_bytes),
            description_len: desc_bytes.len() as u8,
        };
        let idx = self.command_count as usize;
        self.commands[idx] = Some(command);
        self.command_count = self.command_count + 1;
        Ok(())
    }

    /// Find a registered command by name; the first match wins.
    pub fn find_command(&self, name: &str) -> (r: Option<&Command>)
        requires
            term_wf(*self),
        ensures
            r is Some <==> exists|i: int|
                0 <= i < self.command_count && command_named(
                    #[trigger] self.commands@[i],
                    name.spec_bytes(),
                ),
            r matches Some(c) ==> exists|i: int| first_command_match(*self, name.spec_bytes(), i, *c),
    {
        let name_bytes = name.as_bytes();
        let count = self.command_count as usize;
        let mut i: usize = 0;
        while i < count
            invariant
                term_wf(*self),
                count == self.command_count,
                0 <= i <= count,
                name_bytes@ == name.spec_bytes(),
                forall|j: int|
                    0 <= j < i ==> !command_named(#[trigger] self.commands@[j], name_bytes@),
            decreases count - i,
        {
            match &self.commands[i] {
                Some(command) => {
                    proof {
                        assert(self.commands@[i as int] is Some);
                        assert(*command == self.commands@[i as int]->0);
                    }
                    if text::prefix_eq(&command.name, command.name_len as usize, name_bytes) {
                        proof {
                            assert(text::stored(command.name@, command.name_len as int)
                                =~= name_bytes@);
                            assert(command_named(self.commands@[i as int], name.spec_bytes()));
                            assert(first_command_match(
                                *self,
                                name.spec_bytes(),
                                i as int,
                                *command,
                            ));
                        }
                        return Some(command);
                    }
                },
                None => {},
            }
            i = i + 1;
        }
        None
    }

    /// Execute a command line.  The terminal itself does not change: the
    /// built-ins only compose output, and no display is attached.
    pub fn execute_command(&mut self, command_line: &str) -> (r: TerminalResult<()>)
        requires
            term_wf(*old(self)),
        ensures
            *final(self) == *old(self),
            forall|start: int, end: int|
                text::first_word_range(command_line.spec_bytes(), start, end) ==> dispatch_result(
                    command_line.spec_bytes(),
                    start,
                    end,
                    r,
                ),
    {
        let bytes = command_line.as_bytes();
        let (start, end) = text::find_first_word(bytes);
        let r = self.dispatch(bytes, start, end);
        proof {
            assert forall|a: int, b: int|
                text::first_word_range(command_line.spec_bytes(), a, b) implies dispatch_result(
                command_line.spec_bytes(),
                a,
                b,
                r,
            ) by {
                text::lemma_first_word_unique(
                    command_line.spec_bytes(),
                    a,
                    b,
                    start as int,
                    end as int,
                );
            }
        }
        r
    }

    /// Dispatch on the first word of the line.
    fn dispatch(&mut self, bytes: &[u8], start: usize, end: usize) -> (r: TerminalResult<()>)
        requires
            term_wf(*old(self)),
            text::first_word_range(bytes@, start as int, end as int),
        ensures
            *final(self) == *old(self),
            dispatch_result(bytes@, start as int, end as int, r),
    {
        if start == end {
            return Ok(());
        }
        let w = &bytes[start..end];
        proof {
            assert(w@ =~= bytes@.subrange(start as int, end as int));
            broadcast use vstd::string::is_ascii_spec_bytes;

            reveal_strlit("help");
            reveal_strlit("ls");
            reveal_strlit("pwd");
            reveal_strlit("cd");
            reveal_strlit("cat");
            reveal_strlit("echo");
            reveal_strlit("clear");
            reveal_strlit("exit");
            reveal_strlit("version");
            reveal_strlit("info");
            assert("help".is_ascii() && "ls".is_ascii() && "pwd".is_ascii() && "cd".is_ascii());
            assert("cat".is_ascii() && "echo".is_ascii() && "clear".is_ascii());
            assert("exit".is_ascii() && "version".is_ascii() && "info".is_ascii());
            assert("help".spec_bytes() != "cat".spec_bytes());
            assert("ls".spec_bytes() != "cat".spec_bytes());
            assert("pwd".spec_bytes()[0] != "cat".spec_bytes()[0]);
            assert("pwd".spec_bytes() != "cat".spec_bytes());
            assert("cd".spec_bytes() != "cat".spec_bytes());
        }
        if text::bytes_eq(w, "help".as_bytes()) {
            self.execute_help()
        } else if text::bytes_eq(w, "ls".as_bytes()) {
            self.execute_ls()
        } else if text::bytes_eq(w, "pwd".as_bytes()) {
            self.execute_pwd()
        } else if text::bytes_eq(w, "cd".as_bytes()) {
            self.execute_cd(bytes, end)
        } else if text::bytes_eq(w, "cat".as_bytes()) {
            if text::word_follows(bytes, end) {
                self.execute_cat(bytes, end)
            } else {
                self.print_error("Usage: cat <file>");
                Err(TerminalError::InvalidArgument)
            }
        } else if text::bytes_eq(w, "echo".as_bytes()) {
            self.execute_echo(bytes, end)
        } else if text::bytes_eq(w, "clear".as_bytes()) {
            self.execute_clear()
        } else if text::bytes_eq(w, "exit".as_bytes()) {
            self.execute_exit()
        } else if text::bytes_eq(w, "version".as_bytes()) {
            self.execute_version()
        } else if text::bytes_eq(w, "info".as_bytes()) {
            self.execute_info()
        } else {
            self.print_error("Command not found");
            Err(TerminalError::CommandNotFound)
        }
    }

    /// List the registered commands with their descriptions.
    fn execute_help(&self) -> (r: TerminalResult<()>)
        requires
            term_wf(*self),
        ensures
            r is Ok,
    {
        self.print_line("Available commands:");
        let count = self.command_count as usize;
        let mut i: usize = 0;
        while i < count
            invariant
                term_wf(*self),
                count == self.command_count,
                0 <= i <= count,
            decreases count - i,
        {
            match &self.commands[i] {
                Some(command) => {
                    let line = text::compose(
                        &command.name[0..command.name_len as usize],
                        &command.description[0..command.description_len as usize],
                        128,
                    );
                    self.print_bytes(&line);
                },
                None => {},
            }
            i = i + 1;
        }
        Ok(())
    }

    /// Print the fixed directory listing.
    fn execute_ls(&self) -> (r: TerminalResult<()>)
        ensures
            r is Ok,
    {
        self.print_line("Directory listing:");
        self.print_line("  .");
        self.print_line("  ..");
        self.print_line("  bin/");
        self.print_line("  etc/");
        self.print_line("  home/");
        self.print_line("  var/");
        self.print_line("  tmp/");
        Ok(())
    }

    /// Print the working directory (always the root).
    fn execute_pwd(&self) -> (r: TerminalResult<()>)
        ensures
            r is Ok,
    {
        self.print_line("/");
        Ok(())
    }

    /// Acknowledge a directory change.
    fn execute_cd(&self, bytes: &[u8], from: usize) -> (r: TerminalResult<()>)
        requires
            from <= bytes@.len(),
        ensures
            r is Ok,
    {
        if !text::word_follows(bytes, from) {
            self.print_line("/");
        } else {
            let line = text::compose("Changed directory to: ".as_bytes(), bytes, 64);
            self.print_bytes(&line);
        }
        Ok(())
    }

    /// Announce the file whose contents would be shown.
    fn execute_cat(&self, bytes: &[u8], from: usize) -> (r: TerminalResult<()>)
        requires
            from <= bytes@.len(),
        ensures
            r is Ok,
    {
        let line = text::compose("Contents of ".as_bytes(), bytes, 64);
        self.print_bytes(&line);
        self.print_line("  (File contents would be displayed here)");
        Ok(())
    }

    /// Echo the rest of the line.
    fn execute_echo(&self, bytes: &[u8], from: usize) -> (r: TerminalResult<()>)
        requires
            from <= bytes@.len(),
        ensures
            r is Ok,
    {
        let line = text::compose("".as_bytes(), bytes, 256);
        self.print_bytes(&line);
        Ok(())
    }

    /// Clear the screen.
    fn execute_clear(&self) -> (r: TerminalResult<()>)
        ensures
            r is Ok,
    {
        self.clear_screen();
        Ok(())
    }

    /// Say goodbye.
    fn execute_exit(&self) -> (r: TerminalResult<()>)
        ensures
            r is Ok,
    {
        self.print_line("Goodbye!");
        Ok(())
    }

    /// Print the version banner.
    fn execute_version(&self) -> (r: TerminalResult<()>)
        ensures
            r is Ok,
    {
        self.print_line("Retron OS v0.1.0");
        self.print_line("uT-Kernel v3.0");
        self.print_line("Terminal v1.0");
        Ok(())
    }

    /// Print the system information banner.
    fn execute_info(&self) -> (r: TerminalResult<()>)
        ensures
            r is Ok,
    {
        self.print_line("System Information:");
        self.print_line("  OS: Retron OS v0.1.0");
        self.print_line("  Kernel: Rust-based");
        self.print_line("  Memory: 512MB");
        self.print_line("  Filesystem: OK");
        self.print_line("  Terminal: OK");
        Ok(())
    }

    /// Compose and discard an error message; no display is attached.
    fn print_error(&self, message: &str) {
        let line = text::compose("Error: ".as_bytes(), message.as_bytes(), 128);
        self.print_bytes(&line);
    }

    /// Display a line; no display is attached in this build.
    fn print_line(&self, _line: &str) {
    }

    /// Display raw bytes; no display is attached in this build.
    fn print_bytes(&self, _line: &[u8]) {
    }

    /// Clear the display; no display is attached in this build.
    fn clear_screen(&self) {
    }

    /// Show the prompt.
    pub fn show_prompt(&self)
        requires
            term_wf(*self),
    {
        let line = text::compose(&self.config.prompt[0..self.config.prompt_len as usize], "".as_bytes(), 32);
        self.print_bytes(&line);
    }

    /// Feed one input character.  Printable bytes append to the input
    /// line, backspace removes the last byte, and a line break runs the
    /// buffered command, records it in the history and clears the line.
    pub fn process_input(&mut self, ch: u8) -> (r: TerminalResult<()>)
        requires
            term_wf(*old(self)),
        ensures
            term_wf(*final(self)),
            r is Ok,
            (ch == 10 || ch == 13) ==> {
                &&& final(self).input_len == 0
                &&& final(self).cursor_pos == 0
                &&& (old(self).input_len > 0 ==> final(self).input_buffer@ =~= Seq::new(
                    256,
                    |i: int| 0u8,
                ))
                &&& (old(self).input_len == 0 ==> final(self).input_buffer == old(self).input_buffer)
                &&& (old(self).input_len > 0 && old(self).history_count < 16 ==> {
                    &&& final(self).history_count == old(self).history_count + 1
                    &&& (forall|k: int|
                        0 <= k < old(self).input_len ==> final(self).history@[old(self).history_count as int]@[k] == old(self).input_buffer@[k])
                })
                &&& (!(old(self).input_len > 0 && old(self).history_count < 16) ==> final(self).history_count == old(self).history_count)
                &&& final(self).commands == old(self).commands
                &&& final(self).command_count == old(self).command_count
                &&& final(self).state == old(self).state
            },
            (ch == 8 || ch == 127) ==> {
                &&& (old(self).cursor_pos > 0 ==> final(self).input_len == old(self).input_len - 1
                    && final(self).cursor_pos == old(self).cursor_pos - 1)
                &&& (old(self).cursor_pos == 0 ==> *final(self) == *old(self))
                &&& final(self).input_buffer == old(self).input_buffer
                &&& final(self).history == old(self).history
                &&& final(self).history_count == old(self).history_count
            },
            !(ch == 10 || ch == 13 || ch == 8 || ch == 127) ==> {
                &&& (old(self).input_len < 255 ==> {
                    &&& final(self).input_buffer@ =~= old(self).input_buffer@.update(
                        old(self).input_len as int,
                        ch,
                    )
                    &&& final(self).input_len == old(self).input_len + 1
                    &&& final(self).cursor_pos == old(self).cursor_pos + 1
                })
                &&& (old(self).input_len == 255 ==> *final(self) == *old(self))
                &&& final(self).history == old(self).history
                &&& final(self).history_count == old(self).history_count
            },
    {
        if ch == 10 || ch == 13 {
            self.process_command_line();
        } else if ch == 8 || ch == 127 {
            if self.cursor_pos > 0 {
                self.cursor_pos = self.cursor_pos - 1;
                self.input_len = self.input_len - 1;
            }
        } else {
            if self.input_len < 255 {
                let idx = self.input_len as usize;
                self.input_buffer[idx] = ch;
                self.input_len = self.input_len + 1;
                self.cursor_pos = self.cursor_pos + 1;
            }
        }
        Ok(())
    }

    /// Run the buffered line: record it in the history, execute it, and
    /// clear the input.
    fn process_command_line(&mut self)
        requires
            term_wf(*old(self)),
        ensures
            term_wf(*final(self)),
            final(self).input_len == 0,
            final(self).cursor_pos == 0,
            old(self).input_len > 0 ==> final(self).input_buffer@ =~= Seq::new(256, |i: int| 0u8),
            old(self).input_len == 0 ==> final(self).input_buffer == old(self).input_buffer,
            old(self).input_len > 0 && old(self).history_count < 16 ==> {
                &&& final(self).history_count == old(self).history_count + 1
                &&& (forall|k: int|
                    0 <= k < old(self).input_len ==> final(self).history@[old(self).history_count as int]@[k] == old(self).input_buffer@[k])
            },
            !(old(self).input_len > 0 && old(self).history_count < 16) ==> final(self).history_count == old(self).history_count,
            final(self).commands == old(self).commands,
            final(self).command_count == old(self).command_count,
            final(self).state == old(self).state,
    {
        if self.input_len > 0 {
            let cmd_len = self.input_len as usize;
            let mut cmd_buffer: Vec<u8> = Vec::new();
            let mut i: usize = 0;
            while i < cmd_len
                invariant
                    *self == *old(self),
                    term_wf(*self),
                    cmd_len == self.input_len,
                    cmd_len <= 255,
                    cmd_len <= self.input_buffer@.len(),
                    0 <= i <= cmd_len,
                    cmd_buffer@.len() == i,
                    forall|k: int| 0 <= k < i ==> cmd_buffer@[k] == self.input_buffer@[k],
                decreases cmd_len - i,
            {
                cmd_buffer.push(self.input_buffer[i]);
                i = i + 1;
            }
            let ghost s0 = *self;
            self.add_to_history(&cmd_buffer);
            let ghost s1 = *self;
            proof {
                assert(s0 == *old(self));
                assert(s0.history_count < 16 ==> s1.history_count == s0.history_count + 1);
                assert(s0.history_count < 16 ==> forall|k: int|
                    0 <= k < cmd_buffer@.len() ==> s1.history@[s0.history_count as int]@[k]
                        == cmd_buffer@[k]);
            }
            let _ = self.execute_bytes(&cmd_buffer);
            proof {
                assert(*self == s1);
            }
            self.input_buffer = [0; 256];
            self.input_len = 0;
            self.cursor_pos = 0;
            proof {
                assert(self.input_buffer@ =~= Seq::new(256, |i: int| 0u8));
                assert(self.history == s1.history);
                assert(self.history_count == s1.history_count);
                if s0.history_count < 16 {
                    assert forall|k: int| 0 <= k < s0.input_len implies self.history@[s0.history_count as int]@[k]
                        == s0.input_buffer@[k] by {
                        assert(cmd_buffer@.len() == s0.input_len);
                        assert(cmd_buffer@[k] == s0.input_buffer@[k]);
                        assert(s1.history@[s0.history_count as int]@[k] == cmd_buffer@[k]);
                    }
                }
            }
        }
        self.show_prompt();
    }

    /// Execute a command line given as raw bytes.
    fn execute_bytes(&mut self, bytes: &[u8]) -> (r: TerminalResult<()>)
        requires
            term_wf(*old(self)),
        ensures
            *final(self) == *old(self),
    {
        let (start, end) = text::find_first_word(bytes);
        self.dispatch(bytes, start, end)
    }

    /// Record a command line in the history if there is room.
    fn add_to_history(&mut self, command_line: &[u8])
        requires
            term_wf(*old(self)),
            command_line@.len() <= 255,
        ensures
            term_wf(*final(self)),
            old(self).history_count < 16 ==> {
                &&& final(self).history_count == old(self).history_count + 1
                &&& (forall|k: int|
                    0 <= k < command_line@.len() ==> final(self).history@[old(self).history_count as int]@[k] == command_line@[k])
            },
            old(self).history_count >= 16 ==> final(self).history == old(self).history
                && final(self).history_count == old(self).history_count,
            final(self).input_buffer == old(self).input_buffer,
            final(self).input_len == old(self).input_len,
            final(self).cursor_pos == old(self).cursor_pos,
            final(self).commands == old(self).commands,
            final(self).command_count == old(self).command_count,
            final(self).state == old(self).state,
            final(self).config == old(self).config,
    {
        if self.history_count < 16 {
            let slot = self.history_count as usize;
            let mut entry = self.history[slot];
            let mut i: usize = 0;
            while i < command_line.len()
                invariant
                    command_line@.len() <= 255,
                    0 <= i <= command_line@.len(),
                    entry@.len() == 256,
                    forall|k: int| 0 <= k < i ==> entry@[k] == command_line@[k],
                decreases command_line@.len() - i,
            {
                entry[i] = command_line[i];
                i = i + 1;
            }
            self.history[slot] = entry;
            self.history_count = self.history_count + 1;
        }
    }

    /// Reset the terminal to the ready state and show the banner.
    pub fn init(&mut self) -> (r: TerminalResult<()>)
        requires
            term_wf(*old(self)),
        ensures
            term_wf(*final(self)),
            r is Ok,
            *final(self) == (Terminal { state: TerminalState::Ready, ..*old(self) }),
    {
        self.state = TerminalState::Ready;
        self.clear_screen();
        self.print_line("Retron OS Terminal v1.0");
        self.print_line("Type 'help' for available commands.");
        self.show_prompt();
        Ok(())
    }
}

/// `c` is the first command of the table that carries the given name,
/// standing at slot `i`.
pub open spec fn first_command_match(t: Terminal, name: Seq<u8>, i: int, c: Command) -> bool {
    &&& 0 <= i < t.command_count
    &&& command_named(t.commands@[i], name)
    &&& (forall|j: int| 0 <= j < i ==> !command_named(#[trigger] t.commands@[j], name))
    &&& c == t.commands@[i]->0
}

/// A command slot holds a command of the given name.
pub open spec fn command_named(c: Option<Command>, name: Seq<u8>) -> bool {
    c matches Some(command) && command.name_len <= 31 && text::stored(
        command.name@,
        command.name_len as int,
    ) == name
}

/// Create a terminal, initialise it, and hand it to the caller.
pub fn init_terminal() -> (r: TerminalResult<Terminal>)
    ensures
        r is Ok,
        r matches Ok(t) ==> term_wf(t) && t.state == TerminalState::Ready && t.command_count == 10,
{
    let mut terminal = Terminal::new();
    match terminal.init() {
        Ok(()) => Ok(terminal),
        Err(e) => Err(e),
    }
}

/// Run the demonstration command sequence on a fresh terminal.
pub fn terminal_demo() {
    let terminal = init_terminal();
    let mut terminal = match terminal {
        Ok(terminal) => terminal,
        Err(_) => {
            return ;
        },
    };
    let _ = terminal.execute_command("help");
    let _ = terminal.execute_command("version");
    let _ = terminal.execute_command("info");
    let _ = terminal.execute_command("ls");
}

} // verus!
