//! The standard-I/O flavoured terminal: an input line, an output buffer,
//! a history, and a dispatcher over a larger set of built-in commands.
//! No stream is attached in this build, so output is composed and then
//! discarded; the `clear` command resets both buffers.

use crate::kernel::text;
use vstd::prelude::*;
use vstd::string::StringSliceAdditionalSpecFns;

verus! {

/// Errors of the stdio terminal.
#[derive(Debug, Clone, Copy, PartialEq, Eq, Structural)]
pub enum StdioTerminalError {
    InputError,
    OutputError,
    CommandNotFound,
    InvalidInput,
    SystemError,
}

/// Result type of the stdio terminal.
pub type StdioTerminalResult<T> = Result<T, StdioTerminalError>;

/// State of the stdio terminal.
#[derive(Debug, Clone, Copy, PartialEq, Eq, Structural)]
pub enum StdioTerminalState {
    Ready,
    Reading,
    Processing,
    Writing,
    Error,
}

/// The stdio terminal.
pub struct StdioTerminal {
    pub state: StdioTerminalState,
    pub input_buffer: [u8; 256],
    pub input_len: u8,
    pub output_buffer: [u8; 512],
    pub output_len: u8,
    pub prompt: [u8; 32],
    pub prompt_len: u8,
    pub history: [[u8; 256]; 16],
    pub history_count: u8,
    pub history_index: u8,
}

/// The stdio terminal's invariant.
pub open spec fn stdio_wf(t: StdioTerminal) -> bool {
    &&& t.input_len <= 255
    &&& t.prompt_len <= 32
    &&& t.history_count <= 16
}

/// Commands that succeed and leave the terminal unchanged.
pub open spec fn stdio_simple_command(w: Seq<u8>) -> bool {
    ||| w == "help".spec_bytes()
    ||| w == "ls".spec_bytes()
    ||| w == "pwd".spec_bytes()
    ||| w == "cd".spec_bytes()
    ||| w == "echo".spec_bytes()
    ||| w == "version".spec_bytes()
    ||| w == "info".spec_bytes()
    ||| w == "history".spec_bytes()
    ||| w == "whoami".spec_bytes()
    ||| w == "date".spec_bytes()
    ||| w == "uptime".spec_bytes()
}

/// `post` is `pre` with both buffers cleared.
pub open spec fn buffers_cleared(pre: StdioTerminal, post: StdioTerminal) -> bool {
    post == (StdioTerminal {
        input_buffer: post.input_buffer,
        input_len: 0,
        output_buffer: post.output_buffer,
        output_len: 0,
        ..pre
    }) && post.input_buffer@ =~= Seq::new(256, |i: int| 0u8) && post.output_buffer@ =~= Seq::new(
        512,
        |i: int| 0u8,
    )
}

/// What executing a line whose first word spans `[start, end)` does:
/// `clear` resets the buffers, `exit` reports the end of input, `cat`
/// demands an argument, the other known commands succeed and change
/// nothing, and anything else is unknown.
pub open spec fn stdio_dispatch_result(
    s: Seq<u8>,
    start: int,
    end: int,
    pre: StdioTerminal,
    post: StdioTerminal,
    r: StdioTerminalResult<()>,
) -> bool {
    let w = s.subrange(start, end);
    &&& (start == end ==> r is Ok && post == pre)
    &&& (start < end && w == "clear".spec_bytes() ==> r is Ok && buffers_cleared(pre, post))
    &&& (start < end && w == "exit".spec_bytes() ==> r == StdioTerminalResult::<()>::Err(
        StdioTerminalError::InputError,
    ) && post == pre)
    &&& (start < end && w == "cat".spec_bytes() ==> post == pre && (if text::has_word_after(
        s,
        end,
    ) {
        r is Ok
    } else {
        r == StdioTerminalResult::<()>::Err(StdioTerminalError::InvalidInput)
    }))
    &&& (start < end && stdio_simple_command(w) ==> r is Ok && post == pre)
    &&& (start < end && !stdio_simple_command(w) && w != "clear".spec_bytes() && w
        != "exit".spec_bytes() && w != "cat".spec_bytes() ==> r == StdioTerminalResult::<()>::Err(
        StdioTerminalError::CommandNotFound,
    ) && post == pre)
}

impl StdioTerminal {
    /// Create a terminal with empty buffers and the default prompt.
    pub fn new() -> (r: Self)
        ensures
            stdio_wf(r),
            r.state == StdioTerminalState::Ready,
            r.input_len == 0,
            r.output_len == 0,
            text::stored(r.prompt@, r.prompt_len as int) == "retron$ ".spec_bytes(),
            r.history_count == 0,
    {
        let p = "retron$ ";
        proof {
            reveal_strlit("retron$ ");
            broadcast use vstd::string::is_ascii_spec_bytes;

            assert(p.is_ascii());
        }
        let r = Self {
            state: StdioTerminalState::Ready,
            input_buffer: [0; 256],
            input_len: 0,
            output_buffer: [0; 512],
            output_len: 0,
            prompt: text::copy_to_array::<32>(p.as_bytes()),
            prompt_len: 8,
            history: [[0; 256]; 16],
            history_count: 0,
            history_index: 0,
        };
        proof {
            assert(text::stored(r.prompt@, 8) =~= "retron$ ".spec_bytes());
        }
        r
    }

    /// Reset the terminal: ready state, empty buffers, welcome banner.
    pub fn init(&mut self) -> (r: StdioTerminalResult<()>)
        requires
            stdio_wf(*old(self)),
        ensures
            stdio_wf(*final(self)),
            r is Ok,
            final(self).state == StdioTerminalState::Ready,
            final(self).input_len == 0,
            final(self).output_len == 0,
            final(self).prompt == old(self).prompt,
            final(self).prompt_len == old(self).prompt_len,
            final(self).history == old(self).history,
            final(self).history_count == old(self).history_count,
    {
        self.state = StdioTerminalState::Ready;
        self.clear_buffers();
        self.print_welcome_message();
        self.show_prompt();
        Ok(())
    }

    /// Compose the welcome banner; no stream is attached.
    fn print_welcome_message(&self) {
        self.print_line("Retron OS stdio Terminal v1.0");
        self.print_line("Type 'help' for available commands.");
        self.print_line("Type 'exit' to quit.");
    }

    /// Show the prompt.
    fn show_prompt(&self)
        requires
            stdio_wf(*self),
    {
        let line = text::compose(&self.prompt[0..self.prompt_len as usize], "".as_bytes(), 32);
        self.print_bytes(&line);
    }

    /// Display text; no stream is attached in this build.
    fn print(&self, _text: &str) {
    }

    /// Display a line; no stream is attached in this build.
    fn print_line(&self, line: &str) {
        self.print(line);
        self.print("\n");
    }

    /// Display raw bytes; no stream is attached in this build.
    fn print_bytes(&self, _line: &[u8]) {
    }

    /// Compose and discard an error message.
    fn print_error(&self, message: &[u8]) {
        let line = text::compose("Error: ".as_bytes(), message, 128);
        self.print_bytes(&line);
    }

    /// Zero both buffers.
    fn clear_buffers(&mut self)
        ensures
            *final(self) == (StdioTerminal {
                input_buffer: final(self).input_buffer,
                input_len: 0,
                output_buffer: final(self).output_buffer,
                output_len: 0,
                ..*old(self)
            }),
            final(self).input_buffer@ =~= Seq::new(256, |i: int| 0u8),
            final(self).output_buffer@ =~= Seq::new(512, |i: int| 0u8),
    {
        self.input_buffer = [0; 256];
        self.input_len = 0;
        self.output_buffer = [0; 512];
        self.output_len = 0;
    }

    /// Zero the input line.
    fn clear_input(&mut self)
        ensures
            *final(self) == (StdioTerminal {
                input_buffer: final(self).input_buffer,
                input_len: 0,
                ..*old(self)
            }),
            final(self).input_buffer@ =~= Seq::new(256, |i: int| 0u8),
    {
        self.input_buffer = [0; 256];
        self.input_len = 0;
    }

    /// Feed one input character.  Printable bytes append to the line;
    /// backspace removes a byte; a line break runs the buffered command;
    /// an interrupt clears the line; end-of-input reports an error.
    pub fn process_input(&mut self, ch: u8) -> (r: StdioTerminalResult<()>)
        requires
            stdio_wf(*old(self)),
        ensures
            stdio_wf(*final(self)),
            (ch == 10 || ch == 13) ==> {
                let cmd = old(self).input_buffer@.subrange(0, old(self).input_len as int);
                &&& r is Ok
                &&& final(self).input_len == 0
                &&& (old(self).input_len > 0 && old(self).history_count < 16 ==> {
                    &&& final(self).history_count == old(self).history_count + 1
                    &&& (forall|k: int|
                        0 <= k < old(self).input_len ==> final(self).history@[old(self).history_count as int]@[k]
                            == old(self).input_buffer@[k])
                })
                &&& (!(old(self).input_len > 0 && old(self).history_count < 16) ==> final(self).history_count
                    == old(self).history_count)
                &&& final(self).prompt == old(self).prompt
                &&& final(self).state == old(self).state
            },
            (ch == 8 || ch == 127) ==> {
                &&& r is Ok
                &&& (old(self).input_len > 0 ==> *final(self) == (StdioTerminal {
                    input_len: (old(self).input_len - 1) as u8,
                    ..*old(self)
                }))
                &&& (old(self).input_len == 0 ==> *final(self) == *old(self))
            },
            ch == 3 ==> {
                &&& r is Ok
                &&& *final(self) == (StdioTerminal {
                    input_buffer: final(self).input_buffer,
                    input_len: 0,
                    ..*old(self)
                })
                &&& final(self).input_buffer@ =~= Seq::new(256, |i: int| 0u8)
            },
            ch == 4 ==> r == StdioTerminalResult::<()>::Err(StdioTerminalError::InputError)
                && *final(self) == *old(self),
            !(ch == 10 || ch == 13 || ch == 8 || ch == 127 || ch == 3 || ch == 4) ==> {
                &&& r is Ok
                &&& (old(self).input_len < 255 ==> {
                    &&& final(self).input_buffer@ =~= old(self).input_buffer@.update(
                        old(self).input_len as int,
                        ch,
                    )
                    &&& *final(self) == (StdioTerminal {
                        input_buffer: final(self).input_buffer,
                        input_len: (old(self).input_len + 1) as u8,
                        ..*old(self)
                    })
                })
                &&& (old(self).input_len == 255 ==> *final(self) == *old(self))
            },
    {
        if ch == 10 || ch == 13 {
            self.process_command_line();
            Ok(())
        } else if ch == 8 || ch == 127 {
            if self.input_len > 0 {
                self.input_len = self.input_len - 1;
            }
            Ok(())
        } else if ch == 3 {
            self.print_line("^C");
            self.clear_input();
            self.show_prompt();
            Ok(())
        } else if ch == 4 {
            self.print_line("^D");
            Err(StdioTerminalError::InputError)
        } else {
            if self.input_len < 255 {
                let idx = self.input_len as usize;
                self.input_buffer[idx] = ch;
                self.input_len = self.input_len + 1;
            }
            Ok(())
        }
    }

    /// Run the buffered line: record it in the history, execute it, and
    /// clear the input.
    fn process_command_line(&mut self)
        requires
            stdio_wf(*old(self)),
        ensures
            stdio_wf(*final(self)),
            final(self).input_len == 0,
            old(self).input_len > 0 && old(self).history_count < 16 ==> {
                &&& final(self).history_count == old(self).history_count + 1
                &&& (forall|k: int|
                    0 <= k < old(self).input_len ==> final(self).history@[old(self).history_count as int]@[k]
                        == old(self).input_buffer@[k])
            },
            !(old(self).input_len > 0 && old(self).history_count < 16) ==> final(self).history_count
                == old(self).history_count,
            final(self).prompt == old(self).prompt,
            final(self).state == old(self).state,
    {
        if self.input_len > 0 {
            let cmd_len = self.input_len as usize;
            let mut cmd_buffer: Vec<u8> = Vec::new();
            let mut i: usize = 0;
            while i < cmd_len
                invariant
                    *self == *old(self),
                    stdio_wf(*self),
                    cmd_len == self.input_len,
                    cmd_len <= self.input_buffer@.len(),
                    0 <= i <= cmd_len,
                    cmd_buffer@.len() == i,
                    forall|k: int| 0 <= k < i ==> cmd_buffer@[k] == self.input_buffer@[k],
                decreases cmd_len - i,
            {
                cmd_buffer.push(self.input_buffer[i]);
                i = i + 1;
            }
            let ghost s0 = *self;
            self.add_to_history(&cmd_buffer);
            let ghost s1 = *self;
            let _ = self.execute_bytes(&cmd_buffer);
            self.clear_input();
            proof {
                if s0.history_count < 16 {
                    assert forall|k: int| 0 <= k < s0.input_len implies self.history@[s0.history_count as int]@[k]
                        == s0.input_buffer@[k] by {
                        assert(cmd_buffer@.len() == s0.input_len);
                        assert(cmd_buffer@[k] == s0.input_buffer@[k]);
                        assert(s1.history@[s0.history_count as int]@[k] == cmd_buffer@[k]);
                    }
                }
            }
        }
        self.show_prompt();
    }

    /// Record a command line in the history if there is room.
    fn add_to_history(&mut self, command_line: &[u8])
        requires
            stdio_wf(*old(self)),
            command_line@.len() <= 255,
        ensures
            stdio_wf(*final(self)),
            old(self).history_count < 16 ==> {
                &&& final(self).history_count == old(self).history_count + 1
                &&& (forall|k: int|
                    0 <= k < command_line@.len() ==> final(self).history@[old(self).history_count as int]@[k]
                        == command_line@[k])
            },
            old(self).history_count >= 16 ==> final(self).history == old(self).history
                && final(self).history_count == old(self).history_count,
            *final(self) == (StdioTerminal {
                history: final(self).history,
                history_count: final(self).history_count,
                ..*old(self)
            }),
    {
        if self.history_count < 16 {
            let slot = self.history_count as usize;
            let mut entry = self.history[slot];
            let mut i: usize = 0;
            while i < command_line.len()
                invariant
                    command_line@.len() <= 255,
                    0 <= i <= command_line@.len(),
                    entry@.len() == 256,
                    forall|k: int| 0 <= k < i ==> entry@[k] == command_line@[k],
                decreases command_line@.len() - i,
            {
                entry[i] = command_line[i];
                i = i + 1;
            }
            self.history[slot] = entry;
            self.history_count = self.history_count + 1;
        }
    }

    /// Execute a command line.
    pub fn execute_command(&mut self, command_line: &str) -> (r: StdioTerminalResult<()>)
        requires
            stdio_wf(*old(self)),
        ensures
            stdio_wf(*final(self)),
            final(self).history == old(self).history,
            final(self).history_count == old(self).history_count,
            final(self).prompt == old(self).prompt,
            final(self).prompt_len == old(self).prompt_len,
            final(self).state == old(self).state,
            forall|start: int, end: int|
                text::first_word_range(command_line.spec_bytes(), start, end)
                    ==> stdio_dispatch_result(
                    command_line.spec_bytes(),
                    start,
                    end,
                    *old(self),
                    *final(self),
                    r,
                ),
    {
        let bytes = command_line.as_bytes();
        let (start, end) = text::find_first_word(bytes);
        let r = self.dispatch(bytes, start, end);
        proof {
            assert forall|a: int, b: int|
                text::first_word_range(command_line.spec_bytes(), a, b)
                    implies stdio_dispatch_result(
                command_line.spec_bytes(),
                a,
                b,
                *old(self),
                *self,
                r,
            ) by {
                text::lemma_first_word_unique(
                    command_line.spec_bytes(),
                    a,
                    b,
                    start as int,
                    end as int,
                );
            }
        }
        r
    }

    /// Execute a command line given as raw bytes.
    fn execute_bytes(&mut self, bytes: &[u8]) -> (r: StdioTerminalResult<()>)
        requires
            stdio_wf(*old(self)),
        ensures
            stdio_wf(*final(self)),
            final(self).history == old(self).history,
            final(self).history_count == old(self).history_count,
            final(self).prompt == old(self).prompt,
            final(self).prompt_len == old(self).prompt_len,
            final(self).state == old(self).state,
            forall|start: int, end: int|
                text::first_word_range(bytes@, start, end) ==> stdio_dispatch_result(
                    bytes@,
                    start,
                    end,
                    *old(self),
                    *final(self),
                    r,
                ),
    {
        let (start, end) = text::find_first_word(bytes);
        let r = self.dispatch(bytes, start, end);
        proof {
            assert forall|a: int, b: int|
                text::first_word_range(bytes@, a, b) implies stdio_dispatch_result(
                bytes@,
                a,
                b,
                *old(self),
                *self,
                r,
            ) by {
                text::lemma_first_word_unique(bytes@, a, b, start as int, end as int);
            }
        }
        r
    }

    /// Dispatch on the first word of the line.
    fn dispatch(&mut self, bytes: &[u8], start: usize, end: usize) -> (r: StdioTerminalResult<()>)
        requires
            stdio_wf(*old(self)),
            text::first_word_range(bytes@, start as int, end as int),
        ensures
            stdio_wf(*final(self)),
            final(self).history == old(self).history,
            final(self).history_count == old(self).history_count,
            final(self).prompt == old(self).prompt,
            final(self).prompt_len == old(self).prompt_len,
            final(self).state == old(self).state,
            stdio_dispatch_result(bytes@, start as int, end as int, *old(self), *final(self), r),
    {
        if start == end {
            return Ok(());
        }
        let w = &bytes[start..end];
        proof {
            assert(w@ =~= bytes@.subrange(start as int, end as int));
            broadcast use vstd::string::is_ascii_spec_bytes;

            reveal_strlit("help");
            reveal_strlit("ls");
            reveal_strlit("pwd");
            reveal_strlit("cd");
            reveal_strlit("cat");
            reveal_strlit("echo");
            reveal_strlit("clear");
            reveal_strlit("exit");
            reveal_strlit("version");
            reveal_strlit("info");
            reveal_strlit("history");
            reveal_strlit("whoami");
            reveal_strlit("date");
            reveal_strlit("uptime");
            assert("help".is_ascii() && "ls".is_ascii() && "pwd".is_ascii() && "cd".is_ascii());
            assert("cat".is_ascii() && "echo".is_ascii() && "clear".is_ascii());
            assert("exit".is_ascii() && "version".is_ascii() && "info".is_ascii());
            assert("history".is_ascii() && "whoami".is_ascii() && "date".is_ascii());
            assert("uptime".is_ascii());
            assert("exit".spec_bytes()[0] != "help".spec_bytes()[0]);
            assert("exit".spec_bytes()[1] != "echo".spec_bytes()[1]);
            assert("exit".spec_bytes()[0] != "info".spec_bytes()[0]);
            assert("exit".spec_bytes()[0] != "date".spec_bytes()[0]);
            assert("cat".spec_bytes()[0] != "pwd".spec_bytes()[0]);
        }
        if text::bytes_eq(w, "clear".as_bytes()) {
            self.execute_clear()
        } else if text::bytes_eq(w, "exit".as_bytes()) {
            self.execute_exit()
        } else if text::bytes_eq(w, "cat".as_bytes()) {
            if text::word_follows(bytes, end) {
                self.execute_cat(bytes, end)
            } else {
                self.print_error("Usage: cat <file>".as_bytes());
                Err(StdioTerminalError::InvalidInput)
            }
        } else if text::bytes_eq(w, "help".as_bytes()) {
            self.execute_help()
        } else if text::bytes_eq(w, "ls".as_bytes()) {
            self.execute_ls()
        } else if text::bytes_eq(w, "pwd".as_bytes()) {
            self.execute_pwd()
        } else if text::bytes_eq(w, "cd".as_bytes()) {
            self.execute_cd(bytes, end)
        } else if text::bytes_eq(w, "echo".as_bytes()) {
            self.execute_echo(bytes, end)
        } else if text::bytes_eq(w, "version".as_bytes()) {
            self.execute_version()
        } else if text::bytes_eq(w, "info".as_bytes()) {
            self.execute_info()
        } else if text::bytes_eq(w, "history".as_bytes()) {
            self.execute_history()
        } else if text::bytes_eq(w, "whoami".as_bytes()) {
            self.execute_whoami()
        } else if text::bytes_eq(w, "date".as_bytes()) {
            self.execute_date()
        } else if text::bytes_eq(w, "uptime".as_bytes()) {
            self.execute_uptime()
        } else {
            let unknown = text::compose("Command not found: ".as_bytes(), w, 128);
            self.print_error(&unknown);
            Err(StdioTerminalError::CommandNotFound)
        }
    }

    /// Print the command overview.
    fn execute_help(&mut self) -> (r: StdioTerminalResult<()>)
        ensures
            r is Ok,
            *final(self) == *old(self),
    {
        self.print_line("Available commands:");
        self.print_line("  help     - Show this help message");
        self.print_line("  ls       - List directory contents");
        self.print_line("  pwd      - Print working directory");
        self.print_line("  cd       - Change directory");
        self.print_line("  cat      - Display file contents");
        self.print_line("  echo     - Display text");
        self.print_line("  clear    - Clear screen");
        self.print_line("  exit     - Exit terminal");
        self.print_line("  version  - Show system version");
        self.print_line("  info     - Show system information");
        self.print_line("  history  - Show command history");
        self.print_line("  whoami   - Show current user");
        self.print_line("  date     - Show current date");
        self.print_line("  uptime   - Show system uptime");
        Ok(())
    }

    /// Print the fixed directory listing.
    fn execute_ls(&mut self) -> (r: StdioTerminalResult<()>)
        ensures
            r is Ok,
            *final(self) == *old(self),
    {
        self.print_line("Directory listing:");
        self.print_line("  .");
        self.print_line("  ..");
        self.print_line("  bin/");
        self.print_line("  etc/");
        self.print_line("  home/");
        self.print_line("  var/");
        self.print_line("  tmp/");
        Ok(())
    }

    /// Print the working directory.
    fn execute_pwd(&mut self) -> (r: StdioTerminalResult<()>)
        ensures
            r is Ok,
            *final(self) == *old(self),
    {
        self.print_line("/");
        Ok(())
    }

    /// Acknowledge a directory change.
    fn execute_cd(&mut self, bytes: &[u8], from: usize) -> (r: StdioTerminalResult<()>)
        requires
            from <= bytes@.len(),
        ensures
            r is Ok,
            *final(self) == *old(self),
    {
        if !text::word_follows(bytes, from) {
            self.print_line("/");
        } else {
            let line = text::compose("Changed directory to: ".as_bytes(), bytes, 64);
            self.print_bytes(&line);
        }
        Ok(())
    }

    /// Announce the file whose contents would be shown.
    fn execute_cat(&mut self, bytes: &[u8], from: usize) -> (r: StdioTerminalResult<()>)
        requires
            from <= bytes@.len(),
        ensures
            r is Ok,
            *final(self) == *old(self),
    {
        let line = text::compose("Contents of ".as_bytes(), bytes, 64);
        self.print_bytes(&line);
        self.print_line("  (File contents would be displayed here)");
        Ok(())
    }

    /// Echo the rest of the line.
    fn execute_echo(&mut self, bytes: &[u8], from: usize) -> (r: StdioTerminalResult<()>)
        requires
            from <= bytes@.len(),
        ensures
            r is Ok,
            *final(self) == *old(self),
    {
        let line = text::compose("".as_bytes(), bytes, 256);
        self.print_bytes(&line);
        Ok(())
    }

    /// Clear both buffers.
    fn execute_clear(&mut self) -> (r: StdioTerminalResult<()>)
        ensures
            r is Ok,
            buffers_cleared(*old(self), *final(self)),
    {
        self.clear_buffers();
        Ok(())
    }

    /// Report the end of the session.
    fn execute_exit(&mut self) -> (r: StdioTerminalResult<()>)
        ensures
            r == StdioTerminalResult::<()>::Err(StdioTerminalError::InputError),
            *final(self) == *old(self),
    {
        self.print_line("Goodbye!");
        Err(StdioTerminalError::InputError)
    }

    /// Print the version banner.
    fn execute_version(&mut self) -> (r: StdioTerminalResult<()>)
        ensures
            r is Ok,
            *final(self) == *old(self),
    {
        self.print_line("Retron OS v0.1.0");
        self.print_line("uT-Kernel v3.0");
        self.print_line("stdio Terminal v1.0");
        Ok(())
    }

    /// Print the system information banner.
    fn execute_info(&mut self) -> (r: StdioTerminalResult<()>)
        ensures
            r is Ok,
            *final(self) == *old(self),
    {
        self.print_line("System Information:");
        self.print_line("  OS: Retron OS v0.1.0");
        self.print_line("  Kernel: Rust-based");
        self.print_line("  Memory: 512MB");
        self.print_line("  Filesystem: OK");
        self.print_line("  Terminal: stdio");
        Ok(())
    }

    /// Compose the numbered history listing.
    fn execute_history(&mut self) -> (r: StdioTerminalResult<()>)
        requires
            stdio_wf(*old(self)),
        ensures
            r is Ok,
            *final(self) == *old(self),
    {
        self.print_line("Command history:");
        let count = self.history_count as usize;
        let mut i: usize = 0;
        while i < count
            invariant
                *self == *old(self),
                stdio_wf(*self),
                count == self.history_count,
                0 <= i <= count,
            decreases count - i,
        {
            let number = i + 1;
            let mut prefix: Vec<u8> = Vec::new();
            prefix.push(32);
            prefix.push(32);
            if number < 10 {
                prefix.push(48 + number as u8);
            } else {
                prefix.push(49);
                prefix.push(48 + (number - 10) as u8);
            }
            prefix.push(58);
            prefix.push(32);
            let line = text::compose(&prefix, &self.history[i], 128);
            self.print_bytes(&line);
            i = i + 1;
        }
        Ok(())
    }

    /// Print the current user.
    fn execute_whoami(&mut self) -> (r: StdioTerminalResult<()>)
        ensures
            r is Ok,
            *final(self) == *old(self),
    {
        self.print_line("root");
        Ok(())
    }

    /// Print the fixed date.
    fn execute_date(&mut self) -> (r: StdioTerminalResult<()>)
        ensures
            r is Ok,
            *final(self) == *old(self),
    {
        self.print_line("2024-01-01 00:00:00 UTC");
        Ok(())
    }

    /// Print the fixed uptime.
    fn execute_uptime(&mut self) -> (r: StdioTerminalResult<()>)
        ensures
            r is Ok,
            *final(self) == *old(self),
    {
        self.print_line("System uptime: 0 days, 0 hours, 0 minutes");
        Ok(())
    }
}

/// Create a stdio terminal, initialise it, and hand it to the caller.
pub fn init_stdio_terminal() -> (r: StdioTerminalResult<StdioTerminal>)
    ensures
        r is Ok,
        r matches Ok(t) ==> stdio_wf(t) && t.state == StdioTerminalState::Ready && t.input_len == 0,
{
    let mut terminal = StdioTerminal::new();
    match terminal.init() {
        Ok(()) => Ok(terminal),
        Err(e) => Err(e),
    }
}

/// Run the demonstration command sequence on a fresh stdio terminal.
pub fn run_stdio_terminal() -> (r: StdioTerminalResult<()>)
    ensures
        r is Ok,
{
    let terminal = init_stdio_terminal();
    let mut terminal = match terminal {
        Ok(terminal) => terminal,
        Err(_) => {
            return Err(StdioTerminalError::SystemError);
        },
    };
    let _ = terminal.execute_command("help");
    let _ = terminal.execute_command("version");
    let _ = terminal.execute_command("info");
    let _ = terminal.execute_command("ls");
    let _ = terminal.execute_command("pwd");
    let _ = terminal.execute_command("echo Hello, stdio Terminal!");
    let _ = terminal.execute_command("whoami");
    let _ = terminal.execute_command("date");
    let _ = terminal.execute_command("uptime");
    let _ = terminal.execute_command("history");
    Ok(())
}

/// Run the shell demonstration sequence on a fresh stdio terminal.
pub fn run_stdio_shell() -> (r: StdioTerminalResult<()>)
    ensures
        r is Ok,
{
    let terminal = init_stdio_terminal();
    let mut terminal = match terminal {
        Ok(terminal) => terminal,
        Err(_) => {
            return Err(StdioTerminalError::SystemError);
        },
    };
    let _ = terminal.execute_command("echo Starting stdio shell...");
    let _ = terminal.execute_command("info");
    let _ = terminal.execute_command("ls");
    Ok(())
}

} // verus!
