//! Terminal demonstrations: scripted command sequences run against a
//! fresh terminal.

use crate::kernel::terminal::{init_terminal, CommandType, Terminal};
use vstd::prelude::*;

verus! {

/// Run the basic, advanced and feature demonstrations.
pub fn terminal_demo() {
    let terminal = init_terminal();
    let mut terminal = match terminal {
        Ok(terminal) => terminal,
        Err(_) => {
            return ;
        },
    };
    demo_basic_commands(&mut terminal);
    demo_advanced_commands(&mut terminal);
    demo_terminal_features(&mut terminal);
}

/// The informational commands.
fn demo_basic_commands(terminal: &mut Terminal)
    requires
        crate::kernel::terminal::term_wf(*old(terminal)),
    ensures
        crate::kernel::terminal::term_wf(*final(terminal)),
{
    let _ = terminal.execute_command("help");
    let _ = terminal.execute_command("version");
    let _ = terminal.execute_command("info");
}

/// The navigation commands.
fn demo_advanced_commands(terminal: &mut Terminal)
    requires
        crate::kernel::terminal::term_wf(*old(terminal)),
    ensures
        crate::kernel::terminal::term_wf(*final(terminal)),
{
    let _ = terminal.execute_command("ls");
    let _ = terminal.execute_command("pwd");
    let _ = terminal.execute_command("cd /home");
    let _ = terminal.execute_command("echo Hello, Retron OS!");
    let _ = terminal.execute_command("cat /etc/retron.conf");
}

/// Clearing and a longer scripted sequence.
fn demo_terminal_features(terminal: &mut Terminal)
    requires
        crate::kernel::terminal::term_wf(*old(terminal)),
    ensures
        crate::kernel::terminal::term_wf(*final(terminal)),
{
    let _ = terminal.execute_command("clear");
    let _ = terminal.execute_command("help");
    let _ = terminal.execute_command("version");
    let _ = terminal.execute_command("info");
    let _ = terminal.execute_command("ls");
    let _ = terminal.execute_command("pwd");
    let _ = terminal.execute_command("echo Terminal Demo");
    let _ = terminal.execute_command("clear");
}

/// Run the detailed demonstration: command sequences, custom commands and
/// character input.
pub fn terminal_detailed_demo() {
    let terminal = init_terminal();
    let mut terminal = match terminal {
        Ok(terminal) => terminal,
        Err(_) => {
            return ;
        },
    };
    execute_complex_command_sequence(&mut terminal);
    register_and_execute_custom_commands(&mut terminal);
    demonstrate_terminal_features(&mut terminal);
}

/// Run four short command sequences.
fn execute_complex_command_sequence(terminal: &mut Terminal)
    requires
        crate::kernel::terminal::term_wf(*old(terminal)),
    ensures
        crate::kernel::terminal::term_wf(*final(terminal)),
{
    let _ = terminal.execute_command("help");
    let _ = terminal.execute_command("version");
    let _ = terminal.execute_command("info");
    let _ = terminal.execute_command("ls");
    let _ = terminal.execute_command("pwd");
    let _ = terminal.execute_command("cd /home");
    let _ = terminal.execute_command("echo System Info");
    let _ = terminal.execute_command("info");
    let _ = terminal.execute_command("version");
    let _ = terminal.execute_command("clear");
    let _ = terminal.execute_command("help");
    let _ = terminal.execute_command("ls");
}

/// Register three custom commands and run them; they are not built in,
/// so running them reports an unknown command.
fn register_and_execute_custom_commands(terminal: &mut Terminal)
    requires
        crate::kernel::terminal::term_wf(*old(terminal)),
    ensures
        crate::kernel::terminal::term_wf(*final(terminal)),
{
    let _ = terminal.register_command("demo", CommandType::Builtin, "Demo command");
    let _ = terminal.register_command("test", CommandType::Builtin, "Test command");
    let _ = terminal.register_command("status", CommandType::Builtin, "Show system status");
    let _ = terminal.execute_command("demo");
    let _ = terminal.execute_command("test");
    let _ = terminal.execute_command("status");
}

/// Feed characters through the input path, then run a history-filling
/// sequence.
fn demonstrate_terminal_features(terminal: &mut Terminal)
    requires
        crate::kernel::terminal::term_wf(*old(terminal)),
    ensures
        crate::kernel::terminal::term_wf(*final(terminal)),
{
    let _ = terminal.process_input(104);
    let _ = terminal.process_input(101);
    let _ = terminal.process_input(108);
    let _ = terminal.process_input(108);
    let _ = terminal.process_input(111);
    let _ = terminal.process_input(10);
    let _ = terminal.execute_command("help");
    let _ = terminal.execute_command("version");
    let _ = terminal.execute_command("info");
    let _ = terminal.execute_command("ls");
    let _ = terminal.execute_command("pwd");
    let _ = terminal.execute_command("echo History Demo");
}

/// Run one thousand commands, cycling through four of them.
pub fn terminal_performance_demo() {
    let terminal = init_terminal();
    let mut terminal = match terminal {
        Ok(terminal) => terminal,
        Err(_) => {
            return ;
        },
    };
    let mut i: usize = 0;
    while i < 1000
        invariant
            crate::kernel::terminal::term_wf(terminal),
            0 <= i <= 1000,
        decreases 1000 - i,
    {
        let _ = match i % 4 {
            0 => terminal.execute_command("help"),
            1 => terminal.execute_command("version"),
            2 => terminal.execute_command("info"),
            _ => terminal.execute_command("ls"),
        };
        i = i + 1;
    }
}

/// Run the interactive command script.
pub fn terminal_interactive_demo() {
    let terminal = init_terminal();
    let mut terminal = match terminal {
        Ok(terminal) => terminal,
        Err(_) => {
            return ;
        },
    };
    let _ = terminal.execute_command("help");
    let _ = terminal.execute_command("version");
    let _ = terminal.execute_command("info");
    let _ = terminal.execute_command("ls");
    let _ = terminal.execute_command("pwd");
    let _ = terminal.execute_command("cd /home");
    let _ = terminal.execute_command("echo Interactive Demo");
    let _ = terminal.execute_command("cat /etc/retron.conf");
    let _ = terminal.execute_command("clear");
    let _ = terminal.execute_command("exit");
}

} // verus!
