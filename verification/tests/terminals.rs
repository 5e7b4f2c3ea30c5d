//! Tests for the two terminals.

use retron::kernel::stdio_terminal::{
    init_stdio_terminal, run_stdio_shell, run_stdio_terminal, StdioTerminal, StdioTerminalError,
};
use retron::kernel::terminal::{
    init_terminal, terminal_demo, CommandType, Terminal, TerminalError, TerminalState,
};
use retron::kernel::terminal_demo::{
    terminal_detailed_demo, terminal_interactive_demo, terminal_performance_demo,
};

#[test]
fn a_fresh_terminal_carries_the_builtins() {
    let t = Terminal::new();
    assert_eq!(t.command_count, 10);
    assert_eq!(t.state, TerminalState::Ready);
    assert_eq!(&t.config.prompt[..8], b"retron$ ");
    let help = t.find_command("help").unwrap();
    assert_eq!(&help.description[..23], b"Show available commands");
    assert!(t.find_command("nonesuch").is_none());
}

#[test]
fn known_commands_succeed_and_unknown_ones_fail() {
    let mut t = Terminal::new();
    assert!(t.execute_command("help").is_ok());
    assert!(t.execute_command("  version  ").is_ok());
    assert!(t.execute_command("").is_ok());
    assert!(t.execute_command("   ").is_ok());
    assert_eq!(t.execute_command("frobnicate"), Err(TerminalError::CommandNotFound));
}

#[test]
fn cat_demands_an_argument() {
    let mut t = Terminal::new();
    assert_eq!(t.execute_command("cat"), Err(TerminalError::InvalidArgument));
    assert!(t.execute_command("cat /etc/retron.conf").is_ok());
}

#[test]
fn registration_fills_the_table_and_checks_lengths() {
    let mut t = Terminal::new();
    assert!(t.register_command("extra", CommandType::External, "An extra command").is_ok());
    assert_eq!(t.command_count, 11);
    let long = "x".repeat(32);
    assert_eq!(
        t.register_command(&long, CommandType::External, "too long"),
        Err(TerminalError::InvalidCommand)
    );
    for i in 0..21 {
        let name = format!("c{}", i);
        assert!(t.register_command(&name, CommandType::Alias, "filler").is_ok());
    }
    assert_eq!(t.command_count, 32);
    assert_eq!(
        t.register_command("one_more", CommandType::Alias, "no room"),
        Err(TerminalError::BufferFull)
    );
}

#[test]
fn typed_input_builds_a_line_and_the_history_records_it() {
    let mut t = init_terminal().unwrap();
    for &ch in b"help" {
        t.process_input(ch).unwrap();
    }
    assert_eq!(t.input_len, 4);
    assert_eq!(t.cursor_pos, 4);
    t.process_input(b'\n').unwrap();
    assert_eq!(t.input_len, 0);
    assert_eq!(t.history_count, 1);
    assert_eq!(&t.history[0][..4], b"help");
}

#[test]
fn backspace_shortens_the_line() {
    let mut t = Terminal::new();
    t.process_input(b'l').unwrap();
    t.process_input(b's').unwrap();
    t.process_input(0x08).unwrap();
    assert_eq!(t.input_len, 1);
    // Backspace on an empty line changes nothing.
    let mut fresh = Terminal::new();
    fresh.process_input(0x7F).unwrap();
    assert_eq!(fresh.input_len, 0);
}

#[test]
fn the_terminal_demonstrations_run() {
    terminal_demo();
    terminal_detailed_demo();
    terminal_performance_demo();
    terminal_interactive_demo();
}

#[test]
fn the_stdio_terminal_dispatches_its_commands() {
    let mut t = init_stdio_terminal().unwrap();
    assert!(t.execute_command("help").is_ok());
    assert!(t.execute_command("whoami").is_ok());
    assert!(t.execute_command("date").is_ok());
    assert!(t.execute_command("uptime").is_ok());
    assert!(t.execute_command("history").is_ok());
    assert_eq!(t.execute_command("exit"), Err(StdioTerminalError::InputError));
    assert_eq!(t.execute_command("cat"), Err(StdioTerminalError::InvalidInput));
    assert_eq!(t.execute_command("nonesuch"), Err(StdioTerminalError::CommandNotFound));
}

#[test]
fn clear_resets_both_buffers() {
    let mut t = StdioTerminal::new();
    t.process_input(b'x').unwrap();
    t.output_len = 7;
    assert!(t.execute_command("clear").is_ok());
    assert_eq!(t.input_len, 0);
    assert_eq!(t.output_len, 0);
    assert!(t.input_buffer.iter().all(|&b| b == 0));
    assert!(t.output_buffer.iter().all(|&b| b == 0));
}

#[test]
fn control_characters_interrupt_and_close_the_session() {
    let mut t = StdioTerminal::new();
    t.process_input(b'l').unwrap();
    t.process_input(0x03).unwrap();
    assert_eq!(t.input_len, 0);
    assert_eq!(t.process_input(0x04), Err(StdioTerminalError::InputError));
}

#[test]
fn stdio_history_keeps_typed_lines() {
    let mut t = StdioTerminal::new();
    for &ch in b"version" {
        t.process_input(ch).unwrap();
    }
    t.process_input(b'\r').unwrap();
    assert_eq!(t.history_count, 1);
    assert_eq!(&t.history[0][..7], b"version");
}

#[test]
fn the_scripted_sessions_succeed() {
    assert!(run_stdio_terminal().is_ok());
    assert!(run_stdio_shell().is_ok());
}
