//! Tests for the configuration manager and the `init.config` parser.

use retron::kernel::config::{init_config, run_default_program, ConfigError, ConfigManager, ProgramType};
use retron::kernel::init_config::{
    execute_startup_sequence, init_config_parser, load_init_config, load_init_config_from_filesystem,
    parse_u8, InitConfigError, InitConfigParser,
};

#[test]
fn the_default_configuration_validates() {
    let manager = init_config().unwrap();
    assert_eq!(manager.program_count, 5);
    assert_eq!(manager.config.max_programs, 16);
    assert!(manager.config.auto_start_terminal);
}

#[test]
fn the_default_program_is_the_terminal() {
    let manager = ConfigManager::new();
    let default = manager.get_default_program().unwrap();
    assert_eq!(&default.name[..8], b"terminal");
    assert!(default.enabled);
    assert_eq!(default.priority, 100);
}

#[test]
fn programs_are_found_by_name() {
    let manager = ConfigManager::new();
    let shell = manager.find_program("shell").unwrap();
    assert_eq!(shell.priority, 90);
    assert_eq!(shell.program_type, ProgramType::Shell);
    assert!(!shell.enabled);
    assert!(manager.find_program("nonesuch").is_none());
}

#[test]
fn registration_checks_lengths_and_capacity() {
    let mut manager = ConfigManager::new();
    let long = "x".repeat(32);
    assert_eq!(
        manager.register_program(&long, ProgramType::Service, false, 1, "d"),
        Err(ConfigError::InvalidConfig)
    );
    for i in 0..11 {
        let name = format!("p{}", i);
        assert!(manager.register_program(&name, ProgramType::Daemon, false, 1, "d").is_ok());
    }
    assert_eq!(manager.program_count, 16);
    assert_eq!(
        manager.register_program("overflow", ProgramType::Daemon, false, 1, "d"),
        Err(ConfigError::SystemError)
    );
}

#[test]
fn enabled_programs_come_back_compacted() {
    let manager = ConfigManager::new();
    let enabled = manager.get_enabled_programs();
    assert!(enabled[0].is_some());
    assert_eq!(&enabled[0].unwrap().name[..8], b"terminal");
    assert!(enabled[1].is_none());
}

#[test]
fn the_default_program_launches() {
    let manager = ConfigManager::new();
    assert!(run_default_program(&manager).is_ok());
}

#[test]
fn the_parser_starts_with_the_built_in_defaults() {
    let parser = init_config_parser().unwrap();
    assert_eq!(parser.program_count, 5);
    assert_eq!(parser.startup_count, 1);
    assert_eq!(parser.env_count, 4);
    assert_eq!(&parser.system_config.default_shell[..8], b"terminal");
    assert_eq!(&parser.log_config.log_level[..4], b"info");
}

#[test]
fn a_small_file_parses_into_the_tables() {
    let mut parser = InitConfigParser::new();
    let text = "# boot configuration\n[system]\ndefault_shell = sh\nauto_start = true\ndebug_mode = true\n\n[programs]\neditor = true, 7, application, writes text\n\n[environment]\nTERM = retron\n";
    assert!(load_init_config(&mut parser, text).is_ok());
    assert_eq!(&parser.system_config.default_shell[..2], b"sh");
    assert_eq!(parser.system_config.default_shell_len, 2);
    assert!(parser.system_config.auto_start);
    assert!(parser.system_config.debug_mode);
    assert_eq!(parser.program_count, 1);
    let program = parser.programs[0].unwrap();
    assert_eq!(&program.name[..6], b"editor");
    assert!(program.enabled);
    assert_eq!(program.priority, 7);
    assert_eq!(&program.program_type[..11], b"application");
    assert_eq!(parser.env_count, 1);
    let var = parser.environment_vars[0].unwrap();
    assert_eq!(&var.name[..4], b"TERM");
    assert_eq!(&var.value[..6], b"retron");
}

#[test]
fn a_key_before_any_section_is_an_invalid_section() {
    let mut parser = InitConfigParser::new();
    assert_eq!(
        parser.parse_config("stray = value\n"),
        Err(InitConfigError::InvalidSection)
    );
}

#[test]
fn an_unknown_key_is_rejected() {
    let mut parser = InitConfigParser::new();
    assert_eq!(
        parser.parse_config("[system]\nmystery = 1\n"),
        Err(InitConfigError::InvalidKey)
    );
    assert_eq!(
        parser.parse_config("[logging]\nmystery = 1\n"),
        Err(InitConfigError::InvalidKey)
    );
}

#[test]
fn a_fourth_comma_ends_the_description() {
    let mut parser = InitConfigParser::new();
    let text = "[programs]\np = true, 9, shell, first, second\n";
    assert!(load_init_config(&mut parser, text).is_ok());
    let program = parser.programs[0].unwrap();
    assert_eq!(&program.description[..5], b"first");
    assert_eq!(program.description_len, 5);
}

#[test]
fn a_bad_priority_is_an_invalid_value() {
    let mut parser = InitConfigParser::new();
    assert_eq!(
        parser.parse_config("[programs]\np = true, loud, shell, d\n"),
        Err(InitConfigError::InvalidValue)
    );
    assert_eq!(
        parser.parse_config("[programs]\np = true, 300, shell, d\n"),
        Err(InitConfigError::InvalidValue)
    );
}

#[test]
fn a_short_program_line_is_a_parse_error() {
    let mut parser = InitConfigParser::new();
    assert_eq!(
        parser.parse_config("[programs]\np = true, 1\n"),
        Err(InitConfigError::ParseError)
    );
}

#[test]
fn numbers_parse_like_bytes() {
    assert_eq!(parse_u8(b"0"), Some(0));
    assert_eq!(parse_u8(b"100"), Some(100));
    assert_eq!(parse_u8(b"255"), Some(255));
    assert_eq!(parse_u8(b"+42"), Some(42));
    assert_eq!(parse_u8(b"256"), None);
    assert_eq!(parse_u8(b""), None);
    assert_eq!(parse_u8(b"+"), None);
    assert_eq!(parse_u8(b"4x"), None);
}

#[test]
fn the_built_in_file_parses() {
    let mut parser = init_config_parser().unwrap();
    assert!(load_init_config_from_filesystem(&mut parser).is_ok());
    assert_eq!(parser.program_count, 10);
    assert_eq!(parser.startup_count, 2);
    assert_eq!(parser.env_count, 8);
}

#[test]
fn the_startup_sequence_requires_exactly_spelled_names() {
    // An entry launches only when its full stored array spells the
    // program's name; the zero-padded default entry does not.
    let parser = init_config_parser().unwrap();
    assert_eq!(execute_startup_sequence(&parser), Err(InitConfigError::InvalidValue));
    let empty = InitConfigParser::new();
    assert!(execute_startup_sequence(&empty).is_ok());
}
