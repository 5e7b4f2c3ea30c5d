//! The boot configuration: a table of registered programs, the system
//! settings, and the choice of the program that runs after boot.

use crate::kernel::stdio_terminal;
use crate::kernel::text;
use vstd::prelude::*;
use vstd::string::StringSliceAdditionalSpecFns;

verus! {

/// Errors of the configuration system.
#[derive(Debug, Clone, Copy, PartialEq, Eq, Structural)]
pub enum ConfigError {
    InvalidConfig,
    ProgramNotFound,
    ParseError,
    SystemError,
}

/// Result type of the configuration system.
pub type ConfigResult<T> = Result<T, ConfigError>;

/// Kind of a registered program.
#[derive(Debug, Clone, Copy, PartialEq, Eq, Structural)]
pub enum ProgramType {
    Terminal,
    Shell,
    Application,
    Service,
    Daemon,
}

/// One registered program; name and description are stored zero-padded.
#[derive(Debug, Clone, Copy, PartialEq)]
pub struct Program {
    pub name: [u8; 32],
    pub name_len: u8,
    pub program_type: ProgramType,
    pub enabled: bool,
    pub priority: u8,
    pub description: [u8; 64],
    pub description_len: u8,
}

/// The system settings.
#[derive(Debug, Clone, Copy, PartialEq)]
pub struct SystemConfig {
    pub default_program: [u8; 32],
    pub default_program_len: u8,
    pub auto_start_terminal: bool,
    pub auto_start_shell: bool,
    pub debug_mode: bool,
    pub verbose_output: bool,
    pub max_programs: u8,
}

/// The configuration manager: the settings and the program table.
pub struct ConfigManager {
    pub config: SystemConfig,
    pub programs: [Option<Program>; 16],
    pub program_count: u8,
}

/// The manager's invariant: the table is filled from the front and every
/// stored name, description and the default-program name fit their arrays.
pub open spec fn cm_wf(m: ConfigManager) -> bool {
    &&& m.program_count <= 16
    &&& (forall|i: int| 0 <= i < 16 ==> (#[trigger] m.programs@[i] is Some <==> i < m.program_count))
    &&& (forall|i: int|
        0 <= i < m.program_count ==> (#[trigger] m.programs@[i])->0.name_len <= 31
            && m.programs@[i]->0.description_len <= 63)
    &&& m.config.default_program_len <= 32
}

/// A program slot holds a program of the given name.
pub open spec fn program_named(p: Option<Program>, name: Seq<u8>) -> bool {
    p matches Some(program) && program.name_len <= 31 && text::stored(
        program.name@,
        program.name_len as int,
    ) == name
}

/// `p` is the first program of the table that carries the given name,
/// standing at slot `i`.
pub open spec fn first_program_match(m: ConfigManager, name: Seq<u8>, i: int, p: Program) -> bool {
    &&& 0 <= i < m.program_count
    &&& program_named(m.programs@[i], name)
    &&& (forall|j: int| 0 <= j < i ==> !program_named(#[trigger] m.programs@[j], name))
    &&& p == m.programs@[i]->0
}

/// The stored name of the configured default program.
pub open spec fn default_name(m: ConfigManager) -> Seq<u8> {
    text::stored(m.config.default_program@, m.config.default_program_len as int)
}

/// The enabled programs among the first `n` slots, in table order.
pub open spec fn enabled_programs_of(s: Seq<Option<Program>>, n: int) -> Seq<Program>
    decreases n,
{
    if n <= 0 {
        Seq::empty()
    } else {
        let prefix = enabled_programs_of(s, n - 1);
        match s[n - 1] {
            Some(p) => if p.enabled {
                prefix.push(p)
            } else {
                prefix
            },
            None => prefix,
        }
    }
}

/// No more programs are enabled than slots were looked at.
proof fn lemma_enabled_len(s: Seq<Option<Program>>, n: int)
    requires
        n >= 0,
    ensures
        enabled_programs_of(s, n).len() <= n,
    decreases n,
{
    if n > 0 {
        lemma_enabled_len(s, n - 1);
    }
}

impl ConfigManager {
    /// Create a manager with the default settings and the five built-in
    /// programs registered; `terminal` is the default program.
    pub fn new() -> (r: Self)
        ensures
            cm_wf(r),
            r.program_count == 5,
            default_name(r) == "terminal".spec_bytes(),
            program_named(r.programs@[0], "terminal".spec_bytes()),
            r.programs@[0]->0.priority == 100,
            program_named(r.programs@[1], "shell".spec_bytes()),
            r.programs@[1]->0.priority == 90,
            !r.programs@[1]->0.enabled,
            program_named(r.programs@[2], "sysinfo".spec_bytes()),
            r.programs@[2]->0.priority == 80,
            !r.programs@[2]->0.enabled,
            program_named(r.programs@[3], "filemanager".spec_bytes()),
            r.programs@[3]->0.priority == 70,
            !r.programs@[3]->0.enabled,
            program_named(r.programs@[4], "test".spec_bytes()),
            r.programs@[4]->0.priority == 60,
            !r.programs@[4]->0.enabled,
            r.programs@[0]->0.enabled,
            r.config.max_programs == 16,
            r.config.auto_start_terminal,
            !r.config.auto_start_shell,
            !r.config.debug_mode,
            r.config.verbose_output,
    {
        proof {
            reveal_strlit("terminal");
            broadcast use vstd::string::is_ascii_spec_bytes;

            assert("terminal".is_ascii());
        }
        let mut manager = Self {
            config: SystemConfig {
                default_program: text::copy_to_array::<32>("terminal".as_bytes()),
                default_program_len: 8,
                auto_start_terminal: true,
                auto_start_shell: false,
                debug_mode: false,
                verbose_output: true,
                max_programs: 16,
            },
            programs: [None; 16],
            program_count: 0,
        };
        proof {
            assert(default_name(manager) =~= "terminal".spec_bytes());
        }
        manager.register_default_programs();
        manager
    }

    /// Register the five built-in programs.
    fn register_default_programs(&mut self)
        requires
            cm_wf(*old(self)),
            old(self).program_count == 0,
        ensures
            cm_wf(*final(self)),
            final(self).program_count == 5,
            final(self).config == old(self).config,
            program_named(final(self).programs@[0], "terminal".spec_bytes()),
            final(self).programs@[0]->0.priority == 100,
            final(self).programs@[0]->0.enabled == true,
            program_named(final(self).programs@[1], "shell".spec_bytes()),
            final(self).programs@[1]->0.priority == 90,
            final(self).programs@[1]->0.enabled == false,
            program_named(final(self).programs@[2], "sysinfo".spec_bytes()),
            final(self).programs@[2]->0.priority == 80,
            final(self).programs@[2]->0.enabled == false,
            program_named(final(self).programs@[3], "filemanager".spec_bytes()),
            final(self).programs@[3]->0.priority == 70,
            final(self).programs@[3]->0.enabled == false,
            program_named(final(self).programs@[4], "test".spec_bytes()),
            final(self).programs@[4]->0.priority == 60,
            final(self).programs@[4]->0.enabled == false,
    {
        proof {
            broadcast use vstd::string::is_ascii_spec_bytes;

            reveal_strlit("terminal");
            reveal_strlit("Interactive terminal");
            reveal_strlit("shell");
            reveal_strlit("Command shell");
            reveal_strlit("sysinfo");
            reveal_strlit("System information");
            reveal_strlit("filemanager");
            reveal_strlit("File manager");
            reveal_strlit("test");
            reveal_strlit("System test");
            assert("terminal".is_ascii() && "Interactive terminal".is_ascii());
            assert("shell".is_ascii() && "Command shell".is_ascii());
            assert("sysinfo".is_ascii() && "System information".is_ascii());
            assert("filemanager".is_ascii() && "File manager".is_ascii());
            assert("test".is_ascii() && "System test".is_ascii());
        }
        let _ = self.register_program(
            "terminal",
            ProgramType::Terminal,
            true,
            100,
            "Interactive terminal",
        );
        let _ = self.register_program("shell", ProgramType::Shell, false, 90, "Command shell");
        let _ = self.register_program(
            "sysinfo",
            ProgramType::Application,
            false,
            80,
            "System information",
        );
        let _ = self.register_program(
            "filemanager",
            ProgramType::Application,
            false,
            70,
            "File manager",
        );
        let _ = self.register_program("test", ProgramType::Application, false, 60, "System test");
        proof {
            assert(text::stored(self.programs@[0]->0.name@, self.programs@[0]->0.name_len as int)
                =~= "terminal".spec_bytes());
            assert(text::stored(self.programs@[1]->0.name@, self.programs@[1]->0.name_len as int)
                =~= "shell".spec_bytes());
            assert(text::stored(self.programs@[2]->0.name@, self.programs@[2]->0.name_len as int)
                =~= "sysinfo".spec_bytes());
            assert(text::stored(self.programs@[3]->0.name@, self.programs@[3]->0.name_len as int)
                =~= "filemanager".spec_bytes());
            assert(text::stored(self.programs@[4]->0.name@, self.programs@[4]->0.name_len as int)
                =~= "test".spec_bytes());
        }
    }

    /// Register a program.  Success is owed exactly when the table has
    /// room, the name fits 31 bytes and the description 63.
    pub fn register_program(
        &mut self,
        name: &str,
        program_type: ProgramType,
        enabled: bool,
        priority: u8,
        description: &str,
    ) -> (r: ConfigResult<()>)
        requires
            cm_wf(*old(self)),
        ensures
            cm_wf(*final(self)),
            r is Ok <==> old(self).program_count < 16 && name.spec_bytes().len() <= 31
                && description.spec_bytes().len() <= 63,
            r is Ok ==> {
                &&& final(self).programs@ =~= old(self).programs@.update(
                    old(self).program_count as int,
                    Some(final(self).programs@[old(self).program_count as int]->0),
                )
                &&& final(self).programs@[old(self).program_count as int] is Some
                &&& {
                    let p = final(self).programs@[old(self).program_count as int]->0;
                    &&& text::padded(name.spec_bytes(), p.name@)
                    &&& p.name_len == name.spec_bytes().len()
                    &&& p.program_type == program_type
                    &&& p.enabled == enabled
                    &&& p.priority == priority
                    &&& text::padded(description.spec_bytes(), p.description@)
                    &&& p.description_len == description.spec_bytes().len()
                }
                &&& final(self).program_count == old(self).program_count + 1
                &&& final(self).config == old(self).config
            },
            r is Err ==> *final(self) == *old(self),
            old(self).program_count >= 16 ==> r == ConfigResult::<()>::Err(
                ConfigError::SystemError,
            ),
            old(self).program_count < 16 && (name.spec_bytes().len() > 31
                || description.spec_bytes().len() > 63) ==> r == ConfigResult::<()>::Err(
                ConfigError::InvalidConfig,
            ),
    {
        if self.program_count >= 16 {
            return Err(ConfigError::SystemError);
        }
        let name_bytes = name.as_bytes();
        if name_bytes.len() > 31 {
            return Err(ConfigError::InvalidConfig);
        }
        let desc_bytes = description.as_bytes();
        if desc_bytes.len() > 63 {
            return Err(ConfigError::InvalidConfig);
        }
        let program = Program {
            name: text::copy_to_array::<32>(name_bytes),
            name_len: name_bytes.len() as u8,
            program_type,
            enabled,
            priority,
            description: text::copy_to_array::<64>(desc_bytes),
            description_len: desc_bytes.len() as u8,
        };
        let idx = self.program_count as usize;
        self.programs[idx] = Some(program);
        self.program_count = self.program_count + 1;
        Ok(())
    }

    /// Find a registered program by name; the first match wins.
    pub fn find_program(&self, name: &str) -> (r: Option<&Program>)
        requires
            cm_wf(*self),
        ensures
            r is Some <==> exists|i: int|
                0 <= i < self.program_count && program_named(
                    #[trigger] self.programs@[i],
                    name.spec_bytes(),
                ),
            r matches Some(p) ==> exists|i: int| first_program_match(*self, name.spec_bytes(), i, *p),
    {
        let r = self.find_program_bytes(name.as_bytes());
        r
    }

    /// Find a registered program by its name's bytes.
    fn find_program_bytes(&self, name_bytes: &[u8]) -> (r: Option<&Program>)
        requires
            cm_wf(*self),
        ensures
            r is Some <==> exists|i: int|
                0 <= i < self.program_count && program_named(#[trigger] self.programs@[i], name_bytes@),
            r matches Some(p) ==> exists|i: int| first_program_match(*self, name_bytes@, i, *p),
    {
        let count = self.program_count as usize;
        let mut i: usize = 0;
        while i < count
            invariant
                cm_wf(*self),
                count == self.program_count,
                0 <= i <= count,
                forall|j: int|
                    0 <= j < i ==> !program_named(#[trigger] self.programs@[j], name_bytes@),
            decreases count - i,
        {
            match &self.programs[i] {
                Some(program) => {
                    proof {
                        assert(self.programs@[i as int] is Some);
                        assert(*program == self.programs@[i as int]->0);
                    }
                    if text::prefix_eq(&program.name, program.name_len as usize, name_bytes) {
                        proof {
                            assert(program_named(self.programs@[i as int], name_bytes@));
                            assert(first_program_match(*self, name_bytes@, i as int, *program));
                        }
                        return Some(program);
                    }
                },
                None => {},
            }
            i = i + 1;
        }
        None
    }

    /// The enabled programs, in table order, padded with `None`.
    pub fn get_enabled_programs(&self) -> (r: [Option<&Program>; 16])
        requires
            cm_wf(*self),
        ensures
            enabled_programs_of(self.programs@, self.program_count as int).len() <= 16,
            forall|k: int|
                0 <= k < enabled_programs_of(self.programs@, self.program_count as int).len()
                    ==> ((#[trigger] r@[k]) matches Some(p) && *p == enabled_programs_of(
                    self.programs@,
                    self.program_count as int,
                )[k]),
            forall|k: int|
                enabled_programs_of(self.programs@, self.program_count as int).len() <= k < 16
                    ==> r@[k] is None,
    {
        let ghost all = enabled_programs_of(self.programs@, self.program_count as int);
        let mut enabled: [Option<&Program>; 16] = [None; 16];
        let count = self.program_count as usize;
        let mut taken: usize = 0;
        let mut i: usize = 0;
        while i < count
            invariant
                cm_wf(*self),
                count == self.program_count,
                all == enabled_programs_of(self.programs@, count as int),
                0 <= i <= count,
                taken == enabled_programs_of(self.programs@, i as int).len(),
                taken <= i,
                enabled@.len() == 16,
                forall|k: int|
                    0 <= k < taken ==> ((#[trigger] enabled@[k]) matches Some(p) && *p
                        == enabled_programs_of(self.programs@, i as int)[k]),
                forall|k: int| taken <= k < 16 ==> enabled@[k] is None,
            decreases count - i,
        {
            proof {
                lemma_enabled_len(self.programs@, i as int);
            }
            match &self.programs[i] {
                Some(program) => {
                    proof {
                        assert(self.programs@[i as int] is Some);
                        assert(*program == self.programs@[i as int]->0);
                    }
                    if program.enabled && taken < 16 {
                        enabled[taken] = Some(program);
                        taken = taken + 1;
                    }
                },
                None => {},
            }
            i = i + 1;
        }
        proof {
            lemma_enabled_len(self.programs@, count as int);
        }
        enabled
    }

    /// The program configured as the default, if it is registered.
    pub fn get_default_program(&self) -> (r: Option<&Program>)
        requires
            cm_wf(*self),
        ensures
            r is Some <==> exists|i: int|
                0 <= i < self.program_count && program_named(
                    #[trigger] self.programs@[i],
                    default_name(*self),
                ),
            r matches Some(p) ==> exists|i: int| first_program_match(*self, default_name(*self), i, *p),
    {
        let len = self.config.default_program_len as usize;
        let name = &self.config.default_program[0..len];
        proof {
            assert(name@ =~= default_name(*self));
        }
        self.find_program_bytes(name)
    }

    /// Validate the configuration: the program cap must hold and the
    /// default program must be registered.
    pub fn init(&mut self) -> (r: ConfigResult<()>)
        requires
            cm_wf(*old(self)),
        ensures
            *final(self) == *old(self),
            r is Ok <==> old(self).config.max_programs <= 16 && (exists|i: int|
                0 <= i < old(self).program_count && program_named(
                    #[trigger] old(self).programs@[i],
                    default_name(*old(self)),
                )),
            old(self).config.max_programs > 16 ==> r == ConfigResult::<()>::Err(
                ConfigError::InvalidConfig,
            ),
            old(self).config.max_programs <= 16 && !(exists|i: int|
                0 <= i < old(self).program_count && program_named(
                    #[trigger] old(self).programs@[i],
                    default_name(*old(self)),
                )) ==> r == ConfigResult::<()>::Err(ConfigError::ProgramNotFound),
    {
        if self.config.max_programs > 16 {
            return Err(ConfigError::InvalidConfig);
        }
        if self.get_default_program().is_none() {
            return Err(ConfigError::ProgramNotFound);
        }
        Ok(())
    }

    /// Show the configuration; no display is attached in this build.
    pub fn display_config(&self) {
    }
}

/// Create a configuration manager and validate it.
pub fn init_config() -> (r: ConfigResult<ConfigManager>)
    ensures
        r is Ok,
        r matches Ok(m) ==> cm_wf(m) && m.program_count == 5,
{
    let mut manager = ConfigManager::new();
    match manager.init() {
        Ok(()) => Ok(manager),
        Err(e) => Err(e),
    }
}

/// Run the configured default program: `terminal` and `shell` launch the
/// matching stdio session; any other default is not runnable.
pub fn run_default_program(config: &ConfigManager) -> (r: ConfigResult<()>)
    requires
        cm_wf(*config),
    ensures
        r is Ok <==> exists|i: int, p: Program|
            #[trigger] first_program_match(*config, default_name(*config), i, p) && (text::stored(
                p.name@,
                p.name_len as int,
            ) == "terminal".spec_bytes() || text::stored(p.name@, p.name_len as int)
                == "shell".spec_bytes()),
        r is Err ==> r == ConfigResult::<()>::Err(ConfigError::ProgramNotFound),
{
    let default_program = match config.get_default_program() {
        Some(p) => p,
        None => {
            return Err(ConfigError::ProgramNotFound);
        },
    };
    let name = &default_program.name[0..default_program.name_len as usize];
    proof {
        assert(name@ =~= text::stored(default_program.name@, default_program.name_len as int));
    }
    if text::bytes_eq(name, "terminal".as_bytes()) {
        match stdio_terminal::run_stdio_terminal() {
            Ok(_) => Ok(()),
            Err(_) => Err(ConfigError::SystemError),
        }
    } else if text::bytes_eq(name, "shell".as_bytes()) {
        match stdio_terminal::run_stdio_shell() {
            Ok(_) => Ok(()),
            Err(_) => Err(ConfigError::SystemError),
        }
    } else {
        Err(ConfigError::ProgramNotFound)
    }
}

} // verus!
