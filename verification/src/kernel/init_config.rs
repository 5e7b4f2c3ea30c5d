//! The `init.config` parser: a sectioned `key = value` text format that
//! selects the programs, the startup sequence, the environment and the
//! logging settings of a boot.  Each section handler states exactly which
//! keys it accepts and how the parser state changes; the top-level parse
//! folds the handlers over the lines of the file.

use crate::kernel::stdio_terminal;
use crate::kernel::text;
use vstd::prelude::*;
use vstd::string::StringSliceAdditionalSpecFns;

verus! {

/// Errors of the parser.
#[derive(Debug, Clone, Copy, PartialEq, Eq, Structural)]
pub enum InitConfigError {
    FileNotFound,
    ParseError,
    InvalidSection,
    InvalidKey,
    InvalidValue,
    SystemError,
}

/// Result type of the parser.
pub type InitConfigResult<T> = Result<T, InitConfigError>;

/// The sections of the file.
#[derive(Debug, Clone, Copy, PartialEq, Eq, Structural)]
pub enum ConfigSection {
    System,
    Programs,
    Startup,
    Environment,
    Logging,
}

/// One configured program; names are stored zero-padded.
#[derive(Debug, Clone, Copy, PartialEq)]
pub struct ProgramConfig {
    pub name: [u8; 32],
    pub name_len: u8,
    pub enabled: bool,
    pub priority: u8,
    pub program_type: [u8; 16],
    pub program_type_len: u8,
    pub description: [u8; 64],
    pub description_len: u8,
}

/// The system settings of the file.
#[derive(Debug, Clone, Copy, PartialEq)]
pub struct SystemConfig {
    pub default_shell: [u8; 32],
    pub default_shell_len: u8,
    pub auto_start: bool,
    pub debug_mode: bool,
    pub verbose_output: bool,
}

/// One environment variable.
#[derive(Debug, Clone, Copy, PartialEq)]
pub struct EnvironmentVar {
    pub name: [u8; 32],
    pub name_len: u8,
    pub value: [u8; 128],
    pub value_len: u8,
}

/// The logging settings.
#[derive(Debug, Clone, Copy, PartialEq)]
pub struct LogConfig {
    pub log_level: [u8; 16],
    pub log_level_len: u8,
    pub log_file: [u8; 64],
    pub log_file_len: u8,
    pub console_output: bool,
}

/// The parser's state: the settings and the three tables.
pub struct InitConfigParser {
    pub system_config: SystemConfig,
    pub programs: [Option<ProgramConfig>; 16],
    pub program_count: u8,
    pub startup_sequence: [Option<[u8; 32]>; 8],
    pub startup_count: u8,
    pub environment_vars: [Option<EnvironmentVar>; 8],
    pub env_count: u8,
    pub log_config: LogConfig,
}

/// The parser's invariant: every table is filled from the front and every
/// stored length fits its array.
pub open spec fn icp_wf(p: InitConfigParser) -> bool {
    &&& p.program_count <= 16
    &&& (forall|i: int| 0 <= i < 16 ==> (#[trigger] p.programs@[i] is Some <==> i < p.program_count))
    &&& p.startup_count <= 8
    &&& (forall|i: int|
        0 <= i < 8 ==> (#[trigger] p.startup_sequence@[i] is Some <==> i < p.startup_count))
    &&& p.env_count <= 8
    &&& (forall|i: int|
        0 <= i < 8 ==> (#[trigger] p.environment_vars@[i] is Some <==> i < p.env_count))
    &&& p.system_config.default_shell_len <= 31
    &&& p.log_config.log_level_len <= 15
    &&& p.log_config.log_file_len <= 63
}

/// Whitespace trimmed from the ends of lines, keys and values.
pub open spec fn is_blank(c: u8) -> bool {
    c == 32 || c == 9 || c == 13
}

/// The first position at or after `i` that holds byte `b`, or the end.
pub open spec fn first_byte_at(s: Seq<u8>, i: int, b: u8) -> int
    decreases s.len() - i,
    when 0 <= i <= s.len()
{
    if i >= s.len() {
        s.len() as int
    } else if s[i] == b {
        i
    } else {
        first_byte_at(s, i + 1, b)
    }
}

/// The first byte found lies between the start and the end.
proof fn lemma_first_byte_at_bounds(s: Seq<u8>, i: int, b: u8)
    requires
        0 <= i <= s.len(),
    ensures
        i <= first_byte_at(s, i, b) <= s.len(),
    decreases s.len() - i,
{
    if i < s.len() && s[i] != b {
        lemma_first_byte_at_bounds(s, i + 1, b);
    }
}

/// A scan that saw no `b` before `e`, and `b` or the end at `e`, found
/// the first occurrence.
proof fn lemma_first_byte_at(s: Seq<u8>, i: int, e: int, b: u8)
    requires
        0 <= i <= e <= s.len(),
        forall|k: int| i <= k < e ==> s[k] != b,
        e == s.len() || s[e] == b,
    ensures
        first_byte_at(s, i, b) == e,
    decreases e - i,
{
    if i < e {
        lemma_first_byte_at(s, i + 1, e, b);
    }
}

/// The first comma at or after `i`, or the end; positions past the end
/// count as the end.
pub open spec fn comma_after(s: Seq<u8>, i: int) -> int {
    if i >= s.len() {
        s.len() as int
    } else {
        first_byte_at(s, i, 44)
    }
}

/// The first position at or after `i` that is not blank, or the end.
pub open spec fn skip_blanks(s: Seq<u8>, i: int) -> int
    decreases s.len() - i,
    when 0 <= i <= s.len()
{
    if i >= s.len() {
        s.len() as int
    } else if is_blank(s[i]) {
        skip_blanks(s, i + 1)
    } else {
        i
    }
}

/// A scan that saw only blanks before `a`, and a non-blank or the end at
/// `a`, found where the blanks stop.
proof fn lemma_skip_blanks(s: Seq<u8>, i: int, a: int)
    requires
        0 <= i <= a <= s.len(),
        forall|k: int| i <= k < a ==> is_blank(s[k]),
        a == s.len() || !is_blank(s[a]),
    ensures
        skip_blanks(s, i) == a,
    decreases a - i,
{
    if i < a {
        lemma_skip_blanks(s, i + 1, a);
    }
}

/// The last position at or before `j` with no blank just before it, or 0.
pub open spec fn back_blanks(s: Seq<u8>, j: int) -> int
    decreases j,
    when 0 <= j <= s.len()
{
    if j <= 0 {
        0
    } else if is_blank(s[j - 1]) {
        back_blanks(s, j - 1)
    } else {
        j
    }
}

/// A backward scan that saw only blanks after `b`, and a non-blank or the
/// start just before `b`, found where the trailing blanks start.
proof fn lemma_back_blanks(s: Seq<u8>, j: int, b: int)
    requires
        0 <= b <= j <= s.len(),
        forall|k: int| b <= k < j ==> is_blank(s[k]),
        b == 0 || !is_blank(s[b - 1]),
    ensures
        back_blanks(s, j) == b,
    decreases j - b,
{
    if b < j {
        lemma_back_blanks(s, j - 1, b);
    }
}

/// `s` with blanks removed from both ends.
pub open spec fn trimmed(s: Seq<u8>) -> Seq<u8> {
    let a = skip_blanks(s, 0);
    let b = back_blanks(s, s.len() as int);
    if a >= b {
        Seq::empty()
    } else {
        s.subrange(a, b)
    }
}

/// Trim blanks from both ends of `s`.
pub fn trim(s: &[u8]) -> (r: &[u8])
    ensures
        r@ =~= trimmed(s@),
{
    let mut a: usize = 0;
    while a < s.len() && (s[a] == 32 || s[a] == 9 || s[a] == 13)
        invariant
            0 <= a <= s@.len(),
            forall|k: int| 0 <= k < a ==> is_blank(s@[k]),
        decreases s@.len() - a,
    {
        a = a + 1;
    }
    if a == s.len() {
        let r = &s[0..0];
        proof {
            lemma_skip_blanks(s@, 0, a as int);
            lemma_back_blanks(s@, s@.len() as int, 0);
            assert(r@ =~= trimmed(s@));
        }
        return r;
    }
    let mut b: usize = s.len();
    while b > a && (s[b - 1] == 32 || s[b - 1] == 9 || s[b - 1] == 13)
        invariant
            0 <= a < b <= s@.len(),
            forall|k: int| 0 <= k < a ==> is_blank(s@[k]),
            forall|k: int| b <= k < s@.len() ==> is_blank(s@[k]),
            a < s@.len() && !is_blank(s@[a as int]),
        decreases b,
    {
        b = b - 1;
    }
    let r = &s[a..b];
    proof {
        lemma_skip_blanks(s@, 0, a as int);
        lemma_back_blanks(s@, s@.len() as int, b as int);
        assert(r@ =~= trimmed(s@));
    }
    r
}

/// Find the first occurrence of byte `b` at or after `from`, or the end.
fn find_byte(v: &[u8], from: usize, b: u8) -> (r: usize)
    requires
        from <= v@.len(),
    ensures
        r == first_byte_at(v@, from as int, b),
        from <= r <= v@.len(),
        r < v@.len() ==> v@[r as int] == b,
        forall|k: int| from <= k < r ==> v@[k] != b,
{
    let mut i: usize = from;
    while i < v.len()
        invariant
            from <= i <= v@.len(),
            forall|k: int| from <= k < i ==> v@[k] != b,
        decreases v@.len() - i,
    {
        if v[i] == b {
            proof {
                lemma_first_byte_at(v@, from as int, i as int, b);
            }
            return i;
        }
        i = i + 1;
    }
    proof {
        lemma_first_byte_at(v@, from as int, v@.len() as int, b);
    }
    v.len()
}

/// A digit byte.
pub open spec fn is_digit(c: u8) -> bool {
    48 <= c <= 57
}

/// Every byte of `s` is a digit.
pub open spec fn all_digits(s: Seq<u8>) -> bool {
    forall|k: int| 0 <= k < s.len() ==> is_digit(s[k])
}

/// The number the digit string `s` spells.
pub open spec fn digits_value(s: Seq<u8>) -> int
    decreases s.len(),
{
    if s.len() == 0 {
        0
    } else {
        digits_value(s.drop_last()) * 10 + (s.last() - 48)
    }
}

/// Extending a digit prefix by one digit multiplies and adds.
proof fn lemma_digits_take_step(s: Seq<u8>, i: int)
    requires
        0 <= i < s.len(),
    ensures
        digits_value(s.take(i + 1)) == digits_value(s.take(i)) * 10 + (s[i] - 48),
{
    assert(s.take(i + 1).drop_last() =~= s.take(i));
    assert(s.take(i + 1).last() == s[i]);
}

/// A digit string's value only grows as more digits follow.
proof fn lemma_digits_prefix_le(s: Seq<u8>, i: int)
    requires
        0 <= i <= s.len(),
        all_digits(s),
    ensures
        digits_value(s.take(i)) <= digits_value(s),
        digits_value(s) >= 0,
    decreases s.len() - i,
{
    if i == s.len() {
        assert(s.take(i) =~= s);
        lemma_digits_nonneg(s);
    } else {
        lemma_digits_take_step(s, i);
        lemma_digits_nonneg(s.take(i));
        lemma_digits_prefix_le(s, i + 1);
        assert(digits_value(s.take(i)) <= digits_value(s.take(i)) * 10 + (s[i] - 48))
            by (nonlinear_arith)
            requires
                digits_value(s.take(i)) >= 0,
                48 <= s[i] <= 57,
        ;
    }
}

/// Digit strings spell non-negative numbers.
proof fn lemma_digits_nonneg(s: Seq<u8>)
    ensures
        all_digits(s) ==> digits_value(s) >= 0,
    decreases s.len(),
{
    if s.len() > 0 {
        lemma_digits_nonneg(s.drop_last());
        assert(s.drop_last().len() < s.len());
        assert(all_digits(s) ==> all_digits(s.drop_last()));
    }
}

/// `s` with one leading `+` removed.
pub open spec fn plus_stripped(s: Seq<u8>) -> Seq<u8> {
    if s.len() > 0 && s[0] == 43 {
        s.drop_first()
    } else {
        s
    }
}

/// What parsing `s` as a `u8` yields: an optional leading `+`, then at
/// least one digit, spelling a value up to 255.
pub open spec fn parse_u8_spec(s: Seq<u8>) -> Option<u8> {
    let t = plus_stripped(s);
    if t.len() > 0 && all_digits(t) && digits_value(t) <= 255 {
        Some(digits_value(t) as u8)
    } else {
        None
    }
}

/// Parse a byte string as a `u8`.
pub fn parse_u8(s: &[u8]) -> (r: Option<u8>)
    ensures
        r == parse_u8_spec(s@),
{
    let t: &[u8] = if s.len() > 0 && s[0] == 43 {
        &s[1..s.len()]
    } else {
        &s[0..s.len()]
    };
    proof {
        if s@.len() > 0 && s@[0] == 43 {
            assert(t@ =~= plus_stripped(s@));
        } else {
            assert(t@ =~= plus_stripped(s@));
        }
    }
    if t.len() == 0 {
        return None;
    }
    let mut acc: u32 = 0;
    let mut i: usize = 0;
    while i < t.len()
        invariant
            t@ =~= plus_stripped(s@),
            t@.len() > 0,
            0 <= i <= t@.len(),
            all_digits(t@.take(i as int)),
            acc == digits_value(t@.take(i as int)),
            acc <= 255,
        decreases t@.len() - i,
    {
        let c = t[i];
        if c < 48 || c > 57 {
            proof {
                assert(!is_digit(t@[i as int]));
            }
            return None;
        }
        let d = (c - 48) as u32;
        let next = acc * 10 + d;
        proof {
            lemma_digits_take_step(t@, i as int);
        }
        if next > 255 {
            proof {
                assert(all_digits(t@.take(i as int + 1)));
                if all_digits(t@) {
                    lemma_digits_prefix_le(t@, i as int + 1);
                }
            }
            return None;
        }
        acc = next;
        i = i + 1;
    }
    proof {
        assert(t@.take(t@.len() as int) =~= t@);
    }
    Some(acc as u8)
}

/// The section a header names.
pub open spec fn section_of(s: Seq<u8>) -> Option<ConfigSection> {
    if s == "system".spec_bytes() {
        Some(ConfigSection::System)
    } else if s == "programs".spec_bytes() {
        Some(ConfigSection::Programs)
    } else if s == "startup".spec_bytes() {
        Some(ConfigSection::Startup)
    } else if s == "environment".spec_bytes() {
        Some(ConfigSection::Environment)
    } else if s == "logging".spec_bytes() {
        Some(ConfigSection::Logging)
    } else {
        None
    }
}

/// The first position at or after `i` that is not `[`, or the end.
pub open spec fn skip_open(s: Seq<u8>, i: int) -> int
    decreases s.len() - i,
    when 0 <= i <= s.len()
{
    if i >= s.len() {
        s.len() as int
    } else if s[i] == 91 {
        skip_open(s, i + 1)
    } else {
        i
    }
}

/// A scan that saw only `[` before `a`, and something else or the end at
/// `a`, found where the opening brackets stop.
proof fn lemma_skip_open(s: Seq<u8>, i: int, a: int)
    requires
        0 <= i <= a <= s.len(),
        forall|k: int| i <= k < a ==> s[k] == 91,
        a == s.len() || s[a] != 91,
    ensures
        skip_open(s, i) == a,
    decreases a - i,
{
    if i < a {
        lemma_skip_open(s, i + 1, a);
    }
}

/// The last position at or before `j` with no `]` just before it, or 0.
pub open spec fn back_close(s: Seq<u8>, j: int) -> int
    decreases j,
    when 0 <= j <= s.len()
{
    if j <= 0 {
        0
    } else if s[j - 1] == 93 {
        back_close(s, j - 1)
    } else {
        j
    }
}

/// A backward scan that saw only `]` after `b`, and something else or the
/// start just before `b`, found where the closing brackets start.
proof fn lemma_back_close(s: Seq<u8>, j: int, b: int)
    requires
        0 <= b <= j <= s.len(),
        forall|k: int| b <= k < j ==> s[k] == 93,
        b == 0 || s[b - 1] != 93,
    ensures
        back_close(s, j) == b,
    decreases j - b,
{
    if b < j {
        lemma_back_close(s, j - 1, b);
    }
}

/// `s` with every leading `[` and, after that, every trailing `]`
/// removed.
pub open spec fn bracket_stripped(s: Seq<u8>) -> Seq<u8> {
    let a = skip_open(s, 0);
    if a == s.len() {
        Seq::empty()
    } else {
        let b = back_close(s, s.len() as int);
        if a >= b {
            Seq::empty()
        } else {
            s.subrange(a, b)
        }
    }
}

/// The enabled programs among the first `n` slots, in table order.
pub open spec fn enabled_programs_of(s: Seq<Option<ProgramConfig>>, n: int) -> Seq<ProgramConfig>
    decreases n,
{
    if n <= 0 {
        Seq::empty()
    } else {
        let prefix = enabled_programs_of(s, n - 1);
        match s[n - 1] {
            Some(p) => if p.enabled {
                prefix.push(p)
            } else {
                prefix
            },
            None => prefix,
        }
    }
}

/// No more programs are enabled than slots were looked at.
proof fn lemma_enabled_len(s: Seq<Option<ProgramConfig>>, n: int)
    requires
        n >= 0,
    ensures
        enabled_programs_of(s, n).len() <= n,
    decreases n,
{
    if n > 0 {
        lemma_enabled_len(s, n - 1);
    }
}

/// What one `[system]` line does: `default_shell` stores a name of up to
/// 31 bytes, the three flags compare the value against `true`, and any
/// other key is invalid.
pub open spec fn system_line_post(
    pre: InitConfigParser,
    post: InitConfigParser,
    key: Seq<u8>,
    value: Seq<u8>,
    r: InitConfigResult<()>,
) -> bool {
    if key == "default_shell".spec_bytes() {
        if value.len() <= 31 {
            &&& r == InitConfigResult::<()>::Ok(())
            &&& text::padded(value, post.system_config.default_shell@)
            &&& post.system_config.default_shell_len == value.len()
            &&& post == (InitConfigParser {
                system_config: SystemConfig {
                    default_shell: post.system_config.default_shell,
                    default_shell_len: post.system_config.default_shell_len,
                    ..pre.system_config
                },
                ..pre
            })
        } else {
            post == pre && r == InitConfigResult::<()>::Err(InitConfigError::InvalidValue)
        }
    } else if key == "auto_start".spec_bytes() {
        r == InitConfigResult::<()>::Ok(()) && post == (InitConfigParser {
            system_config: SystemConfig {
                auto_start: value == "true".spec_bytes(),
                ..pre.system_config
            },
            ..pre
        })
    } else if key == "debug_mode".spec_bytes() {
        r == InitConfigResult::<()>::Ok(()) && post == (InitConfigParser {
            system_config: SystemConfig {
                debug_mode: value == "true".spec_bytes(),
                ..pre.system_config
            },
            ..pre
        })
    } else if key == "verbose_output".spec_bytes() {
        r == InitConfigResult::<()>::Ok(()) && post == (InitConfigParser {
            system_config: SystemConfig {
                verbose_output: value == "true".spec_bytes(),
                ..pre.system_config
            },
            ..pre
        })
    } else {
        post == pre && r == InitConfigResult::<()>::Err(InitConfigError::InvalidKey)
    }
}

/// What one `[programs]` line does: the value splits at its first three
/// commas into `enabled, priority, type, description` (a fourth comma
/// ends the last field); the trimmed fields must fit and the priority
/// must read as a byte, and then the table gains the program.
pub open spec fn program_line_post(
    pre: InitConfigParser,
    post: InitConfigParser,
    key: Seq<u8>,
    value: Seq<u8>,
    r: InitConfigResult<()>,
) -> bool {
    if pre.program_count >= 16 {
        post == pre && r == InitConfigResult::<()>::Err(InitConfigError::SystemError)
    } else {
        let c1 = comma_after(value, 0);
        let c2 = comma_after(value, c1 + 1);
        let c3 = comma_after(value, c2 + 1);
        if c3 >= value.len() {
            post == pre && r == InitConfigResult::<()>::Err(InitConfigError::ParseError)
        } else {
            let e4 = comma_after(value, c3 + 1);
            let enabled_part = trimmed(value.subrange(0, c1));
            let priority_part = trimmed(value.subrange(c1 + 1, c2));
            let type_part = trimmed(value.subrange(c2 + 1, c3));
            let desc_part = trimmed(value.subrange(c3 + 1, e4));
            match parse_u8_spec(priority_part) {
                None => post == pre && r == InitConfigResult::<()>::Err(
                    InitConfigError::InvalidValue,
                ),
                Some(priority) => if key.len() > 31 || type_part.len() > 15 || desc_part.len()
                    > 63 {
                    post == pre && r == InitConfigResult::<()>::Err(InitConfigError::InvalidValue)
                } else {
                    &&& r == InitConfigResult::<()>::Ok(())
                    &&& post.programs@ =~= pre.programs@.update(
                        pre.program_count as int,
                        Some(post.programs@[pre.program_count as int]->0),
                    )
                    &&& post.programs@[pre.program_count as int] is Some
                    &&& {
                        let p = post.programs@[pre.program_count as int]->0;
                        &&& text::padded(key, p.name@)
                        &&& p.name_len == key.len()
                        &&& p.enabled == (enabled_part == "true".spec_bytes())
                        &&& p.priority == priority
                        &&& text::padded(type_part, p.program_type@)
                        &&& p.program_type_len == type_part.len()
                        &&& text::padded(desc_part, p.description@)
                        &&& p.description_len == desc_part.len()
                    }
                    &&& post == (InitConfigParser {
                        programs: post.programs,
                        program_count: (pre.program_count + 1) as u8,
                        ..pre
                    })
                },
            }
        }
    }
}

/// What one `[startup]` line does: the value joins the startup sequence
/// when the table has room and it fits 31 bytes.
pub open spec fn startup_line_post(
    pre: InitConfigParser,
    post: InitConfigParser,
    value: Seq<u8>,
    r: InitConfigResult<()>,
) -> bool {
    if pre.startup_count >= 8 {
        post == pre && r == InitConfigResult::<()>::Err(InitConfigError::SystemError)
    } else if value.len() > 31 {
        post == pre && r == InitConfigResult::<()>::Err(InitConfigError::InvalidValue)
    } else {
        &&& r == InitConfigResult::<()>::Ok(())
        &&& post.startup_sequence@ =~= pre.startup_sequence@.update(
            pre.startup_count as int,
            Some(post.startup_sequence@[pre.startup_count as int]->0),
        )
        &&& post.startup_sequence@[pre.startup_count as int] is Some
        &&& text::padded(value, post.startup_sequence@[pre.startup_count as int]->0@)
        &&& post == (InitConfigParser {
            startup_sequence: post.startup_sequence,
            startup_count: (pre.startup_count + 1) as u8,
            ..pre
        })
    }
}

/// What one `[environment]` line does: the variable joins the table when
/// it has room, the name fits 31 bytes and the value 127.
pub open spec fn env_line_post(
    pre: InitConfigParser,
    post: InitConfigParser,
    key: Seq<u8>,
    value: Seq<u8>,
    r: InitConfigResult<()>,
) -> bool {
    if pre.env_count >= 8 {
        post == pre && r == InitConfigResult::<()>::Err(InitConfigError::SystemError)
    } else if key.len() > 31 || value.len() > 127 {
        post == pre && r == InitConfigResult::<()>::Err(InitConfigError::InvalidValue)
    } else {
        &&& r == InitConfigResult::<()>::Ok(())
        &&& post.environment_vars@ =~= pre.environment_vars@.update(
            pre.env_count as int,
            Some(post.environment_vars@[pre.env_count as int]->0),
        )
        &&& post.environment_vars@[pre.env_count as int] is Some
        &&& {
            let v = post.environment_vars@[pre.env_count as int]->0;
            &&& text::padded(key, v.name@)
            &&& v.name_len == key.len()
            &&& text::padded(value, v.value@)
            &&& v.value_len == value.len()
        }
        &&& post == (InitConfigParser {
            environment_vars: post.environment_vars,
            env_count: (pre.env_count + 1) as u8,
            ..pre
        })
    }
}

/// What one `[logging]` line does: the level fits 15 bytes, the file name
/// 63, `console_output` compares against `true`, and any other key is
/// invalid.
pub open spec fn logging_line_post(
    pre: InitConfigParser,
    post: InitConfigParser,
    key: Seq<u8>,
    value: Seq<u8>,
    r: InitConfigResult<()>,
) -> bool {
    if key == "log_level".spec_bytes() {
        if value.len() <= 15 {
            &&& r == InitConfigResult::<()>::Ok(())
            &&& text::padded(value, post.log_config.log_level@)
            &&& post.log_config.log_level_len == value.len()
            &&& post == (InitConfigParser {
                log_config: LogConfig {
                    log_level: post.log_config.log_level,
                    log_level_len: post.log_config.log_level_len,
                    ..pre.log_config
                },
                ..pre
            })
        } else {
            post == pre && r == InitConfigResult::<()>::Err(InitConfigError::InvalidValue)
        }
    } else if key == "log_file".spec_bytes() {
        if value.len() <= 63 {
            &&& r == InitConfigResult::<()>::Ok(())
            &&& text::padded(value, post.log_config.log_file@)
            &&& post.log_config.log_file_len == value.len()
            &&& post == (InitConfigParser {
                log_config: LogConfig {
                    log_file: post.log_config.log_file,
                    log_file_len: post.log_config.log_file_len,
                    ..pre.log_config
                },
                ..pre
            })
        } else {
            post == pre && r == InitConfigResult::<()>::Err(InitConfigError::InvalidValue)
        }
    } else if key == "console_output".spec_bytes() {
        r == InitConfigResult::<()>::Ok(()) && post == (InitConfigParser {
            log_config: LogConfig { console_output: value == "true".spec_bytes(), ..pre.log_config },
            ..pre
        })
    } else {
        post == pre && r == InitConfigResult::<()>::Err(InitConfigError::InvalidKey)
    }
}

/// What one `key = value` line does under the selected section.
pub open spec fn line_step(
    section: ConfigSection,
    pre: InitConfigParser,
    post: InitConfigParser,
    key: Seq<u8>,
    value: Seq<u8>,
    r: InitConfigResult<()>,
) -> bool {
    match section {
        ConfigSection::System => system_line_post(pre, post, key, value, r),
        ConfigSection::Programs => program_line_post(pre, post, key, value, r),
        ConfigSection::Startup => startup_line_post(pre, post, value, r),
        ConfigSection::Environment => env_line_post(pre, post, key, value, r),
        ConfigSection::Logging => logging_line_post(pre, post, key, value, r),
    }
}

/// What parsing the text from position `pos` under the selected section
/// does, line by line: the line runs to the next line feed; trimmed, a
/// blank or `#` line is skipped, a `[...]` line selects a section, a line
/// without `=` is skipped, and a `key = value` line runs the selected
/// section's handler — with no section selected it is an invalid section,
/// and a failing line stops the parse with its error.
pub open spec fn parses(
    s: Seq<u8>,
    pos: int,
    section: Option<ConfigSection>,
    pre: InitConfigParser,
    post: InitConfigParser,
    r: InitConfigResult<()>,
) -> bool
    decreases s.len() - pos,
    when 0 <= pos <= s.len()
    via parses_decreases
{
    if pos >= s.len() {
        post == pre && r == InitConfigResult::<()>::Ok(())
    } else {
        let e = first_byte_at(s, pos, 10);
        let next = if e < s.len() {
            e + 1
        } else {
            e
        };
        let line = trimmed(s.subrange(pos, e));
        if line.len() == 0 || line[0] == 35 {
            parses(s, next, section, pre, post, r)
        } else if line[0] == 91 && line[line.len() - 1] == 93 {
            parses(s, next, section_of(bracket_stripped(line)), pre, post, r)
        } else {
            let q = first_byte_at(line, 0, 61);
            if q >= line.len() {
                parses(s, next, section, pre, post, r)
            } else {
                let key = trimmed(line.subrange(0, q));
                let value = trimmed(line.subrange(q + 1, line.len() as int));
                match section {
                    None => post == pre && r == InitConfigResult::<()>::Err(
                        InitConfigError::InvalidSection,
                    ),
                    Some(sec) => exists|mid: InitConfigParser, rl: InitConfigResult<()>|
                        {
                            &&& #[trigger] line_step(sec, pre, mid, key, value, rl)
                            &&& if rl is Ok {
                                parses(s, next, section, mid, post, r)
                            } else {
                                post == mid && r == rl
                            }
                        },
                }
            }
        }
    }
}

#[via_fn]
proof fn parses_decreases(
    s: Seq<u8>,
    pos: int,
    section: Option<ConfigSection>,
    pre: InitConfigParser,
    post: InitConfigParser,
    r: InitConfigResult<()>,
) {
    lemma_first_byte_at_bounds(s, pos, 10);
}

/// One fold step that leaves the parser unchanged: the line from
/// `old_pos` is blank, a comment, a section header (selecting
/// `new_section`), or has no `=`, and `new_pos` starts the next line.
spec fn skip_line_shape(
    s: Seq<u8>,
    old_pos: int,
    new_pos: int,
    old_section: Option<ConfigSection>,
    new_section: Option<ConfigSection>,
) -> bool {
    let e = first_byte_at(s, old_pos, 10);
    let line = trimmed(s.subrange(old_pos, e));
    &&& 0 <= old_pos < s.len()
    &&& new_pos == (if e < s.len() {
        e + 1
    } else {
        e
    })
    &&& (if line.len() == 0 || line[0] == 35 {
        new_section == old_section
    } else if line[0] == 91 && line[line.len() - 1] == 93 {
        new_section == section_of(bracket_stripped(line))
    } else {
        first_byte_at(line, 0, 61) >= line.len() && new_section == old_section
    })
}

/// A step of the fold that changes no parser state chains: what parses
/// from the next line under the new section also parses from this line
/// under the old one, and so on back to the start of the text.
proof fn lemma_parses_chain(
    s: Seq<u8>,
    old_pos: int,
    new_pos: int,
    old_section: Option<ConfigSection>,
    new_section: Option<ConfigSection>,
    state: InitConfigParser,
    state_now: InitConfigParser,
    origin: InitConfigParser,
)
    requires
        state_now == state,
        skip_line_shape(s, old_pos, new_pos, old_section, new_section),
        forall|p: InitConfigParser, rr: InitConfigResult<()>|
            #[trigger] parses(s, old_pos, old_section, state, p, rr) ==> parses(
                s,
                0,
                None::<ConfigSection>,
                origin,
                p,
                rr,
            ),
    ensures
        forall|p: InitConfigParser, rr: InitConfigResult<()>|
            #[trigger] parses(s, new_pos, new_section, state_now, p, rr) ==> parses(
                s,
                0,
                None::<ConfigSection>,
                origin,
                p,
                rr,
            ),
{
    assert forall|p: InitConfigParser, rr: InitConfigResult<()>|
        #[trigger] parses(s, new_pos, new_section, state_now, p, rr) implies parses(
        s,
        0,
        None::<ConfigSection>,
        origin,
        p,
        rr,
    ) by {
        lemma_first_byte_at_bounds(s, old_pos, 10);
        let e = first_byte_at(s, old_pos, 10);
        assert(0 <= old_pos < s.len());
        let next = if e < s.len() {
            e + 1
        } else {
            e
        };
        let line = trimmed(s.subrange(old_pos, e));
        assert(next == new_pos);
        if line.len() == 0 || line[0] == 35 {
            assert(new_section == old_section);
            assert(parses(s, old_pos, old_section, state, p, rr));
        } else if line[0] == 91 && line[line.len() - 1] == 93 {
            assert(new_section == section_of(bracket_stripped(line)));
            assert(parses(s, old_pos, old_section, state, p, rr));
        } else {
            assert(first_byte_at(line, 0, 61) >= line.len());
            assert(new_section == old_section);
            assert(parses(s, old_pos, old_section, state, p, rr));
        }
    }
}

/// A program slot holds exactly the given default program.
pub open spec fn default_program_at(
    o: Option<ProgramConfig>,
    name: Seq<u8>,
    enabled: bool,
    priority: u8,
    ptype: Seq<u8>,
    desc: Seq<u8>,
) -> bool {
    o matches Some(p) && p.name_len == name.len() && text::padded(name, p.name@) && p.enabled
        == enabled && p.priority == priority && p.program_type_len == ptype.len() && text::padded(
        ptype,
        p.program_type@,
    ) && p.description_len == desc.len() && text::padded(desc, p.description@)
}

/// An environment slot holds exactly the given variable.
pub open spec fn env_var_at(o: Option<EnvironmentVar>, name: Seq<u8>, value: Seq<u8>) -> bool {
    o matches Some(v) && v.name_len == name.len() && text::padded(name, v.name@) && v.value_len
        == value.len() && text::padded(value, v.value@)
}

/// The built-in default tables: the five programs, the one startup entry
/// and the four environment variables, in order.
pub open spec fn default_contents(p: InitConfigParser) -> bool {
    &&& p.program_count == 5
    &&& default_program_at(
        p.programs@[0],
        "terminal".spec_bytes(),
        true,
        100,
        "terminal".spec_bytes(),
        "Interactive terminal".spec_bytes(),
    )
    &&& default_program_at(
        p.programs@[1],
        "shell".spec_bytes(),
        false,
        90,
        "shell".spec_bytes(),
        "Command shell".spec_bytes(),
    )
    &&& default_program_at(
        p.programs@[2],
        "sysinfo".spec_bytes(),
        false,
        80,
        "application".spec_bytes(),
        "System information".spec_bytes(),
    )
    &&& default_program_at(
        p.programs@[3],
        "filemanager".spec_bytes(),
        false,
        70,
        "application".spec_bytes(),
        "File manager".spec_bytes(),
    )
    &&& default_program_at(
        p.programs@[4],
        "test".spec_bytes(),
        false,
        60,
        "application".spec_bytes(),
        "System test".spec_bytes(),
    )
    &&& p.startup_count == 1
    &&& (p.startup_sequence@[0] matches Some(e) && text::padded("terminal".spec_bytes(), e@))
    &&& p.env_count == 4
    &&& env_var_at(
        p.environment_vars@[0],
        "PATH".spec_bytes(),
        "/bin:/usr/bin:/usr/local/bin".spec_bytes(),
    )
    &&& env_var_at(p.environment_vars@[1], "HOME".spec_bytes(), "/home".spec_bytes())
    &&& env_var_at(p.environment_vars@[2], "USER".spec_bytes(), "root".spec_bytes())
    &&& env_var_at(p.environment_vars@[3], "SHELL".spec_bytes(), "/bin/terminal".spec_bytes())
}

/// A startup entry that can launch: its whole stored array spells a
/// runnable program's name.
pub open spec fn launchable_entry(o: Option<[u8; 32]>) -> bool {
    o matches Some(name) && (name@ == "terminal".spec_bytes() || name@ == "shell".spec_bytes())
}

impl InitConfigParser {
    /// Create a parser with the built-in defaults: `terminal` as the
    /// shell, empty tables, and info-level logging to the system log.
    pub fn new() -> (r: Self)
        ensures
            icp_wf(r),
            r.program_count == 0,
            r.startup_count == 0,
            r.env_count == 0,
            text::stored(r.system_config.default_shell@, r.system_config.default_shell_len as int)
                == "terminal".spec_bytes(),
            r.system_config.auto_start,
            !r.system_config.debug_mode,
            r.system_config.verbose_output,
            text::stored(r.log_config.log_level@, r.log_config.log_level_len as int)
                == "info".spec_bytes(),
            text::stored(r.log_config.log_file@, r.log_config.log_file_len as int)
                == "/var/log/retron.log".spec_bytes(),
            r.log_config.console_output,
    {
        proof {
            broadcast use vstd::string::is_ascii_spec_bytes;

            reveal_strlit("terminal");
            reveal_strlit("info");
            reveal_strlit("/var/log/retron.log");
            assert("terminal".is_ascii() && "info".is_ascii() && "/var/log/retron.log".is_ascii());
        }
        let r = Self {
            system_config: SystemConfig {
                default_shell: text::copy_to_array::<32>("terminal".as_bytes()),
                default_shell_len: 8,
                auto_start: true,
                debug_mode: false,
                verbose_output: true,
            },
            programs: [None; 16],
            program_count: 0,
            startup_sequence: [None; 8],
            startup_count: 0,
            environment_vars: [None; 8],
            env_count: 0,
            log_config: LogConfig {
                log_level: text::copy_to_array::<16>("info".as_bytes()),
                log_level_len: 4,
                log_file: text::copy_to_array::<64>("/var/log/retron.log".as_bytes()),
                log_file_len: 19,
                console_output: true,
            },
        };
        proof {
            assert(text::stored(r.system_config.default_shell@, 8) =~= "terminal".spec_bytes());
            assert(text::stored(r.log_config.log_level@, 4) =~= "info".spec_bytes());
            assert(text::stored(r.log_config.log_file@, 19) =~= "/var/log/retron.log".spec_bytes());
        }
        r
    }

    /// Parse a whole `init.config` text, folding the line handlers over
    /// it as `parses` describes.
    pub fn parse_config(&mut self, config_content: &str) -> (r: InitConfigResult<()>)
        requires
            icp_wf(*old(self)),
        ensures
            icp_wf(*final(self)),
            parses(
                config_content.spec_bytes(),
                0,
                None::<ConfigSection>,
                *old(self),
                *final(self),
                r,
            ),
    {
        let bytes = config_content.as_bytes();
        let mut current_section: Option<ConfigSection> = None;
        let mut pos: usize = 0;
        let n = bytes.len();
        while pos < n
            invariant
                icp_wf(*self),
                0 <= pos <= n,
                n == bytes@.len(),
                bytes@ =~= config_content.spec_bytes(),
                forall|p: InitConfigParser, rr: InitConfigResult<()>|
                    #[trigger] parses(bytes@, pos as int, current_section, *self, p, rr) ==> parses(
                        bytes@,
                        0,
                        None::<ConfigSection>,
                        *old(self),
                        p,
                        rr,
                    ),
            decreases n - pos,
        {
            let ghost old_pos = pos as int;
            let ghost old_section = current_section;
            let ghost pre_line = *self;
            // Take the next line.
            let line_break = find_byte(bytes, pos, 10);
            let line = trim(&bytes[pos..line_break]);
            proof {
                assert(line@ =~= trimmed(bytes@.subrange(old_pos, line_break as int)));
            }
            pos = if line_break < n {
                line_break + 1
            } else {
                n
            };
            if line.len() == 0 || line[0] == 35 {
                // Blank line or comment.
                proof {
                    lemma_parses_chain(bytes@, old_pos, pos as int, old_section, current_section, pre_line, *self, *old(self));
                }
                continue ;
            }
            if line[0] == 91 && line[line.len() - 1] == 93 {
                current_section = self.parse_section(line);
                proof {
                    lemma_parses_chain(bytes@, old_pos, pos as int, old_section, current_section, pre_line, *self, *old(self));
                }
                continue ;
            }
            // Look for the first `=`.
            let eq = find_byte(line, 0, 61);
            if eq == line.len() {
                proof {
                    lemma_parses_chain(bytes@, old_pos, pos as int, old_section, current_section, pre_line, *self, *old(self));
                }
                continue ;
            }
            let key = trim(&line[0..eq]);
            let value = trim(&line[eq + 1..line.len()]);
            proof {
                assert(key@ =~= trimmed(line@.subrange(0, eq as int)));
                assert(value@ =~= trimmed(line@.subrange(eq as int + 1, line@.len() as int)));
            }
            let sec = match current_section {
                Some(sec) => sec,
                None => {
                    proof {
                        assert(parses(
                            bytes@,
                            old_pos,
                            old_section,
                            pre_line,
                            *self,
                            InitConfigResult::<()>::Err(InitConfigError::InvalidSection),
                        ));
                    }
                    return Err(InitConfigError::InvalidSection);
                },
            };
            let step = match sec {
                ConfigSection::System => self.parse_system_config(key, value),
                ConfigSection::Programs => self.parse_program_config(key, value),
                ConfigSection::Startup => self.parse_startup_config(key, value),
                ConfigSection::Environment => self.parse_environment_config(key, value),
                ConfigSection::Logging => self.parse_logging_config(key, value),
            };
            proof {
                assert(line_step(sec, pre_line, *self, key@, value@, step));
            }
            match step {
                Ok(()) => {
                    proof {
                        assert forall|p: InitConfigParser, rr: InitConfigResult<()>|
                            #[trigger] parses(bytes@, pos as int, current_section, *self, p, rr)
                                implies parses(
                            bytes@,
                            0,
                            None::<ConfigSection>,
                            *old(self),
                            p,
                            rr,
                        ) by {
                            assert(parses(bytes@, old_pos, old_section, pre_line, p, rr));
                        }
                    }
                },
                Err(e) => {
                    proof {
                        assert(parses(
                            bytes@,
                            old_pos,
                            old_section,
                            pre_line,
                            *self,
                            InitConfigResult::<()>::Err(e),
                        ));
                    }
                    return Err(e);
                },
            }
        }
        proof {
            assert(parses(
                bytes@,
                pos as int,
                current_section,
                *self,
                *self,
                InitConfigResult::<()>::Ok(()),
            ));
        }
        Ok(())
    }

    /// Name the section a `[...]` header selects, stripping every leading
    /// `[` and trailing `]` first.
    fn parse_section(&self, line: &[u8]) -> (r: Option<ConfigSection>)
        ensures
            r == section_of(bracket_stripped(line@)),
    {
        let mut a: usize = 0;
        while a < line.len() && line[a] == 91
            invariant
                0 <= a <= line@.len(),
                forall|k: int| 0 <= k < a ==> line@[k] == 91,
            decreases line@.len() - a,
        {
            a = a + 1;
        }
        proof {
            lemma_skip_open(line@, 0, a as int);
        }
        let mut b: usize = line.len();
        if a == line.len() {
            b = a;
        } else {
            while b > a && line[b - 1] == 93
                invariant
                    a <= b <= line@.len(),
                    forall|k: int| b <= k < line@.len() ==> line@[k] == 93,
                    forall|k: int| 0 <= k < a ==> line@[k] == 91,
                    a < line@.len(),
                decreases b,
            {
                b = b - 1;
            }
            proof {
                // Below `b` either a non-`]` byte or an opening bracket
                // stands, so the backward scan stops exactly here.
                if b > a {
                    lemma_back_close(line@, line@.len() as int, b as int);
                } else {
                    if a > 0 {
                        assert(line@[a as int - 1] == 91);
                    }
                    lemma_back_close(line@, line@.len() as int, b as int);
                }
            }
        }
        let inner = &line[a..b];
        proof {
            assert(inner@ =~= line@.subrange(a as int, b as int));
            if a < line.len() {
                assert(inner@ =~= bracket_stripped(line@));
            } else {
                assert(inner@ =~= bracket_stripped(line@));
            }
        }
        if text::bytes_eq(inner, "system".as_bytes()) {
            Some(ConfigSection::System)
        } else if text::bytes_eq(inner, "programs".as_bytes()) {
            Some(ConfigSection::Programs)
        } else if text::bytes_eq(inner, "startup".as_bytes()) {
            Some(ConfigSection::Startup)
        } else if text::bytes_eq(inner, "environment".as_bytes()) {
            Some(ConfigSection::Environment)
        } else {
            if text::bytes_eq(inner, "logging".as_bytes()) {
                Some(ConfigSection::Logging)
            } else {
                None
            }
        }
    }

    /// Handle one `[system]` line: `default_shell` stores a name of up to
    /// 31 bytes, the three flags compare the value against `true`, and any
    /// other key is invalid.
    fn parse_system_config(&mut self, key: &[u8], value: &[u8]) -> (r: InitConfigResult<()>)
        requires
            icp_wf(*old(self)),
        ensures
            icp_wf(*final(self)),
            system_line_post(*old(self), *final(self), key@, value@, r),
    {
        proof {
            broadcast use vstd::string::is_ascii_spec_bytes;

            reveal_strlit("default_shell");
            reveal_strlit("auto_start");
            reveal_strlit("debug_mode");
            reveal_strlit("verbose_output");
            reveal_strlit("true");
            assert("default_shell".is_ascii() && "auto_start".is_ascii());
            assert("debug_mode".is_ascii() && "verbose_output".is_ascii() && "true".is_ascii());
            assert("auto_start".spec_bytes()[0] != "debug_mode".spec_bytes()[0]);
            assert("auto_start".spec_bytes() != "debug_mode".spec_bytes());
        }
        if text::bytes_eq(key, "default_shell".as_bytes()) {
            if value.len() > 31 {
                return Err(InitConfigError::InvalidValue);
            }
            self.system_config.default_shell = text::copy_to_array::<32>(value);
            self.system_config.default_shell_len = value.len() as u8;
            Ok(())
        } else if text::bytes_eq(key, "auto_start".as_bytes()) {
            self.system_config.auto_start = text::bytes_eq(value, "true".as_bytes());
            Ok(())
        } else if text::bytes_eq(key, "debug_mode".as_bytes()) {
            self.system_config.debug_mode = text::bytes_eq(value, "true".as_bytes());
            Ok(())
        } else if text::bytes_eq(key, "verbose_output".as_bytes()) {
            self.system_config.verbose_output = text::bytes_eq(value, "true".as_bytes());
            Ok(())
        } else {
            Err(InitConfigError::InvalidKey)
        }
    }

    /// Handle one `[programs]` line: the key names the program and the
    /// value holds `enabled, priority, type, description`.  The line is
    /// split at its first three commas (a fourth comma ends the last
    /// field); a missing field, an unreadable priority or an oversized
    /// field rejects the line.
    fn parse_program_config(&mut self, key: &[u8], value: &[u8]) -> (r: InitConfigResult<()>)
        requires
            icp_wf(*old(self)),
        ensures
            icp_wf(*final(self)),
            program_line_post(*old(self), *final(self), key@, value@, r),
    {
        if self.program_count >= 16 {
            return Err(InitConfigError::SystemError);
        }
        // Split the value at its first three commas.
        let c1 = find_byte(value, 0, 44);
        if c1 == value.len() {
            return Err(InitConfigError::ParseError);
        }
        let c2 = find_byte(value, c1 + 1, 44);
        if c2 == value.len() {
            return Err(InitConfigError::ParseError);
        }
        let c3 = find_byte(value, c2 + 1, 44);
        if c3 == value.len() {
            return Err(InitConfigError::ParseError);
        }
        let e4 = find_byte(value, c3 + 1, 44);
        let enabled_part = trim(&value[0..c1]);
        let priority_part = trim(&value[c1 + 1..c2]);
        let type_part = trim(&value[c2 + 1..c3]);
        let desc_part = trim(&value[c3 + 1..e4]);
        proof {
            broadcast use vstd::string::is_ascii_spec_bytes;

            reveal_strlit("true");
            assert("true".is_ascii());
            assert(enabled_part@ =~= trimmed(value@.subrange(0, c1 as int)));
            assert(priority_part@ =~= trimmed(value@.subrange(c1 as int + 1, c2 as int)));
            assert(type_part@ =~= trimmed(value@.subrange(c2 as int + 1, c3 as int)));
            assert(desc_part@ =~= trimmed(value@.subrange(c3 as int + 1, e4 as int)));
        }
        let enabled = text::bytes_eq(enabled_part, "true".as_bytes());
        let priority = match parse_u8(priority_part) {
            Some(p) => p,
            None => {
                return Err(InitConfigError::InvalidValue);
            },
        };
        if key.len() > 31 {
            return Err(InitConfigError::InvalidValue);
        }
        if type_part.len() > 15 {
            return Err(InitConfigError::InvalidValue);
        }
        if desc_part.len() > 63 {
            return Err(InitConfigError::InvalidValue);
        }
        let program = ProgramConfig {
            name: text::copy_to_array::<32>(key),
            name_len: key.len() as u8,
            enabled,
            priority,
            program_type: text::copy_to_array::<16>(type_part),
            program_type_len: type_part.len() as u8,
            description: text::copy_to_array::<64>(desc_part),
            description_len: desc_part.len() as u8,
        };
        let idx = self.program_count as usize;
        self.programs[idx] = Some(program);
        self.program_count = self.program_count + 1;
        Ok(())
    }

    /// Handle one `[startup]` line: the value names a program to run at
    /// boot; up to eight entries of up to 31 bytes are kept.
    fn parse_startup_config(&mut self, _key: &[u8], value: &[u8]) -> (r: InitConfigResult<()>)
        requires
            icp_wf(*old(self)),
        ensures
            icp_wf(*final(self)),
            startup_line_post(*old(self), *final(self), value@, r),
    {
        if self.startup_count >= 8 {
            return Err(InitConfigError::SystemError);
        }
        if value.len() > 31 {
            return Err(InitConfigError::InvalidValue);
        }
        let name = text::copy_to_array::<32>(value);
        let idx = self.startup_count as usize;
        self.startup_sequence[idx] = Some(name);
        self.startup_count = self.startup_count + 1;
        Ok(())
    }

    /// Handle one `[environment]` line: the key names the variable and the
    /// value its contents; up to eight variables are kept.
    fn parse_environment_config(&mut self, key: &[u8], value: &[u8]) -> (r: InitConfigResult<()>)
        requires
            icp_wf(*old(self)),
        ensures
            icp_wf(*final(self)),
            env_line_post(*old(self), *final(self), key@, value@, r),
    {
        if self.env_count >= 8 {
            return Err(InitConfigError::SystemError);
        }
        if key.len() > 31 {
            return Err(InitConfigError::InvalidValue);
        }
        if value.len() > 127 {
            return Err(InitConfigError::InvalidValue);
        }
        let var = EnvironmentVar {
            name: text::copy_to_array::<32>(key),
            name_len: key.len() as u8,
            value: text::copy_to_array::<128>(value),
            value_len: value.len() as u8,
        };
        let idx = self.env_count as usize;
        self.environment_vars[idx] = Some(var);
        self.env_count = self.env_count + 1;
        Ok(())
    }

    /// Handle one `[logging]` line: the level fits 15 bytes, the file name
    /// 63, `console_output` compares against `true`, and any other key is
    /// invalid.
    fn parse_logging_config(&mut self, key: &[u8], value: &[u8]) -> (r: InitConfigResult<()>)
        requires
            icp_wf(*old(self)),
        ensures
            icp_wf(*final(self)),
            logging_line_post(*old(self), *final(self), key@, value@, r),
    {
        proof {
            broadcast use vstd::string::is_ascii_spec_bytes;

            reveal_strlit("log_level");
            reveal_strlit("log_file");
            reveal_strlit("console_output");
            reveal_strlit("true");
            assert("log_level".is_ascii() && "log_file".is_ascii());
            assert("console_output".is_ascii() && "true".is_ascii());
        }
        if text::bytes_eq(key, "log_level".as_bytes()) {
            if value.len() > 15 {
                return Err(InitConfigError::InvalidValue);
            }
            self.log_config.log_level = text::copy_to_array::<16>(value);
            self.log_config.log_level_len = value.len() as u8;
            Ok(())
        } else if text::bytes_eq(key, "log_file".as_bytes()) {
            if value.len() > 63 {
                return Err(InitConfigError::InvalidValue);
            }
            self.log_config.log_file = text::copy_to_array::<64>(value);
            self.log_config.log_file_len = value.len() as u8;
            Ok(())
        } else if text::bytes_eq(key, "console_output".as_bytes()) {
            self.log_config.console_output = text::bytes_eq(value, "true".as_bytes());
            Ok(())
        } else {
            Err(InitConfigError::InvalidKey)
        }
    }

    /// The recorded startup sequence.
    pub fn get_startup_sequence(&self) -> (r: &[Option<[u8; 32]>])
        requires
            icp_wf(*self),
        ensures
            r@ =~= self.startup_sequence@.subrange(0, self.startup_count as int),
    {
        &self.startup_sequence[0..self.startup_count as usize]
    }

    /// The enabled programs, in table order, padded with `None`.
    pub fn get_enabled_programs(&self) -> (r: [Option<&ProgramConfig>; 16])
        requires
            icp_wf(*self),
        ensures
            enabled_programs_of(self.programs@, self.program_count as int).len() <= 16,
            forall|k: int|
                0 <= k < enabled_programs_of(self.programs@, self.program_count as int).len()
                    ==> ((#[trigger] r@[k]) matches Some(p) && *p == enabled_programs_of(
                    self.programs@,
                    self.program_count as int,
                )[k]),
            forall|k: int|
                enabled_programs_of(self.programs@, self.program_count as int).len() <= k < 16
                    ==> r@[k] is None,
    {
        let ghost all = enabled_programs_of(self.programs@, self.program_count as int);
        let mut enabled: [Option<&ProgramConfig>; 16] = [None; 16];
        let count = self.program_count as usize;
        let mut taken: usize = 0;
        let mut i: usize = 0;
        while i < count
            invariant
                icp_wf(*self),
                count == self.program_count,
                all == enabled_programs_of(self.programs@, count as int),
                0 <= i <= count,
                taken == enabled_programs_of(self.programs@, i as int).len(),
                taken <= i,
                enabled@.len() == 16,
                forall|k: int|
                    0 <= k < taken ==> ((#[trigger] enabled@[k]) matches Some(p) && *p
                        == enabled_programs_of(self.programs@, i as int)[k]),
                forall|k: int| taken <= k < 16 ==> enabled@[k] is None,
            decreases count - i,
        {
            proof {
                lemma_enabled_len(self.programs@, i as int);
            }
            match &self.programs[i] {
                Some(program) => {
                    proof {
                        assert(self.programs@[i as int] is Some);
                        assert(*program == self.programs@[i as int]->0);
                    }
                    if program.enabled && taken < 16 {
                        enabled[taken] = Some(program);
                        taken = taken + 1;
                    }
                },
                None => {},
            }
            i = i + 1;
        }
        proof {
            lemma_enabled_len(self.programs@, count as int);
        }
        enabled
    }

    /// The recorded environment variables.
    pub fn get_environment_vars(&self) -> (r: &[Option<EnvironmentVar>])
        requires
            icp_wf(*self),
        ensures
            r@ =~= self.environment_vars@.subrange(0, self.env_count as int),
    {
        &self.environment_vars[0..self.env_count as usize]
    }

    /// Install the built-in defaults: five programs, one startup entry
    /// and four environment variables.
    pub fn init_default(&mut self) -> (r: InitConfigResult<()>)
        requires
            icp_wf(*old(self)),
            old(self).program_count == 0,
            old(self).startup_count == 0,
            old(self).env_count == 0,
        ensures
            icp_wf(*final(self)),
            r is Ok,
            default_contents(*final(self)),
            final(self).system_config == old(self).system_config,
            final(self).log_config == old(self).log_config,
    {
        proof {
            broadcast use vstd::string::is_ascii_spec_bytes;

            reveal_strlit("terminal");
            reveal_strlit("Interactive terminal");
            reveal_strlit("shell");
            reveal_strlit("Command shell");
            reveal_strlit("sysinfo");
            reveal_strlit("application");
            reveal_strlit("System information");
            reveal_strlit("filemanager");
            reveal_strlit("File manager");
            reveal_strlit("test");
            reveal_strlit("System test");
            reveal_strlit("PATH");
            reveal_strlit("/bin:/usr/bin:/usr/local/bin");
            reveal_strlit("HOME");
            reveal_strlit("/home");
            reveal_strlit("USER");
            reveal_strlit("root");
            reveal_strlit("SHELL");
            reveal_strlit("/bin/terminal");
            assert("terminal".is_ascii() && "Interactive terminal".is_ascii());
            assert("shell".is_ascii() && "Command shell".is_ascii());
            assert("sysinfo".is_ascii() && "application".is_ascii());
            assert("System information".is_ascii());
            assert("filemanager".is_ascii() && "File manager".is_ascii());
            assert("test".is_ascii() && "System test".is_ascii());
            assert("PATH".is_ascii() && "/bin:/usr/bin:/usr/local/bin".is_ascii());
            assert("HOME".is_ascii() && "/home".is_ascii());
            assert("USER".is_ascii() && "root".is_ascii());
            assert("SHELL".is_ascii() && "/bin/terminal".is_ascii());
        }
        let r1 = self.add_default_program(
            "terminal",
            true,
            100,
            "terminal",
            "Interactive terminal",
        );
        match r1 {
            Ok(()) => {},
            Err(e) => {
                return Err(e);
            },
        }
        let r2 = self.add_default_program("shell", false, 90, "shell", "Command shell");
        match r2 {
            Ok(()) => {},
            Err(e) => {
                return Err(e);
            },
        }
        let r3 = self.add_default_program("sysinfo", false, 80, "application", "System information");
        match r3 {
            Ok(()) => {},
            Err(e) => {
                return Err(e);
            },
        }
        let r4 = self.add_default_program("filemanager", false, 70, "application", "File manager");
        match r4 {
            Ok(()) => {},
            Err(e) => {
                return Err(e);
            },
        }
        let r5 = self.add_default_program("test", false, 60, "application", "System test");
        match r5 {
            Ok(()) => {},
            Err(e) => {
                return Err(e);
            },
        }
        let r6 = self.add_startup_program("terminal");
        match r6 {
            Ok(()) => {},
            Err(e) => {
                return Err(e);
            },
        }
        let r7 = self.add_environment_var("PATH", "/bin:/usr/bin:/usr/local/bin");
        match r7 {
            Ok(()) => {},
            Err(e) => {
                return Err(e);
            },
        }
        let r8 = self.add_environment_var("HOME", "/home");
        match r8 {
            Ok(()) => {},
            Err(e) => {
                return Err(e);
            },
        }
        let r9 = self.add_environment_var("USER", "root");
        match r9 {
            Ok(()) => {},
            Err(e) => {
                return Err(e);
            },
        }
        let r10 = self.add_environment_var("SHELL", "/bin/terminal");
        match r10 {
            Ok(()) => {},
            Err(e) => {
                return Err(e);
            },
        }
        Ok(())
    }

    /// Register one default program.  Success is owed exactly when the
    /// table has room and every field fits its array.
    fn add_default_program(
        &mut self,
        name: &str,
        enabled: bool,
        priority: u8,
        program_type: &str,
        description: &str,
    ) -> (r: InitConfigResult<()>)
        requires
            icp_wf(*old(self)),
        ensures
            icp_wf(*final(self)),
            r is Ok <==> old(self).program_count < 16 && name.spec_bytes().len() <= 31
                && program_type.spec_bytes().len() <= 15 && description.spec_bytes().len() <= 63,
            r is Ok ==> {
                &&& final(self).programs@ =~= old(self).programs@.update(
                    old(self).program_count as int,
                    final(self).programs@[old(self).program_count as int],
                )
                &&& default_program_at(
                    final(self).programs@[old(self).program_count as int],
                    name.spec_bytes(),
                    enabled,
                    priority,
                    program_type.spec_bytes(),
                    description.spec_bytes(),
                )
                &&& final(self).program_count == old(self).program_count + 1
                &&& *final(self) == (InitConfigParser {
                    programs: final(self).programs,
                    program_count: final(self).program_count,
                    ..*old(self)
                })
            },
            r is Err ==> *final(self) == *old(self),
    {
        if self.program_count >= 16 {
            return Err(InitConfigError::SystemError);
        }
        let name_bytes = name.as_bytes();
        if name_bytes.len() > 31 {
            return Err(InitConfigError::InvalidValue);
        }
        let type_bytes = program_type.as_bytes();
        if type_bytes.len() > 15 {
            return Err(InitConfigError::InvalidValue);
        }
        let desc_bytes = description.as_bytes();
        if desc_bytes.len() > 63 {
            return Err(InitConfigError::InvalidValue);
        }
        let program = ProgramConfig {
            name: text::copy_to_array::<32>(name_bytes),
            name_len: name_bytes.len() as u8,
            enabled,
            priority,
            program_type: text::copy_to_array::<16>(type_bytes),
            program_type_len: type_bytes.len() as u8,
            description: text::copy_to_array::<64>(desc_bytes),
            description_len: desc_bytes.len() as u8,
        };
        let idx = self.program_count as usize;
        self.programs[idx] = Some(program);
        self.program_count = self.program_count + 1;
        Ok(())
    }

    /// Record one startup entry.
    fn add_startup_program(&mut self, name: &str) -> (r: InitConfigResult<()>)
        requires
            icp_wf(*old(self)),
        ensures
            icp_wf(*final(self)),
            r is Ok <==> old(self).startup_count < 8 && name.spec_bytes().len() <= 31,
            r is Ok ==> {
                &&& final(self).startup_sequence@ =~= old(self).startup_sequence@.update(
                    old(self).startup_count as int,
                    final(self).startup_sequence@[old(self).startup_count as int],
                )
                &&& (final(self).startup_sequence@[old(self).startup_count as int] matches Some(e)
                    && text::padded(name.spec_bytes(), e@))
                &&& final(self).startup_count == old(self).startup_count + 1
                &&& *final(self) == (InitConfigParser {
                    startup_sequence: final(self).startup_sequence,
                    startup_count: final(self).startup_count,
                    ..*old(self)
                })
            },
            r is Err ==> *final(self) == *old(self),
    {
        if self.startup_count >= 8 {
            return Err(InitConfigError::SystemError);
        }
        let name_bytes = name.as_bytes();
        if name_bytes.len() > 31 {
            return Err(InitConfigError::InvalidValue);
        }
        let entry = text::copy_to_array::<32>(name_bytes);
        let idx = self.startup_count as usize;
        self.startup_sequence[idx] = Some(entry);
        self.startup_count = self.startup_count + 1;
        Ok(())
    }

    /// Record one environment variable.
    fn add_environment_var(&mut self, name: &str, value: &str) -> (r: InitConfigResult<()>)
        requires
            icp_wf(*old(self)),
        ensures
            icp_wf(*final(self)),
            r is Ok <==> old(self).env_count < 8 && name.spec_bytes().len() <= 31
                && value.spec_bytes().len() <= 127,
            r is Ok ==> {
                &&& final(self).environment_vars@ =~= old(self).environment_vars@.update(
                    old(self).env_count as int,
                    final(self).environment_vars@[old(self).env_count as int],
                )
                &&& env_var_at(
                    final(self).environment_vars@[old(self).env_count as int],
                    name.spec_bytes(),
                    value.spec_bytes(),
                )
                &&& final(self).env_count == old(self).env_count + 1
                &&& *final(self) == (InitConfigParser {
                    environment_vars: final(self).environment_vars,
                    env_count: final(self).env_count,
                    ..*old(self)
                })
            },
            r is Err ==> *final(self) == *old(self),
    {
        if self.env_count >= 8 {
            return Err(InitConfigError::SystemError);
        }
        let name_bytes = name.as_bytes();
        if name_bytes.len() > 31 {
            return Err(InitConfigError::InvalidValue);
        }
        let value_bytes = value.as_bytes();
        if value_bytes.len() > 127 {
            return Err(InitConfigError::InvalidValue);
        }
        let var = EnvironmentVar {
            name: text::copy_to_array::<32>(name_bytes),
            name_len: name_bytes.len() as u8,
            value: text::copy_to_array::<128>(value_bytes),
            value_len: value_bytes.len() as u8,
        };
        let idx = self.env_count as usize;
        self.environment_vars[idx] = Some(var);
        self.env_count = self.env_count + 1;
        Ok(())
    }
}

/// Create a parser and install the built-in defaults.
pub fn init_config_parser() -> (r: InitConfigResult<InitConfigParser>)
    ensures
        r is Ok,
        r matches Ok(p) ==> {
            &&& icp_wf(p)
            &&& default_contents(p)
            &&& text::stored(p.system_config.default_shell@, p.system_config.default_shell_len as int)
                == "terminal".spec_bytes()
            &&& p.system_config.auto_start
            &&& !p.system_config.debug_mode
            &&& p.system_config.verbose_output
            &&& text::stored(p.log_config.log_level@, p.log_config.log_level_len as int)
                == "info".spec_bytes()
            &&& p.log_config.console_output
        },
{
    let mut parser = InitConfigParser::new();
    match parser.init_default() {
        Ok(()) => Ok(parser),
        Err(e) => Err(e),
    }
}

/// Parse a configuration text into an explicitly owned parser.
pub fn load_init_config(parser: &mut InitConfigParser, config_content: &str) -> (r: InitConfigResult<
    (),
>)
    requires
        icp_wf(*old(parser)),
    ensures
        icp_wf(*final(parser)),
        parses(
            config_content.spec_bytes(),
            0,
            None::<ConfigSection>,
            *old(parser),
            *final(parser),
            r,
        ),
{
    parser.parse_config(config_content)
}

/// The built-in default configuration text, standing in for the
/// `init.config` file of a real disk.
pub open spec fn default_config_text() -> Seq<u8> {
    "\n# Retron OS init.config\n[system]\ndefault_shell = \"terminal\"\nauto_start = true\ndebug_mode = false\nverbose_output = true\n\n[programs]\nterminal = true, 100, terminal, \"Interactive terminal\"\nshell = false, 90, shell, \"Command shell\"\nsysinfo = false, 80, application, \"System information\"\nfilemanager = false, 70, application, \"File manager\"\ntest = false, 60, application, \"System test\"\n\n[startup]\n1 = \"terminal\"\n\n[environment]\nPATH = \"/bin:/usr/bin:/usr/local/bin\"\nHOME = \"/home\"\nUSER = \"root\"\nSHELL = \"/bin/terminal\"\n\n[logging]\nlog_level = \"info\"\nlog_file = \"/var/log/retron.log\"\nconsole_output = true\n".spec_bytes()
}

/// Load the built-in default configuration text.
pub fn load_init_config_from_filesystem(parser: &mut InitConfigParser) -> (r: InitConfigResult<()>)
    requires
        icp_wf(*old(parser)),
    ensures
        icp_wf(*final(parser)),
        parses(
            default_config_text(),
            0,
            None::<ConfigSection>,
            *old(parser),
            *final(parser),
            r,
        ),
{
    let default_config =
        "\n# Retron OS init.config\n[system]\ndefault_shell = \"terminal\"\nauto_start = true\ndebug_mode = false\nverbose_output = true\n\n[programs]\nterminal = true, 100, terminal, \"Interactive terminal\"\nshell = false, 90, shell, \"Command shell\"\nsysinfo = false, 80, application, \"System information\"\nfilemanager = false, 70, application, \"File manager\"\ntest = false, 60, application, \"System test\"\n\n[startup]\n1 = \"terminal\"\n\n[environment]\nPATH = \"/bin:/usr/bin:/usr/local/bin\"\nHOME = \"/home\"\nUSER = \"root\"\nSHELL = \"/bin/terminal\"\n\n[logging]\nlog_level = \"info\"\nlog_file = \"/var/log/retron.log\"\nconsole_output = true\n";
    load_init_config(parser, default_config)
}

/// Run the recorded startup sequence.  An entry launches only when its
/// full stored array spells a runnable program's name; the zero-padded
/// entries the parser records therefore report an invalid value.
pub fn execute_startup_sequence(parser: &InitConfigParser) -> (r: InitConfigResult<()>)
    requires
        icp_wf(*parser),
    ensures
        r is Ok <==> (forall|i: int|
            0 <= i < parser.startup_count ==> launchable_entry(
                #[trigger] parser.startup_sequence@[i],
            )),
        r is Err ==> r == InitConfigResult::<()>::Err(InitConfigError::InvalidValue),
{
    let count = parser.startup_count as usize;
    let mut i: usize = 0;
    while i < count
        invariant
            icp_wf(*parser),
            count == parser.startup_count,
            0 <= i <= count,
            forall|j: int| 0 <= j < i ==> launchable_entry(#[trigger] parser.startup_sequence@[j]),
        decreases count - i,
    {
        match &parser.startup_sequence[i] {
            Some(name) => {
                match execute_program(name) {
                    Ok(()) => {},
                    Err(e) => {
                        proof {
                            assert(!launchable_entry(parser.startup_sequence@[i as int]));
                        }
                        return Err(e);
                    },
                }
            },
            None => {},
        }
        i = i + 1;
    }
    Ok(())
}

/// Launch a program by name: `terminal` and `shell` start the matching
/// stdio session; anything else is an invalid value.
fn execute_program(program_name: &[u8]) -> (r: InitConfigResult<()>)
    ensures
        r is Ok <==> program_name@ == "terminal".spec_bytes() || program_name@
            == "shell".spec_bytes(),
        r is Err ==> r == InitConfigResult::<()>::Err(InitConfigError::InvalidValue),
{
    proof {
        broadcast use vstd::string::is_ascii_spec_bytes;

        reveal_strlit("terminal");
        reveal_strlit("shell");
        assert("terminal".is_ascii() && "shell".is_ascii());
    }
    if text::bytes_eq(program_name, "terminal".as_bytes()) {
        match stdio_terminal::run_stdio_terminal() {
            Ok(()) => Ok(()),
            Err(_) => Err(InitConfigError::SystemError),
        }
    } else if text::bytes_eq(program_name, "shell".as_bytes()) {
        match stdio_terminal::run_stdio_shell() {
            Ok(()) => Ok(()),
            Err(_) => Err(InitConfigError::SystemError),
        }
    } else {
        Err(InitConfigError::InvalidValue)
    }
}

} // verus!
