use vstd::prelude::*;
use vstd::string::StrSliceExecFns;

use crate::error::{ConfigError, FieldErrorKind};
use crate::value::{entries_of, lookup, ConfigValue};
use crate::typed::{get_bool, get_field};

verus! {

/// How often a log file is rotated.
#[derive(Debug, Clone, Copy, PartialEq, Eq, Structural)]
pub enum LogRotationInterval {
    Never,
    Daily,
    Hourly,
}

impl Default for LogRotationInterval {
    fn default() -> (r: Self)
        ensures
            r == LogRotationInterval::Never,
    {
        LogRotationInterval::Never
    }
}

/// Which console stream log lines are written to, if any.
#[derive(Debug, Clone, Copy, PartialEq, Eq, Structural)]
pub enum LogConsoleTarget {
    Null,
    Stdout,
    Stderr,
}

impl Default for LogConsoleTarget {
    fn default() -> (r: Self)
        ensures
            r == LogConsoleTarget::Stdout,
    {
        LogConsoleTarget::Stdout
    }
}

/// The verbosity of logging; `Detail` logs at `Trace` verbosity but keeps
/// the chatter of known-noisy third-party modules.
#[derive(Debug, Clone, Copy, PartialEq, Eq, Structural)]
pub enum LogLevel {
    Off,
    Error,
    Warn,
    Info,
    Debug,
    Trace,
    Detail,
}

impl Default for LogLevel {
    fn default() -> (r: Self)
        ensures
            r == LogLevel::Off,
    {
        LogLevel::Off
    }
}

/// The maximum level that a log subscriber lets through.
#[derive(Debug, Clone, Copy, PartialEq, Eq, Structural)]
pub enum LevelFilter {
    Off,
    Error,
    Warn,
    Info,
    Debug,
    Trace,
}

/// The filter that each log level selects.
pub open spec fn spec_level_filter(level: LogLevel) -> LevelFilter {
    match level {
        LogLevel::Off => LevelFilter::Off,
        LogLevel::Error => LevelFilter::Error,
        LogLevel::Warn => LevelFilter::Warn,
        LogLevel::Info => LevelFilter::Info,
        LogLevel::Debug => LevelFilter::Debug,
        LogLevel::Trace => LevelFilter::Trace,
        LogLevel::Detail => LevelFilter::Trace,
    }
}

/// A character with any ASCII upper-case letter folded to lower case.
pub open spec fn lower_char(c: char) -> char {
    if 'A' <= c <= 'Z' {
        ((c as u8) + 32) as char
    } else {
        c
    }
}

/// A string with every ASCII upper-case letter folded to lower case.
pub open spec fn lower_chars(s: Seq<char>) -> Seq<char> {
    s.map_values(|c: char| lower_char(c))
}

/// Whether two strings agree up to ASCII case.
fn eq_ignore_case(s: &str, t: &str) -> (r: bool)
    ensures
        r == (lower_chars(s@) == lower_chars(t@)),
{
    let n = s.unicode_len();
    let m = t.unicode_len();
    if n != m {
        proof {
            assert(lower_chars(s@).len() != lower_chars(t@).len());
        }
        return false;
    }
    let mut i: usize = 0;
    while i < n
        invariant
            n == s@.len() && n == t@.len(),
            0 <= i <= n,
            forall|j: int| 0 <= j < i ==> lower_chars(s@)[j] == lower_chars(t@)[j],
        decreases n - i,
    {
        let a = s.get_char(i);
        let b = t.get_char(i);
        let la: char = if 'A' <= a && a <= 'Z' {
            ((a as u8) + 32) as char
        } else {
            a
        };
        let lb: char = if 'A' <= b && b <= 'Z' {
            ((b as u8) + 32) as char
        } else {
            b
        };
        if la != lb {
            proof {
                assert(lower_chars(s@)[i as int] != lower_chars(t@)[i as int]);
            }
            return false;
        }
        i = i + 1;
    }
    proof {
        assert(lower_chars(s@) =~= lower_chars(t@));
    }
    true
}

/// The log level that a name denotes, up to ASCII case.
pub open spec fn level_of_name(s: Seq<char>) -> Option<LogLevel> {
    let l = lower_chars(s);
    if l == "error"@ {
        Some(LogLevel::Error)
    } else if l == "warn"@ {
        Some(LogLevel::Warn)
    } else if l == "info"@ {
        Some(LogLevel::Info)
    } else if l == "debug"@ {
        Some(LogLevel::Debug)
    } else if l == "trace"@ {
        Some(LogLevel::Trace)
    } else if l == "detail"@ {
        Some(LogLevel::Detail)
    } else if l == "off"@ {
        Some(LogLevel::Off)
    } else {
        None
    }
}

/// A lower-case ASCII literal is already folded.
proof fn lemma_lower_fixed(s: Seq<char>)
    requires
        forall|i: int| 0 <= i < s.len() ==> !('A' <= #[trigger] s[i] <= 'Z'),
    ensures
        lower_chars(s) == s,
{
    assert(lower_chars(s) =~= s);
}

/// The names of the log levels, folded, are themselves.
proof fn lemma_level_names_folded()
    ensures
        lower_chars("error"@) == "error"@,
        lower_chars("warn"@) == "warn"@,
        lower_chars("info"@) == "info"@,
        lower_chars("debug"@) == "debug"@,
        lower_chars("trace"@) == "trace"@,
        lower_chars("detail"@) == "detail"@,
        lower_chars("off"@) == "off"@,
{
    reveal_strlit("error");
    reveal_strlit("warn");
    reveal_strlit("info");
    reveal_strlit("debug");
    reveal_strlit("trace");
    reveal_strlit("detail");
    reveal_strlit("off");
    lemma_lower_fixed("error"@);
    lemma_lower_fixed("warn"@);
    lemma_lower_fixed("info"@);
    lemma_lower_fixed("debug"@);
    lemma_lower_fixed("trace"@);
    lemma_lower_fixed("detail"@);
    lemma_lower_fixed("off"@);
}

impl LogLevel {
    /// The level filter this log level installs; `Detail` filters at `Trace`.
    pub fn as_level_filter(&self) -> (r: LevelFilter)
        ensures
            r == spec_level_filter(*self),
    {
        match self {
            LogLevel::Error => LevelFilter::Error,
            LogLevel::Warn => LevelFilter::Warn,
            LogLevel::Info => LevelFilter::Info,
            LogLevel::Debug => LevelFilter::Debug,
            LogLevel::Trace => LevelFilter::Trace,
            LogLevel::Off => LevelFilter::Off,
            LogLevel::Detail => LevelFilter::Trace,
        }
    }

    /// Read a log level from its name, ignoring ASCII case.
    pub fn from_str(s: &str) -> (r: Option<LogLevel>)
        ensures
            r == level_of_name(s@),
    {
        proof {
            lemma_level_names_folded();
        }
        if eq_ignore_case(s, "error") {
            Some(LogLevel::Error)
        } else if eq_ignore_case(s, "warn") {
            Some(LogLevel::Warn)
        } else if eq_ignore_case(s, "info") {
            Some(LogLevel::Info)
        } else if eq_ignore_case(s, "debug") {
            Some(LogLevel::Debug)
        } else if eq_ignore_case(s, "trace") {
            Some(LogLevel::Trace)
        } else if eq_ignore_case(s, "detail") {
            Some(LogLevel::Detail)
        } else if eq_ignore_case(s, "off") {
            Some(LogLevel::Off)
        } else {
            None
        }
    }
}

/// The console target that a name denotes, up to ASCII case.
pub open spec fn console_of_name(s: Seq<char>) -> Option<LogConsoleTarget> {
    let l = lower_chars(s);
    if l == "null"@ {
        Some(LogConsoleTarget::Null)
    } else if l == "stdout"@ {
        Some(LogConsoleTarget::Stdout)
    } else if l == "stderr"@ {
        Some(LogConsoleTarget::Stderr)
    } else {
        None
    }
}

impl LogConsoleTarget {
    /// Read a console target from its name, ignoring ASCII case.
    pub fn from_str(s: &str) -> (r: Option<LogConsoleTarget>)
        ensures
            r == console_of_name(s@),
    {
        proof {
            reveal_strlit("null");
            reveal_strlit("stdout");
            reveal_strlit("stderr");
            lemma_lower_fixed("null"@);
            lemma_lower_fixed("stdout"@);
            lemma_lower_fixed("stderr"@);
        }
        if eq_ignore_case(s, "null") {
            Some(LogConsoleTarget::Null)
        } else if eq_ignore_case(s, "stdout") {
            Some(LogConsoleTarget::Stdout)
        } else if eq_ignore_case(s, "stderr") {
            Some(LogConsoleTarget::Stderr)
        } else {
            None
        }
    }
}

/// The rotation interval that a name denotes, up to ASCII case.
pub open spec fn rotation_of_name(s: Seq<char>) -> Option<LogRotationInterval> {
    let l = lower_chars(s);
    if l == "never"@ {
        Some(LogRotationInterval::Never)
    } else if l == "daily"@ {
        Some(LogRotationInterval::Daily)
    } else if l == "hourly"@ {
        Some(LogRotationInterval::Hourly)
    } else {
        None
    }
}

impl LogRotationInterval {
    /// Read a rotation interval from its name, ignoring ASCII case.
    pub fn from_str(s: &str) -> (r: Option<LogRotationInterval>)
        ensures
            r == rotation_of_name(s@),
    {
        proof {
            reveal_strlit("never");
            reveal_strlit("daily");
            reveal_strlit("hourly");
            lemma_lower_fixed("never"@);
            lemma_lower_fixed("daily"@);
            lemma_lower_fixed("hourly"@);
        }
        if eq_ignore_case(s, "never") {
            Some(LogRotationInterval::Never)
        } else if eq_ignore_case(s, "daily") {
            Some(LogRotationInterval::Daily)
        } else if eq_ignore_case(s, "hourly") {
            Some(LogRotationInterval::Hourly)
        } else {
            None
        }
    }
}

/// How the process logs: level, console stream, optional log file with its
/// rotation, and whether a console-subscriber endpoint is started.
#[derive(Debug, PartialEq)]
pub struct LogConfig {
    pub level: LogLevel,
    pub console: LogConsoleTarget,
    pub file: Option<String>,
    pub rotation: LogRotationInterval,
    pub console_subscriber: bool,
}

impl From<LogLevel> for LogConfig {
    /// A plain configuration at the given level: stdout console, no log
    /// file, no rotation, no console subscriber.
    fn from(level: LogLevel) -> (r: LogConfig) {
        LogConfig {
            level,
            console: LogConsoleTarget::Stdout,
            file: None,
            rotation: LogRotationInterval::Never,
            console_subscriber: false,
        }
    }
}

impl vstd::std_specs::convert::FromSpecImpl<LogLevel> for LogConfig {
    open spec fn obeys_from_spec() -> bool {
        true
    }

    open spec fn from_spec(level: LogLevel) -> LogConfig {
        LogConfig {
            level,
            console: LogConsoleTarget::Stdout,
            file: None,
            rotation: LogRotationInterval::Never,
            console_subscriber: false,
        }
    }
}

/// How the required `level` field of a document reads as a log level.
pub open spec fn level_field(es: Seq<(String, ConfigValue)>) -> Result<LogLevel, FieldErrorKind> {
    match lookup(es, "level"@) {
        None => Err(FieldErrorKind::MissingField),
        Some(v) => match v {
            ConfigValue::Text(t) => match level_of_name(t@) {
                Some(l) => Ok(l),
                None => Err(FieldErrorKind::InvalidEnumVariant),
            },
            _ => Err(FieldErrorKind::TypeMismatch),
        },
    }
}

/// How the optional `console` field reads; when absent, stdout.
pub open spec fn console_field(es: Seq<(String, ConfigValue)>) -> Result<
    LogConsoleTarget,
    FieldErrorKind,
> {
    match lookup(es, "console"@) {
        None => Ok(LogConsoleTarget::Stdout),
        Some(v) => match v {
            ConfigValue::Text(t) => match console_of_name(t@) {
                Some(c) => Ok(c),
                None => Err(FieldErrorKind::InvalidEnumVariant),
            },
            _ => Err(FieldErrorKind::TypeMismatch),
        },
    }
}

/// How the optional `file` field reads: a path, or nothing when absent or
/// null.
pub open spec fn file_field(es: Seq<(String, ConfigValue)>) -> Result<
    Option<Seq<char>>,
    FieldErrorKind,
> {
    match lookup(es, "file"@) {
        None => Ok(None),
        Some(v) => match v {
            ConfigValue::Null => Ok(None),
            ConfigValue::Text(t) => Ok(Some(t@)),
            _ => Err(FieldErrorKind::TypeMismatch),
        },
    }
}

/// How the required `rotation` field reads as a rotation interval.
pub open spec fn rotation_field(es: Seq<(String, ConfigValue)>) -> Result<
    LogRotationInterval,
    FieldErrorKind,
> {
    match lookup(es, "rotation"@) {
        None => Err(FieldErrorKind::MissingField),
        Some(v) => match v {
            ConfigValue::Text(t) => match rotation_of_name(t@) {
                Some(c) => Ok(c),
                None => Err(FieldErrorKind::InvalidEnumVariant),
            },
            _ => Err(FieldErrorKind::TypeMismatch),
        },
    }
}

/// How the required `console_subscriber` field reads as a boolean.
pub open spec fn subscriber_field(es: Seq<(String, ConfigValue)>) -> Result<
    bool,
    FieldErrorKind,
> {
    match lookup(es, "console_subscriber"@) {
        None => Err(FieldErrorKind::MissingField),
        Some(v) => match v {
            ConfigValue::Bool(b) => Ok(b),
            _ => Err(FieldErrorKind::TypeMismatch),
        },
    }
}

/// The first field of a document that does not read as its part of a log
/// configuration, with its failure, in the order the fields are checked.
pub open spec fn log_config_failure(es: Seq<(String, ConfigValue)>) -> Option<
    (Seq<char>, FieldErrorKind),
> {
    match level_field(es) {
        Err(k) => Some(("level"@, k)),
        Ok(_) => match console_field(es) {
            Err(k) => Some(("console"@, k)),
            Ok(_) => match file_field(es) {
                Err(k) => Some(("file"@, k)),
                Ok(_) => match rotation_field(es) {
                    Err(k) => Some(("rotation"@, k)),
                    Ok(_) => match subscriber_field(es) {
                        Err(k) => Some(("console_subscriber"@, k)),
                        Ok(_) => None,
                    },
                },
            },
        },
    }
}

impl LogConfig {
    /// Read a log configuration out of a document value, field by field in
    /// the order `level`, `console`, `file`, `rotation`,
    /// `console_subscriber`; the first field that does not conform is
    /// reported with its exact field path and the kind of mismatch.
    pub fn from_value(document: &ConfigValue) -> (r: Result<LogConfig, ConfigError>)
        requires
            document is Object,
        ensures
            r is Ok <==> log_config_failure(entries_of(*document)) is None,
            r matches Err(e) ==> e matches ConfigError::Deserialize { path, kind }
                && log_config_failure(entries_of(*document)) == Some((path@, kind)),
            r matches Ok(c) ==> ({
                let es = entries_of(*document);
                &&& level_field(es) == Ok::<LogLevel, FieldErrorKind>(c.level)
                &&& console_field(es) == Ok::<LogConsoleTarget, FieldErrorKind>(c.console)
                &&& rotation_field(es) == Ok::<LogRotationInterval, FieldErrorKind>(c.rotation)
                &&& subscriber_field(es) == Ok::<bool, FieldErrorKind>(c.console_subscriber)
                &&& file_field(es) matches Ok(o)
                &&& (o is None <==> c.file is None)
                &&& (o matches Some(t) ==> c.file matches Some(f) && f@ == t)
            }),
    {
        let level = match get_field(document, "level") {
            Err(_) => {
                return Err(
                    ConfigError::Deserialize {
                        path: "level".to_owned(),
                        kind: FieldErrorKind::MissingField,
                    },
                );
            },
            Ok(v) => match v {
                ConfigValue::Text(t) => match LogLevel::from_str(t.as_str()) {
                    Some(l) => l,
                    None => {
                        return Err(
                            ConfigError::Deserialize {
                                path: "level".to_owned(),
                                kind: FieldErrorKind::InvalidEnumVariant,
                            },
                        );
                    },
                },
                _ => {
                    return Err(
                        ConfigError::Deserialize {
                            path: "level".to_owned(),
                            kind: FieldErrorKind::TypeMismatch,
                        },
                    );
                },
            },
        };
        let console = match get_field(document, "console") {
            Err(_) => LogConsoleTarget::Stdout,
            Ok(v) => match v {
                ConfigValue::Text(t) => match LogConsoleTarget::from_str(t.as_str()) {
                    Some(c) => c,
                    None => {
                        return Err(
                            ConfigError::Deserialize {
                                path: "console".to_owned(),
                                kind: FieldErrorKind::InvalidEnumVariant,
                            },
                        );
                    },
                },
                _ => {
                    return Err(
                        ConfigError::Deserialize {
                            path: "console".to_owned(),
                            kind: FieldErrorKind::TypeMismatch,
                        },
                    );
                },
            },
        };
        let file: Option<String> = match get_field(document, "file") {
            Err(_) => None,
            Ok(v) => match v {
                ConfigValue::Null => None,
                ConfigValue::Text(t) => Some(t.clone()),
                _ => {
                    return Err(
                        ConfigError::Deserialize {
                            path: "file".to_owned(),
                            kind: FieldErrorKind::TypeMismatch,
                        },
                    );
                },
            },
        };
        let rotation = match get_field(document, "rotation") {
            Err(_) => {
                return Err(
                    ConfigError::Deserialize {
                        path: "rotation".to_owned(),
                        kind: FieldErrorKind::MissingField,
                    },
                );
            },
            Ok(v) => match v {
                ConfigValue::Text(t) => match LogRotationInterval::from_str(t.as_str()) {
                    Some(c) => c,
                    None => {
                        return Err(
                            ConfigError::Deserialize {
                                path: "rotation".to_owned(),
                                kind: FieldErrorKind::InvalidEnumVariant,
                            },
                        );
                    },
                },
                _ => {
                    return Err(
                        ConfigError::Deserialize {
                            path: "rotation".to_owned(),
                            kind: FieldErrorKind::TypeMismatch,
                        },
                    );
                },
            },
        };
        let console_subscriber = get_bool(document, "console_subscriber")?;
        Ok(LogConfig { level, console, file, rotation, console_subscriber })
    }
}

/// Pick a log level by a verbosity count: the count indexes `levels`, and
/// any count past the end picks the last, most verbose entry.
pub fn get_log_level_from_verbosity(verbosity: u8, levels: &[LogLevel]) -> (r: LogLevel)
    requires
        levels@.len() > 0,
    ensures
        r == if verbosity < levels@.len() {
            levels@[verbosity as int]
        } else {
            levels@.last()
        },
{
    if (verbosity as usize) < levels.len() {
        levels[verbosity as usize]
    } else {
        levels[levels.len() - 1]
    }
}

} // verus!
