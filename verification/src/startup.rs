//! How the program is started: its arguments and the amount of its log.

use vstd::prelude::*;
use crate::text;
use crate::text::{begins, lower, texts, trim};

verus! {

/// What the program is asked to do.
#[derive(Clone, Copy, Debug, PartialEq, Eq, Structural)]
pub enum StartupMode {
    Run,
    CheckConfig,
}

/// The mode that the arguments behind the program's name ask for.
pub open spec fn mode_of(arguments: Seq<Seq<char>>) -> Result<StartupMode, Seq<char>> {
    if arguments.len() == 0 {
        Ok(StartupMode::Run)
    } else if arguments[0] != "--check-config"@ {
        Err("unknown argument `"@ + arguments[0] + "`"@)
    } else if arguments.len() > 1 {
        Err("--check-config does not accept additional arguments"@)
    } else {
        Ok(StartupMode::CheckConfig)
    }
}

/// The mode that the arguments behind the program's name ask for.
pub fn startup_mode(arguments: &Vec<String>) -> (r: Result<StartupMode, String>)
    ensures
        match r {
            Ok(mode) => mode_of(texts(arguments@)) == Ok::<StartupMode, Seq<char>>(mode),
            Err(message) => mode_of(texts(arguments@)) == Err::<StartupMode, Seq<char>>(message@),
        },
{
    proof {
        assert(texts(arguments@).len() == arguments@.len());
    }
    if arguments.len() == 0 {
        return Ok(StartupMode::Run);
    }
    proof {
        assert(texts(arguments@)[0] == arguments@[0]@);
    }
    if !text::same(arguments[0].as_str(), "--check-config") {
        return Err(text::cat3("unknown argument `", arguments[0].as_str(), "`"));
    }
    if arguments.len() > 1 {
        return Err("--check-config does not accept additional arguments".to_owned());
    }
    Ok(StartupMode::CheckConfig)
}

/// How much is logged.
#[derive(Clone, Copy, Debug, PartialEq, Eq, Structural)]
pub enum LogLevel {
    Off,
    Error,
    Warn,
    Info,
    Debug,
    Trace,
}

impl LogLevel {
    /// The levels in order, from nothing to everything.
    pub open spec fn rank(self) -> int {
        match self {
            LogLevel::Off => 0,
            LogLevel::Error => 1,
            LogLevel::Warn => 2,
            LogLevel::Info => 3,
            LogLevel::Debug => 4,
            LogLevel::Trace => 5,
        }
    }
}

/// The level of that name.
pub open spec fn level_named(name: Seq<char>) -> Option<LogLevel> {
    if name == "off"@ {
        Some(LogLevel::Off)
    } else if name == "error"@ {
        Some(LogLevel::Error)
    } else if name == "warn"@ || name == "warning"@ {
        Some(LogLevel::Warn)
    } else if name == "info"@ {
        Some(LogLevel::Info)
    } else if name == "debug"@ {
        Some(LogLevel::Debug)
    } else if name == "trace"@ {
        Some(LogLevel::Trace)
    } else {
        None
    }
}

/// The name of the level that `BUTLER_LOG` asks for.
pub open spec fn level_name(value: Option<&str>) -> Seq<char> {
    match value {
        Some(value) => lower(trim(value@)),
        None => "info"@,
    }
}

/// The level that `BUTLER_LOG` asks for.
pub fn parse_butler_log_level(value: Option<&str>) -> (r: Result<LogLevel, String>)
    ensures
        match r {
            Ok(level) => level_named(level_name(value)) == Some(level),
            Err(message) => level_named(level_name(value)) is None && message@
                == "BUTLER_LOG must be one of off, error, warn, info, debug, trace; got `"@ + level_name(
                value,
            ) + "`"@,
        },
{
    let name = match value {
        Some(value) => text::lowered(text::trimmed(value).as_str()),
        None => "info".to_owned(),
    };
    let shown = name.as_str();
    if text::same(shown, "off") {
        Ok(LogLevel::Off)
    } else if text::same(shown, "error") {
        Ok(LogLevel::Error)
    } else if text::same(shown, "warn") || text::same(shown, "warning") {
        Ok(LogLevel::Warn)
    } else if text::same(shown, "info") {
        Ok(LogLevel::Info)
    } else if text::same(shown, "debug") {
        Ok(LogLevel::Debug)
    } else if text::same(shown, "trace") {
        Ok(LogLevel::Trace)
    } else {
        Err(
            text::cat3(
                "BUTLER_LOG must be one of off, error, warn, info, debug, trace; got `",
                shown,
                "`",
            ),
        )
    }
}

/// Whether the target of an event is a part of this program.
pub open spec fn is_own_target(target: Seq<char>) -> bool {
    begins(target, "butler_rs"@) || begins(target, "status_debug"@)
}

/// How much of a target is logged: nothing of what other crates say.
pub fn target_level(target: &str, app_level: LogLevel) -> (r: LogLevel)
    ensures
        r == if is_own_target(target@) {
            app_level
        } else {
            LogLevel::Off
        },
{
    if text::starts_with(target, "butler_rs") || text::starts_with(target, "status_debug") {
        app_level
    } else {
        LogLevel::Off
    }
}

/// Whether an event of that level is logged; events have any level but `Off`.
pub fn metadata_enabled(level: LogLevel, max_level: LogLevel) -> (r: bool)
    requires
        level != LogLevel::Off,
    ensures
        r == (level.rank() <= max_level.rank()),
{
    match max_level {
        LogLevel::Off => false,
        LogLevel::Error => matches!(level, LogLevel::Error),
        LogLevel::Warn => matches!(level, LogLevel::Error | LogLevel::Warn),
        LogLevel::Info => matches!(level, LogLevel::Error | LogLevel::Warn | LogLevel::Info),
        LogLevel::Debug => matches!(
            level,
            LogLevel::Error | LogLevel::Warn | LogLevel::Info | LogLevel::Debug
        ),
        LogLevel::Trace => true,
    }
}

/// The bot runs without arguments, checks its settings where that alone is asked for, and
/// takes nothing else.
pub proof fn arguments_are_taken_one_by_one(arguments: Seq<Seq<char>>)
    ensures
        mode_of(arguments) == Ok::<StartupMode, Seq<char>>(StartupMode::Run) <==> arguments.len() == 0,
        mode_of(arguments) == Ok::<StartupMode, Seq<char>>(StartupMode::CheckConfig) <==> arguments.len() == 1
            && arguments[0] == "--check-config"@,
        mode_of(arguments) is Err <==> arguments.len() > 1 || (arguments.len() == 1 && arguments[0]
            != "--check-config"@),
{
}

/// The levels of logging go by their names, a warning by two, and by no other; what is not
/// set is told of as usual.
pub proof fn levels_go_by_their_names(name: Seq<char>)
    ensures
        level_named(name) == Some(LogLevel::Off) <==> name == "off"@,
        level_named(name) == Some(LogLevel::Error) <==> name == "error"@,
        level_named(name) == Some(LogLevel::Warn) <==> name == "warn"@ || name == "warning"@,
        level_named(name) == Some(LogLevel::Info) <==> name == "info"@,
        level_named(name) == Some(LogLevel::Debug) <==> name == "debug"@,
        level_named(name) == Some(LogLevel::Trace) <==> name == "trace"@,
        level_name(None) == "info"@,
{
    reveal_strlit("off");
    reveal_strlit("error");
    reveal_strlit("warn");
    reveal_strlit("warning");
    reveal_strlit("info");
    reveal_strlit("debug");
    reveal_strlit("trace");
    assert("off"@.len() == 3 && "error"@.len() == 5 && "warn"@.len() == 4 && "warning"@.len() == 7);
    assert("info"@.len() == 4 && "debug"@.len() == 5 && "trace"@.len() == 5);
    assert("warn"@[0] == 'w' && "info"@[0] == 'i' && "error"@[0] == 'e' && "debug"@[0] == 'd' && "trace"@[0] == 't');
}

/// What the bot logs of itself goes by its own names.
pub proof fn own_targets_begin_with_own_names(target: Seq<char>)
    ensures
        is_own_target(target) <==> begins(target, "butler_rs"@) || begins(target, "status_debug"@),
{
}

} // verus!
