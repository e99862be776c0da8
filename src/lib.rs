//! A process-embedded logging facility: leveled messages are decorated,
//! routed to the console, to a date-stamped file, or both, and the active
//! log file is rotated aside once it grows too large or too old.
//!
//! The library decides; the host performs the I/O. Every routing, naming,
//! rotation and validation decision is a verified function over plain values.

pub mod config;
pub mod log_rotator;
pub mod log_file;

pub use crate::config::{LogLevel, LogVariables, LogVariablesImpl};
pub mod set_log;
pub mod tracer_config;

pub use crate::log_file::{log_message, ConsoleStream, Dispatch};
pub use crate::log_rotator::{FileMeta, LogConfig, LogPath, LogRotatorConfig};
pub use crate::set_log::{set_log_level, set_log_path, PathError, PathFacts};
pub use crate::tracer_config::{
    get_tracer_config, set_tracer_config, Loggable, TimestampType, TracerConfiguration, TypeName,
};

use vstd::prelude::*;

verus! {

/// Routes an error message.
pub fn error(vars: &LogVariablesImpl, now: &str, message: &str) -> (r: Dispatch)
    ensures
        r.record@ == log_file::rendered("ERROR"@, now@, message@),
        r.console == (if log_file::goes_to_console(vars.level) {
            Some(ConsoleStream::Stderr)
        } else {
            None
        }),
        r.to_file == log_file::goes_to_file(vars.level),
{
    log_message(vars, "ERROR", now, message)
}

/// Routes a warning.
pub fn warn(vars: &LogVariablesImpl, now: &str, message: &str) -> (r: Dispatch)
    ensures
        r.record@ == log_file::rendered("WARN"@, now@, message@),
        r.console == (if log_file::goes_to_console(vars.level) {
            Some(ConsoleStream::Stderr)
        } else {
            None
        }),
        r.to_file == log_file::goes_to_file(vars.level),
{
    log_message(vars, "WARN", now, message)
}

/// Routes an informational message.
pub fn info(vars: &LogVariablesImpl, now: &str, message: &str) -> (r: Dispatch)
    ensures
        r.record@ == log_file::rendered("INFO"@, now@, message@),
        r.console == (if log_file::goes_to_console(vars.level) {
            Some(ConsoleStream::Stdout)
        } else {
            None
        }),
        r.to_file == log_file::goes_to_file(vars.level),
{
    proof {
        reveal_strlit("INFO");
        reveal_strlit("ERROR");
        reveal_strlit("WARN");
        assert("INFO"@[0] != "ERROR"@[0] && "INFO"@[0] != "WARN"@[0]);
    }
    log_message(vars, "INFO", now, message)
}

/// Routes a debug message.
pub fn debug(vars: &LogVariablesImpl, now: &str, message: &str) -> (r: Dispatch)
    ensures
        r.record@ == log_file::rendered("DEBUG"@, now@, message@),
        r.console == (if log_file::goes_to_console(vars.level) {
            Some(ConsoleStream::Stdout)
        } else {
            None
        }),
        r.to_file == log_file::goes_to_file(vars.level),
{
    proof {
        reveal_strlit("DEBUG");
        reveal_strlit("ERROR");
        reveal_strlit("WARN");
        assert("DEBUG"@[0] != "ERROR"@[0] && "DEBUG"@[0] != "WARN"@[0]);
    }
    log_message(vars, "DEBUG", now, message)
}

/// Routes a trace message.
pub fn trace(vars: &LogVariablesImpl, now: &str, message: &str) -> (r: Dispatch)
    ensures
        r.record@ == log_file::rendered("TRACE"@, now@, message@),
        r.console == (if log_file::goes_to_console(vars.level) {
            Some(ConsoleStream::Stdout)
        } else {
            None
        }),
        r.to_file == log_file::goes_to_file(vars.level),
{
    proof {
        reveal_strlit("TRACE");
        reveal_strlit("ERROR");
        reveal_strlit("WARN");
        assert("TRACE"@[0] != "ERROR"@[0] && "TRACE"@[0] != "WARN"@[0]);
    }
    log_message(vars, "TRACE", now, message)
}

} // verus!
