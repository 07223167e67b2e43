//! The log level chosen from the `DERIBIT_LOG_LEVEL` setting.

use vstd::prelude::*;
use crate::text::{same_text, to_uppercase, uppercase_text};

verus! {

/// Log verbosity levels.
#[derive(Clone, Copy, Debug, PartialEq, Eq, Structural)]
pub enum LogLevel {
    /// Most verbose
    Trace,
    /// Debugging detail
    Debug,
    /// Informational (the default)
    Info,
    /// Warnings
    Warn,
    /// Errors only
    Error,
}

/// The level a setting selects, compared after upper-casing: `TRACE`,
/// `DEBUG`, `INFO`, `WARN` or `ERROR`; anything else, or no setting, is
/// `Info`.
pub open spec fn level_of(setting: Option<Seq<char>>) -> LogLevel {
    match setting {
        Some(s) => {
            let u = uppercase_text(s);
            if u == "DEBUG"@ {
                LogLevel::Debug
            } else if u == "ERROR"@ {
                LogLevel::Error
            } else if u == "WARN"@ {
                LogLevel::Warn
            } else if u == "TRACE"@ {
                LogLevel::Trace
            } else {
                LogLevel::Info
            }
        },
        None => LogLevel::Info,
    }
}

/// The log level a `DERIBIT_LOG_LEVEL` setting selects.
pub fn log_level_from(setting: Option<&str>) -> (r: LogLevel)
    ensures
        r == level_of(
            match setting {
                Some(s) => Some(s@),
                None => None,
            },
        ),
{
    match setting {
        Some(s) => {
            let u = to_uppercase(s);
            if same_text(u.as_str(), "DEBUG") {
                LogLevel::Debug
            } else if same_text(u.as_str(), "ERROR") {
                LogLevel::Error
            } else if same_text(u.as_str(), "WARN") {
                LogLevel::Warn
            } else if same_text(u.as_str(), "TRACE") {
                LogLevel::Trace
            } else {
                LogLevel::Info
            }
        },
        None => LogLevel::Info,
    }
}

} // verus!
