//! Configuration of the process-wide logger.

use vstd::prelude::*;
use crate::level::LogLevel;

verus! {

/// Whether and how a timestamp is rendered into each message.
#[derive(Copy, Clone, Debug, PartialEq, Eq, Structural)]
pub enum TimeFormat {
    /// No timestamp in the message.
    NoTimestamp,
    /// An RFC 3339 timestamp.
    Rfc3339,
    /// A human-readable local form, e.g. `Jun 25 14:27:12.955`.
    System,
}

/// How each rendered event is laid out.
#[derive(Copy, Clone, Debug, PartialEq, Eq, Structural)]
pub enum LogOutputFormat {
    /// A simple text-based format.
    Text,
    /// The event formatted as JSON.
    Json,
}

/// Options for the process-wide logger: the severity threshold, the layout
/// of each message, and which metadata the engine renders into it.
#[derive(Copy, Clone, Debug, PartialEq, Eq, Structural)]
pub struct LoggingConfig {
    /// Severity threshold: only events at or above it reach the callback.
    pub level: LogLevel,
    /// Layout of each rendered event.
    pub output_format: LogOutputFormat,
    /// Whether and how a timestamp is rendered.
    pub time_format: TimeFormat,
    /// Whether the severity is rendered into the message text.
    pub print_level: bool,
    /// Whether the emitting module's path is rendered into the message text.
    pub print_module_info: bool,
}

/// The default configuration: threshold `info`, text output, the
/// human-readable timestamp, the severity printed, the module path not.
pub open spec fn spec_default_config() -> LoggingConfig {
    LoggingConfig {
        level: LogLevel::Info,
        output_format: LogOutputFormat::Text,
        time_format: TimeFormat::System,
        print_level: true,
        print_module_info: false,
    }
}

impl Default for LoggingConfig {
    fn default() -> (r: Self)
        ensures
            r == spec_default_config(),
    {
        LoggingConfig {
            level: LogLevel::Info,
            output_format: LogOutputFormat::Text,
            time_format: TimeFormat::System,
            print_level: true,
            print_module_info: false,
        }
    }
}

} // verus!
