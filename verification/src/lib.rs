//! A structured-logging adapter library: a severity model with a total
//! order and threshold filtering, a per-thread capture buffer for rendered
//! event text, a forwarding adapter that hands each rendered event to a
//! caller-supplied handler exactly when it is admissible, and a schema
//! describing the C-ABI surface that exposes the adapter to foreign callers.

pub mod adapter;
pub mod buffer;
pub mod config;
pub mod level;
pub mod schema;

pub use adapter::{adapter, configure_logging, Adapter, LogHandler, TracingInitError};
pub use buffer::CaptureBuffer;
pub use config::{LogOutputFormat, LoggingConfig, TimeFormat};
pub use level::{level_enabled, LogLevel};
