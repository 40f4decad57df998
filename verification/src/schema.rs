//! The schema of the C-ABI surface.
//!
//! Declares, as plain data, the shape of what is exposed to foreign
//! callers: the three enums, the configuration record with its default
//! values, the callback interface, and the one static function that
//! registers the logger. A build-time driver walks this data to emit the
//! binding glue; the contracts here pin every name, variant, field and
//! default, and tie the record's defaults to [`LoggingConfig::default`].

use vstd::prelude::*;
use crate::config::{spec_default_config, LogOutputFormat, LoggingConfig, TimeFormat};
use crate::level::LogLevel;

verus! {

/// One named value of a schema enum.
pub struct EnumVariant {
    pub name: String,
    pub doc: String,
}

/// An enum of the C-ABI surface.
pub struct EnumSchema {
    pub name: String,
    pub doc: String,
    /// Further documentation paragraphs, possibly none.
    pub details: Vec<String>,
    pub variants: Vec<EnumVariant>,
}

/// The type of one configuration field.
pub enum FieldKind {
    /// A schema enum, named.
    EnumRef(String),
    /// A boolean flag.
    Bool,
}

/// A configuration field's default value.
pub enum DefaultValue {
    /// A variant of the field's enum, named.
    Variant(String),
    /// A boolean.
    Bool(bool),
}

/// One field of the configuration record.
pub struct FieldSchema {
    pub name: String,
    pub kind: FieldKind,
    pub doc: String,
    pub default_value: DefaultValue,
}

/// The configuration record of the C-ABI surface, with the initializer that
/// fills every field from its default value.
pub struct StructSchema {
    pub name: String,
    pub doc: String,
    pub fields: Vec<FieldSchema>,
    pub initializer_name: String,
    pub initializer_doc: String,
}

/// The type of one callback or function parameter.
pub enum ParamKind {
    /// A schema enum, named.
    EnumRef(String),
    /// A schema record, named.
    StructRef(String),
    /// A schema interface, named.
    InterfaceRef(String),
    /// Plain text.
    StringType,
}

/// One parameter of a callback or function.
pub struct ParamSchema {
    pub name: String,
    pub kind: ParamKind,
    pub doc: String,
}

/// The one operation of the callback interface.
pub struct CallbackSchema {
    pub name: String,
    pub doc: String,
    pub params: Vec<ParamSchema>,
}

/// The callback interface supplied by the foreign caller.
pub struct InterfaceSchema {
    pub name: String,
    pub doc: String,
    pub callback: CallbackSchema,
}

/// The one exposed function, a static method of a class.
pub struct FunctionSchema {
    pub name: String,
    pub doc: String,
    /// Further documentation paragraphs, possibly none.
    pub details: Vec<String>,
    pub params: Vec<ParamSchema>,
    /// Whether the function reports failure through the library's error type.
    pub fails: bool,
    pub static_method_name: String,
    pub class_name: String,
    pub class_doc: String,
}

/// The whole C-ABI surface.
pub struct LibrarySchema {
    pub log_level: EnumSchema,
    pub time_format: EnumSchema,
    pub output_format: EnumSchema,
    pub config: StructSchema,
    pub logger: InterfaceSchema,
    pub configure: FunctionSchema,
}

/// The schema name of each severity.
pub open spec fn spec_level_name(l: LogLevel) -> Seq<char> {
    match l {
        LogLevel::Error => "error"@,
        LogLevel::Warn => "warn"@,
        LogLevel::Info => "info"@,
        LogLevel::Debug => "debug"@,
        LogLevel::Trace => "trace"@,
    }
}

/// The schema name of each time format.
pub open spec fn spec_time_format_name(t: TimeFormat) -> Seq<char> {
    match t {
        TimeFormat::NoTimestamp => "none"@,
        TimeFormat::Rfc3339 => "rfc_3339"@,
        TimeFormat::System => "system"@,
    }
}

/// The schema name of each output format.
pub open spec fn spec_output_format_name(o: LogOutputFormat) -> Seq<char> {
    match o {
        LogOutputFormat::Text => "text"@,
        LogOutputFormat::Json => "json"@,
    }
}

/// The schema name of a severity.
pub fn level_name(l: LogLevel) -> (r: String)
    ensures
        r@ == spec_level_name(l),
{
    match l {
        LogLevel::Error => String::from_str("error"),
        LogLevel::Warn => String::from_str("warn"),
        LogLevel::Info => String::from_str("info"),
        LogLevel::Debug => String::from_str("debug"),
        LogLevel::Trace => String::from_str("trace"),
    }
}

/// The schema name of a time format.
pub fn time_format_name(t: TimeFormat) -> (r: String)
    ensures
        r@ == spec_time_format_name(t),
{
    match t {
        TimeFormat::NoTimestamp => String::from_str("none"),
        TimeFormat::Rfc3339 => String::from_str("rfc_3339"),
        TimeFormat::System => String::from_str("system"),
    }
}

/// The schema name of an output format.
pub fn output_format_name(o: LogOutputFormat) -> (r: String)
    ensures
        r@ == spec_output_format_name(o),
{
    match o {
        LogOutputFormat::Text => String::from_str("text"),
        LogOutputFormat::Json => String::from_str("json"),
    }
}

/// The `log_level` enum: one variant per severity, highest first.
pub open spec fn is_log_level_schema(e: EnumSchema) -> bool {
    &&& e.name@ == "log_level"@
    &&& e.doc@ == "Log level"@
    &&& e.details@.len() == 1
    &&& e.details@[0]@
        == "Used in {interface:logger.on_message()} callback to identify the log level of a message."@
    &&& e.variants@.len() == 5
    &&& e.variants@[0].name@ == spec_level_name(LogLevel::Error)
    &&& e.variants@[1].name@ == spec_level_name(LogLevel::Warn)
    &&& e.variants@[2].name@ == spec_level_name(LogLevel::Info)
    &&& e.variants@[3].name@ == spec_level_name(LogLevel::Debug)
    &&& e.variants@[4].name@ == spec_level_name(LogLevel::Trace)
    &&& e.variants@[0].doc@ == "Error log level"@
    &&& e.variants@[1].doc@ == "Warning log level"@
    &&& e.variants@[2].doc@ == "Information log level"@
    &&& e.variants@[3].doc@ == "Debugging log level"@
    &&& e.variants@[4].doc@ == "Trace log level"@
}

/// The `time_format` enum.
pub open spec fn is_time_format_schema(e: EnumSchema) -> bool {
    &&& e.name@ == "time_format"@
    &&& e.doc@ == "Describes if and how the time will be formatted in log messages"@
    &&& e.details@.len() == 0
    &&& e.variants@.len() == 3
    &&& e.variants@[0].name@ == spec_time_format_name(TimeFormat::NoTimestamp)
    &&& e.variants@[1].name@ == spec_time_format_name(TimeFormat::Rfc3339)
    &&& e.variants@[2].name@ == spec_time_format_name(TimeFormat::System)
    &&& e.variants@[0].doc@ == "Don't format the timestamp as part of the message"@
    &&& e.variants@[1].doc@ == "Format the time using RFC 3339"@
    &&& e.variants@[2].doc@ == "Format the time in a human readable format e.g. 'Jun 25 14:27:12.955'"@
}

/// The `log_output_format` enum.
pub open spec fn is_output_format_schema(e: EnumSchema) -> bool {
    &&& e.name@ == "log_output_format"@
    &&& e.doc@ == "Describes how each log event is formatted"@
    &&& e.details@.len() == 0
    &&& e.variants@.len() == 2
    &&& e.variants@[0].name@ == spec_output_format_name(LogOutputFormat::Text)
    &&& e.variants@[1].name@ == spec_output_format_name(LogOutputFormat::Json)
    &&& e.variants@[0].doc@ == "A simple text-based format"@
    &&& e.variants@[1].doc@ == "Output formatted as JSON"@
}

/// The `logging_config` record: five fields whose default values are
/// exactly the names of [`spec_default_config`]'s fields.
pub open spec fn is_logging_config_schema(s: StructSchema) -> bool {
    &&& s.name@ == "logging_config"@
    &&& s.doc@ == "Logging configuration options"@
    &&& s.fields@.len() == 5
    &&& s.fields@[0].name@ == "level"@
    &&& (s.fields@[0].kind matches FieldKind::EnumRef(n) && n@ == "log_level"@)
    &&& s.fields@[0].doc@ == "logging level"@
    &&& (s.fields@[0].default_value matches DefaultValue::Variant(v)
        && v@ == spec_level_name(spec_default_config().level))
    &&& s.fields@[1].name@ == "output_format"@
    &&& (s.fields@[1].kind matches FieldKind::EnumRef(n) && n@ == "log_output_format"@)
    &&& s.fields@[1].doc@ == "output formatting options"@
    &&& (s.fields@[1].default_value matches DefaultValue::Variant(v)
        && v@ == spec_output_format_name(spec_default_config().output_format))
    &&& s.fields@[2].name@ == "time_format"@
    &&& (s.fields@[2].kind matches FieldKind::EnumRef(n) && n@ == "time_format"@)
    &&& s.fields@[2].doc@ == "optional time format"@
    &&& (s.fields@[2].default_value matches DefaultValue::Variant(v)
        && v@ == spec_time_format_name(spec_default_config().time_format))
    &&& s.fields@[3].name@ == "print_level"@
    &&& s.fields@[3].kind is Bool
    &&& s.fields@[3].doc@ == "optionally print the log level as part to the message string"@
    &&& s.fields@[3].default_value == DefaultValue::Bool(spec_default_config().print_level)
    &&& s.fields@[4].name@ == "print_module_info"@
    &&& s.fields@[4].kind is Bool
    &&& s.fields@[4].doc@
        == "optionally print the underlying Rust module information to the message string"@
    &&& s.fields@[4].default_value == DefaultValue::Bool(spec_default_config().print_module_info)
    &&& s.initializer_name@ == "init"@
    &&& s.initializer_doc@ == "Initialize the configuration to default values"@
}

/// The `logger` interface: one callback, `on_message(level, message)`.
pub open spec fn is_logger_interface_schema(i: InterfaceSchema) -> bool {
    &&& i.name@ == "logger"@
    &&& i.doc@ == "Logging interface that receives the log messages and writes them somewhere."@
    &&& i.callback.name@ == "on_message"@
    &&& i.callback.doc@ == "Called when a log message was received and should be logged"@
    &&& i.callback.params@.len() == 2
    &&& i.callback.params@[0].name@ == "level"@
    &&& (i.callback.params@[0].kind matches ParamKind::EnumRef(n) && n@ == "log_level"@)
    &&& i.callback.params@[0].doc@ == "Level of the message"@
    &&& i.callback.params@[1].name@ == "message"@
    &&& i.callback.params@[1].kind is StringType
    &&& i.callback.params@[1].doc@ == "Actual formatted message"@
}

/// The `configure_logging` function: a static method `configure` of the
/// class `logging`, taking the configuration and the logger, able to fail.
pub open spec fn is_configure_logging_schema(f: FunctionSchema) -> bool {
    &&& f.name@ == "configure_logging"@
    &&& f.doc@ == "Set the callback that will receive all the log messages"@
    &&& f.details@.len() == 2
    &&& f.details@[0]@
        == "There is only a single globally allocated logger. Calling this method a second time will return an error."@
    &&& f.details@[1]@ == "If this method is never called, no logging will be performed."@
    &&& f.params@.len() == 2
    &&& f.params@[0].name@ == "config"@
    &&& (f.params@[0].kind matches ParamKind::StructRef(n) && n@ == "logging_config"@)
    &&& f.params@[0].doc@ == "Configuration options for logging"@
    &&& f.params@[1].name@ == "logger"@
    &&& (f.params@[1].kind matches ParamKind::InterfaceRef(n) && n@ == "logger"@)
    &&& f.params@[1].doc@ == "Logger that will receive each logged message"@
    &&& f.fails
    &&& f.static_method_name@ == "configure"@
    &&& f.class_name@ == "logging"@
    &&& f.class_doc@ == "Provides a static method for configuring logging"@
}

/// The `log_level` enum of the C-ABI surface.
pub fn log_level_schema() -> (r: EnumSchema)
    ensures
        is_log_level_schema(r),
{
    let mut variants: Vec<EnumVariant> = Vec::new();
    variants.push(EnumVariant {
        name: level_name(LogLevel::Error),
        doc: String::from_str("Error log level"),
    });
    variants.push(EnumVariant {
        name: level_name(LogLevel::Warn),
        doc: String::from_str("Warning log level"),
    });
    variants.push(EnumVariant {
        name: level_name(LogLevel::Info),
        doc: String::from_str("Information log level"),
    });
    variants.push(EnumVariant {
        name: level_name(LogLevel::Debug),
        doc: String::from_str("Debugging log level"),
    });
    variants.push(EnumVariant {
        name: level_name(LogLevel::Trace),
        doc: String::from_str("Trace log level"),
    });
    let mut details: Vec<String> = Vec::new();
    details.push(String::from_str(
        "Used in {interface:logger.on_message()} callback to identify the log level of a message.",
    ));
    EnumSchema {
        name: String::from_str("log_level"),
        doc: String::from_str("Log level"),
        details,
        variants,
    }
}

/// The `time_format` enum of the C-ABI surface.
pub fn time_format_schema() -> (r: EnumSchema)
    ensures
        is_time_format_schema(r),
{
    let mut variants: Vec<EnumVariant> = Vec::new();
    variants.push(EnumVariant {
        name: time_format_name(TimeFormat::NoTimestamp),
        doc: String::from_str("Don't format the timestamp as part of the message"),
    });
    variants.push(EnumVariant {
        name: time_format_name(TimeFormat::Rfc3339),
        doc: String::from_str("Format the time using RFC 3339"),
    });
    variants.push(EnumVariant {
        name: time_format_name(TimeFormat::System),
        doc: String::from_str("Format the time in a human readable format e.g. 'Jun 25 14:27:12.955'"),
    });
    EnumSchema {
        name: String::from_str("time_format"),
        doc: String::from_str("Describes if and how the time will be formatted in log messages"),
        details: Vec::new(),
        variants,
    }
}

/// The `log_output_format` enum of the C-ABI surface.
pub fn log_output_format_schema() -> (r: EnumSchema)
    ensures
        is_output_format_schema(r),
{
    let mut variants: Vec<EnumVariant> = Vec::new();
    variants.push(EnumVariant {
        name: output_format_name(LogOutputFormat::Text),
        doc: String::from_str("A simple text-based format"),
    });
    variants.push(EnumVariant {
        name: output_format_name(LogOutputFormat::Json),
        doc: String::from_str("Output formatted as JSON"),
    });
    EnumSchema {
        name: String::from_str("log_output_format"),
        doc: String::from_str("Describes how each log event is formatted"),
        details: Vec::new(),
        variants,
    }
}

/// The `logging_config` record of the C-ABI surface; its default values are
/// taken from [`LoggingConfig::default`], so record and runtime default
/// cannot drift apart.
pub fn logging_config_schema() -> (r: StructSchema)
    ensures
        is_logging_config_schema(r),
{
    let defaults = LoggingConfig::default();
    let mut fields: Vec<FieldSchema> = Vec::new();
    fields.push(FieldSchema {
        name: String::from_str("level"),
        kind: FieldKind::EnumRef(String::from_str("log_level")),
        doc: String::from_str("logging level"),
        default_value: DefaultValue::Variant(level_name(defaults.level)),
    });
    fields.push(FieldSchema {
        name: String::from_str("output_format"),
        kind: FieldKind::EnumRef(String::from_str("log_output_format")),
        doc: String::from_str("output formatting options"),
        default_value: DefaultValue::Variant(output_format_name(defaults.output_format)),
    });
    fields.push(FieldSchema {
        name: String::from_str("time_format"),
        kind: FieldKind::EnumRef(String::from_str("time_format")),
        doc: String::from_str("optional time format"),
        default_value: DefaultValue::Variant(time_format_name(defaults.time_format)),
    });
    fields.push(FieldSchema {
        name: String::from_str("print_level"),
        kind: FieldKind::Bool,
        doc: String::from_str("optionally print the log level as part to the message string"),
        default_value: DefaultValue::Bool(defaults.print_level),
    });
    fields.push(FieldSchema {
        name: String::from_str("print_module_info"),
        kind: FieldKind::Bool,
        doc: String::from_str(
            "optionally print the underlying Rust module information to the message string",
        ),
        default_value: DefaultValue::Bool(defaults.print_module_info),
    });
    StructSchema {
        name: String::from_str("logging_config"),
        doc: String::from_str("Logging configuration options"),
        fields,
        initializer_name: String::from_str("init"),
        initializer_doc: String::from_str("Initialize the configuration to default values"),
    }
}

/// The `logger` callback interface of the C-ABI surface.
pub fn logger_interface_schema() -> (r: InterfaceSchema)
    ensures
        is_logger_interface_schema(r),
{
    let mut params: Vec<ParamSchema> = Vec::new();
    params.push(ParamSchema {
        name: String::from_str("level"),
        kind: ParamKind::EnumRef(String::from_str("log_level")),
        doc: String::from_str("Level of the message"),
    });
    params.push(ParamSchema {
        name: String::from_str("message"),
        kind: ParamKind::StringType,
        doc: String::from_str("Actual formatted message"),
    });
    InterfaceSchema {
        name: String::from_str("logger"),
        doc: String::from_str(
            "Logging interface that receives the log messages and writes them somewhere.",
        ),
        callback: CallbackSchema {
            name: String::from_str("on_message"),
            doc: String::from_str("Called when a log message was received and should be logged"),
            params,
        },
    }
}

/// The `configure_logging` function of the C-ABI surface.
pub fn configure_logging_schema() -> (r: FunctionSchema)
    ensures
        is_configure_logging_schema(r),
{
    let mut params: Vec<ParamSchema> = Vec::new();
    params.push(ParamSchema {
        name: String::from_str("config"),
        kind: ParamKind::StructRef(String::from_str("logging_config")),
        doc: String::from_str("Configuration options for logging"),
    });
    params.push(ParamSchema {
        name: String::from_str("logger"),
        kind: ParamKind::InterfaceRef(String::from_str("logger")),
        doc: String::from_str("Logger that will receive each logged message"),
    });
    let mut details: Vec<String> = Vec::new();
    details.push(String::from_str(
        "There is only a single globally allocated logger. Calling this method a second time will return an error.",
    ));
    details.push(String::from_str("If this method is never called, no logging will be performed."));
    FunctionSchema {
        name: String::from_str("configure_logging"),
        doc: String::from_str("Set the callback that will receive all the log messages"),
        details,
        params,
        fails: true,
        static_method_name: String::from_str("configure"),
        class_name: String::from_str("logging"),
        class_doc: String::from_str("Provides a static method for configuring logging"),
    }
}

/// The whole C-ABI surface: every enum, the configuration record, the
/// callback interface, and the one exposed function.
pub fn library_schema() -> (r: LibrarySchema)
    ensures
        is_log_level_schema(r.log_level),
        is_time_format_schema(r.time_format),
        is_output_format_schema(r.output_format),
        is_logging_config_schema(r.config),
        is_logger_interface_schema(r.logger),
        is_configure_logging_schema(r.configure),
{
    LibrarySchema {
        log_level: log_level_schema(),
        time_format: time_format_schema(),
        output_format: log_output_format_schema(),
        config: logging_config_schema(),
        logger: logger_interface_schema(),
        configure: configure_logging_schema(),
    }
}

} // verus!
