use sfio_tracing_ffi::{
    adapter, CaptureBuffer, LogHandler, LogLevel, LogOutputFormat, LoggingConfig, TimeFormat,
};
use std::cell::RefCell;
use std::rc::Rc;

struct Collector {
    events: Rc<RefCell<Vec<(LogLevel, Vec<u8>)>>>,
}

impl LogHandler for Collector {
    fn on_message(&self, level: LogLevel, message: &[u8]) {
        self.events.borrow_mut().push((level, message.to_vec()));
    }
}

fn warn_text_config() -> LoggingConfig {
    LoggingConfig {
        level: LogLevel::Warn,
        output_format: LogOutputFormat::Text,
        time_format: TimeFormat::NoTimestamp,
        print_level: true,
        print_module_info: false,
    }
}

#[test]
fn event_at_threshold_is_forwarded_once_with_its_level() {
    let events = Rc::new(RefCell::new(Vec::new()));
    let logger = adapter(warn_text_config(), Collector { events: events.clone() });
    let mut buffer = CaptureBuffer::new();

    buffer.write(b"WARN disk low");
    let forwarded = logger.handle_event(LogLevel::Warn, &mut buffer);

    assert_eq!(forwarded, Some(b"WARN disk low".to_vec()));
    let seen = events.borrow();
    assert_eq!(seen.len(), 1);
    assert_eq!(seen[0].0, LogLevel::Warn);
    assert_eq!(seen[0].1, b"WARN disk low".to_vec());
}

#[test]
fn event_below_threshold_is_never_forwarded() {
    let events = Rc::new(RefCell::new(Vec::new()));
    let logger = adapter(warn_text_config(), Collector { events: events.clone() });
    let mut buffer = CaptureBuffer::new();

    buffer.write(b"INFO all fine");
    let forwarded = logger.handle_event(LogLevel::Info, &mut buffer);

    assert!(forwarded.is_none());
    assert!(events.borrow().is_empty());
    assert_eq!(buffer.len(), 0);
}

#[test]
fn event_with_nul_byte_is_dropped_silently() {
    let events = Rc::new(RefCell::new(Vec::new()));
    let logger = adapter(warn_text_config(), Collector { events: events.clone() });
    let mut buffer = CaptureBuffer::new();

    buffer.write(b"ERROR bad\0payload");
    let forwarded = logger.handle_event(LogLevel::Error, &mut buffer);

    assert!(forwarded.is_none());
    assert!(events.borrow().is_empty());
    assert_eq!(buffer.len(), 0);
}

#[test]
fn no_residual_bytes_between_emissions() {
    let events = Rc::new(RefCell::new(Vec::new()));
    let logger = adapter(warn_text_config(), Collector { events: events.clone() });
    let mut buffer = CaptureBuffer::new();

    buffer.write(b"ERROR first\0half");
    assert!(logger.handle_event(LogLevel::Error, &mut buffer).is_none());
    assert_eq!(buffer.len(), 0);

    buffer.write(b"WARN second");
    assert!(logger.handle_event(LogLevel::Warn, &mut buffer).is_some());
    assert_eq!(buffer.len(), 0);

    let seen = events.borrow();
    assert_eq!(seen.len(), 1);
    assert_eq!(seen[0].1, b"WARN second".to_vec());
}

#[test]
fn warn_config_scenario() {
    let events = Rc::new(RefCell::new(Vec::new()));
    let logger = adapter(warn_text_config(), Collector { events: events.clone() });
    let mut buffer = CaptureBuffer::new();

    buffer.write(b"INFO routine");
    assert!(logger.handle_event(LogLevel::Info, &mut buffer).is_none());
    assert!(events.borrow().is_empty());

    buffer.write(b"WARN disk low");
    assert!(logger.handle_event(LogLevel::Warn, &mut buffer).is_some());

    let seen = events.borrow();
    assert_eq!(seen.len(), 1);
    assert_eq!(seen[0].0, LogLevel::Warn);
    let text = String::from_utf8(seen[0].1.clone()).unwrap();
    assert!(text.contains("WARN"));
    assert!(text.contains("disk low"));
}
