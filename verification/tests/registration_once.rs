use sfio_tracing_ffi::{configure_logging, TracingInitError};

struct NullSubscriber;

impl tracing::Subscriber for NullSubscriber {
    fn enabled(&self, _metadata: &tracing::Metadata<'_>) -> bool {
        false
    }

    fn new_span(&self, _span: &tracing::span::Attributes<'_>) -> tracing::span::Id {
        tracing::span::Id::from_u64(1)
    }

    fn record(&self, _span: &tracing::span::Id, _values: &tracing::span::Record<'_>) {}

    fn record_follows_from(&self, _span: &tracing::span::Id, _follows: &tracing::span::Id) {}

    fn event(&self, _event: &tracing::Event<'_>) {}

    fn enter(&self, _span: &tracing::span::Id) {}

    fn exit(&self, _span: &tracing::span::Id) {}
}

#[test]
fn registering_twice_fails_with_init_error() {
    let first = configure_logging(NullSubscriber);
    assert!(first.is_ok());

    let second = configure_logging(NullSubscriber);
    assert_eq!(second, Err(TracingInitError));

    let third = configure_logging(NullSubscriber);
    assert_eq!(third, Err(TracingInitError));
}
