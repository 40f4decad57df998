use sfio_tracing_ffi::{level_enabled, LogLevel};

#[test]
fn severity_ranks_are_ordered() {
    let trace = LogLevel::Trace.severity();
    let debug = LogLevel::Debug.severity();
    let info = LogLevel::Info.severity();
    let warn = LogLevel::Warn.severity();
    let error = LogLevel::Error.severity();
    assert!(trace < debug);
    assert!(debug < info);
    assert!(info < warn);
    assert!(warn < error);
    assert_eq!(trace, 0);
    assert_eq!(debug, 1);
    assert_eq!(info, 2);
    assert_eq!(warn, 3);
    assert_eq!(error, 4);
}

#[test]
fn filtering_admits_at_or_above_threshold() {
    let all = [
        LogLevel::Trace,
        LogLevel::Debug,
        LogLevel::Info,
        LogLevel::Warn,
        LogLevel::Error,
    ];
    for threshold in all {
        for event in all {
            assert_eq!(
                level_enabled(threshold, event),
                event.severity() >= threshold.severity()
            );
        }
    }
}

#[test]
fn warn_threshold_truth_table() {
    assert!(!level_enabled(LogLevel::Warn, LogLevel::Trace));
    assert!(!level_enabled(LogLevel::Warn, LogLevel::Debug));
    assert!(!level_enabled(LogLevel::Warn, LogLevel::Info));
    assert!(level_enabled(LogLevel::Warn, LogLevel::Warn));
    assert!(level_enabled(LogLevel::Warn, LogLevel::Error));
}

#[test]
fn rank_round_trip() {
    for rank in 0u8..=4 {
        let level = LogLevel::from_rank(rank).unwrap();
        assert_eq!(level.severity(), rank);
    }
    assert!(LogLevel::from_rank(5).is_none());
    assert!(LogLevel::from_rank(255).is_none());
}
