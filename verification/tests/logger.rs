//! Tests of the log-level gate.

use hsem_sync::logger::{Level, LevelFilter, Logger};

#[test]
fn new_stores_the_configured_ceiling() {
    let logger = Logger::new(LevelFilter::Info);
    assert_eq!(logger.level_filter, LevelFilter::Info);
}

#[test]
fn info_ceiling_passes_up_to_info() {
    let logger = Logger::new(LevelFilter::Info);
    assert!(logger.enabled(Level::Error));
    assert!(logger.enabled(Level::Warn));
    assert!(logger.enabled(Level::Info));
    assert!(!logger.enabled(Level::Debug));
    assert!(!logger.enabled(Level::Trace));
}

#[test]
fn off_drops_everything_and_trace_passes_everything() {
    let off = Logger::new(LevelFilter::Off);
    let trace = Logger::new(LevelFilter::Trace);
    for level in [Level::Error, Level::Warn, Level::Info, Level::Debug, Level::Trace] {
        assert!(!off.enabled(level));
        assert!(trace.enabled(level));
    }
}
