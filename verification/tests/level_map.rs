//! The severity mapping between the two facades.

use slog_stdlog::levels::log_to_slog_level;
use slog_stdlog::levels::passes_threshold;
use slog_stdlog::levels::slog_to_log_level;
use slog_stdlog::levels::BasicLevel;
use slog_stdlog::levels::StructLevel;

#[test]
fn basic_levels_map_by_the_table() {
    assert_eq!(log_to_slog_level(BasicLevel::Trace), StructLevel::Trace);
    assert_eq!(log_to_slog_level(BasicLevel::Debug), StructLevel::Debug);
    assert_eq!(log_to_slog_level(BasicLevel::Info), StructLevel::Info);
    assert_eq!(log_to_slog_level(BasicLevel::Warn), StructLevel::Warning);
    assert_eq!(log_to_slog_level(BasicLevel::Error), StructLevel::Error);
}

#[test]
fn every_basic_level_round_trips() {
    let levels = vec![
        BasicLevel::Trace,
        BasicLevel::Debug,
        BasicLevel::Info,
        BasicLevel::Warn,
        BasicLevel::Error,
    ];
    for level in levels {
        assert_eq!(slog_to_log_level(log_to_slog_level(level)), level);
    }
}

#[test]
fn every_struct_level_but_critical_round_trips() {
    let levels = vec![
        StructLevel::Error,
        StructLevel::Warning,
        StructLevel::Info,
        StructLevel::Debug,
        StructLevel::Trace,
    ];
    for level in levels {
        assert_eq!(log_to_slog_level(slog_to_log_level(level)), level);
    }
}

#[test]
fn critical_collapses_onto_error() {
    assert_eq!(slog_to_log_level(StructLevel::Critical), BasicLevel::Error);
    assert_eq!(
        log_to_slog_level(slog_to_log_level(StructLevel::Critical)),
        StructLevel::Error
    );
}

#[test]
fn threshold_follows_the_severity_order() {
    assert!(passes_threshold(BasicLevel::Error, BasicLevel::Info));
    assert!(passes_threshold(BasicLevel::Info, BasicLevel::Info));
    assert!(!passes_threshold(BasicLevel::Debug, BasicLevel::Info));
    assert!(!passes_threshold(BasicLevel::Trace, BasicLevel::Error));
    assert!(passes_threshold(BasicLevel::Trace, BasicLevel::Trace));
}
