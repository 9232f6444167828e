//! The basic -> structured direction: singleton registration, threshold
//! dispatch, and event forwarding.

use slog_stdlog::backend::AlreadyRegisteredError;
use slog_stdlog::backend::BackendSlot;
use slog_stdlog::backend::Logger;
use slog_stdlog::init;
use slog_stdlog::init_with_level;
use slog_stdlog::levels::BasicLevel;
use slog_stdlog::levels::StructLevel;
use slog_stdlog::record::BasicRecord;
use slog_stdlog::StdLog;

fn basic_record(level: BasicLevel, target: &str, msg: &str) -> BasicRecord {
    BasicRecord {
        level,
        target: target.to_string(),
        module: "app::disk".to_string(),
        file: "src/disk.rs".to_string(),
        line: 17,
        msg: msg.to_string(),
    }
}

#[test]
fn registration_claims_the_slot_once() {
    let mut slot = BackendSlot::new();
    assert!(init_with_level(&mut slot, BasicLevel::Info).is_ok());
    assert_eq!(
        init_with_level(&mut slot, BasicLevel::Error),
        Err(AlreadyRegisteredError)
    );
    assert_eq!(init(&mut slot), Err(AlreadyRegisteredError));
    // the first registration stays active with its threshold
    assert!(slot.dispatch(basic_record(BasicLevel::Info, "t", "m")).is_some());
}

#[test]
fn calls_below_the_threshold_never_reach_the_backend() {
    let mut slot = BackendSlot::new();
    init_with_level(&mut slot, BasicLevel::Info).unwrap();
    assert!(slot.dispatch(basic_record(BasicLevel::Debug, "t", "m")).is_none());
    assert!(slot.dispatch(basic_record(BasicLevel::Trace, "t", "m")).is_none());
    assert!(slot.dispatch(basic_record(BasicLevel::Warn, "t", "m")).is_some());
}

#[test]
fn nothing_is_dispatched_before_registration() {
    let slot = BackendSlot::new();
    assert!(slot.dispatch(basic_record(BasicLevel::Error, "t", "m")).is_none());
}

#[test]
fn default_registration_lets_everything_through() {
    let mut slot = BackendSlot::new();
    init(&mut slot).unwrap();
    assert!(slot.dispatch(basic_record(BasicLevel::Trace, "t", "m")).is_some());
}

#[test]
fn registration_configures_the_facade_level_knob() {
    let mut slot = BackendSlot::new();
    init_with_level(&mut slot, BasicLevel::Warn).unwrap();
    assert_eq!(log::max_level(), log::LevelFilter::Warn);
}

#[test]
fn the_backend_itself_filters_nothing() {
    assert!(Logger.enabled());
}

#[test]
fn forwarding_scenario_produces_one_structured_event() {
    let mut slot = BackendSlot::new();
    init_with_level(&mut slot, BasicLevel::Info).unwrap();
    let msg = format!("disk at {}%", 87);
    let ev = slot
        .dispatch(basic_record(BasicLevel::Warn, "app", &msg))
        .unwrap();
    assert_eq!(ev.level, StructLevel::Warning);
    assert_eq!(ev.msg, "disk at 87%");
    assert!(ev.kvs.is_empty());
    assert_eq!(ev.tag, "app");
}

#[test]
fn forwarded_call_sites_fill_the_untracked_fields() {
    let mut slot = BackendSlot::new();
    init(&mut slot).unwrap();
    let ev = slot.dispatch(basic_record(BasicLevel::Info, "t", "m")).unwrap();
    assert_eq!(ev.site.module, "app::disk");
    assert_eq!(ev.site.file, "src/disk.rs");
    assert_eq!(ev.site.line, 17);
    assert_eq!(ev.site.column, 0);
    assert_eq!(ev.site.function, "");
}

// Routing the basic facade's backend into a structured pipeline whose drain
// is StdLog, itself emitting back into the basic facade, is an expected
// stack-exhaustion scenario: neither adapter performs cycle detection, so
// the real wiring would recurse without bound.  This test walks exactly one
// turn of that cycle on plain values and is deliberately not a claim that
// such a configuration succeeds.
#[test]
fn one_turn_of_a_routing_cycle_comes_straight_back() {
    let mut slot = BackendSlot::new();
    init(&mut slot).unwrap();
    let ev = slot.dispatch(basic_record(BasicLevel::Info, "app", "ping")).unwrap();
    let out = StdLog.log(ev, vec![]).unwrap();
    let again = BasicRecord {
        level: out.level,
        target: out.target,
        module: out.module,
        file: out.file,
        line: out.line,
        msg: out.message.render(),
    };
    // nothing in the core breaks the loop: the re-emitted call is
    // dispatched right back to the backend
    assert!(slot.dispatch(again).is_some());
}
