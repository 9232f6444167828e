//! The key-separator-value serializer and the flattened message.

use slog_stdlog::ksv::KSV;
use slog_stdlog::message::LazyLogString;
use slog_stdlog::record::KvPair;

fn pair(key: &str, val: &str) -> KvPair {
    KvPair { key: key.to_string(), val: val.to_string() }
}

#[test]
fn ksv_appends_one_fragment_per_pair() {
    let mut ser = KSV::new(String::new());
    ser.emit_arguments("a", "1");
    ser.emit_arguments("b", "2");
    assert_eq!(ser.into_inner(), ", a: 1, b: 2");
}

#[test]
fn ksv_appends_after_existing_contents() {
    let mut ser = KSV::new("head".to_string());
    ser.emit_arguments("k", "v");
    assert_eq!(ser.into_inner(), "head, k: v");
}

#[test]
fn flattening_keeps_encounter_order() {
    let lazy = LazyLogString::new(
        "hello".to_string(),
        vec![vec![pair("a", "1")], vec![pair("b", "2")]],
        vec![pair("c", "3")],
    );
    assert_eq!(lazy.render(), "hello, a: 1, b: 2, c: 3");
}

#[test]
fn flattening_is_deterministic() {
    let make = || {
        LazyLogString::new(
            "m".to_string(),
            vec![vec![pair("x", "0"), pair("y", "1")]],
            vec![],
        )
    };
    assert_eq!(make().render(), make().render());
    assert_eq!(make().render(), "m, x: 0, y: 1");
}

#[test]
fn message_alone_stays_untouched() {
    let lazy = LazyLogString::new("just text".to_string(), vec![], vec![]);
    assert_eq!(lazy.render(), "just text");
}

#[test]
fn empty_message_with_pairs() {
    let lazy = LazyLogString::new(String::new(), vec![], vec![pair("k", "v")]);
    assert_eq!(lazy.render(), ", k: v");
}

#[test]
fn delimiters_inside_values_are_not_escaped() {
    let lazy = LazyLogString::new(
        "m".to_string(),
        vec![],
        vec![pair("k", "x, y: z")],
    );
    assert_eq!(lazy.render(), "m, k: x, y: z");
}
