//! Severity levels of the two facades and the total mapping between them.
//!
//! The mapping is order-preserving in both directions; the one lossy case is
//! the structured facade's `Critical`, which the basic facade cannot
//! represent and which therefore collapses onto `Error`.

use vstd::prelude::*;

verus! {

/// Severity of the basic, context-free logging facade.
#[derive(Clone, Copy, Debug, PartialEq, Eq, Structural)]
pub enum BasicLevel {
    Trace,
    Debug,
    Info,
    Warn,
    Error,
}

/// Severity of the structured logging facade.
#[derive(Clone, Copy, Debug, PartialEq, Eq, Structural)]
pub enum StructLevel {
    Critical,
    Error,
    Warning,
    Info,
    Debug,
    Trace,
}

/// The basic -> structured severity table.
pub open spec fn spec_basic_to_struct(level: BasicLevel) -> StructLevel {
    match level {
        BasicLevel::Trace => StructLevel::Trace,
        BasicLevel::Debug => StructLevel::Debug,
        BasicLevel::Info => StructLevel::Info,
        BasicLevel::Warn => StructLevel::Warning,
        BasicLevel::Error => StructLevel::Error,
    }
}

/// The structured -> basic severity table; `Critical` collapses onto `Error`.
pub open spec fn spec_struct_to_basic(level: StructLevel) -> BasicLevel {
    match level {
        StructLevel::Critical => BasicLevel::Error,
        StructLevel::Error => BasicLevel::Error,
        StructLevel::Warning => BasicLevel::Warn,
        StructLevel::Info => BasicLevel::Info,
        StructLevel::Debug => BasicLevel::Debug,
        StructLevel::Trace => BasicLevel::Trace,
    }
}

/// Map a basic level to its structured counterpart.
pub fn log_to_slog_level(level: BasicLevel) -> (r: StructLevel)
    ensures
        r == spec_basic_to_struct(level),
{
    match level {
        BasicLevel::Trace => StructLevel::Trace,
        BasicLevel::Debug => StructLevel::Debug,
        BasicLevel::Info => StructLevel::Info,
        BasicLevel::Warn => StructLevel::Warning,
        BasicLevel::Error => StructLevel::Error,
    }
}

/// Map a structured severity to its basic counterpart, collapsing `Critical`
/// onto `Error`.
pub fn slog_to_log_level(level: StructLevel) -> (r: BasicLevel)
    ensures
        r == spec_struct_to_basic(level),
{
    match level {
        StructLevel::Critical => BasicLevel::Error,
        StructLevel::Error => BasicLevel::Error,
        StructLevel::Warning => BasicLevel::Warn,
        StructLevel::Info => BasicLevel::Info,
        StructLevel::Debug => BasicLevel::Debug,
        StructLevel::Trace => BasicLevel::Trace,
    }
}

/// Position of a basic level in the total order
/// Trace < Debug < Info < Warn < Error.
pub open spec fn spec_basic_rank(level: BasicLevel) -> int {
    match level {
        BasicLevel::Trace => 0,
        BasicLevel::Debug => 1,
        BasicLevel::Info => 2,
        BasicLevel::Warn => 3,
        BasicLevel::Error => 4,
    }
}

/// Whether a call at `level` is at or above the minimum severity
/// `threshold`, i.e. severe enough to be dispatched.
pub open spec fn spec_passes_threshold(level: BasicLevel, threshold: BasicLevel) -> bool {
    spec_basic_rank(level) >= spec_basic_rank(threshold)
}

fn basic_rank(level: BasicLevel) -> (r: u8)
    ensures
        r as int == spec_basic_rank(level),
{
    match level {
        BasicLevel::Trace => 0,
        BasicLevel::Debug => 1,
        BasicLevel::Info => 2,
        BasicLevel::Warn => 3,
        BasicLevel::Error => 4,
    }
}

/// Decide whether a call at `level` is at or above `threshold`.
pub fn passes_threshold(level: BasicLevel, threshold: BasicLevel) -> (r: bool)
    ensures
        r == spec_passes_threshold(level, threshold),
{
    basic_rank(level) >= basic_rank(threshold)
}

/// Round trip: every basic level survives translation to the structured
/// facade and back.
pub proof fn lemma_basic_level_round_trip(level: BasicLevel)
    ensures
        spec_struct_to_basic(spec_basic_to_struct(level)) == level,
{
}

/// Round trip: every structured severity other than `Critical` survives
/// translation to the basic facade and back.
pub proof fn lemma_struct_level_round_trip(level: StructLevel)
    requires
        level != StructLevel::Critical,
    ensures
        spec_basic_to_struct(spec_struct_to_basic(level)) == level,
{
}

/// The one lossy case: `Critical` has no basic counterpart, so its round
/// trip lands on `Error`.
pub proof fn lemma_critical_collapses_to_error()
    ensures
        spec_basic_to_struct(spec_struct_to_basic(StructLevel::Critical)) == StructLevel::Error,
{
}

} // verus!
