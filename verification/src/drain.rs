//! The structured -> basic direction: a drain that turns one structured
//! event into one call through the basic facade.

use vstd::prelude::*;
use crate::levels::BasicLevel;
use crate::levels::spec_struct_to_basic;
use crate::levels::slog_to_log_level;
use crate::message::LazyLogString;
use crate::record::KvPair;
use crate::record::StructRecord;

verus! {

/// Drain structured records into the basic facade.
///
/// Any record passing through this drain is translated into a single basic
/// call: severity mapped (with `Critical` collapsing onto `Error`), target
/// resolved to the record's tag or, when the tag is empty, its module, the
/// call-site location kept, and the message plus every key-value pair
/// flattened lazily into one line of text.
///
/// Caution: wiring the basic facade's own backend back into a pipeline
/// that ends in this drain makes every call recurse through both adapters
/// until the stack is exhausted; neither direction detects such a cycle.
pub struct StdLog;

/// The drain contract's error channel.
///
/// Declared because a drain must declare one; the translation itself cannot
/// fail, so no value of it is ever produced here.
#[derive(Clone, Copy, Debug, PartialEq, Eq, Structural)]
pub struct DrainError;

/// What a record's target label resolves to: its tag when non-empty, else
/// its originating module path.
pub open spec fn spec_resolved_target(tag: Seq<char>, module: Seq<char>) -> Seq<char> {
    if tag.len() == 0 {
        module
    } else {
        tag
    }
}

/// One call through the basic facade, as the drain hands it over: mapped
/// severity, resolved target, the original call-site location, and the
/// lazily rendered flattened message.
pub struct BasicEmission {
    pub level: BasicLevel,
    pub target: String,
    pub module: String,
    pub file: String,
    pub line: u32,
    pub message: LazyLogString,
}

/// How an emission relates to the structured record, and the ancestor
/// key-value groups beside it, that it carries over.
pub open spec fn spec_drained(
    record: StructRecord,
    logger_values: Seq<Vec<KvPair>>,
    out: BasicEmission,
) -> bool {
    &&& out.level == spec_struct_to_basic(record.level)
    &&& out.target@ == spec_resolved_target(record.tag@, record.site.module@)
    &&& out.module@ == record.site.module@
    &&& out.file@ == record.site.file@
    &&& out.line == record.site.line
    &&& out.message.msg@ == record.msg@
    &&& out.message.logger_values@ == logger_values
    &&& out.message.kvs@ == record.kvs@
}

impl StdLog {
    /// Translate one structured record, together with the key-value groups
    /// its logger hierarchy accumulated, into a basic emission.
    ///
    /// Always succeeds: the error channel exists only to satisfy the drain
    /// contract.  The caller hands the emission to the basic facade, whose
    /// emit primitive has no failure channel of its own.
    pub fn log(&self, record: StructRecord, logger_values: Vec<Vec<KvPair>>) -> (r: Result<
        BasicEmission,
        DrainError,
    >)
        ensures
            r is Ok,
            spec_drained(record, logger_values@, r->Ok_0),
    {
        let StructRecord { level, tag, site, msg, kvs } = record;
        let mapped = slog_to_log_level(level);
        let target = if tag.as_str().is_empty() {
            site.module.clone()
        } else {
            tag
        };
        let message = LazyLogString::new(msg, logger_values, kvs);
        Ok(
            BasicEmission {
                level: mapped,
                target,
                module: site.module,
                file: site.file,
                line: site.line,
                message,
            },
        )
    }
}

} // verus!
