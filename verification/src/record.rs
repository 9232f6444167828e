//! The plain values that cross the two facades' boundaries: key-value
//! pairs, call sites, and the records of each facade.

use vstd::prelude::*;
use crate::levels::BasicLevel;
use crate::levels::StructLevel;

verus! {

/// One structured key-value attachment, both sides already rendered to
/// text.
pub struct KvPair {
    pub key: String,
    pub val: String,
}

/// Where a log call happened.
///
/// The basic facade tracks neither column nor function name, so both are
/// filled with their empty values whenever a record crosses over from it; a
/// documented lossy mapping, not an error.
pub struct CallSite {
    pub file: String,
    pub line: u32,
    pub column: u32,
    pub function: String,
    pub module: String,
}

/// A call through the basic facade, as its dispatch layer hands it to the
/// registered backend: severity, target label, call-site location, and the
/// message already rendered to text.
pub struct BasicRecord {
    pub level: BasicLevel,
    pub target: String,
    pub module: String,
    pub file: String,
    pub line: u32,
    pub msg: String,
}

/// A structured event: severity, tag, call site, message, and the
/// call-site key-value pairs.  The ancestor key-value groups accumulated by
/// the logger hierarchy travel beside it, not inside it.
pub struct StructRecord {
    pub level: StructLevel,
    pub tag: String,
    pub site: CallSite,
    pub msg: String,
    pub kvs: Vec<KvPair>,
}

} // verus!
