//! Key-separator-value serializer: the flattening sink that renders each
//! key-value pair as `, key: value` onto a growable text buffer, in call
//! order, with no escaping of delimiter characters (an accepted limitation
//! of the format).

use vstd::prelude::*;
use vstd::string::StringExecFns;

verus! {

/// The text that serializing one `key`/`value` pair appends to the buffer.
pub open spec fn spec_emitted(key: Seq<char>, val: Seq<char>) -> Seq<char> {
    ", "@ + key + ": "@ + val
}

/// Key-separator-value serializer.
///
/// Accumulates one `, key: value` fragment per emitted pair onto the buffer
/// it owns; `into_inner` hands the buffer back.
pub struct KSV {
    io: String,
}

impl View for KSV {
    type V = Seq<char>;

    closed spec fn view(&self) -> Seq<char> {
        self.io@
    }
}

impl KSV {
    /// Wrap a buffer; pairs emitted later are appended after its contents.
    pub fn new(io: String) -> (s: KSV)
        ensures
            s@ == io@,
    {
        KSV { io }
    }

    /// Consume the serializer and return the accumulated buffer.
    pub fn into_inner(self) -> (r: String)
        ensures
            r@ == self@,
    {
        self.io
    }

    /// Append `, key: value` to the buffer.
    pub fn emit_arguments(&mut self, key: &str, val: &str)
        ensures
            final(self)@ == old(self)@ + spec_emitted(key@, val@),
    {
        self.io.append(", ");
        self.io.append(key);
        self.io.append(": ");
        self.io.append(val);
        assert(self.io@ =~= old(self)@ + spec_emitted(key@, val@));
    }
}

} // verus!
