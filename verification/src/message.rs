//! Flattening a structured event into one line of text: the message first,
//! then every key-value pair — ancestor groups in outer-to-inner order, then
//! the call-site group — each rendered as `, key: value` in encounter
//! order.

use vstd::prelude::*;
use vstd::string::StringExecFns;
use crate::ksv::KSV;
use crate::ksv::spec_emitted;
use crate::record::KvPair;

verus! {

/// The text one pair contributes to the flattened message.
pub open spec fn spec_pair_text(pair: KvPair) -> Seq<char> {
    spec_emitted(pair.key@, pair.val@)
}

/// The text a sequence of pairs contributes, in encounter order.
pub open spec fn spec_pairs_text(pairs: Seq<KvPair>) -> Seq<char>
    decreases pairs.len(),
{
    if pairs.len() == 0 {
        Seq::empty()
    } else {
        spec_pair_text(pairs[0]) + spec_pairs_text(pairs.drop_first())
    }
}

/// The text a sequence of pair groups contributes, group after group.
pub open spec fn spec_groups_text(groups: Seq<Vec<KvPair>>) -> Seq<char>
    decreases groups.len(),
{
    if groups.len() == 0 {
        Seq::empty()
    } else {
        spec_pairs_text(groups[0]@) + spec_groups_text(groups.drop_first())
    }
}

/// The whole flattened message: the rendered message, the ancestor groups
/// in outer-to-inner order, then the call-site pairs.
pub open spec fn spec_flattened(
    msg: Seq<char>,
    groups: Seq<Vec<KvPair>>,
    kvs: Seq<KvPair>,
) -> Seq<char> {
    msg + spec_groups_text(groups) + spec_pairs_text(kvs)
}

/// Flattening preserves order: serializing two pair sequences one after the
/// other yields the serialization of the first followed by that of the
/// second.
pub proof fn lemma_pairs_text_append(a: Seq<KvPair>, b: Seq<KvPair>)
    ensures
        spec_pairs_text(a + b) == spec_pairs_text(a) + spec_pairs_text(b),
    decreases a.len(),
{
    if a.len() == 0 {
        assert(a + b =~= b);
        assert(spec_pairs_text(a) + spec_pairs_text(b) =~= spec_pairs_text(b));
    } else {
        lemma_pairs_text_append(a.drop_first(), b);
        assert((a + b).drop_first() =~= a.drop_first() + b);
        assert((a + b)[0] == a[0]);
        assert(spec_pairs_text(a + b) =~= spec_pairs_text(a) + spec_pairs_text(b));
    }
}

/// Flattening preserves group order likewise.
pub proof fn lemma_groups_text_append(a: Seq<Vec<KvPair>>, b: Seq<Vec<KvPair>>)
    ensures
        spec_groups_text(a + b) == spec_groups_text(a) + spec_groups_text(b),
    decreases a.len(),
{
    if a.len() == 0 {
        assert(a + b =~= b);
        assert(spec_groups_text(a) + spec_groups_text(b) =~= spec_groups_text(b));
    } else {
        lemma_groups_text_append(a.drop_first(), b);
        assert((a + b).drop_first() =~= a.drop_first() + b);
        assert((a + b)[0] == a[0]);
        assert(spec_groups_text(a + b) =~= spec_groups_text(a) + spec_groups_text(b));
    }
}

/// Serializing one pair more extends the text by exactly that pair.
pub proof fn lemma_pairs_text_take_succ(pairs: Seq<KvPair>, i: int)
    requires
        0 <= i < pairs.len(),
    ensures
        spec_pairs_text(pairs.take(i + 1)) == spec_pairs_text(pairs.take(i)) + spec_pair_text(
            pairs[i],
        ),
{
    let one = seq![pairs[i]];
    assert(pairs.take(i + 1) =~= pairs.take(i) + one);
    lemma_pairs_text_append(pairs.take(i), one);
    assert(one.drop_first() =~= Seq::<KvPair>::empty());
    assert(spec_pairs_text(one.drop_first()) == Seq::<char>::empty());
    assert(spec_pairs_text(one) == spec_pair_text(one[0]) + Seq::<char>::empty());
    assert(spec_pair_text(pairs[i]) + Seq::<char>::empty() =~= spec_pair_text(pairs[i]));
}

/// Serializing one group more extends the text by exactly that group.
pub proof fn lemma_groups_text_take_succ(groups: Seq<Vec<KvPair>>, i: int)
    requires
        0 <= i < groups.len(),
    ensures
        spec_groups_text(groups.take(i + 1)) == spec_groups_text(groups.take(i))
            + spec_pairs_text(groups[i]@),
{
    let one = seq![groups[i]];
    assert(groups.take(i + 1) =~= groups.take(i) + one);
    lemma_groups_text_append(groups.take(i), one);
    assert(one.drop_first() =~= Seq::<Vec<KvPair>>::empty());
    assert(spec_groups_text(one.drop_first()) == Seq::<char>::empty());
    assert(spec_groups_text(one) == spec_pairs_text(one[0]@) + Seq::<char>::empty());
    assert(spec_pairs_text(groups[i]@) + Seq::<char>::empty() =~= spec_pairs_text(groups[i]@));
}

/// A deferred rendering of a structured event's message and key-value
/// context.
///
/// Nothing is formatted until [`render`](Self::render) runs, so the
/// flattening cost is paid only when the eventual sink really wants the
/// text.
pub struct LazyLogString {
    /// The event's rendered message.
    pub msg: String,
    /// Ancestor key-value groups, outer-to-inner.
    pub logger_values: Vec<Vec<KvPair>>,
    /// The event's own call-site pairs.
    pub kvs: Vec<KvPair>,
}

impl LazyLogString {
    /// Capture a message and its key-value context for later rendering.
    pub fn new(msg: String, logger_values: Vec<Vec<KvPair>>, kvs: Vec<KvPair>) -> (s:
        LazyLogString)
        ensures
            s.msg == msg,
            s.logger_values == logger_values,
            s.kvs == kvs,
    {
        LazyLogString { msg, logger_values, kvs }
    }

    /// Render the flattened message: message text, then every pair in
    /// encounter order.  Same inputs always yield the same text.
    pub fn render(&self) -> (r: String)
        ensures
            r@ == spec_flattened(self.msg@, self.logger_values@, self.kvs@),
    {
        let mut ser = KSV::new(String::new());
        assert(self.logger_values@.take(0) =~= Seq::<Vec<KvPair>>::empty());
        let mut i: usize = 0;
        while i < self.logger_values.len()
            invariant
                i <= self.logger_values.len(),
                ser@ == spec_groups_text(self.logger_values@.take(i as int)),
            decreases self.logger_values.len() - i,
        {
            assert(self.logger_values@[i as int]@.take(0) =~= Seq::<KvPair>::empty());
            let mut j: usize = 0;
            while j < self.logger_values[i].len()
                invariant
                    i < self.logger_values.len(),
                    j <= self.logger_values@[i as int]@.len(),
                    ser@ == spec_groups_text(self.logger_values@.take(i as int))
                        + spec_pairs_text(self.logger_values@[i as int]@.take(j as int)),
                decreases self.logger_values@[i as int]@.len() - j,
            {
                ser.emit_arguments(
                    self.logger_values[i][j].key.as_str(),
                    self.logger_values[i][j].val.as_str(),
                );
                proof {
                    lemma_pairs_text_take_succ(self.logger_values@[i as int]@, j as int);
                }
                j = j + 1;
            }
            proof {
                let group = self.logger_values@[i as int]@;
                assert(group.take(group.len() as int) =~= group);
                lemma_groups_text_take_succ(self.logger_values@, i as int);
            }
            i = i + 1;
        }
        assert(self.logger_values@.take(self.logger_values@.len() as int)
            =~= self.logger_values@);
        let ghost mid = spec_groups_text(self.logger_values@);
        assert(self.kvs@.take(0) =~= Seq::<KvPair>::empty());
        let mut k: usize = 0;
        while k < self.kvs.len()
            invariant
                k <= self.kvs.len(),
                ser@ == mid + spec_pairs_text(self.kvs@.take(k as int)),
            decreases self.kvs.len() - k,
        {
            ser.emit_arguments(self.kvs[k].key.as_str(), self.kvs[k].val.as_str());
            proof {
                lemma_pairs_text_take_succ(self.kvs@, k as int);
            }
            k = k + 1;
        }
        assert(self.kvs@.take(self.kvs@.len() as int) =~= self.kvs@);
        let mut out = self.msg.clone();
        let tail = ser.into_inner();
        out.append(tail.as_str());
        assert(out@ =~= spec_flattened(self.msg@, self.logger_values@, self.kvs@));
        out
    }
}

} // verus!
