//! The keys of an ordered map, as a strictly increasing list.

use std::collections::BTreeMap;
use vstd::prelude::*;
use vstd::std_specs::btree::{axiom_increasing_seq_meaning, increasing_seq, spec_keys_iter};
use vstd::std_specs::cmp::OrdSpec;
use vstd::std_specs::iter::IteratorSpec;

verus! {

broadcast use {vstd::std_specs::btree::group_btree_axioms, vstd::laws_cmp::group_laws_cmp};

/// A list of keys is strictly increasing.
pub open spec fn strictly_increasing(keys: Seq<u32>) -> bool {
    forall|i: int, j: int| 0 <= i < j < keys.len() ==> keys[i] < keys[j]
}

/// A list of keys holds exactly the keys of `dom`.
pub open spec fn lists_keys_of(keys: Seq<u32>, dom: Set<u32>) -> bool {
    &&& forall|i: int| 0 <= i < keys.len() ==> dom.contains(#[trigger] keys[i])
    &&& forall|k: u32| dom.contains(k) ==> exists|i: int| 0 <= i < keys.len() && keys[i] == k
}

/// The keys of a list as positions in the space of all keys.
pub open spec fn key_positions(keys: Seq<u32>) -> Seq<int> {
    Seq::new(keys.len(), |i: int| keys[i] as int)
}

/// In a list that the ordered map calls increasing, an earlier key compares
/// as less than a later one.
proof fn lemma_increasing_pair<K: Ord>(s: Seq<K>, i: int, j: int)
    requires
        increasing_seq(s),
        vstd::laws_cmp::obeys_cmp::<K>(),
        0 <= i < j < s.len(),
    ensures
        s[i].cmp_spec(&s[j]) is Less,
{
    axiom_increasing_seq_meaning::<K>(s);
}

/// A list of integer keys that the ordered map calls increasing is strictly
/// increasing as a list of integers.
proof fn lemma_increasing_keys(s: Seq<&u32>)
    requires
        increasing_seq(s),
    ensures
        forall|i: int, j: int| 0 <= i < j < s.len() ==> *s[i] < *s[j],
{
    assert(vstd::laws_cmp::obeys_cmp::<u32>());
    assert(vstd::laws_cmp::obeys_cmp::<&u32>());
    assert forall|i: int, j: int| 0 <= i < j < s.len() implies *s[i] < *s[j] by {
        lemma_increasing_pair::<&u32>(s, i, j);
    }
}

/// The keys of an ordered map, in ascending order.
pub fn sorted_keys<V>(m: &BTreeMap<u32, V>) -> (r: Vec<u32>)
    ensures
        strictly_increasing(r@),
        lists_keys_of(r@, m@.dom()),
{
    let mut out: Vec<u32> = Vec::new();
    let ghost ks = spec_keys_iter(m).remaining();
    for k in it: m.keys()
        invariant
            it.seq() == ks,
            out.len() == it.index(),
            forall|j: int| 0 <= j < out.len() ==> out[j] == *ks[j],
    {
        out.push(*k);
    }
    proof {
        assert(out@ =~= ks.unref());
        lemma_increasing_keys(ks);
        assert forall|k: u32| m@.dom().contains(k) implies exists|i: int|
            0 <= i < out@.len() && out@[i] == k by {
            assert(ks.unref().to_set().contains(k));
            assert(ks.unref().contains(k));
        }
        assert forall|i: int| 0 <= i < out@.len() implies m@.dom().contains(
            #[trigger] out@[i],
        ) by {
            assert(ks.unref().contains(ks.unref()[i]));
            assert(ks.unref().to_set().contains(out@[i]));
        }
    }
    out
}

} // verus!
