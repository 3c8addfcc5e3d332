//! The order in which a `BTreeMap` keyed by `u32` is walked.
use vstd::prelude::*;
use vstd::std_specs::btree::increasing_seq;
use vstd::std_specs::cmp::OrdSpec;

verus! {

/// `u32` keys obey the ordering laws a `BTreeMap` relies on.
pub proof fn lemma_u32_keys_are_ordered()
    ensures
        vstd::laws_cmp::obeys_cmp::<u32>(),
{
    broadcast use vstd::laws_cmp::group_laws_cmp;

}

/// Keys that come in increasing order are strictly increasing integers.
pub proof fn lemma_increasing_keys<V>(items: Seq<(&u32, &V)>)
    requires
        increasing_seq(items.map_values(|kv: (&u32, &V)| *kv.0)),
    ensures
        forall|i: int, j: int| 0 <= i < j < items.len() ==> *items[i].0 < *items[j].0,
{
    broadcast use vstd::std_specs::btree::group_btree_axioms;

    lemma_u32_keys_are_ordered();
    let keys = items.map_values(|kv: (&u32, &V)| *kv.0);
    assert forall|i: int, j: int| 0 <= i < j < items.len() implies *items[i].0 < *items[j].0 by {
        assert(keys[i] == *items[i].0 && keys[j] == *items[j].0);
        assert(keys[i].cmp_spec(&keys[j]) is Less);
    }
}

} // verus!
