//! What the verifier needs to know of the order in which a `BTreeMap` with
//! integer keys hands out its entries.
use vstd::prelude::*;
use vstd::std_specs::btree::increasing_seq;
use vstd::std_specs::btree::key_obeys_cmp_spec;
use vstd::std_specs::cmp::OrdSpec;

verus! {

/// `usize` keys are ordered as numbers are, so the specifications of
/// `BTreeMap` hold of maps that are keyed by them.
pub(crate) proof fn lemma_usize_keys()
    ensures
        key_obeys_cmp_spec::<usize>(),
        vstd::laws_cmp::obeys_cmp::<usize>(),
{
    broadcast use vstd::std_specs::btree::group_btree_axioms;
    broadcast use vstd::laws_cmp::group_laws_cmp;

}

/// In an increasing sequence of keys, the smaller of two keys stands before
/// the larger.
pub(crate) proof fn lemma_smaller_key_stands_before(keys: Seq<usize>, small: int, large: int)
    requires
        increasing_seq(keys),
        0 <= small < keys.len(),
        0 <= large < keys.len(),
        keys[small] < keys[large],
    ensures
        small < large,
{
    broadcast use vstd::std_specs::btree::group_btree_axioms;
    broadcast use vstd::laws_cmp::group_laws_cmp;

    if large < small {
        assert(keys[large].cmp_spec(&keys[small]) is Less);
    }
}

} // verus!
