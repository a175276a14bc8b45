//! What `BTreeMap` iteration order means for integer keys.

use crate::platform::types::c_int;
use vstd::prelude::*;
use vstd::std_specs::cmp::OrdSpec;

verus! {

/// The keys that a `BTreeMap` iterator hands out come in strictly
/// increasing order.
pub proof fn lemma_keys_increasing<V>(s: Seq<(&c_int, &V)>)
    requires
        vstd::std_specs::btree::increasing_seq(s.map_values(|kv: (&c_int, &V)| *kv.0)),
    ensures
        forall|i: int, j: int| 0 <= i < j < s.len() ==> *s[i].0 < *s[j].0,
{
    let ks = s.map_values(|kv: (&c_int, &V)| *kv.0);
    assert forall|i: int, j: int| 0 <= i < j < s.len() implies *s[i].0 < *s[j].0 by {
        assert(ks[i] == *s[i].0);
        assert(ks[j] == *s[j].0);
        assert(ks[i].cmp_spec(&ks[j]) is Less);
    }
}

} // verus!
