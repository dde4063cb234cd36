//! The result aggregator.
//!
//! The live scanner drains the result channel until every prober has finished
//! and the channel closes; what arrives is the open ports of all stripes in
//! whatever order the workers raced to emit them.  This module does the
//! aggregator's computational part: turn that unordered collection into the
//! final report by sorting it ascending.  Both loops carry explicit
//! `decreases` measures, so the aggregation provably terminates on every
//! input once the drained values are in hand.

use crate::sorted;
use vstd::prelude::*;
use vstd::seq_lib::group_to_multiset_ensures;

verus! {

/// Insert `value` into the sorted vector `r`, keeping it sorted.
///
/// The insertion point is searched from the back, so appending values that
/// already arrive in ascending order costs constant work per value.
fn insert_sorted(r: &mut Vec<u16>, value: u16)
    requires
        sorted(old(r)@),
    ensures
        sorted(final(r)@),
        final(r)@.to_multiset() == old(r)@.to_multiset().insert(value),
{
    let mut i: usize = r.len();
    while i > 0 && value < r[i - 1]
        invariant
            i <= r@.len(),
            r@ == old(r)@,
            forall|j: int| i <= j < r@.len() ==> value < r@[j],
        decreases i,
    {
        i = i - 1;
    }
    r.insert(i, value);
    proof {
        vstd::seq_lib::to_multiset_insert(old(r)@, i as int, value);
        assert forall|a: int, b: int| 0 <= a < b < r@.len() implies r@[a] <= r@[b] by {
            assert(forall|j: int| 0 <= j < i ==> r@[j] == old(r)@[j]);
            assert(forall|j: int| i < j < r@.len() ==> r@[j] == old(r)@[j - 1]);
        }
    }
}

/// Sort the collected open ports ascending: the aggregator's final step.
///
/// The result holds exactly the values of `found`, occurrence for
/// occurrence, in non-decreasing order.
pub fn aggregate(found: Vec<u16>) -> (result: Vec<u16>)
    ensures
        sorted(result@),
        result@.to_multiset() == found@.to_multiset(),
{
    broadcast use group_to_multiset_ensures;

    let mut result: Vec<u16> = Vec::new();
    let mut k: usize = 0;
    while k < found.len()
        invariant
            k <= found@.len(),
            sorted(result@),
            result@.to_multiset() == found@.subrange(0, k as int).to_multiset(),
        decreases found@.len() - k,
    {
        insert_sorted(&mut result, found[k]);
        proof {
            assert(found@.subrange(0, k + 1 as int) =~= found@.subrange(0, k as int).push(
                found@[k as int],
            ));
            vstd::seq_lib::to_multiset_build(found@.subrange(0, k as int), found@[k as int]);
            assert(found@.subrange(0, k + 1 as int).to_multiset() =~= found@.subrange(
                0,
                k as int,
            ).to_multiset().insert(found@[k as int]));
        }
        k = k + 1;
    }
    proof {
        assert(found@.subrange(0, found@.len() as int) == found@);
    }
    result
}

} // verus!
