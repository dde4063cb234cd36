//! The scan engine: partition, probe, aggregate.
//!
//! `run_scan` is the whole scan as a function of the target's reachability:
//! it stripes the port space across the workers, lets each prober decide its
//! emissions from the reachability table, pools every emission, and hands the
//! pool to the aggregator.  The live scanner performs exactly these steps
//! with the table lookups replaced by TCP connection attempts running on
//! `workers` threads; the engine's contract is therefore stated over the
//! table alone, and `is_scan_result` pins the report down completely.

use crate::aggregate::aggregate;
use crate::partition::{stripe_ports, MAX_PORT};
use crate::prober::{probe_stripe, PORT_SPACE};
use crate::strictly_increasing;
use vstd::arithmetic::div_mod::lemma_mod_bound;
use vstd::prelude::*;
use vstd::relations::{sorted_by, total_ordering};
use vstd::seq_lib::group_to_multiset_ensures;
use vstd::seq_lib::lemma_no_dup_in_concat;
use vstd::seq_lib::lemma_sorted_unique;

verus! {

/// What a finished scan must report when the connection attempt to port `p`
/// succeeds exactly when `open[p]` holds: the open ports of `[1, MAX_PORT]`,
/// each exactly once, in strictly increasing order.
pub open spec fn is_scan_result(result: Seq<u16>, open: Seq<bool>) -> bool {
    &&& strictly_increasing(result)
    &&& forall|p: u16| result.contains(p) <==> (1 <= p <= MAX_PORT && open[p as int])
}

/// Run the whole scan against a reachability table.
pub fn run_scan(workers: u16, open: &Vec<bool>) -> (result: Vec<u16>)
    requires
        1 <= workers,
        open@.len() == PORT_SPACE,
    ensures
        is_scan_result(result@, open@),
{
    let mut collected: Vec<u16> = Vec::new();
    let mut i: u16 = 0;
    while i < workers
        invariant
            i <= workers,
            1 <= workers,
            open@.len() == PORT_SPACE,
            collected@.no_duplicates(),
            forall|p: u16|
                collected@.contains(p) <==> (1 <= p <= MAX_PORT && (p - 1) % (workers as int) < (
                i as int) && open@[p as int]),
        decreases workers - i,
    {
        let stripe = stripe_ports(i, workers);
        let mut hits = probe_stripe(&stripe, open);
        let ghost pooled = collected@;
        let ghost emitted = hits@;
        proof {
            assert(emitted.no_duplicates());
            assert forall|a: int, b: int|
                0 <= a < pooled.len() && 0 <= b < emitted.len() implies pooled[a] != emitted[b] by {
                assert(pooled.contains(pooled[a]));
                assert(emitted.contains(emitted[b]));
            }
            lemma_no_dup_in_concat(pooled, emitted);
        }
        collected.append(&mut hits);
        proof {
            assert forall|p: u16|
                collected@.contains(p) <==> (1 <= p <= MAX_PORT && (p - 1) % (workers as int) < (
                i + 1 as int) && open@[p as int]) by {
                if pooled.contains(p) {
                    let j = choose|j: int| 0 <= j < pooled.len() && pooled[j] == p;
                    assert(collected@[j] == p);
                    assert(collected@.contains(p));
                }
                if emitted.contains(p) {
                    let j = choose|j: int| 0 <= j < emitted.len() && emitted[j] == p;
                    assert(collected@[pooled.len() + j] == p);
                    assert(collected@.contains(p));
                }
                if collected@.contains(p) {
                    let j = choose|j: int| 0 <= j < collected@.len() && collected@[j] == p;
                    if j < pooled.len() {
                        assert(pooled.contains(p));
                    } else {
                        assert(emitted[j - pooled.len()] == p);
                        assert(emitted.contains(p));
                    }
                }
            }
        }
        i = i + 1;
    }
    proof {
        assert forall|p: u16| 1 <= p <= MAX_PORT implies #[trigger] ((p - 1) % (workers as int)) < (
        workers as int) by {
            lemma_mod_bound((p - 1) as int, workers as int);
        }
    }
    let result = aggregate(collected);
    proof {
        broadcast use group_to_multiset_ensures;

        collected@.lemma_multiset_has_no_duplicates();
        result@.lemma_multiset_has_no_duplicates_conv();
        assert forall|p: u16| result@.contains(p) <==> (1 <= p <= MAX_PORT && open@[p as int]) by {
            assert(result@.contains(p) <==> result@.to_multiset().count(p) > 0);
            assert(collected@.contains(p) <==> collected@.to_multiset().count(p) > 0);
        }
        assert forall|a: int, b: int| 0 <= a < b < result@.len() implies result@[a]
            < result@[b] by {
            assert(result@[a] <= result@[b]);
            assert(result@[a] != result@[b]);
        }
    }
    result
}

/// The scan's report is a function of the target's reachability alone: any
/// two reports over the same table are equal.  In particular the report does
/// not depend on the worker count, and scanning an unchanged target twice
/// yields the same report.
pub proof fn lemma_scan_result_deterministic(r1: Seq<u16>, r2: Seq<u16>, open: Seq<bool>)
    requires
        is_scan_result(r1, open),
        is_scan_result(r2, open),
    ensures
        r1 == r2,
{
    broadcast use group_to_multiset_ensures;

    r1.lemma_multiset_has_no_duplicates();
    r2.lemma_multiset_has_no_duplicates();
    assert forall|p: u16| r1.to_multiset().count(p) == r2.to_multiset().count(p) by {
        if r1.contains(p) {
            assert(r2.contains(p));
        } else {
            assert(!r2.contains(p));
            assert(r1.to_multiset().count(p) == 0);
            assert(r2.to_multiset().count(p) == 0);
        }
    }
    assert(r1.to_multiset() =~= r2.to_multiset());
    let leq = |a: u16, b: u16| a <= b;
    assert(total_ordering(leq));
    assert(sorted_by(r1, leq));
    assert(sorted_by(r2, leq));
    lemma_sorted_unique(r1, r2, leq);
    assert(r1 =~= r2);
}

/// A target that refuses every connection scans to the empty report,
/// whatever the worker count.
pub proof fn lemma_closed_target_scans_empty(result: Seq<u16>, open: Seq<bool>)
    requires
        is_scan_result(result, open),
        forall|p: u16| 1 <= p <= MAX_PORT ==> !open[p as int],
    ensures
        result.len() == 0,
{
    if result.len() > 0 {
        let p = result[0];
        assert(result.contains(p));
    }
}

} // verus!
