//! The decision core of one port prober.
//!
//! A live prober walks its stripe in increasing order, attempts one TCP
//! connection per port, and emits exactly the ports whose attempt succeeded;
//! every failure, whatever its reason, counts uniformly as "not open" and is
//! discarded.  That decision is pure once the connection outcomes are given,
//! so it lives here: the outcomes arrive as a reachability table with one
//! entry per `u16` port number, and the prober's emissions are computed from
//! the stripe and the table alone.

use crate::strictly_increasing;
use vstd::prelude::*;

verus! {

/// Number of distinct `u16` values; a reachability table has one entry per
/// port number, indexed by the port.
pub const PORT_SPACE: usize = 65536;

/// The ports a prober reports for the stripe `ports` when the connection
/// attempt to port `p` succeeds exactly when `open[p]` holds: the open ports
/// of the stripe, in the stripe's own increasing order.
pub fn probe_stripe(ports: &Vec<u16>, open: &Vec<bool>) -> (found: Vec<u16>)
    requires
        strictly_increasing(ports@),
        open@.len() == PORT_SPACE,
    ensures
        strictly_increasing(found@),
        forall|p: u16| found@.contains(p) <==> ports@.contains(p) && open@[p as int],
{
    let mut found: Vec<u16> = Vec::new();
    let mut k: usize = 0;
    while k < ports.len()
        invariant
            k <= ports@.len(),
            strictly_increasing(ports@),
            open@.len() == PORT_SPACE,
            strictly_increasing(found@),
            found@.len() > 0 ==> k > 0 && found@.last() <= ports@[k - 1],
            forall|p: u16|
                found@.contains(p) <==> ports@.subrange(0, k as int).contains(p) && open@[
                    p as int],
        decreases ports@.len() - k,
    {
        let ghost pre = found@;
        let port = ports[k];
        if open[port as usize] {
            found.push(port);
        }
        proof {
            assert(ports@.subrange(0, k + 1 as int) == ports@.subrange(0, k as int).push(port));
            assert forall|p: u16|
                found@.contains(p) <==> ports@.subrange(0, k + 1 as int).contains(p) && open@[
                    p as int] by {
                vstd::seq_lib::lemma_seq_contains_after_push(
                    ports@.subrange(0, k as int),
                    port,
                    p,
                );
                if found@ != pre {
                    vstd::seq_lib::lemma_seq_contains_after_push(pre, port, p);
                }
            }
        }
        k = k + 1;
    }
    proof {
        assert(ports@.subrange(0, ports@.len() as int) == ports@);
    }
    found
}

} // verus!
