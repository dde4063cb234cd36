//! Round-robin partition of the port space across workers.

use crate::strictly_increasing;
use vstd::arithmetic::div_mod::{
    lemma_fundamental_div_mod, lemma_mod_add_multiples_vanish, lemma_mod_bound, lemma_small_mod,
};
use vstd::prelude::*;

verus! {

/// Highest valid TCP port; a scan sweeps the closed range `[1, MAX_PORT]`.
pub const MAX_PORT: u16 = 65535;

/// Round-robin striping: among `workers` workers, the worker with 0-based
/// index `worker` owns `port` exactly when `port` is a valid port number and
/// `port - 1` leaves remainder `worker` when divided by `workers`.  Worker
/// `i`'s stripe is therefore `i + 1, i + 1 + workers, i + 1 + 2 * workers, ...`
/// up to `MAX_PORT`.
pub open spec fn in_stripe(workers: u16, worker: u16, port: u16) -> bool {
    &&& 1 <= port <= MAX_PORT
    &&& (port - 1) % (workers as int) == worker as int
}

/// Two ports of the same stripe are at least one full stride apart.
proof fn lemma_stripe_gap(workers: u16, worker: u16, p: u16, q: u16)
    requires
        1 <= workers,
        in_stripe(workers, worker, p),
        in_stripe(workers, worker, q),
        p < q,
    ensures
        p + workers <= q,
{
    let w = workers as int;
    let a = (p - 1) as int;
    let b = (q - 1) as int;
    lemma_fundamental_div_mod(a, w);
    lemma_fundamental_div_mod(b, w);
    let ka = a / w;
    let kb = b / w;
    assert(w * ka < w * kb);
    assert(ka < kb) by (nonlinear_arith)
        requires
            w > 0,
            w * ka < w * kb,
    ;
    assert(w * ka + w <= w * kb) by (nonlinear_arith)
        requires
            w > 0,
            ka < kb,
    ;
}

/// The stripe of one worker, as the increasing list of the ports it probes.
///
/// This is the schedule the original probe loop walks: start at
/// `worker + 1` and keep adding `workers` while the sum stays a valid port.
/// The guard compares against the remaining headroom `MAX_PORT - port`, so
/// the 16-bit arithmetic can never wrap.
pub fn stripe_ports(worker: u16, workers: u16) -> (ports: Vec<u16>)
    requires
        1 <= workers,
        worker < workers,
    ensures
        strictly_increasing(ports@),
        forall|p: u16| ports@.contains(p) <==> in_stripe(workers, worker, p),
{
    let mut ports: Vec<u16> = Vec::new();
    let mut port: u16 = worker + 1;
    proof {
        lemma_small_mod(worker as nat, workers as nat);
    }
    ports.push(port);
    proof {
        assert forall|p: u16| ports@.contains(p) <==> (in_stripe(workers, worker, p) && p
            <= port) by {
            if in_stripe(workers, worker, p) && p <= port {
                lemma_small_mod((p - 1) as nat, workers as nat);
                assert(p == port);
            }
            if ports@.contains(p) {
                assert(p == ports@[0]);
            }
        }
    }
    while MAX_PORT - port >= workers
        invariant
            1 <= workers,
            worker < workers,
            1 <= port <= MAX_PORT,
            in_stripe(workers, worker, port),
            strictly_increasing(ports@),
            ports@.len() >= 1,
            forall|i: int| 0 <= i < ports@.len() ==> ports@[i] <= port,
            forall|p: u16| ports@.contains(p) <==> (in_stripe(workers, worker, p) && p <= port),
        decreases MAX_PORT - port,
    {
        let previous: u16 = port;
        let ghost pre = ports@;
        port = port + workers;
        proof {
            lemma_mod_add_multiples_vanish((previous - 1) as int, workers as int);
            assert(in_stripe(workers, worker, port));
        }
        ports.push(port);
        proof {
            assert forall|p: u16| ports@.contains(p) <==> (in_stripe(workers, worker, p) && p
                <= port) by {
                vstd::seq_lib::lemma_seq_contains_after_push(pre, port, p);
                if in_stripe(workers, worker, p) && p <= port && p > previous {
                    lemma_stripe_gap(workers, worker, previous, p);
                    assert(p == port);
                }
            }
        }
    }
    proof {
        assert forall|p: u16| in_stripe(workers, worker, p) implies p <= port by {
            if p > port {
                lemma_stripe_gap(workers, worker, port, p);
            }
        }
    }
    ports
}

/// Every valid port lies in the stripe of some worker index below
/// `workers`: the stripes cover the whole range `[1, MAX_PORT]`.
pub proof fn lemma_stripes_cover(workers: u16, port: u16)
    requires
        1 <= workers,
        1 <= port <= MAX_PORT,
    ensures
        exists|worker: u16| worker < workers && in_stripe(workers, worker, port),
{
    let w = workers as int;
    lemma_mod_bound((port - 1) as int, w);
    let worker = (((port - 1) as int) % w) as u16;
    assert(worker < workers && in_stripe(workers, worker, port));
}

/// No port lies in the stripes of two distinct workers: the stripes are
/// pairwise disjoint.
pub proof fn lemma_stripes_disjoint(workers: u16, w1: u16, w2: u16, port: u16)
    requires
        in_stripe(workers, w1, port),
        in_stripe(workers, w2, port),
    ensures
        w1 == w2,
{
}

/// The boundary ports of the range each belong to exactly one stripe, for
/// every worker count: port `1` to worker `0`, and port `MAX_PORT` to a
/// single worker index below `workers`.
pub proof fn lemma_boundary_ports(workers: u16)
    requires
        1 <= workers,
    ensures
        in_stripe(workers, 0, 1),
        forall|worker: u16| in_stripe(workers, worker, 1) ==> worker == 0,
        exists|worker: u16| worker < workers && in_stripe(workers, worker, MAX_PORT),
        forall|w1: u16, w2: u16|
            in_stripe(workers, w1, MAX_PORT) && in_stripe(workers, w2, MAX_PORT) ==> w1 == w2,
{
    lemma_small_mod(0nat, workers as nat);
    lemma_stripes_cover(workers, MAX_PORT);
}

} // verus!
