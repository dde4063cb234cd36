//! Verified core of a TCP port scanner.
//!
//! The scanner sweeps every port in `[1, MAX_PORT]` on one target host,
//! splitting the range round-robin across a fixed number of workers, probing
//! each port once, and reporting the ports that accepted a connection as an
//! ascending, duplicate-free list.  This crate holds the parts of that job
//! that are pure logic: resolving a command line into a scan request,
//! computing each worker's stripe of the port space, deciding which probed
//! ports to report, and aggregating everything into the final ordered result.
//! The process boundary (sockets, threads, the channel between them) stays
//! outside and feeds this crate plain values.

use vstd::prelude::*;

pub mod aggregate;
pub mod engine;
pub mod partition;
pub mod prober;
pub mod request;

verus! {

/// The ports in `s` appear in non-decreasing order.
pub open spec fn sorted(s: Seq<u16>) -> bool {
    forall|i: int, j: int| 0 <= i < j < s.len() ==> s[i] <= s[j]
}

/// The ports in `s` appear in strictly increasing order, so `s` is both
/// sorted and free of duplicates.
pub open spec fn strictly_increasing(s: Seq<u16>) -> bool {
    forall|i: int, j: int| 0 <= i < j < s.len() ==> s[i] < s[j]
}

} // verus!
