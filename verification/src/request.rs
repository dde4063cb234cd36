//! Resolving a command line into a scan request.
//!
//! The process boundary reads the raw arguments and performs what only the
//! platform can: parsing a string into an IP address.  It hands the outcomes
//! here as plain values — how many arguments there were, whether the first
//! and fourth parse as addresses, what the first one mentions, and what the
//! thread argument parses to — and `resolve_arguments` makes every decision:
//! which form the command line takes, which error to report, and which
//! request to run.  A rejected command line never reaches the engine, so the
//! engine's `workers >= 1` precondition is established here once and for all.

use vstd::prelude::*;

verus! {

/// A target address, v4 or v6, carried as the integer value of its bytes in
/// network order.  The scan only ever hands the address through to the
/// connection attempts, so this is all of it the logic needs.
#[derive(Clone, Copy, PartialEq, Eq, Structural, Debug)]
pub enum IpAddress {
    V4(u32),
    V6(u128),
}

/// Worker count used when the command line names only an address.
pub const DEFAULT_WORKER_COUNT: u16 = 4;

/// Default bound on one connection attempt, in milliseconds, so that a sweep
/// over filtered ports finishes in predictable time.
pub const DEFAULT_PROBE_TIMEOUT_MS: u64 = 1000;

/// Everything one scan needs: the target, how many workers to spread the
/// port space over, and how long one probe may take.  `workers` is at least
/// 1 whenever the request came out of `resolve_arguments`.
#[derive(Clone, Copy, PartialEq, Eq, Structural, Debug)]
pub struct ScanRequest {
    pub address: IpAddress,
    pub workers: u16,
    pub probe_timeout_ms: u64,
}

/// Why a command line was rejected.  `HelpRequested` is the one rejection
/// that is not a fault: the caller asked for the usage text.
#[derive(Clone, Copy, PartialEq, Eq, Structural, Debug)]
pub enum ValidationError {
    NotEnoughArguments,
    TooManyArguments,
    HelpRequested,
    InvalidSyntax,
    InvalidAddress,
    InvalidThreadCount,
}

/// The decision tree over a command line, given as plain values:
/// `arg_count` counts the arguments including the program name,
/// `first_address`/`fourth_address` are the second and fourth argument
/// parsed as an IP address where they parse at all, `first_is_help` and
/// `first_is_jobs` say whether the second argument mentions `-h` or `-j`,
/// and `thread_arg` is the third argument parsed as an integer where it
/// parses at all.
pub open spec fn resolution(
    arg_count: int,
    first_address: Option<IpAddress>,
    first_is_help: bool,
    first_is_jobs: bool,
    thread_arg: Option<u16>,
    fourth_address: Option<IpAddress>,
) -> Result<ScanRequest, ValidationError> {
    if arg_count < 2 {
        Err(ValidationError::NotEnoughArguments)
    } else if arg_count > 4 {
        Err(ValidationError::TooManyArguments)
    } else if first_address is Some {
        Ok(
            (ScanRequest {
                address: first_address->Some_0,
                workers: DEFAULT_WORKER_COUNT,
                probe_timeout_ms: DEFAULT_PROBE_TIMEOUT_MS,
            }),
        )
    } else if first_is_help {
        if arg_count == 2 {
            Err(ValidationError::HelpRequested)
        } else {
            Err(ValidationError::TooManyArguments)
        }
    } else if !first_is_jobs || arg_count != 4 {
        Err(ValidationError::InvalidSyntax)
    } else if fourth_address is None {
        Err(ValidationError::InvalidAddress)
    } else if thread_arg is None || thread_arg == Some(0u16) {
        Err(ValidationError::InvalidThreadCount)
    } else {
        Ok(
            (ScanRequest {
                address: fourth_address->Some_0,
                workers: thread_arg->Some_0,
                probe_timeout_ms: DEFAULT_PROBE_TIMEOUT_MS,
            }),
        )
    }
}

/// Decide what a command line asks for.
///
/// The accepted forms are an address alone (scanned with
/// `DEFAULT_WORKER_COUNT` workers), `-j <count> <address>`, and a lone
/// `-h`/`-help`; everything else is one of the rejections, and a worker
/// count of zero — which the partition cannot stride by — is rejected here
/// so the engine never sees it.
pub fn resolve_arguments(
    arg_count: usize,
    first_address: Option<IpAddress>,
    first_is_help: bool,
    first_is_jobs: bool,
    thread_arg: Option<u16>,
    fourth_address: Option<IpAddress>,
) -> (r: Result<ScanRequest, ValidationError>)
    ensures
        r == resolution(
            arg_count as int,
            first_address,
            first_is_help,
            first_is_jobs,
            thread_arg,
            fourth_address,
        ),
        r matches Ok(request) ==> 1 <= request.workers,
{
    if arg_count < 2 {
        Err(ValidationError::NotEnoughArguments)
    } else if arg_count > 4 {
        Err(ValidationError::TooManyArguments)
    } else if let Option::Some(address) = first_address {
        Ok(
            ScanRequest {
                address,
                workers: DEFAULT_WORKER_COUNT,
                probe_timeout_ms: DEFAULT_PROBE_TIMEOUT_MS,
            },
        )
    } else if first_is_help {
        if arg_count == 2 {
            Err(ValidationError::HelpRequested)
        } else {
            Err(ValidationError::TooManyArguments)
        }
    } else if !first_is_jobs || arg_count != 4 {
        Err(ValidationError::InvalidSyntax)
    } else if let Option::Some(address) = fourth_address {
        match thread_arg {
            Option::Some(workers) => {
                if workers == 0 {
                    Err(ValidationError::InvalidThreadCount)
                } else {
                    Ok(ScanRequest { address, workers, probe_timeout_ms: DEFAULT_PROBE_TIMEOUT_MS })
                }
            },
            Option::None => Err(ValidationError::InvalidThreadCount),
        }
    } else {
        Err(ValidationError::InvalidAddress)
    }
}

} // verus!
