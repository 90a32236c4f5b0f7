//! The ways in which building a bucket or entering it can fail.

use vstd::prelude::*;

verus! {

/// An error of the rate limiter.
#[derive(Clone, Copy, Debug, PartialEq, Eq, Structural)]
pub enum SLError {
    /// The bucket was built with parameters that cannot describe a bucket.
    ConfigurationError,
    /// No connection to the shared store could be had, or talking to it failed.
    ConnectivityError,
    /// The assigned slot lies further ahead than the caller is willing to wait.
    /// Both fields are in milliseconds.
    MaxSleepExceeded { wait: u64, max_sleep: u64 },
    /// The allocation itself failed, or the store held a malformed record.
    ScriptExecutionError,
}

} // verus!
