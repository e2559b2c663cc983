//! What the chain tells a contract about the call it is running.
use vstd::prelude::*;

verus! {

/// The outcome of the cross-contract call whose callback is running.
#[derive(Clone, Copy, Debug, PartialEq, Eq)]
pub enum PromiseOutcome {
    Successful,
    Failed,
}

/// Milliseconds from a block timestamp in nanoseconds.
pub open spec fn spec_millis(block_timestamp: u64) -> u64 {
    block_timestamp / 1_000_000
}

/// The block time in milliseconds, as the contracts count time.
pub fn millis(block_timestamp: u64) -> (r: u64)
    ensures
        r == spec_millis(block_timestamp),
{
    block_timestamp / 1_000_000
}

} // verus!
