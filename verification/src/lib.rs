//! Verified core of a bulk-ingestion pipeline: batching with a backpressure
//! ceiling, content-addressed document identifiers, bulk request bodies,
//! bounded retry with exponential backoff, a counting permit pool, and
//! progress accounting.

pub mod bulk;
pub mod ids;
pub mod logview;
pub mod orchestrator;
pub mod permits;
pub mod progress;
pub mod store;
mod text;
pub mod timestamps;
pub mod upload;

use vstd::prelude::*;

verus! {

/// Number of batches produced when `n` records are grouped into batches of
/// size `b`: the ceiling of `n / b`.
pub open spec fn batch_count(n: nat, b: nat) -> nat
    recommends
        b >= 1,
{
    if n % b == 0 {
        n / b
    } else {
        n / b + 1
    }
}

/// Size of the final batch for `n` records at batch size `b`: the remainder
/// of `n` over `b`, or a full `b` when `b` divides `n` evenly.
pub open spec fn last_batch_size(n: nat, b: nat) -> nat
    recommends
        b >= 1,
{
    if n % b == 0 {
        b
    } else {
        n % b
    }
}

} // verus!
