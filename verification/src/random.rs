//! The one source of chance: uniform draws from a small range.

use rand::Rng;
use vstd::prelude::*;

verus! {

/// Calls `rand::thread_rng().gen_range(low..=high)`: one value drawn
/// uniformly from the closed range, fresh on every call. The contract
/// claims only that the value lies in the range, which is all that holds of
/// every draw; an empty range, on which `gen_range` panics, is excluded.
/// Should the operating system give the generator no seed, the first draw
/// of a thread panics inside `rand`.
#[verifier::external_body]
pub(crate) fn draw_between(low: u8, high: u8) -> (value: u8)
    requires
        low <= high,
    ensures
        low <= value <= high,
{
    rand::thread_rng().gen_range(low..=high)
}

} // verus!
