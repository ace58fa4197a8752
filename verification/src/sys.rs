use vstd::prelude::*;

verus! {

// The time- and randomness-driven pattern generators draw their
// nondeterministic inputs through the wrappers below; everything
// computed from the values they return is verified for every possible
// outcome.

/// Relies on chrono's `Utc::now`: the current wall-clock time, converted
/// to milliseconds since the Unix epoch. Nothing can be promised of a
/// clock reading, so callers cope with every value. `Utc::now` panics on
/// a system clock before the Unix epoch, which the platforms this crate's
/// hardware backends support cannot produce.
#[verifier::external_body]
pub fn now_millis() -> i64 {
    chrono::Utc::now().timestamp_millis()
}

/// Relies on rand's `Rng::gen_range` on the thread-local generator: a
/// uniformly random value below the bound. `gen_range` panics on an empty
/// range, which the precondition rules out.
#[verifier::external_body]
pub fn rand_below(bound: u64) -> (r: u64)
    requires
        bound >= 1,
    ensures
        r < bound,
{
    rand::Rng::gen_range(&mut rand::thread_rng(), 0..bound)
}

/// Relies on rand's `SliceRandom::choose_multiple` on the thread-local
/// generator: `amount` elements of the slice at distinct positions (all
/// of them if the slice is shorter), so every returned value is an
/// element of the input.
#[verifier::external_body]
pub fn choose_distinct(values: &Vec<usize>, amount: usize) -> (chosen: Vec<usize>)
    ensures
        chosen@.len() == vstd::math::min(amount as int, values@.len() as int),
        forall|i: int| 0 <= i < chosen@.len() ==> values@.contains(#[trigger] chosen@[i]),
{
    rand::seq::SliceRandom::choose_multiple(values.as_slice(), &mut rand::thread_rng(), amount)
        .cloned()
        .collect()
}

} // verus!
