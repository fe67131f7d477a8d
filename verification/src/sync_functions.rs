//! Synchronous functions of the runtime that Milika programs can call.
use rand::{Rng, SeedableRng};
use vstd::prelude::*;

verus! {

/// The number in `0..n` that a ChaCha8 generator seeded with `seed` draws
/// first.
pub uninterp spec fn seeded_gen_range(seed: u64, n: i64) -> i64;

/// Calls `rand_chacha::ChaCha8Rng::seed_from_u64(seed)`, then `gen_range(0..n)`
/// of `rand::Rng` on it. Claimed: the result is in `0..n` (what `gen_range`
/// documents) and depends on `seed` and `n` alone (the generator is seeded
/// deterministically). `gen_range` panics on an empty range, which
/// `requires` leaves out.
#[verifier::external_body]
fn chacha_gen_range(seed: u64, n: i64) -> (r: i64)
    requires
        n > 0,
    ensures
        r == seeded_gen_range(seed, n),
        0 <= r < n,
{
    let mut rng = rand_chacha::ChaCha8Rng::seed_from_u64(seed);
    rng.gen_range(0..n)
}

/// Calls `rand::thread_rng()`, then `gen_range(0..n)` on it. Claimed: the
/// result is in `0..n`; which number comes out is left open (it is random).
#[verifier::external_body]
fn thread_gen_range(n: i64) -> (r: i64)
    requires
        n > 0,
    ensures
        0 <= r < n,
{
    rand::thread_rng().gen_range(0..n)
}

/// A random number in `0..n`: the first draw of a generator seeded with
/// `seed` when a seed is given, else a number of the thread's generator.
pub fn rand_int(n: i64, seed: Option<u64>) -> (r: i64)
    requires
        n > 0,
    ensures
        0 <= r < n,
        seed is Some ==> r == seeded_gen_range(seed->0, n),
{
    match seed {
        Some(seed) => chacha_gen_range(seed, n),
        None => thread_gen_range(n),
    }
}

} // verus!
