use vstd::prelude::*;

use rand::Rng;

verus! {

/// A value drawn uniformly from `low..=high`.
/// Relies on rand's `thread_rng().gen_range(low..=high)`: the result lies in
/// the inclusive range, which must not be empty (it panics on an empty one).
#[verifier::external_body]
fn random_in_range(low: u64, high: u64) -> (r: u64)
    requires
        low <= high,
    ensures
        low <= r <= high,
{
    rand::thread_rng().gen_range(low..=high)
}

/// The least artificial latency, in milliseconds.
pub const MIN_DELAY_MS: u64 = 400;

/// The greatest artificial latency, in milliseconds.
pub const MAX_DELAY_MS: u64 = 600;

/// A latency to simulate before answering, drawn from 400 to 600 ms.
pub fn short_delay_ms() -> (r: u64)
    ensures
        MIN_DELAY_MS <= r <= MAX_DELAY_MS,
{
    random_in_range(MIN_DELAY_MS, MAX_DELAY_MS)
}

/// The roll, out of `0..=FAILING_ROLL`, on which a bump fails.
pub const FAILING_ROLL: u64 = 4;

/// The hit count of the index page.
pub struct HitCount {
    pub count: u64,
}

impl HitCount {
    /// The count that the process starts with.
    pub fn new() -> (r: HitCount)
        ensures
            r.count == 6,
    {
        HitCount { count: 6 }
    }

    /// Applies one bump whose outcome was drawn as `roll`: it succeeds unless
    /// the roll is the failing one or the count cannot grow, and a success adds
    /// one to the count.
    pub fn bump_with_roll(&mut self, roll: u64) -> (r: bool)
        ensures
            r == (roll != FAILING_ROLL && old(self).count < u64::MAX),
            r ==> final(self).count == old(self).count + 1,
            !r ==> final(self).count == old(self).count,
    {
        if roll != FAILING_ROLL && self.count < u64::MAX {
            self.count = self.count + 1;
            true
        } else {
            false
        }
    }

    /// Bumps the count with a chance of four in five.
    pub fn bump_count(&mut self) -> (r: bool)
        ensures
            r ==> final(self).count == old(self).count + 1,
            !r ==> final(self).count == old(self).count,
    {
        let roll = random_in_range(0, FAILING_ROLL);
        self.bump_with_roll(roll)
    }
}

} // verus!
