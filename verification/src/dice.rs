//! The source of the percentile rolls that decide dodges and critical hits.

use rand::Rng;
use vstd::prelude::*;

verus! {

/// The smallest value of a percentile roll.
pub const ROLL_MIN: i32 = 1;

/// The largest value of a percentile roll.
pub const ROLL_MAX: i32 = 100;

/// Whether `roll` is a value that a percentile die can show.
pub open spec fn is_roll(roll: int) -> bool {
    ROLL_MIN <= roll <= ROLL_MAX
}

/// Draws an integer between `low` and `high`, both included, from the
/// thread-local generator of the `rand` crate:
/// `rand::thread_rng().gen_range(low..=high)`.
///
/// Trusted, not proved: the value returned lies between `low` and `high`, which
/// is what `gen_range` documents for an inclusive range that is not empty; on an
/// empty range it panics, so `low <= high` is required. Nothing is claimed of
/// which value it is, nor that two draws agree. The generator is seeded by the
/// operating system on first use.
#[verifier::external_body]
fn roll_between(low: i32, high: i32) -> (roll: i32)
    requires
        low <= high,
    ensures
        low <= roll <= high,
{
    rand::thread_rng().gen_range(low..=high)
}

/// Draws one percentile roll.
pub(crate) fn roll_percent() -> (roll: i32)
    ensures
        is_roll(roll as int),
{
    roll_between(ROLL_MIN, ROLL_MAX)
}

} // verus!
