//! A free-standing counter record, unrelated to the token ledger.

use vstd::prelude::*;

verus! {

/// A single stored number.
#[derive(Clone, Copy, Debug, PartialEq, Eq, Structural)]
pub struct Count {
    pub number: u64,
}

/// Starts the counter at zero.
pub fn initialize(count: &mut Count)
    ensures
        final(count).number == 0,
{
    count.number = 0;
}

/// Overwrites the counter with the given number.
pub fn set_number(count: &mut Count, new_number: u64)
    ensures
        final(count).number == new_number,
{
    count.number = new_number;
}

/// Steps the counter up by one; the caller keeps it below the maximum.
pub fn increment(count: &mut Count)
    requires
        old(count).number < u64::MAX,
    ensures
        final(count).number == old(count).number + 1,
{
    count.number = count.number + 1;
}

} // verus!
