//! Generation counters, which wrap round at their end.

use vstd::prelude::*;

verus! {

/// The count after `n`; the greatest count is followed by zero.
pub open spec fn after(n: u64) -> u64 {
    if n == u64::MAX {
        0
    } else {
        (n + 1) as u64
    }
}

/// The count after `n`.
pub fn bumped(n: u64) -> (r: u64)
    ensures
        r == after(n),
        r != n,
{
    n.wrapping_add(1)
}

} // verus!
