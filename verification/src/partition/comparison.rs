//! Reading the results of partition comparisons.
use vstd::prelude::*;

use core::cmp::Ordering;

verus! {

/// Reads the sign of a comparison result, the way `libfdisk`'s comparison functions report it:
/// negative for less, zero for equal, positive for greater.
pub fn ordering_from_comparison(result: i32) -> (o: Ordering)
    ensures
        result < 0 ==> o == Ordering::Less,
        result == 0 ==> o == Ordering::Equal,
        result > 0 ==> o == Ordering::Greater,
{
    if result < 0 {
        Ordering::Less
    } else if result == 0 {
        Ordering::Equal
    } else {
        Ordering::Greater
    }
}

} // verus!
