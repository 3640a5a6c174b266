//! Value ranges.
use vstd::prelude::*;

verus! {

/// A value range.
#[derive(Debug)]
pub struct Range {
    /// Minimum value.
    lower_bound: u64,
    /// Maximum value.
    upper_bound: u64,
}

impl Range {
    /// The minimum value of this range.
    pub closed spec fn lower(&self) -> u64 {
        self.lower_bound
    }

    /// The maximum value of this range.
    pub closed spec fn upper(&self) -> u64 {
        self.upper_bound
    }

    /// Creates a new `Range`.
    pub fn new(lower_bound: u64, upper_bound: u64) -> (r: Range)
        ensures
            r.lower() == lower_bound,
            r.upper() == upper_bound,
    {
        Range { lower_bound, upper_bound }
    }

    /// Returns the `Range`'s lower bound.
    pub fn lower_bound(&self) -> (b: u64)
        ensures
            b == self.lower(),
    {
        self.lower_bound
    }

    /// Returns the `Range`'s upper bound.
    pub fn upper_bound(&self) -> (b: u64)
        ensures
            b == self.upper(),
    {
        self.upper_bound
    }
    /// Reads the outcome of a query for an admissible range: status `0` means the bounds were
    /// filled in, any other status that there is no range to report.
    pub fn from_lookup(status: i32, lower_bound: u64, upper_bound: u64) -> (r: Option<Range>)
        ensures
            r is Some <==> status == 0,
            r matches Some(range) ==> range.lower() == lower_bound && range.upper() == upper_bound,
    {
        if status == 0 {
            Some(Range::new(lower_bound, upper_bound))
        } else {
            None
        }
    }
}

} // verus!
