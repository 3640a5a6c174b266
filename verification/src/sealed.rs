//! Marker for the types that may carry the partition table extension traits.
use vstd::prelude::*;

verus! {

/// Implemented only by partition table types.
pub trait Sealed {

}

} // verus!
