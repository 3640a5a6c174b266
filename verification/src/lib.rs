//! Partition table management: partition type identifiers (`MBR` codes and `GPT` GUIDs) with
//! their text forms, partition table metadata, prompts, and the configuration logic of
//! partitions and partition types.
use vstd::prelude::*;

pub mod errors;
pub mod iter;
pub mod partition;
pub mod partition_table;
pub mod prompt;
pub mod sealed;
pub mod text;
pub mod utils;

pub use errors::{Result, RsFdiskError};

verus! {

} // verus!
