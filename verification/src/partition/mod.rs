//! Partitions and partition types.
pub mod code;
pub mod comparison;
pub mod defaults;
pub mod flags;
pub mod guid;
pub mod partition_builder;
pub mod partition_kind_builder;

pub use code::Code;
pub use flags::{BitFlag, DOSFlag, GPTFlag, SGIFlag};
pub use guid::Guid;
pub use partition_builder::{PartitionBuilder, PartitionSetting};
pub use partition_kind_builder::{KindIdentifier, PartitionKindBuilder, PartitionKindRequest};
