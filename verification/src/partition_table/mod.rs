//! Partition tables and their parts.
pub mod ext;
pub mod field;
pub mod header_entry;
pub mod input_type;
pub mod max_col_width;
pub mod partition_table_kind;
pub mod range;
pub mod shortcut;
pub mod table_section;

pub use ext::{PartitionTableDOSExt, PartitionTableGPTExt};
pub use field::Field;
pub use header_entry::HeaderEntry;
pub use input_type::InputType;
pub use max_col_width::MaxColWidth;
pub use partition_table_kind::PartitionTableKind;
pub use range::Range;
pub use shortcut::Shortcut;
pub use table_section::TableSection;
