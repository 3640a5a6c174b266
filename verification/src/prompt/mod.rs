//! Prompts shown while editing a partition table.
pub mod answers;
pub mod menu_item;
pub mod prompt_kind;

pub use menu_item::MenuItem;
pub use prompt_kind::PromptKind;
