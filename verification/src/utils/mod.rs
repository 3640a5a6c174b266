//! Library utilities.
pub mod version;
