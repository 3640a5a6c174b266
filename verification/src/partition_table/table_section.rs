//! Partition table regions.
use vstd::prelude::*;

verus! {

/// Metadata about a region of a partition table.
///
/// For example, a primary GPT partition table has three sections:
/// - a Protective MBR,
/// - a Partition Table Header,
/// - and a Partition Entry Array.
#[derive(Debug)]
pub struct TableSection {
    name: String,
    starting_offset: u64,
    size: usize,
}

impl TableSection {
    /// The section's name.
    pub closed spec fn name_text(&self) -> Seq<char> {
        self.name@
    }

    /// The section's starting offset.
    pub closed spec fn offset(&self) -> u64 {
        self.starting_offset
    }

    /// The section's size.
    pub closed spec fn length(&self) -> usize {
        self.size
    }

    /// Creates a `TableSection`.
    pub fn new(name: String, starting_offset: u64, size: usize) -> (s: TableSection)
        ensures
            s.name_text() == name@,
            s.offset() == starting_offset,
            s.length() == size,
    {
        TableSection { name, starting_offset, size }
    }

    /// Returns the section's name.
    pub fn name(&self) -> (n: &str)
        ensures
            n@ == self.name_text(),
    {
        self.name.as_str()
    }

    /// Returns the section's starting offset.
    pub fn starting_offset(&self) -> (o: u64)
        ensures
            o == self.offset(),
    {
        self.starting_offset
    }

    /// Returns the section's size.
    pub fn size(&self) -> (s: usize)
        ensures
            s == self.length(),
    {
        self.size
    }
}

} // verus!
