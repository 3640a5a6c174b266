//! Column widths.
use vstd::prelude::*;

verus! {

/// The maximum column width of data printed on the terminal.
#[derive(Clone, Copy, Debug, PartialEq, Eq, Structural)]
pub enum MaxColWidth {
    /// Column width.
    Length(u16),
    /// Column width expressed as a percentage of the terminal's width.
    Percentage(u16),
}

} // verus!
