//! Kinds of partition tables.
use vstd::prelude::*;

verus! {

/// Supported types of partition tables.
#[derive(Clone, Copy, Debug, PartialEq, Eq, Structural)]
#[non_exhaustive]
pub enum PartitionTableKind {
    BSD,
    DOS,
    GPT,
    SGI,
    SUN,
}

impl PartitionTableKind {
    /// The `libfdisk` label type number of this kind (`enum fdisk_labeltype`).
    pub open spec fn value(self) -> u32 {
        match self {
            PartitionTableKind::BSD => 16,
            PartitionTableKind::DOS => 2,
            PartitionTableKind::GPT => 32,
            PartitionTableKind::SGI => 8,
            PartitionTableKind::SUN => 4,
        }
    }

    /// The variant whose number is `v`, if there is one.
    pub open spec fn from_value(v: u32) -> Option<PartitionTableKind> {
        match v {
            16 => Some(PartitionTableKind::BSD),
            2 => Some(PartitionTableKind::DOS),
            32 => Some(PartitionTableKind::GPT),
            8 => Some(PartitionTableKind::SGI),
            4 => Some(PartitionTableKind::SUN),
            _ => None,
        }
    }

    /// Converts this value to its underlying `u32` number.
    pub fn to_u32(&self) -> (v: u32)
        ensures
            v == self.value(),
    {
        match self {
            PartitionTableKind::BSD => 16,
            PartitionTableKind::DOS => 2,
            PartitionTableKind::GPT => 32,
            PartitionTableKind::SGI => 8,
            PartitionTableKind::SUN => 4,
        }
    }

    /// Converts a `u32` number to the variant it stands for, or `None` when no variant has
    /// that number.
    pub fn try_from_u32(v: u32) -> (r: Option<PartitionTableKind>)
        ensures
            r == PartitionTableKind::from_value(v),
    {
        match v {
            16 => Some(PartitionTableKind::BSD),
            2 => Some(PartitionTableKind::DOS),
            32 => Some(PartitionTableKind::GPT),
            8 => Some(PartitionTableKind::SGI),
            4 => Some(PartitionTableKind::SUN),
            _ => None,
        }
    }
}

impl From<PartitionTableKind> for u32 {
    fn from(x: PartitionTableKind) -> (v: u32)
        ensures
            v == x.value(),
    {
        x.to_u32()
    }
}

impl vstd::std_specs::convert::FromSpecImpl<PartitionTableKind> for u32 {
    open spec fn obeys_from_spec() -> bool {
        true
    }

    open spec fn from_spec(x: PartitionTableKind) -> u32 {
        x.value()
    }
}

/// Numbers and variants of `PartitionTableKind` correspond one to one.
pub proof fn lemma_partition_table_kind_roundtrip(x: PartitionTableKind, v: u32)
    ensures
        PartitionTableKind::from_value(x.value()) == Some(x),
        PartitionTableKind::from_value(v) matches Some(y) ==> y.value() == v,
{
}

impl PartitionTableKind {
    /// The name of this kind of partition table.
    pub open spec fn name(self) -> Seq<char> {
        match self {
            PartitionTableKind::BSD => "bsd"@,
            PartitionTableKind::DOS => "dos"@,
            PartitionTableKind::GPT => "gpt"@,
            PartitionTableKind::SGI => "sgi"@,
            PartitionTableKind::SUN => "sun"@,
        }
    }

    /// View this `PartitionTableKind` as a UTF-8 `str`.
    pub fn as_str(&self) -> (s: &'static str)
        ensures
            s@ == self.name(),
    {
        match self {
            PartitionTableKind::BSD => "bsd",
            PartitionTableKind::DOS => "dos",
            PartitionTableKind::GPT => "gpt",
            PartitionTableKind::SGI => "sgi",
            PartitionTableKind::SUN => "sun",
        }
    }
}

} // verus!
