//! Partition entry fields.
use vstd::prelude::*;

verus! {

/// Fields of a partition entry in a partition table.
#[derive(Clone, Copy, Debug, PartialEq, Eq, Structural)]
#[non_exhaustive]
pub enum Field {
    /// Unspecified item.
    NotSpecified,
    /// Partition device name.
    Device,
    /// Indicator of bootable legacy partitions.
    BootIndicator,
    /// Start of partition in Cylinder-Head-Sector (CHS) address format (MBR).
    ChsStartingSector,
    /// Type of partition.
    TypeId,
    /// End of partition in Cylinder-Head-Sector (CHS) address format (MBR).
    ChsEndingSector,
    /// Start of partition in Logical Block Addressing (LBA) address format.
    StartingLba,
    /// Size of the partition in LBA units of logical blocks.
    Size,
    /// End of partition in Logical Block Addressing (LBA) address format.
    EndingLba,
    /// Attribute bits, all bits reserved by UEFI (GPT).
    AttributeBits,
    /// Null-terminated string containing a human-readable name of the partition (GPT).
    Name,
    /// Unique ID that defines the purpose and type of this Partition (GPT).
    Type,
    /// GUID that is unique for every partition entry (GPT).
    Uuid,
    /// Null-terminated string containing a human-readable name for a formatted partition.
    FileSystemLabel,
    /// File system type.
    FileSystemType,
    /// Unique file system ID.
    FileSystemUuid,
    /// For 4.2BSD file systems only, the size of a file system block, in bytes.
    BlockSize,
    /// For 4.2BSD file systems, the number of cylinders in a cylinder group.
    CylindersPerGroup,
    /// For 4.2BSD file systems only, the fragment size of the file system in bytes.
    FragmentSize,
    /// Number of cylinders (deprecated).
    NumberOfCylinders,
    /// Number of sectors.
    NumberOfSectors,
}

impl Field {
    /// The `libfdisk` field type number of this field (`enum fdisk_fieldtype`).
    pub open spec fn value(self) -> u32 {
        match self {
            Field::NotSpecified => 0,
            Field::Device => 1,
            Field::BootIndicator => 10,
            Field::ChsStartingSector => 16,
            Field::TypeId => 8,
            Field::ChsEndingSector => 13,
            Field::StartingLba => 2,
            Field::Size => 6,
            Field::EndingLba => 3,
            Field::AttributeBits => 9,
            Field::Name => 15,
            Field::Type => 7,
            Field::Uuid => 17,
            Field::FileSystemLabel => 19,
            Field::FileSystemType => 20,
            Field::FileSystemUuid => 18,
            Field::BlockSize => 11,
            Field::CylindersPerGroup => 12,
            Field::FragmentSize => 14,
            Field::NumberOfCylinders => 5,
            Field::NumberOfSectors => 4,
        }
    }

    /// The variant whose number is `v`, if there is one.
    pub open spec fn from_value(v: u32) -> Option<Field> {
        match v {
            0 => Some(Field::NotSpecified),
            1 => Some(Field::Device),
            10 => Some(Field::BootIndicator),
            16 => Some(Field::ChsStartingSector),
            8 => Some(Field::TypeId),
            13 => Some(Field::ChsEndingSector),
            2 => Some(Field::StartingLba),
            6 => Some(Field::Size),
            3 => Some(Field::EndingLba),
            9 => Some(Field::AttributeBits),
            15 => Some(Field::Name),
            7 => Some(Field::Type),
            17 => Some(Field::Uuid),
            19 => Some(Field::FileSystemLabel),
            20 => Some(Field::FileSystemType),
            18 => Some(Field::FileSystemUuid),
            11 => Some(Field::BlockSize),
            12 => Some(Field::CylindersPerGroup),
            14 => Some(Field::FragmentSize),
            5 => Some(Field::NumberOfCylinders),
            4 => Some(Field::NumberOfSectors),
            _ => None,
        }
    }

    /// Converts this value to its underlying `u32` number.
    pub fn to_u32(&self) -> (v: u32)
        ensures
            v == self.value(),
    {
        match self {
            Field::NotSpecified => 0,
            Field::Device => 1,
            Field::BootIndicator => 10,
            Field::ChsStartingSector => 16,
            Field::TypeId => 8,
            Field::ChsEndingSector => 13,
            Field::StartingLba => 2,
            Field::Size => 6,
            Field::EndingLba => 3,
            Field::AttributeBits => 9,
            Field::Name => 15,
            Field::Type => 7,
            Field::Uuid => 17,
            Field::FileSystemLabel => 19,
            Field::FileSystemType => 20,
            Field::FileSystemUuid => 18,
            Field::BlockSize => 11,
            Field::CylindersPerGroup => 12,
            Field::FragmentSize => 14,
            Field::NumberOfCylinders => 5,
            Field::NumberOfSectors => 4,
        }
    }

    /// Converts a `u32` number to the variant it stands for, or `None` when no variant has
    /// that number.
    pub fn try_from_u32(v: u32) -> (r: Option<Field>)
        ensures
            r == Field::from_value(v),
    {
        match v {
            0 => Some(Field::NotSpecified),
            1 => Some(Field::Device),
            10 => Some(Field::BootIndicator),
            16 => Some(Field::ChsStartingSector),
            8 => Some(Field::TypeId),
            13 => Some(Field::ChsEndingSector),
            2 => Some(Field::StartingLba),
            6 => Some(Field::Size),
            3 => Some(Field::EndingLba),
            9 => Some(Field::AttributeBits),
            15 => Some(Field::Name),
            7 => Some(Field::Type),
            17 => Some(Field::Uuid),
            19 => Some(Field::FileSystemLabel),
            20 => Some(Field::FileSystemType),
            18 => Some(Field::FileSystemUuid),
            11 => Some(Field::BlockSize),
            12 => Some(Field::CylindersPerGroup),
            14 => Some(Field::FragmentSize),
            5 => Some(Field::NumberOfCylinders),
            4 => Some(Field::NumberOfSectors),
            _ => None,
        }
    }
}

impl From<Field> for u32 {
    fn from(x: Field) -> (v: u32)
        ensures
            v == x.value(),
    {
        x.to_u32()
    }
}

impl vstd::std_specs::convert::FromSpecImpl<Field> for u32 {
    open spec fn obeys_from_spec() -> bool {
        true
    }

    open spec fn from_spec(x: Field) -> u32 {
        x.value()
    }
}

/// Numbers and variants of `Field` correspond one to one.
pub proof fn lemma_field_roundtrip(x: Field, v: u32)
    ensures
        Field::from_value(x.value()) == Some(x),
        Field::from_value(v) matches Some(y) ==> y.value() == v,
{
}

} // verus!
