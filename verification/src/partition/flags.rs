//! Partition flags.
use vstd::prelude::*;

verus! {

/// `DOS` partition flag.
#[derive(Clone, Copy, Debug, PartialEq, Eq, Structural)]
#[non_exhaustive]
pub enum DOSFlag {
    /// Indicates that the partition is a bootable legacy partition.
    Boot,
}

impl DOSFlag {
    /// The flag number (`DOS_FLAG_ACTIVE` for `Boot`).
    pub open spec fn value(self) -> u64 {
        match self {
            DOSFlag::Boot => 1,
        }
    }

    /// Converts this value to its underlying `u64` number.
    pub fn to_u64(&self) -> (v: u64)
        ensures
            v == self.value(),
    {
        match self {
            DOSFlag::Boot => 1,
        }
    }
}

impl From<DOSFlag> for u64 {
    fn from(x: DOSFlag) -> (v: u64)
        ensures
            v == x.value(),
    {
        x.to_u64()
    }
}

impl vstd::std_specs::convert::FromSpecImpl<DOSFlag> for u64 {
    open spec fn obeys_from_spec() -> bool {
        true
    }

    open spec fn from_spec(x: DOSFlag) -> u64 {
        x.value()
    }
}

/// `GPT` Partition Entry attribute bits.
///
/// | Bits       | Name                 | Description                                                                                                                                                                                                                                                                                                                                                                                                                                                                                                                                                                                                                                                                                                          |
/// |----       |----                 |----                                                                                                                                                                                                                                                                                                                                                                                                                                                                                                                                                                                                                                                                                                                 |
/// | Bit 0      | Required Partition   | If this bit is set, the partition is required for the platform to function. The owner/creator of the partition indicates that deletion or modification of the contents can result in loss of platform features or failure for the platform to boot or operate. The system cannot function normally if this partition is removed, and it should be considered part of the hardware of the system. Actions such as running diagnostics, system recovery, or even OS install or boot could potentially stop working if this partition is removed. Unless OS software or firmware recognizes this partition, it should never be removed or modified as the UEFI firmware or platform hardware may become non-functional. |
/// | Bit 1      | No Block IO Protocol | If this bit is set, then firmware must not produce an EFI_BLOCK_IO_PROTOCOL device for this partition. By not producing an EFI_BLOCK_IO_PROTOCOL partition, file system mappings will not be created for this partition in UEFI ignoring the partition's content.                                                                                                                                                                                                                                                                                                                                                                                                                                                    |
/// | Bit 2      | Legacy BIOS Bootable | This bit is set aside by this specification to let systems with traditional PC-AT BIOS firmware implementations inform certain limited, special-purpose software running on these systems that a GPT partition may be bootable. For systems with firmware implementations conforming to this specification, the UEFI boot manager must ignore this bit when selecting a UEFI-compliant application, e.g., an OS loader.                                                                                                                                                                                                                                                                                              |
/// | Bits 3-47  |                      | Undefined and must be zero. Reserved for expansion by future versions of the UEFI specification.                                                                                                                                                                                                                                                                                                                                                                                                                                                                                                                                                                                                                     |
/// | Bits 48-63 |                      | Reserved for GUID specific use. The use of these bits will vary depending on the PartitionTypeGUID . Only the owner of the PartitionTypeGUID is allowed to modify these bits. They must be preserved if Bits 0-47 are modified.                                                                                                                                                                                                                                                                                                                                                                                                                                                                                      |
///
/// Source: UEFI 2.10 specs, <cite>[Defined GPT Partition Entry - Attributes](https://uefi.org/specs/UEFI/2.10/05_GUID_Partition_Table_Format.html#defined-gpt-partition-entry-attributes)</cite>
#[derive(Clone, Copy, Debug, PartialEq, Eq, Structural)]
#[non_exhaustive]
pub enum GPTFlag {
    /// `Bit 0`.
    RequiredPartition,
    /// `Bit 1`.
    NoIoBlockProtocol,
    /// `Bit 2`.
    LegacyBiosBootable,
    /// The variant `GuidSpecific` forces `libfdisk` to ask for a bit number through a
    /// [`Prompt`](crate::core::prompt::Prompt).  If you want to toggle a bit in the range [48-63]
    /// without going through a prompt, use the corresponding `Bitxx` enum variant.
    GuidSpecific,
    Bit48,
    Bit49,
    Bit50,
    Bit51,
    Bit52,
    Bit53,
    Bit54,
    Bit55,
    Bit56,
    Bit57,
    Bit58,
    Bit59,
    Bit60,
    Bit61,
    Bit62,
    Bit63,
}

impl GPTFlag {
    /// The flag number: `GPT_FLAG_REQUIRED`, `GPT_FLAG_NOBLOCK`, `GPT_FLAG_LEGACYBOOT` or `GPT_FLAG_GUIDSPECIFIC` for the first four variants, the bit number for the others.
    pub open spec fn value(self) -> u64 {
        match self {
            GPTFlag::RequiredPartition => 1,
            GPTFlag::NoIoBlockProtocol => 2,
            GPTFlag::LegacyBiosBootable => 3,
            GPTFlag::GuidSpecific => 4,
            GPTFlag::Bit48 => 48,
            GPTFlag::Bit49 => 49,
            GPTFlag::Bit50 => 50,
            GPTFlag::Bit51 => 51,
            GPTFlag::Bit52 => 52,
            GPTFlag::Bit53 => 53,
            GPTFlag::Bit54 => 54,
            GPTFlag::Bit55 => 55,
            GPTFlag::Bit56 => 56,
            GPTFlag::Bit57 => 57,
            GPTFlag::Bit58 => 58,
            GPTFlag::Bit59 => 59,
            GPTFlag::Bit60 => 60,
            GPTFlag::Bit61 => 61,
            GPTFlag::Bit62 => 62,
            GPTFlag::Bit63 => 63,
        }
    }

    /// Converts this value to its underlying `u64` number.
    pub fn to_u64(&self) -> (v: u64)
        ensures
            v == self.value(),
    {
        match self {
            GPTFlag::RequiredPartition => 1,
            GPTFlag::NoIoBlockProtocol => 2,
            GPTFlag::LegacyBiosBootable => 3,
            GPTFlag::GuidSpecific => 4,
            GPTFlag::Bit48 => 48,
            GPTFlag::Bit49 => 49,
            GPTFlag::Bit50 => 50,
            GPTFlag::Bit51 => 51,
            GPTFlag::Bit52 => 52,
            GPTFlag::Bit53 => 53,
            GPTFlag::Bit54 => 54,
            GPTFlag::Bit55 => 55,
            GPTFlag::Bit56 => 56,
            GPTFlag::Bit57 => 57,
            GPTFlag::Bit58 => 58,
            GPTFlag::Bit59 => 59,
            GPTFlag::Bit60 => 60,
            GPTFlag::Bit61 => 61,
            GPTFlag::Bit62 => 62,
            GPTFlag::Bit63 => 63,
        }
    }
}

impl From<GPTFlag> for u64 {
    fn from(x: GPTFlag) -> (v: u64)
        ensures
            v == x.value(),
    {
        x.to_u64()
    }
}

impl vstd::std_specs::convert::FromSpecImpl<GPTFlag> for u64 {
    open spec fn obeys_from_spec() -> bool {
        true
    }

    open spec fn from_spec(x: GPTFlag) -> u64 {
        x.value()
    }
}

/// `SGI` partition flags.
#[derive(Clone, Copy, Debug, PartialEq, Eq, Structural)]
#[non_exhaustive]
pub enum SGIFlag {
    Boot,
    Swap,
}

impl SGIFlag {
    /// The flag number (`SGI_FLAG_BOOT`, `SGI_FLAG_SWAP`).
    pub open spec fn value(self) -> u64 {
        match self {
            SGIFlag::Boot => 1,
            SGIFlag::Swap => 2,
        }
    }

    /// Converts this value to its underlying `u64` number.
    pub fn to_u64(&self) -> (v: u64)
        ensures
            v == self.value(),
    {
        match self {
            SGIFlag::Boot => 1,
            SGIFlag::Swap => 2,
        }
    }
}

impl From<SGIFlag> for u64 {
    fn from(x: SGIFlag) -> (v: u64)
        ensures
            v == x.value(),
    {
        x.to_u64()
    }
}

impl vstd::std_specs::convert::FromSpecImpl<SGIFlag> for u64 {
    open spec fn obeys_from_spec() -> bool {
        true
    }

    open spec fn from_spec(x: SGIFlag) -> u64 {
        x.value()
    }
}

/// Partition flags by type of partition table.
#[derive(Clone, Copy, Debug, PartialEq, Eq, Structural)]
#[non_exhaustive]
pub enum BitFlag {
    DOS(DOSFlag),
    GPT(GPTFlag),
    SGI(SGIFlag),
}

impl BitFlag {
    /// The number of the flag this value holds.
    pub open spec fn value(self) -> u64 {
        match self {
            BitFlag::DOS(f) => f.value(),
            BitFlag::GPT(f) => f.value(),
            BitFlag::SGI(f) => f.value(),
        }
    }

    /// Converts a `BitFlag` to its underlying `u64` value.
    pub fn to_u64(&self) -> (v: u64)
        ensures
            v == self.value(),
    {
        match self {
            BitFlag::DOS(f) => f.to_u64(),
            BitFlag::GPT(f) => f.to_u64(),
            BitFlag::SGI(f) => f.to_u64(),
        }
    }
}

impl From<DOSFlag> for BitFlag {
    fn from(flag: DOSFlag) -> (b: BitFlag)
        ensures
            b == BitFlag::DOS(flag),
    {
        BitFlag::DOS(flag)
    }
}

impl vstd::std_specs::convert::FromSpecImpl<DOSFlag> for BitFlag {
    open spec fn obeys_from_spec() -> bool {
        true
    }

    open spec fn from_spec(flag: DOSFlag) -> BitFlag {
        BitFlag::DOS(flag)
    }
}

impl From<GPTFlag> for BitFlag {
    fn from(flag: GPTFlag) -> (b: BitFlag)
        ensures
            b == BitFlag::GPT(flag),
    {
        BitFlag::GPT(flag)
    }
}

impl vstd::std_specs::convert::FromSpecImpl<GPTFlag> for BitFlag {
    open spec fn obeys_from_spec() -> bool {
        true
    }

    open spec fn from_spec(flag: GPTFlag) -> BitFlag {
        BitFlag::GPT(flag)
    }
}

impl From<SGIFlag> for BitFlag {
    fn from(flag: SGIFlag) -> (b: BitFlag)
        ensures
            b == BitFlag::SGI(flag),
    {
        BitFlag::SGI(flag)
    }
}

impl vstd::std_specs::convert::FromSpecImpl<SGIFlag> for BitFlag {
    open spec fn obeys_from_spec() -> bool {
        true
    }

    open spec fn from_spec(flag: SGIFlag) -> BitFlag {
        BitFlag::SGI(flag)
    }
}

} // verus!
