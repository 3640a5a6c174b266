//! Partition table header entries.
use vstd::prelude::*;

verus! {

/// Fields in a Partition Table Header.
#[derive(Clone, Copy, Debug, PartialEq, Eq, Structural)]
#[non_exhaustive]
pub enum HeaderEntry {
    /// Type of controller (e.g., SMD, ESDI, floppy).
    BsdType,
    /// Number of tracks per cylinder.
    BsdTracksPerCylinder,
    /// Number of sectors per cylinder.
    BsdSectorsPerCylinder,
    /// Total number of cylinders on the disk.
    BsdCylindersTotal,
    /// Sector size in bytes.
    BsdSectorSize,
    BsdCylinderSkew,
    BsdDisk,
    BsdFlags,
    BsdHeadSwitch,
    BsdInterlave,
    BsdPackName,
    BsdRpm,
    BsdTrackSkew,
    BsdTrackToTrackSeek,
    GenericId,
    /// LBA address of the alternate GPT Header.
    GptAlternateLba,
    /// The first usable logical block that may be used by a partition described by a GUID
    /// Partition Entry.
    GptFirstUsableLba,
    /// The last usable logical block that may be used by a partition described by a GUID Partition
    /// Entry.
    GptLastUsableLba,
    /// GUID that can be used to uniquely identify the disk.
    GptDiskGuid,
    /// The starting LBA of the GUID Partition Entry array.
    GptPartitionEntryFirstLba,
    /// The ending LBA of the GUID Partition Entry array.
    GptPartitionEntryLastLba,
    /// The maximum number of Partition Entries in the GUID Partition Entry array.
    GptMaxNumberOfPartitionEntries,
    SgiBootfile,
    SgiInterleave,
    SgiPhysicalCylindersCount,
    SgiSpareSectorsPerCylinder,
    SunAlternateCylinders,
    SunExtraSectorsPerCylinder,
    SunInterleave,
    SunPartitionTableType,
    SunPhysicalCylinders,
    SunRpm,
    SunVolumeId,
}

impl HeaderEntry {
    /// The number of this entry: its `libfdisk` label item number plus the offset of its partition table family.
    pub open spec fn value(self) -> u32 {
        match self {
            HeaderEntry::BsdType => 24,
            HeaderEntry::BsdTracksPerCylinder => 29,
            HeaderEntry::BsdSectorsPerCylinder => 30,
            HeaderEntry::BsdCylindersTotal => 31,
            HeaderEntry::BsdSectorSize => 28,
            HeaderEntry::BsdCylinderSkew => 35,
            HeaderEntry::BsdDisk => 25,
            HeaderEntry::BsdFlags => 27,
            HeaderEntry::BsdHeadSwitch => 36,
            HeaderEntry::BsdInterlave => 33,
            HeaderEntry::BsdPackName => 26,
            HeaderEntry::BsdRpm => 32,
            HeaderEntry::BsdTrackSkew => 34,
            HeaderEntry::BsdTrackToTrackSeek => 37,
            HeaderEntry::GenericId => 0,
            HeaderEntry::GptAlternateLba => 74,
            HeaderEntry::GptFirstUsableLba => 72,
            HeaderEntry::GptLastUsableLba => 73,
            HeaderEntry::GptDiskGuid => 64,
            HeaderEntry::GptPartitionEntryFirstLba => 75,
            HeaderEntry::GptPartitionEntryLastLba => 77,
            HeaderEntry::GptMaxNumberOfPartitionEntries => 76,
            HeaderEntry::SgiBootfile => 267,
            HeaderEntry::SgiInterleave => 266,
            HeaderEntry::SgiPhysicalCylindersCount => 264,
            HeaderEntry::SgiSpareSectorsPerCylinder => 265,
            HeaderEntry::SunAlternateCylinders => 1035,
            HeaderEntry::SunExtraSectorsPerCylinder => 1037,
            HeaderEntry::SunInterleave => 1038,
            HeaderEntry::SunPartitionTableType => 1032,
            HeaderEntry::SunPhysicalCylinders => 1036,
            HeaderEntry::SunRpm => 1034,
            HeaderEntry::SunVolumeId => 1033,
        }
    }

    /// The variant whose number is `v`, if there is one.
    pub open spec fn from_value(v: u32) -> Option<HeaderEntry> {
        match v {
            24 => Some(HeaderEntry::BsdType),
            29 => Some(HeaderEntry::BsdTracksPerCylinder),
            30 => Some(HeaderEntry::BsdSectorsPerCylinder),
            31 => Some(HeaderEntry::BsdCylindersTotal),
            28 => Some(HeaderEntry::BsdSectorSize),
            35 => Some(HeaderEntry::BsdCylinderSkew),
            25 => Some(HeaderEntry::BsdDisk),
            27 => Some(HeaderEntry::BsdFlags),
            36 => Some(HeaderEntry::BsdHeadSwitch),
            33 => Some(HeaderEntry::BsdInterlave),
            26 => Some(HeaderEntry::BsdPackName),
            32 => Some(HeaderEntry::BsdRpm),
            34 => Some(HeaderEntry::BsdTrackSkew),
            37 => Some(HeaderEntry::BsdTrackToTrackSeek),
            0 => Some(HeaderEntry::GenericId),
            74 => Some(HeaderEntry::GptAlternateLba),
            72 => Some(HeaderEntry::GptFirstUsableLba),
            73 => Some(HeaderEntry::GptLastUsableLba),
            64 => Some(HeaderEntry::GptDiskGuid),
            75 => Some(HeaderEntry::GptPartitionEntryFirstLba),
            77 => Some(HeaderEntry::GptPartitionEntryLastLba),
            76 => Some(HeaderEntry::GptMaxNumberOfPartitionEntries),
            267 => Some(HeaderEntry::SgiBootfile),
            266 => Some(HeaderEntry::SgiInterleave),
            264 => Some(HeaderEntry::SgiPhysicalCylindersCount),
            265 => Some(HeaderEntry::SgiSpareSectorsPerCylinder),
            1035 => Some(HeaderEntry::SunAlternateCylinders),
            1037 => Some(HeaderEntry::SunExtraSectorsPerCylinder),
            1038 => Some(HeaderEntry::SunInterleave),
            1032 => Some(HeaderEntry::SunPartitionTableType),
            1036 => Some(HeaderEntry::SunPhysicalCylinders),
            1034 => Some(HeaderEntry::SunRpm),
            1033 => Some(HeaderEntry::SunVolumeId),
            _ => None,
        }
    }

    /// Converts this value to its underlying `u32` number.
    pub fn to_u32(&self) -> (v: u32)
        ensures
            v == self.value(),
    {
        match self {
            HeaderEntry::BsdType => 24,
            HeaderEntry::BsdTracksPerCylinder => 29,
            HeaderEntry::BsdSectorsPerCylinder => 30,
            HeaderEntry::BsdCylindersTotal => 31,
            HeaderEntry::BsdSectorSize => 28,
            HeaderEntry::BsdCylinderSkew => 35,
            HeaderEntry::BsdDisk => 25,
            HeaderEntry::BsdFlags => 27,
            HeaderEntry::BsdHeadSwitch => 36,
            HeaderEntry::BsdInterlave => 33,
            HeaderEntry::BsdPackName => 26,
            HeaderEntry::BsdRpm => 32,
            HeaderEntry::BsdTrackSkew => 34,
            HeaderEntry::BsdTrackToTrackSeek => 37,
            HeaderEntry::GenericId => 0,
            HeaderEntry::GptAlternateLba => 74,
            HeaderEntry::GptFirstUsableLba => 72,
            HeaderEntry::GptLastUsableLba => 73,
            HeaderEntry::GptDiskGuid => 64,
            HeaderEntry::GptPartitionEntryFirstLba => 75,
            HeaderEntry::GptPartitionEntryLastLba => 77,
            HeaderEntry::GptMaxNumberOfPartitionEntries => 76,
            HeaderEntry::SgiBootfile => 267,
            HeaderEntry::SgiInterleave => 266,
            HeaderEntry::SgiPhysicalCylindersCount => 264,
            HeaderEntry::SgiSpareSectorsPerCylinder => 265,
            HeaderEntry::SunAlternateCylinders => 1035,
            HeaderEntry::SunExtraSectorsPerCylinder => 1037,
            HeaderEntry::SunInterleave => 1038,
            HeaderEntry::SunPartitionTableType => 1032,
            HeaderEntry::SunPhysicalCylinders => 1036,
            HeaderEntry::SunRpm => 1034,
            HeaderEntry::SunVolumeId => 1033,
        }
    }

    /// Converts a `u32` number to the variant it stands for, or `None` when no variant has
    /// that number.
    pub fn try_from_u32(v: u32) -> (r: Option<HeaderEntry>)
        ensures
            r == HeaderEntry::from_value(v),
    {
        match v {
            24 => Some(HeaderEntry::BsdType),
            29 => Some(HeaderEntry::BsdTracksPerCylinder),
            30 => Some(HeaderEntry::BsdSectorsPerCylinder),
            31 => Some(HeaderEntry::BsdCylindersTotal),
            28 => Some(HeaderEntry::BsdSectorSize),
            35 => Some(HeaderEntry::BsdCylinderSkew),
            25 => Some(HeaderEntry::BsdDisk),
            27 => Some(HeaderEntry::BsdFlags),
            36 => Some(HeaderEntry::BsdHeadSwitch),
            33 => Some(HeaderEntry::BsdInterlave),
            26 => Some(HeaderEntry::BsdPackName),
            32 => Some(HeaderEntry::BsdRpm),
            34 => Some(HeaderEntry::BsdTrackSkew),
            37 => Some(HeaderEntry::BsdTrackToTrackSeek),
            0 => Some(HeaderEntry::GenericId),
            74 => Some(HeaderEntry::GptAlternateLba),
            72 => Some(HeaderEntry::GptFirstUsableLba),
            73 => Some(HeaderEntry::GptLastUsableLba),
            64 => Some(HeaderEntry::GptDiskGuid),
            75 => Some(HeaderEntry::GptPartitionEntryFirstLba),
            77 => Some(HeaderEntry::GptPartitionEntryLastLba),
            76 => Some(HeaderEntry::GptMaxNumberOfPartitionEntries),
            267 => Some(HeaderEntry::SgiBootfile),
            266 => Some(HeaderEntry::SgiInterleave),
            264 => Some(HeaderEntry::SgiPhysicalCylindersCount),
            265 => Some(HeaderEntry::SgiSpareSectorsPerCylinder),
            1035 => Some(HeaderEntry::SunAlternateCylinders),
            1037 => Some(HeaderEntry::SunExtraSectorsPerCylinder),
            1038 => Some(HeaderEntry::SunInterleave),
            1032 => Some(HeaderEntry::SunPartitionTableType),
            1036 => Some(HeaderEntry::SunPhysicalCylinders),
            1034 => Some(HeaderEntry::SunRpm),
            1033 => Some(HeaderEntry::SunVolumeId),
            _ => None,
        }
    }
}

impl From<HeaderEntry> for u32 {
    fn from(x: HeaderEntry) -> (v: u32)
        ensures
            v == x.value(),
    {
        x.to_u32()
    }
}

impl vstd::std_specs::convert::FromSpecImpl<HeaderEntry> for u32 {
    open spec fn obeys_from_spec() -> bool {
        true
    }

    open spec fn from_spec(x: HeaderEntry) -> u32 {
        x.value()
    }
}

/// Numbers and variants of `HeaderEntry` correspond one to one.
pub proof fn lemma_header_entry_roundtrip(x: HeaderEntry, v: u32)
    ensures
        HeaderEntry::from_value(x.value()) == Some(x),
        HeaderEntry::from_value(v) matches Some(y) ==> y.value() == v,
{
}

/// Offset added to the label item numbers of `BSD` entries.
pub const BSD_OFFSET: u32 = 16;

/// Offset added to the label item numbers of `GPT` entries.
pub const GPT_OFFSET: u32 = 64;

/// Offset added to the label item numbers of `SGI` entries.
pub const SGI_OFFSET: u32 = 256;

/// Offset added to the label item numbers of `SUN` entries.
pub const SUN_OFFSET: u32 = 1024;

impl HeaderEntry {
    /// The `libfdisk` label item number of this entry (`enum fdisk_labelitem_gen`,
    /// `fdisk_labelitem_bsd`, `fdisk_labelitem_gpt`, `fdisk_labelitem_sgi` or
    /// `fdisk_labelitem_sun`).
    pub open spec fn item(self) -> u32 {
        match self {
            HeaderEntry::BsdType => 8,
            HeaderEntry::BsdTracksPerCylinder => 13,
            HeaderEntry::BsdSectorsPerCylinder => 14,
            HeaderEntry::BsdCylindersTotal => 15,
            HeaderEntry::BsdSectorSize => 12,
            HeaderEntry::BsdCylinderSkew => 19,
            HeaderEntry::BsdDisk => 9,
            HeaderEntry::BsdFlags => 11,
            HeaderEntry::BsdHeadSwitch => 20,
            HeaderEntry::BsdInterlave => 17,
            HeaderEntry::BsdPackName => 10,
            HeaderEntry::BsdRpm => 16,
            HeaderEntry::BsdTrackSkew => 18,
            HeaderEntry::BsdTrackToTrackSeek => 21,
            HeaderEntry::GenericId => 0,
            HeaderEntry::GptAlternateLba => 10,
            HeaderEntry::GptFirstUsableLba => 8,
            HeaderEntry::GptLastUsableLba => 9,
            HeaderEntry::GptDiskGuid => 0,
            HeaderEntry::GptPartitionEntryFirstLba => 11,
            HeaderEntry::GptPartitionEntryLastLba => 13,
            HeaderEntry::GptMaxNumberOfPartitionEntries => 12,
            HeaderEntry::SgiBootfile => 11,
            HeaderEntry::SgiInterleave => 10,
            HeaderEntry::SgiPhysicalCylindersCount => 8,
            HeaderEntry::SgiSpareSectorsPerCylinder => 9,
            HeaderEntry::SunAlternateCylinders => 11,
            HeaderEntry::SunExtraSectorsPerCylinder => 13,
            HeaderEntry::SunInterleave => 14,
            HeaderEntry::SunPartitionTableType => 8,
            HeaderEntry::SunPhysicalCylinders => 12,
            HeaderEntry::SunRpm => 10,
            HeaderEntry::SunVolumeId => 9,
        }
    }

    /// The offset of this entry's partition table family.
    pub open spec fn family_offset(self) -> u32 {
        match self {
            HeaderEntry::BsdType => BSD_OFFSET,
            HeaderEntry::BsdTracksPerCylinder => BSD_OFFSET,
            HeaderEntry::BsdSectorsPerCylinder => BSD_OFFSET,
            HeaderEntry::BsdCylindersTotal => BSD_OFFSET,
            HeaderEntry::BsdSectorSize => BSD_OFFSET,
            HeaderEntry::BsdCylinderSkew => BSD_OFFSET,
            HeaderEntry::BsdDisk => BSD_OFFSET,
            HeaderEntry::BsdFlags => BSD_OFFSET,
            HeaderEntry::BsdHeadSwitch => BSD_OFFSET,
            HeaderEntry::BsdInterlave => BSD_OFFSET,
            HeaderEntry::BsdPackName => BSD_OFFSET,
            HeaderEntry::BsdRpm => BSD_OFFSET,
            HeaderEntry::BsdTrackSkew => BSD_OFFSET,
            HeaderEntry::BsdTrackToTrackSeek => BSD_OFFSET,
            HeaderEntry::GenericId => 0,
            HeaderEntry::GptAlternateLba => GPT_OFFSET,
            HeaderEntry::GptFirstUsableLba => GPT_OFFSET,
            HeaderEntry::GptLastUsableLba => GPT_OFFSET,
            HeaderEntry::GptDiskGuid => GPT_OFFSET,
            HeaderEntry::GptPartitionEntryFirstLba => GPT_OFFSET,
            HeaderEntry::GptPartitionEntryLastLba => GPT_OFFSET,
            HeaderEntry::GptMaxNumberOfPartitionEntries => GPT_OFFSET,
            HeaderEntry::SgiBootfile => SGI_OFFSET,
            HeaderEntry::SgiInterleave => SGI_OFFSET,
            HeaderEntry::SgiPhysicalCylindersCount => SGI_OFFSET,
            HeaderEntry::SgiSpareSectorsPerCylinder => SGI_OFFSET,
            HeaderEntry::SunAlternateCylinders => SUN_OFFSET,
            HeaderEntry::SunExtraSectorsPerCylinder => SUN_OFFSET,
            HeaderEntry::SunInterleave => SUN_OFFSET,
            HeaderEntry::SunPartitionTableType => SUN_OFFSET,
            HeaderEntry::SunPhysicalCylinders => SUN_OFFSET,
            HeaderEntry::SunRpm => SUN_OFFSET,
            HeaderEntry::SunVolumeId => SUN_OFFSET,
        }
    }

    /// Converts this `HeaderEntry` to its `libfdisk` label item number, i.e. its number without
    /// the offset of its partition table family.
    pub fn to_original_u32(&self) -> (v: u32)
        ensures
            v == self.item(),
    {
        let value = self.to_u32();
        let offset = match self {
            HeaderEntry::GenericId => 0,
            HeaderEntry::BsdType => BSD_OFFSET,
            HeaderEntry::BsdTracksPerCylinder => BSD_OFFSET,
            HeaderEntry::BsdSectorsPerCylinder => BSD_OFFSET,
            HeaderEntry::BsdCylindersTotal => BSD_OFFSET,
            HeaderEntry::BsdSectorSize => BSD_OFFSET,
            HeaderEntry::BsdCylinderSkew => BSD_OFFSET,
            HeaderEntry::BsdDisk => BSD_OFFSET,
            HeaderEntry::BsdFlags => BSD_OFFSET,
            HeaderEntry::BsdHeadSwitch => BSD_OFFSET,
            HeaderEntry::BsdInterlave => BSD_OFFSET,
            HeaderEntry::BsdPackName => BSD_OFFSET,
            HeaderEntry::BsdRpm => BSD_OFFSET,
            HeaderEntry::BsdTrackSkew => BSD_OFFSET,
            HeaderEntry::BsdTrackToTrackSeek => BSD_OFFSET,
            HeaderEntry::GptAlternateLba => GPT_OFFSET,
            HeaderEntry::GptFirstUsableLba => GPT_OFFSET,
            HeaderEntry::GptLastUsableLba => GPT_OFFSET,
            HeaderEntry::GptDiskGuid => GPT_OFFSET,
            HeaderEntry::GptPartitionEntryFirstLba => GPT_OFFSET,
            HeaderEntry::GptPartitionEntryLastLba => GPT_OFFSET,
            HeaderEntry::GptMaxNumberOfPartitionEntries => GPT_OFFSET,
            HeaderEntry::SgiBootfile => SGI_OFFSET,
            HeaderEntry::SgiInterleave => SGI_OFFSET,
            HeaderEntry::SgiPhysicalCylindersCount => SGI_OFFSET,
            HeaderEntry::SgiSpareSectorsPerCylinder => SGI_OFFSET,
            HeaderEntry::SunAlternateCylinders => SUN_OFFSET,
            HeaderEntry::SunExtraSectorsPerCylinder => SUN_OFFSET,
            HeaderEntry::SunInterleave => SUN_OFFSET,
            HeaderEntry::SunPartitionTableType => SUN_OFFSET,
            HeaderEntry::SunPhysicalCylinders => SUN_OFFSET,
            HeaderEntry::SunRpm => SUN_OFFSET,
            HeaderEntry::SunVolumeId => SUN_OFFSET,
        };
        value - offset
    }
}

/// The number of a header entry is its label item number plus the offset of its family.
pub proof fn lemma_header_entry_number(e: HeaderEntry)
    ensures
        e.value() == e.item() + e.family_offset(),
        e.family_offset() == 0 || e.family_offset() == BSD_OFFSET || e.family_offset()
            == GPT_OFFSET || e.family_offset() == SGI_OFFSET || e.family_offset() == SUN_OFFSET,
{
}

} // verus!
