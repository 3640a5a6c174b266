//! `MBR` partition type identifiers.
use vstd::prelude::*;

use crate::errors::{ConversionError, ParserError};
use crate::text::{
    ascii_upper, chars_of, decode_utf8_text, hex_digit_char, hex_digit_value, hex_fold, hex_u8,
    is_blank, lemma_ascii_upper_same_up_to_case, lemma_trim_padded, same_up_to_case,
    is_whitespace, join_text, lemma_dressed_core, opening_quote, parse_hex_u8, quoted,
    slice_chars, strip_quotes, trim, trim_chars, trim_end, trim_start, unquote, utf8_error_text,
    IntErrorKind, Unquoted,
};

verus! {

/// Supported `MBR` partitions.
#[derive(Clone, Copy, Debug, PartialEq, Eq, Structural, PartialOrd, Ord, Hash)]
#[non_exhaustive]
pub enum Code {
    /// Empty partition entry.
    EmptyPartition,

    /// XENIX root.
    FAT12,

    /// XENIX root.
    XenixRoot,

    /// XENIX usr.
    XenixUser,

    /// FAT16 with less than 65,536 sectors (32 MB).
    FAT16,

    /// Extended partition with CHS addressing.
    ExtendedPartition,

    /// FAT16B with 65,536 or more sectors.
    FAT16B,

    /// HPFS / NTFS / exFAT.
    HPFSNTFSExfat,

    /// AIX boot/split.
    AIX,

    /// AIX data/boot.
    AIXBootable,

    /// OS/2 Boot Manager
    OS2BootManager,

    /// FAT32 with CHS addressing.
    W95FAT32,

    /// FAT32 with LBA.
    W95FAT32LBA,

    /// FAT16B with LBA.
    W95FAT16LBA,

    /// Extended partition with LBA.
    W95ExtendedLBA,

    /// OPUS.
    OPUS,

    /// Hidden FAT12.
    HiddenFAT12,

    /// Diagnostics and firmware partition (bootable FAT).
    CompaqDiagnostics,

    /// Hidden FAT16.
    HiddenFAT16,

    /// Hidden FAT16B.
    HiddenFAT16B,

    /// Hidden HPFS / NTFS / exFAT.
    HiddenHPFSNTFSExFat,

    /// AST SmartSleep partition.
    ASTSmartSleep,

    /// Hidden FAT32 with CHS addressing.
    HiddenW95FAT32,

    /// Hidden FAT32 with LBA.
    HiddenW95FAT32LBA,

    /// Hidden FAT16B with LBA.
    HiddenW95FAT16LBA,

    /// NEC MS-DOS 3.30 Logical sectored FAT12 or FAT16.
    NecDOS,

    /// Hidden NTFS rescue partition.
    HiddenNTFSRescue,

    /// Plan 9 edition 3 partition.
    Plan9,

    /// PartitionMagic recovery partition.
    PartitionMagic,

    /// Venix 80286.
    Venix80286,

    /// PPC PReP (Power PC Reference Platform) Boot.
    PPCPrepBoot,

    /// Secure File system (SFS).
    Sfs,

    /// Primary QNX POSIX volume on disk .
    QNX4Primary,

    /// Secondary QNX POSIX volume on disk.
    QNX4Secondary,

    /// Tertiary QNX POSIX volume on disk.
    QNX4Tertiary,

    /// OnTrack Disk Manager 4 read-only partition.
    OnTrackDM,

    /// OnTrack Disk Manager 4-6 read-write partition (Aux 1).
    OnTrackDM6Aux1,

    /// CP/M-80.
    CPM80,

    /// Disk Manager 6 Auxiliary 3 (WO).
    OnTrackDM6Aux3,

    /// Disk Manager 6 Dynamic Drive Overlay (DDO).
    OnTrackDM6Ddo,

    /// EZ-Drive.
    EZDrive,

    /// Golden Bow VFeature Partitioned Volume.
    GoldenBow,

    /// Priam EDisk Partitioned Volume.
    PriamEDisk,

    /// SpeedStor Hidden FAT12.
    SpeedStor,

    /// Unix System V (SCO, ISC Unix, UnixWare, ...), Mach, GNU Hurd.
    GNUHurdSystemV,

    /// Novell Netware 286, 2.xx
    NovellNetware286,

    /// Novell Netware 386, 3.xx or 4.xx
    NovellNetware386,

    /// DiskSecure multiboot.
    DiskSecureMultiBoot,

    /// PC/IX.
    PCIX,

    /// Minix 1.1-1.4a MINIX file system (old).
    OldMinix,

    /// Minix 1.4b+ MINIX file system.
    MinixOldLinux,

    /// Linux SWAP space.
    LinuxSwap,

    /// Native Linux file system.
    Linux,

    /// OS/2 hidden C: drive.
    OS2HiddenCDrive,

    /// Linux extended partition.
    LinuxExtended,

    /// Fault-tolerant FAT16B mirrored volume set.
    FAT16VolumeSet,

    /// Fault-tolerant HPFS/NTFS mirrored volume set.
    NTFSVolumeSet,

    /// Linux plain text partition table .
    LinuxPlaintext,

    /// Linux Logical Volume Manager partition.
    LinuxLVM,

    /// Amoeba native file system.
    Amoeba,

    /// Amoeba bad block table.
    AmoebaBadBlockTable,

    /// BSD/OS 3.0+, BSDI.
    BSDOs,

    /// IBM Thinkpad Laptop hibernation partition.
    IBMThinkpad,

    /// FreeBSD.
    FreeBSD,

    /// OpenBSD.
    OpenBSD,

    /// NeXTSTEP.
    NextStep,

    /// Apple Darwin, Mac OS X UFS.
    DarwinUFS,

    /// NetBSD slice.
    NetBSD,

    /// Apple Darwin, Mac OS X boot.
    DarwinBoot,

    /// HFS and HFS+
    HFSHFSPlus,

    /// BSDI native file system.
    BSDIFs,

    /// BSDI native swap.
    BSDISwap,

    /// PTS BootWizard 4 / OS Selector 5 for hidden partitions.
    BootWizardHidden,

    /// Acronis backup partition (Acronis Secure Zone).
    AcronisFAT32LBA,

    /// Solaris 8 boot partition.
    SolarisBoot,

    /// New Solaris x86 partition.
    Solaris,

    /// DR DOS 6.0+ Secured FAT12.
    DRDOSSecuredFAT12,

    /// DR DOS 6.0+ Secured FAT16.
    DRDOSSecuredFAT16,

    /// DR DOS 6.0+ Secured FAT16B.
    DRDOSSecuredFAT16B,

    /// Syrinx boot.
    Syrinx,

    /// Non-file system data.
    NonFsData,

    /// Digital Research CP/M, Concurrent CP/M, Concurrent DOS.
    CPMCtOs,

    /// Dell PowerEdge Server utilities (FAT16).
    DellUtilityFAT16,

    /// BootIt EMBRM.
    BootIt,

    /// DOS access or SpeedStor 12-bit FAT extended partition.
    DOSAccess,

    /// SpeedStor Read-only FAT12.
    DOSRO,

    /// SpeedStor 16-bit FAT extended partition < 1024 cylinders.
    SpeedStorFAT16,

    /// Freedesktop boot.
    FreedesktopBoot,

    /// BeOS, Haiku BFS.
    BeOSBFS,

    /// GPT protective MBR (indication that this legacy MBR is followed by an EFI header).
    GPTProtectiveMBR,

    /// EFI system partition. Can be a FAT12, FAT16, FAT32 (or other) file system.
    EfiSystem,

    /// PA-RISC Linux boot loader.
    PARISCLinux,

    /// Storage Dimensions SpeedStor.
    SDSpeedstor,

    /// SpeedStor large partition.
    SpeedStorFAT16B,

    /// DOS 3.3+ secondary partition.
    DOSSecondary,

    /// Arm EBBR 1.0 Protective partition for the area containing system firmware.
    EBBRProtective,

    /// VMware ESX VMware VMFS file system partition.
    VMWareVMFS,

    /// VMware ESX VMware swap / VMKCORE kernel dump partition.
    VMWareVMKCORE,

    /// Linux RAID superblock with auto-detect.
    LinuxRaidAuto,

    /// LANstep.
    LanStep,

    ///  Xenix Bad Block Table.
    XenixBadBlockTable,
}

/// The text `0x` followed by the two lower-case hexadecimal digits of `b`.
pub open spec fn byte_hex_text(b: u8) -> Seq<char> {
    seq!['0', 'x', hex_digit_char(b as int / 16), hex_digit_char(b as int % 16)]
}

impl Code {
    /// The one-byte identifier of this partition type.
    pub open spec fn value(self) -> u8 {
        match self {
            Code::EmptyPartition => 0x00,
            Code::FAT12 => 0x01,
            Code::XenixRoot => 0x02,
            Code::XenixUser => 0x03,
            Code::FAT16 => 0x04,
            Code::ExtendedPartition => 0x05,
            Code::FAT16B => 0x06,
            Code::HPFSNTFSExfat => 0x07,
            Code::AIX => 0x08,
            Code::AIXBootable => 0x09,
            Code::OS2BootManager => 0x0a,
            Code::W95FAT32 => 0x0b,
            Code::W95FAT32LBA => 0x0c,
            Code::W95FAT16LBA => 0x0e,
            Code::W95ExtendedLBA => 0x0f,
            Code::OPUS => 0x10,
            Code::HiddenFAT12 => 0x11,
            Code::CompaqDiagnostics => 0x12,
            Code::HiddenFAT16 => 0x14,
            Code::HiddenFAT16B => 0x16,
            Code::HiddenHPFSNTFSExFat => 0x17,
            Code::ASTSmartSleep => 0x18,
            Code::HiddenW95FAT32 => 0x1b,
            Code::HiddenW95FAT32LBA => 0x1c,
            Code::HiddenW95FAT16LBA => 0x1e,
            Code::NecDOS => 0x24,
            Code::HiddenNTFSRescue => 0x27,
            Code::Plan9 => 0x39,
            Code::PartitionMagic => 0x3c,
            Code::Venix80286 => 0x40,
            Code::PPCPrepBoot => 0x41,
            Code::Sfs => 0x42,
            Code::QNX4Primary => 0x4d,
            Code::QNX4Secondary => 0x4e,
            Code::QNX4Tertiary => 0x4f,
            Code::OnTrackDM => 0x50,
            Code::OnTrackDM6Aux1 => 0x51,
            Code::CPM80 => 0x52,
            Code::OnTrackDM6Aux3 => 0x53,
            Code::OnTrackDM6Ddo => 0x54,
            Code::EZDrive => 0x55,
            Code::GoldenBow => 0x56,
            Code::PriamEDisk => 0x5c,
            Code::SpeedStor => 0x61,
            Code::GNUHurdSystemV => 0x63,
            Code::NovellNetware286 => 0x64,
            Code::NovellNetware386 => 0x65,
            Code::DiskSecureMultiBoot => 0x70,
            Code::PCIX => 0x75,
            Code::OldMinix => 0x80,
            Code::MinixOldLinux => 0x81,
            Code::LinuxSwap => 0x82,
            Code::Linux => 0x83,
            Code::OS2HiddenCDrive => 0x84,
            Code::LinuxExtended => 0x85,
            Code::FAT16VolumeSet => 0x86,
            Code::NTFSVolumeSet => 0x87,
            Code::LinuxPlaintext => 0x88,
            Code::LinuxLVM => 0x8e,
            Code::Amoeba => 0x93,
            Code::AmoebaBadBlockTable => 0x94,
            Code::BSDOs => 0x9f,
            Code::IBMThinkpad => 0xa0,
            Code::FreeBSD => 0xa5,
            Code::OpenBSD => 0xa6,
            Code::NextStep => 0xa7,
            Code::DarwinUFS => 0xa8,
            Code::NetBSD => 0xa9,
            Code::DarwinBoot => 0xab,
            Code::HFSHFSPlus => 0xaf,
            Code::BSDIFs => 0xb7,
            Code::BSDISwap => 0xb8,
            Code::BootWizardHidden => 0xbb,
            Code::AcronisFAT32LBA => 0xbc,
            Code::SolarisBoot => 0xbe,
            Code::Solaris => 0xbf,
            Code::DRDOSSecuredFAT12 => 0xc1,
            Code::DRDOSSecuredFAT16 => 0xc4,
            Code::DRDOSSecuredFAT16B => 0xc6,
            Code::Syrinx => 0xc7,
            Code::NonFsData => 0xda,
            Code::CPMCtOs => 0xdb,
            Code::DellUtilityFAT16 => 0xde,
            Code::BootIt => 0xdf,
            Code::DOSAccess => 0xe1,
            Code::DOSRO => 0xe3,
            Code::SpeedStorFAT16 => 0xe4,
            Code::FreedesktopBoot => 0xea,
            Code::BeOSBFS => 0xeb,
            Code::GPTProtectiveMBR => 0xee,
            Code::EfiSystem => 0xef,
            Code::PARISCLinux => 0xf0,
            Code::SDSpeedstor => 0xf1,
            Code::SpeedStorFAT16B => 0xf4,
            Code::DOSSecondary => 0xf2,
            Code::EBBRProtective => 0xf8,
            Code::VMWareVMFS => 0xfb,
            Code::VMWareVMKCORE => 0xfc,
            Code::LinuxRaidAuto => 0xfd,
            Code::LanStep => 0xfe,
            Code::XenixBadBlockTable => 0xff,
        }
    }

    /// The partition type whose identifier is `v`, if there is one.
    pub open spec fn from_value(v: u8) -> Option<Code> {
        match v {
            0x00 => Some(Code::EmptyPartition),
            0x01 => Some(Code::FAT12),
            0x02 => Some(Code::XenixRoot),
            0x03 => Some(Code::XenixUser),
            0x04 => Some(Code::FAT16),
            0x05 => Some(Code::ExtendedPartition),
            0x06 => Some(Code::FAT16B),
            0x07 => Some(Code::HPFSNTFSExfat),
            0x08 => Some(Code::AIX),
            0x09 => Some(Code::AIXBootable),
            0x0a => Some(Code::OS2BootManager),
            0x0b => Some(Code::W95FAT32),
            0x0c => Some(Code::W95FAT32LBA),
            0x0e => Some(Code::W95FAT16LBA),
            0x0f => Some(Code::W95ExtendedLBA),
            0x10 => Some(Code::OPUS),
            0x11 => Some(Code::HiddenFAT12),
            0x12 => Some(Code::CompaqDiagnostics),
            0x14 => Some(Code::HiddenFAT16),
            0x16 => Some(Code::HiddenFAT16B),
            0x17 => Some(Code::HiddenHPFSNTFSExFat),
            0x18 => Some(Code::ASTSmartSleep),
            0x1b => Some(Code::HiddenW95FAT32),
            0x1c => Some(Code::HiddenW95FAT32LBA),
            0x1e => Some(Code::HiddenW95FAT16LBA),
            0x24 => Some(Code::NecDOS),
            0x27 => Some(Code::HiddenNTFSRescue),
            0x39 => Some(Code::Plan9),
            0x3c => Some(Code::PartitionMagic),
            0x40 => Some(Code::Venix80286),
            0x41 => Some(Code::PPCPrepBoot),
            0x42 => Some(Code::Sfs),
            0x4d => Some(Code::QNX4Primary),
            0x4e => Some(Code::QNX4Secondary),
            0x4f => Some(Code::QNX4Tertiary),
            0x50 => Some(Code::OnTrackDM),
            0x51 => Some(Code::OnTrackDM6Aux1),
            0x52 => Some(Code::CPM80),
            0x53 => Some(Code::OnTrackDM6Aux3),
            0x54 => Some(Code::OnTrackDM6Ddo),
            0x55 => Some(Code::EZDrive),
            0x56 => Some(Code::GoldenBow),
            0x5c => Some(Code::PriamEDisk),
            0x61 => Some(Code::SpeedStor),
            0x63 => Some(Code::GNUHurdSystemV),
            0x64 => Some(Code::NovellNetware286),
            0x65 => Some(Code::NovellNetware386),
            0x70 => Some(Code::DiskSecureMultiBoot),
            0x75 => Some(Code::PCIX),
            0x80 => Some(Code::OldMinix),
            0x81 => Some(Code::MinixOldLinux),
            0x82 => Some(Code::LinuxSwap),
            0x83 => Some(Code::Linux),
            0x84 => Some(Code::OS2HiddenCDrive),
            0x85 => Some(Code::LinuxExtended),
            0x86 => Some(Code::FAT16VolumeSet),
            0x87 => Some(Code::NTFSVolumeSet),
            0x88 => Some(Code::LinuxPlaintext),
            0x8e => Some(Code::LinuxLVM),
            0x93 => Some(Code::Amoeba),
            0x94 => Some(Code::AmoebaBadBlockTable),
            0x9f => Some(Code::BSDOs),
            0xa0 => Some(Code::IBMThinkpad),
            0xa5 => Some(Code::FreeBSD),
            0xa6 => Some(Code::OpenBSD),
            0xa7 => Some(Code::NextStep),
            0xa8 => Some(Code::DarwinUFS),
            0xa9 => Some(Code::NetBSD),
            0xab => Some(Code::DarwinBoot),
            0xaf => Some(Code::HFSHFSPlus),
            0xb7 => Some(Code::BSDIFs),
            0xb8 => Some(Code::BSDISwap),
            0xbb => Some(Code::BootWizardHidden),
            0xbc => Some(Code::AcronisFAT32LBA),
            0xbe => Some(Code::SolarisBoot),
            0xbf => Some(Code::Solaris),
            0xc1 => Some(Code::DRDOSSecuredFAT12),
            0xc4 => Some(Code::DRDOSSecuredFAT16),
            0xc6 => Some(Code::DRDOSSecuredFAT16B),
            0xc7 => Some(Code::Syrinx),
            0xda => Some(Code::NonFsData),
            0xdb => Some(Code::CPMCtOs),
            0xde => Some(Code::DellUtilityFAT16),
            0xdf => Some(Code::BootIt),
            0xe1 => Some(Code::DOSAccess),
            0xe3 => Some(Code::DOSRO),
            0xe4 => Some(Code::SpeedStorFAT16),
            0xea => Some(Code::FreedesktopBoot),
            0xeb => Some(Code::BeOSBFS),
            0xee => Some(Code::GPTProtectiveMBR),
            0xef => Some(Code::EfiSystem),
            0xf0 => Some(Code::PARISCLinux),
            0xf1 => Some(Code::SDSpeedstor),
            0xf4 => Some(Code::SpeedStorFAT16B),
            0xf2 => Some(Code::DOSSecondary),
            0xf8 => Some(Code::EBBRProtective),
            0xfb => Some(Code::VMWareVMFS),
            0xfc => Some(Code::VMWareVMKCORE),
            0xfd => Some(Code::LinuxRaidAuto),
            0xfe => Some(Code::LanStep),
            0xff => Some(Code::XenixBadBlockTable),
            _ => None,
        }
    }

    /// The text form of this partition type.
    pub open spec fn text(self) -> Seq<char> {
        match self {
            Code::EmptyPartition => "0x00"@,
            Code::FAT12 => "0x01"@,
            Code::XenixRoot => "0x02"@,
            Code::XenixUser => "0x03"@,
            Code::FAT16 => "0x04"@,
            Code::ExtendedPartition => "0x05"@,
            Code::FAT16B => "0x06"@,
            Code::HPFSNTFSExfat => "0x07"@,
            Code::AIX => "0x08"@,
            Code::AIXBootable => "0x09"@,
            Code::OS2BootManager => "0x0a"@,
            Code::W95FAT32 => "0x0b"@,
            Code::W95FAT32LBA => "0x0c"@,
            Code::W95FAT16LBA => "0x0e"@,
            Code::W95ExtendedLBA => "0x0f"@,
            Code::OPUS => "0x10"@,
            Code::HiddenFAT12 => "0x11"@,
            Code::CompaqDiagnostics => "0x12"@,
            Code::HiddenFAT16 => "0x14"@,
            Code::HiddenFAT16B => "0x16"@,
            Code::HiddenHPFSNTFSExFat => "0x17"@,
            Code::ASTSmartSleep => "0x18"@,
            Code::HiddenW95FAT32 => "0x1b"@,
            Code::HiddenW95FAT32LBA => "0x1c"@,
            Code::HiddenW95FAT16LBA => "0x1e"@,
            Code::NecDOS => "0x24"@,
            Code::HiddenNTFSRescue => "0x27"@,
            Code::Plan9 => "0x39"@,
            Code::PartitionMagic => "0x3c"@,
            Code::Venix80286 => "0x40"@,
            Code::PPCPrepBoot => "0x41"@,
            Code::Sfs => "0x42"@,
            Code::QNX4Primary => "0x4d"@,
            Code::QNX4Secondary => "0x4e"@,
            Code::QNX4Tertiary => "0x4f"@,
            Code::OnTrackDM => "0x50"@,
            Code::OnTrackDM6Aux1 => "0x51"@,
            Code::CPM80 => "0x52"@,
            Code::OnTrackDM6Aux3 => "0x53"@,
            Code::OnTrackDM6Ddo => "0x54"@,
            Code::EZDrive => "0x55"@,
            Code::GoldenBow => "0x56"@,
            Code::PriamEDisk => "0x5c"@,
            Code::SpeedStor => "0x61"@,
            Code::GNUHurdSystemV => "0x63"@,
            Code::NovellNetware286 => "0x64"@,
            Code::NovellNetware386 => "0x65"@,
            Code::DiskSecureMultiBoot => "0x70"@,
            Code::PCIX => "0x75"@,
            Code::OldMinix => "0x80"@,
            Code::MinixOldLinux => "0x81"@,
            Code::LinuxSwap => "0x82"@,
            Code::Linux => "0x83"@,
            Code::OS2HiddenCDrive => "0x84"@,
            Code::LinuxExtended => "0x85"@,
            Code::FAT16VolumeSet => "0x86"@,
            Code::NTFSVolumeSet => "0x87"@,
            Code::LinuxPlaintext => "0x88"@,
            Code::LinuxLVM => "0x8e"@,
            Code::Amoeba => "0x93"@,
            Code::AmoebaBadBlockTable => "0x94"@,
            Code::BSDOs => "0x9f"@,
            Code::IBMThinkpad => "0xa0"@,
            Code::FreeBSD => "0xa5"@,
            Code::OpenBSD => "0xa6"@,
            Code::NextStep => "0xa7"@,
            Code::DarwinUFS => "0xa8"@,
            Code::NetBSD => "0xa9"@,
            Code::DarwinBoot => "0xab"@,
            Code::HFSHFSPlus => "0xaf"@,
            Code::BSDIFs => "0xb7"@,
            Code::BSDISwap => "0xb8"@,
            Code::BootWizardHidden => "0xbb"@,
            Code::AcronisFAT32LBA => "0xbc"@,
            Code::SolarisBoot => "0xbe"@,
            Code::Solaris => "0xbf"@,
            Code::DRDOSSecuredFAT12 => "0xc1"@,
            Code::DRDOSSecuredFAT16 => "0xc4"@,
            Code::DRDOSSecuredFAT16B => "0xc6"@,
            Code::Syrinx => "0xc7"@,
            Code::NonFsData => "0xda"@,
            Code::CPMCtOs => "0xdb"@,
            Code::DellUtilityFAT16 => "0xde"@,
            Code::BootIt => "0xdf"@,
            Code::DOSAccess => "0xe1"@,
            Code::DOSRO => "0xe3"@,
            Code::SpeedStorFAT16 => "0xe4"@,
            Code::FreedesktopBoot => "0xea"@,
            Code::BeOSBFS => "0xeb"@,
            Code::GPTProtectiveMBR => "0xee"@,
            Code::EfiSystem => "0xef"@,
            Code::PARISCLinux => "0xf0"@,
            Code::SDSpeedstor => "0xf1"@,
            Code::SpeedStorFAT16B => "0xf4"@,
            Code::DOSSecondary => "0xf2"@,
            Code::EBBRProtective => "0xf8"@,
            Code::VMWareVMFS => "0xfb"@,
            Code::VMWareVMKCORE => "0xfc"@,
            Code::LinuxRaidAuto => "0xfd"@,
            Code::LanStep => "0xfe"@,
            Code::XenixBadBlockTable => "0xff"@,
        }
    }

    /// Views this `Code` as a UTF-8 `str`.
    pub fn as_str(&self) -> (s: &'static str)
        ensures
            s@ == self.text(),
    {
        match self {
            Code::EmptyPartition => "0x00",
            Code::FAT12 => "0x01",
            Code::XenixRoot => "0x02",
            Code::XenixUser => "0x03",
            Code::FAT16 => "0x04",
            Code::ExtendedPartition => "0x05",
            Code::FAT16B => "0x06",
            Code::HPFSNTFSExfat => "0x07",
            Code::AIX => "0x08",
            Code::AIXBootable => "0x09",
            Code::OS2BootManager => "0x0a",
            Code::W95FAT32 => "0x0b",
            Code::W95FAT32LBA => "0x0c",
            Code::W95FAT16LBA => "0x0e",
            Code::W95ExtendedLBA => "0x0f",
            Code::OPUS => "0x10",
            Code::HiddenFAT12 => "0x11",
            Code::CompaqDiagnostics => "0x12",
            Code::HiddenFAT16 => "0x14",
            Code::HiddenFAT16B => "0x16",
            Code::HiddenHPFSNTFSExFat => "0x17",
            Code::ASTSmartSleep => "0x18",
            Code::HiddenW95FAT32 => "0x1b",
            Code::HiddenW95FAT32LBA => "0x1c",
            Code::HiddenW95FAT16LBA => "0x1e",
            Code::NecDOS => "0x24",
            Code::HiddenNTFSRescue => "0x27",
            Code::Plan9 => "0x39",
            Code::PartitionMagic => "0x3c",
            Code::Venix80286 => "0x40",
            Code::PPCPrepBoot => "0x41",
            Code::Sfs => "0x42",
            Code::QNX4Primary => "0x4d",
            Code::QNX4Secondary => "0x4e",
            Code::QNX4Tertiary => "0x4f",
            Code::OnTrackDM => "0x50",
            Code::OnTrackDM6Aux1 => "0x51",
            Code::CPM80 => "0x52",
            Code::OnTrackDM6Aux3 => "0x53",
            Code::OnTrackDM6Ddo => "0x54",
            Code::EZDrive => "0x55",
            Code::GoldenBow => "0x56",
            Code::PriamEDisk => "0x5c",
            Code::SpeedStor => "0x61",
            Code::GNUHurdSystemV => "0x63",
            Code::NovellNetware286 => "0x64",
            Code::NovellNetware386 => "0x65",
            Code::DiskSecureMultiBoot => "0x70",
            Code::PCIX => "0x75",
            Code::OldMinix => "0x80",
            Code::MinixOldLinux => "0x81",
            Code::LinuxSwap => "0x82",
            Code::Linux => "0x83",
            Code::OS2HiddenCDrive => "0x84",
            Code::LinuxExtended => "0x85",
            Code::FAT16VolumeSet => "0x86",
            Code::NTFSVolumeSet => "0x87",
            Code::LinuxPlaintext => "0x88",
            Code::LinuxLVM => "0x8e",
            Code::Amoeba => "0x93",
            Code::AmoebaBadBlockTable => "0x94",
            Code::BSDOs => "0x9f",
            Code::IBMThinkpad => "0xa0",
            Code::FreeBSD => "0xa5",
            Code::OpenBSD => "0xa6",
            Code::NextStep => "0xa7",
            Code::DarwinUFS => "0xa8",
            Code::NetBSD => "0xa9",
            Code::DarwinBoot => "0xab",
            Code::HFSHFSPlus => "0xaf",
            Code::BSDIFs => "0xb7",
            Code::BSDISwap => "0xb8",
            Code::BootWizardHidden => "0xbb",
            Code::AcronisFAT32LBA => "0xbc",
            Code::SolarisBoot => "0xbe",
            Code::Solaris => "0xbf",
            Code::DRDOSSecuredFAT12 => "0xc1",
            Code::DRDOSSecuredFAT16 => "0xc4",
            Code::DRDOSSecuredFAT16B => "0xc6",
            Code::Syrinx => "0xc7",
            Code::NonFsData => "0xda",
            Code::CPMCtOs => "0xdb",
            Code::DellUtilityFAT16 => "0xde",
            Code::BootIt => "0xdf",
            Code::DOSAccess => "0xe1",
            Code::DOSRO => "0xe3",
            Code::SpeedStorFAT16 => "0xe4",
            Code::FreedesktopBoot => "0xea",
            Code::BeOSBFS => "0xeb",
            Code::GPTProtectiveMBR => "0xee",
            Code::EfiSystem => "0xef",
            Code::PARISCLinux => "0xf0",
            Code::SDSpeedstor => "0xf1",
            Code::SpeedStorFAT16B => "0xf4",
            Code::DOSSecondary => "0xf2",
            Code::EBBRProtective => "0xf8",
            Code::VMWareVMFS => "0xfb",
            Code::VMWareVMKCORE => "0xfc",
            Code::LinuxRaidAuto => "0xfd",
            Code::LanStep => "0xfe",
            Code::XenixBadBlockTable => "0xff",
        }
    }

    /// Converts this `Code` to its one-byte identifier.
    pub fn to_u8(&self) -> (v: u8)
        ensures
            v == self.value(),
    {
        match self {
            Code::EmptyPartition => 0x00,
            Code::FAT12 => 0x01,
            Code::XenixRoot => 0x02,
            Code::XenixUser => 0x03,
            Code::FAT16 => 0x04,
            Code::ExtendedPartition => 0x05,
            Code::FAT16B => 0x06,
            Code::HPFSNTFSExfat => 0x07,
            Code::AIX => 0x08,
            Code::AIXBootable => 0x09,
            Code::OS2BootManager => 0x0a,
            Code::W95FAT32 => 0x0b,
            Code::W95FAT32LBA => 0x0c,
            Code::W95FAT16LBA => 0x0e,
            Code::W95ExtendedLBA => 0x0f,
            Code::OPUS => 0x10,
            Code::HiddenFAT12 => 0x11,
            Code::CompaqDiagnostics => 0x12,
            Code::HiddenFAT16 => 0x14,
            Code::HiddenFAT16B => 0x16,
            Code::HiddenHPFSNTFSExFat => 0x17,
            Code::ASTSmartSleep => 0x18,
            Code::HiddenW95FAT32 => 0x1b,
            Code::HiddenW95FAT32LBA => 0x1c,
            Code::HiddenW95FAT16LBA => 0x1e,
            Code::NecDOS => 0x24,
            Code::HiddenNTFSRescue => 0x27,
            Code::Plan9 => 0x39,
            Code::PartitionMagic => 0x3c,
            Code::Venix80286 => 0x40,
            Code::PPCPrepBoot => 0x41,
            Code::Sfs => 0x42,
            Code::QNX4Primary => 0x4d,
            Code::QNX4Secondary => 0x4e,
            Code::QNX4Tertiary => 0x4f,
            Code::OnTrackDM => 0x50,
            Code::OnTrackDM6Aux1 => 0x51,
            Code::CPM80 => 0x52,
            Code::OnTrackDM6Aux3 => 0x53,
            Code::OnTrackDM6Ddo => 0x54,
            Code::EZDrive => 0x55,
            Code::GoldenBow => 0x56,
            Code::PriamEDisk => 0x5c,
            Code::SpeedStor => 0x61,
            Code::GNUHurdSystemV => 0x63,
            Code::NovellNetware286 => 0x64,
            Code::NovellNetware386 => 0x65,
            Code::DiskSecureMultiBoot => 0x70,
            Code::PCIX => 0x75,
            Code::OldMinix => 0x80,
            Code::MinixOldLinux => 0x81,
            Code::LinuxSwap => 0x82,
            Code::Linux => 0x83,
            Code::OS2HiddenCDrive => 0x84,
            Code::LinuxExtended => 0x85,
            Code::FAT16VolumeSet => 0x86,
            Code::NTFSVolumeSet => 0x87,
            Code::LinuxPlaintext => 0x88,
            Code::LinuxLVM => 0x8e,
            Code::Amoeba => 0x93,
            Code::AmoebaBadBlockTable => 0x94,
            Code::BSDOs => 0x9f,
            Code::IBMThinkpad => 0xa0,
            Code::FreeBSD => 0xa5,
            Code::OpenBSD => 0xa6,
            Code::NextStep => 0xa7,
            Code::DarwinUFS => 0xa8,
            Code::NetBSD => 0xa9,
            Code::DarwinBoot => 0xab,
            Code::HFSHFSPlus => 0xaf,
            Code::BSDIFs => 0xb7,
            Code::BSDISwap => 0xb8,
            Code::BootWizardHidden => 0xbb,
            Code::AcronisFAT32LBA => 0xbc,
            Code::SolarisBoot => 0xbe,
            Code::Solaris => 0xbf,
            Code::DRDOSSecuredFAT12 => 0xc1,
            Code::DRDOSSecuredFAT16 => 0xc4,
            Code::DRDOSSecuredFAT16B => 0xc6,
            Code::Syrinx => 0xc7,
            Code::NonFsData => 0xda,
            Code::CPMCtOs => 0xdb,
            Code::DellUtilityFAT16 => 0xde,
            Code::BootIt => 0xdf,
            Code::DOSAccess => 0xe1,
            Code::DOSRO => 0xe3,
            Code::SpeedStorFAT16 => 0xe4,
            Code::FreedesktopBoot => 0xea,
            Code::BeOSBFS => 0xeb,
            Code::GPTProtectiveMBR => 0xee,
            Code::EfiSystem => 0xef,
            Code::PARISCLinux => 0xf0,
            Code::SDSpeedstor => 0xf1,
            Code::SpeedStorFAT16B => 0xf4,
            Code::DOSSecondary => 0xf2,
            Code::EBBRProtective => 0xf8,
            Code::VMWareVMFS => 0xfb,
            Code::VMWareVMKCORE => 0xfc,
            Code::LinuxRaidAuto => 0xfd,
            Code::LanStep => 0xfe,
            Code::XenixBadBlockTable => 0xff,
        }
    }

    /// Converts this `Code` to its identifier, as a `u32`.
    pub fn to_u32(&self) -> (v: u32)
        ensures
            v == self.value() as u32,
    {
        self.to_u8() as u32
    }

    /// Converts a one-byte identifier to the `Code` it stands for, or `None` when no supported
    /// partition type has that identifier.
    pub fn try_from_u8(v: u8) -> (r: Option<Code>)
        ensures
            r == Code::from_value(v),
    {
        match v {
            0x00 => Some(Code::EmptyPartition),
            0x01 => Some(Code::FAT12),
            0x02 => Some(Code::XenixRoot),
            0x03 => Some(Code::XenixUser),
            0x04 => Some(Code::FAT16),
            0x05 => Some(Code::ExtendedPartition),
            0x06 => Some(Code::FAT16B),
            0x07 => Some(Code::HPFSNTFSExfat),
            0x08 => Some(Code::AIX),
            0x09 => Some(Code::AIXBootable),
            0x0a => Some(Code::OS2BootManager),
            0x0b => Some(Code::W95FAT32),
            0x0c => Some(Code::W95FAT32LBA),
            0x0e => Some(Code::W95FAT16LBA),
            0x0f => Some(Code::W95ExtendedLBA),
            0x10 => Some(Code::OPUS),
            0x11 => Some(Code::HiddenFAT12),
            0x12 => Some(Code::CompaqDiagnostics),
            0x14 => Some(Code::HiddenFAT16),
            0x16 => Some(Code::HiddenFAT16B),
            0x17 => Some(Code::HiddenHPFSNTFSExFat),
            0x18 => Some(Code::ASTSmartSleep),
            0x1b => Some(Code::HiddenW95FAT32),
            0x1c => Some(Code::HiddenW95FAT32LBA),
            0x1e => Some(Code::HiddenW95FAT16LBA),
            0x24 => Some(Code::NecDOS),
            0x27 => Some(Code::HiddenNTFSRescue),
            0x39 => Some(Code::Plan9),
            0x3c => Some(Code::PartitionMagic),
            0x40 => Some(Code::Venix80286),
            0x41 => Some(Code::PPCPrepBoot),
            0x42 => Some(Code::Sfs),
            0x4d => Some(Code::QNX4Primary),
            0x4e => Some(Code::QNX4Secondary),
            0x4f => Some(Code::QNX4Tertiary),
            0x50 => Some(Code::OnTrackDM),
            0x51 => Some(Code::OnTrackDM6Aux1),
            0x52 => Some(Code::CPM80),
            0x53 => Some(Code::OnTrackDM6Aux3),
            0x54 => Some(Code::OnTrackDM6Ddo),
            0x55 => Some(Code::EZDrive),
            0x56 => Some(Code::GoldenBow),
            0x5c => Some(Code::PriamEDisk),
            0x61 => Some(Code::SpeedStor),
            0x63 => Some(Code::GNUHurdSystemV),
            0x64 => Some(Code::NovellNetware286),
            0x65 => Some(Code::NovellNetware386),
            0x70 => Some(Code::DiskSecureMultiBoot),
            0x75 => Some(Code::PCIX),
            0x80 => Some(Code::OldMinix),
            0x81 => Some(Code::MinixOldLinux),
            0x82 => Some(Code::LinuxSwap),
            0x83 => Some(Code::Linux),
            0x84 => Some(Code::OS2HiddenCDrive),
            0x85 => Some(Code::LinuxExtended),
            0x86 => Some(Code::FAT16VolumeSet),
            0x87 => Some(Code::NTFSVolumeSet),
            0x88 => Some(Code::LinuxPlaintext),
            0x8e => Some(Code::LinuxLVM),
            0x93 => Some(Code::Amoeba),
            0x94 => Some(Code::AmoebaBadBlockTable),
            0x9f => Some(Code::BSDOs),
            0xa0 => Some(Code::IBMThinkpad),
            0xa5 => Some(Code::FreeBSD),
            0xa6 => Some(Code::OpenBSD),
            0xa7 => Some(Code::NextStep),
            0xa8 => Some(Code::DarwinUFS),
            0xa9 => Some(Code::NetBSD),
            0xab => Some(Code::DarwinBoot),
            0xaf => Some(Code::HFSHFSPlus),
            0xb7 => Some(Code::BSDIFs),
            0xb8 => Some(Code::BSDISwap),
            0xbb => Some(Code::BootWizardHidden),
            0xbc => Some(Code::AcronisFAT32LBA),
            0xbe => Some(Code::SolarisBoot),
            0xbf => Some(Code::Solaris),
            0xc1 => Some(Code::DRDOSSecuredFAT12),
            0xc4 => Some(Code::DRDOSSecuredFAT16),
            0xc6 => Some(Code::DRDOSSecuredFAT16B),
            0xc7 => Some(Code::Syrinx),
            0xda => Some(Code::NonFsData),
            0xdb => Some(Code::CPMCtOs),
            0xde => Some(Code::DellUtilityFAT16),
            0xdf => Some(Code::BootIt),
            0xe1 => Some(Code::DOSAccess),
            0xe3 => Some(Code::DOSRO),
            0xe4 => Some(Code::SpeedStorFAT16),
            0xea => Some(Code::FreedesktopBoot),
            0xeb => Some(Code::BeOSBFS),
            0xee => Some(Code::GPTProtectiveMBR),
            0xef => Some(Code::EfiSystem),
            0xf0 => Some(Code::PARISCLinux),
            0xf1 => Some(Code::SDSpeedstor),
            0xf4 => Some(Code::SpeedStorFAT16B),
            0xf2 => Some(Code::DOSSecondary),
            0xf8 => Some(Code::EBBRProtective),
            0xfb => Some(Code::VMWareVMFS),
            0xfc => Some(Code::VMWareVMKCORE),
            0xfd => Some(Code::LinuxRaidAuto),
            0xfe => Some(Code::LanStep),
            0xff => Some(Code::XenixBadBlockTable),
            _ => None,
        }
    }
}

proof fn lemma_code_text_part0(c: Code)
    requires
        c == Code::EmptyPartition || c == Code::FAT12 || c == Code::XenixRoot || c == Code::XenixUser || c == Code::FAT16 || c == Code::ExtendedPartition || c == Code::FAT16B || c == Code::HPFSNTFSExfat || c == Code::AIX || c == Code::AIXBootable || c == Code::OS2BootManager || c == Code::W95FAT32 || c == Code::W95FAT32LBA || c == Code::W95FAT16LBA || c == Code::W95ExtendedLBA || c == Code::OPUS || c == Code::HiddenFAT12 || c == Code::CompaqDiagnostics || c == Code::HiddenFAT16 || c == Code::HiddenFAT16B || c == Code::HiddenHPFSNTFSExFat || c == Code::ASTSmartSleep || c == Code::HiddenW95FAT32 || c == Code::HiddenW95FAT32LBA || c == Code::HiddenW95FAT16LBA || c == Code::NecDOS,
    ensures
        c.text() == byte_hex_text(c.value()),
{
    match c {
        Code::EmptyPartition => {
            reveal_strlit("0x00");
            assert(c.text() =~= byte_hex_text(c.value()));
        },
        Code::FAT12 => {
            reveal_strlit("0x01");
            assert(c.text() =~= byte_hex_text(c.value()));
        },
        Code::XenixRoot => {
            reveal_strlit("0x02");
            assert(c.text() =~= byte_hex_text(c.value()));
        },
        Code::XenixUser => {
            reveal_strlit("0x03");
            assert(c.text() =~= byte_hex_text(c.value()));
        },
        Code::FAT16 => {
            reveal_strlit("0x04");
            assert(c.text() =~= byte_hex_text(c.value()));
        },
        Code::ExtendedPartition => {
            reveal_strlit("0x05");
            assert(c.text() =~= byte_hex_text(c.value()));
        },
        Code::FAT16B => {
            reveal_strlit("0x06");
            assert(c.text() =~= byte_hex_text(c.value()));
        },
        Code::HPFSNTFSExfat => {
            reveal_strlit("0x07");
            assert(c.text() =~= byte_hex_text(c.value()));
        },
        Code::AIX => {
            reveal_strlit("0x08");
            assert(c.text() =~= byte_hex_text(c.value()));
        },
        Code::AIXBootable => {
            reveal_strlit("0x09");
            assert(c.text() =~= byte_hex_text(c.value()));
        },
        Code::OS2BootManager => {
            reveal_strlit("0x0a");
            assert(c.text() =~= byte_hex_text(c.value()));
        },
        Code::W95FAT32 => {
            reveal_strlit("0x0b");
            assert(c.text() =~= byte_hex_text(c.value()));
        },
        Code::W95FAT32LBA => {
            reveal_strlit("0x0c");
            assert(c.text() =~= byte_hex_text(c.value()));
        },
        Code::W95FAT16LBA => {
            reveal_strlit("0x0e");
            assert(c.text() =~= byte_hex_text(c.value()));
        },
        Code::W95ExtendedLBA => {
            reveal_strlit("0x0f");
            assert(c.text() =~= byte_hex_text(c.value()));
        },
        Code::OPUS => {
            reveal_strlit("0x10");
            assert(c.text() =~= byte_hex_text(c.value()));
        },
        Code::HiddenFAT12 => {
            reveal_strlit("0x11");
            assert(c.text() =~= byte_hex_text(c.value()));
        },
        Code::CompaqDiagnostics => {
            reveal_strlit("0x12");
            assert(c.text() =~= byte_hex_text(c.value()));
        },
        Code::HiddenFAT16 => {
            reveal_strlit("0x14");
            assert(c.text() =~= byte_hex_text(c.value()));
        },
        Code::HiddenFAT16B => {
            reveal_strlit("0x16");
            assert(c.text() =~= byte_hex_text(c.value()));
        },
        Code::HiddenHPFSNTFSExFat => {
            reveal_strlit("0x17");
            assert(c.text() =~= byte_hex_text(c.value()));
        },
        Code::ASTSmartSleep => {
            reveal_strlit("0x18");
            assert(c.text() =~= byte_hex_text(c.value()));
        },
        Code::HiddenW95FAT32 => {
            reveal_strlit("0x1b");
            assert(c.text() =~= byte_hex_text(c.value()));
        },
        Code::HiddenW95FAT32LBA => {
            reveal_strlit("0x1c");
            assert(c.text() =~= byte_hex_text(c.value()));
        },
        Code::HiddenW95FAT16LBA => {
            reveal_strlit("0x1e");
            assert(c.text() =~= byte_hex_text(c.value()));
        },
        Code::NecDOS => {
            reveal_strlit("0x24");
            assert(c.text() =~= byte_hex_text(c.value()));
        },
        _ => {},
    }
}

proof fn lemma_code_text_part1(c: Code)
    requires
        c == Code::HiddenNTFSRescue || c == Code::Plan9 || c == Code::PartitionMagic || c == Code::Venix80286 || c == Code::PPCPrepBoot || c == Code::Sfs || c == Code::QNX4Primary || c == Code::QNX4Secondary || c == Code::QNX4Tertiary || c == Code::OnTrackDM || c == Code::OnTrackDM6Aux1 || c == Code::CPM80 || c == Code::OnTrackDM6Aux3 || c == Code::OnTrackDM6Ddo || c == Code::EZDrive || c == Code::GoldenBow || c == Code::PriamEDisk || c == Code::SpeedStor || c == Code::GNUHurdSystemV || c == Code::NovellNetware286 || c == Code::NovellNetware386 || c == Code::DiskSecureMultiBoot || c == Code::PCIX || c == Code::OldMinix || c == Code::MinixOldLinux || c == Code::LinuxSwap,
    ensures
        c.text() == byte_hex_text(c.value()),
{
    match c {
        Code::HiddenNTFSRescue => {
            reveal_strlit("0x27");
            assert(c.text() =~= byte_hex_text(c.value()));
        },
        Code::Plan9 => {
            reveal_strlit("0x39");
            assert(c.text() =~= byte_hex_text(c.value()));
        },
        Code::PartitionMagic => {
            reveal_strlit("0x3c");
            assert(c.text() =~= byte_hex_text(c.value()));
        },
        Code::Venix80286 => {
            reveal_strlit("0x40");
            assert(c.text() =~= byte_hex_text(c.value()));
        },
        Code::PPCPrepBoot => {
            reveal_strlit("0x41");
            assert(c.text() =~= byte_hex_text(c.value()));
        },
        Code::Sfs => {
            reveal_strlit("0x42");
            assert(c.text() =~= byte_hex_text(c.value()));
        },
        Code::QNX4Primary => {
            reveal_strlit("0x4d");
            assert(c.text() =~= byte_hex_text(c.value()));
        },
        Code::QNX4Secondary => {
            reveal_strlit("0x4e");
            assert(c.text() =~= byte_hex_text(c.value()));
        },
        Code::QNX4Tertiary => {
            reveal_strlit("0x4f");
            assert(c.text() =~= byte_hex_text(c.value()));
        },
        Code::OnTrackDM => {
            reveal_strlit("0x50");
            assert(c.text() =~= byte_hex_text(c.value()));
        },
        Code::OnTrackDM6Aux1 => {
            reveal_strlit("0x51");
            assert(c.text() =~= byte_hex_text(c.value()));
        },
        Code::CPM80 => {
            reveal_strlit("0x52");
            assert(c.text() =~= byte_hex_text(c.value()));
        },
        Code::OnTrackDM6Aux3 => {
            reveal_strlit("0x53");
            assert(c.text() =~= byte_hex_text(c.value()));
        },
        Code::OnTrackDM6Ddo => {
            reveal_strlit("0x54");
            assert(c.text() =~= byte_hex_text(c.value()));
        },
        Code::EZDrive => {
            reveal_strlit("0x55");
            assert(c.text() =~= byte_hex_text(c.value()));
        },
        Code::GoldenBow => {
            reveal_strlit("0x56");
            assert(c.text() =~= byte_hex_text(c.value()));
        },
        Code::PriamEDisk => {
            reveal_strlit("0x5c");
            assert(c.text() =~= byte_hex_text(c.value()));
        },
        Code::SpeedStor => {
            reveal_strlit("0x61");
            assert(c.text() =~= byte_hex_text(c.value()));
        },
        Code::GNUHurdSystemV => {
            reveal_strlit("0x63");
            assert(c.text() =~= byte_hex_text(c.value()));
        },
        Code::NovellNetware286 => {
            reveal_strlit("0x64");
            assert(c.text() =~= byte_hex_text(c.value()));
        },
        Code::NovellNetware386 => {
            reveal_strlit("0x65");
            assert(c.text() =~= byte_hex_text(c.value()));
        },
        Code::DiskSecureMultiBoot => {
            reveal_strlit("0x70");
            assert(c.text() =~= byte_hex_text(c.value()));
        },
        Code::PCIX => {
            reveal_strlit("0x75");
            assert(c.text() =~= byte_hex_text(c.value()));
        },
        Code::OldMinix => {
            reveal_strlit("0x80");
            assert(c.text() =~= byte_hex_text(c.value()));
        },
        Code::MinixOldLinux => {
            reveal_strlit("0x81");
            assert(c.text() =~= byte_hex_text(c.value()));
        },
        Code::LinuxSwap => {
            reveal_strlit("0x82");
            assert(c.text() =~= byte_hex_text(c.value()));
        },
        _ => {},
    }
}

proof fn lemma_code_text_part2(c: Code)
    requires
        c == Code::Linux || c == Code::OS2HiddenCDrive || c == Code::LinuxExtended || c == Code::FAT16VolumeSet || c == Code::NTFSVolumeSet || c == Code::LinuxPlaintext || c == Code::LinuxLVM || c == Code::Amoeba || c == Code::AmoebaBadBlockTable || c == Code::BSDOs || c == Code::IBMThinkpad || c == Code::FreeBSD || c == Code::OpenBSD || c == Code::NextStep || c == Code::DarwinUFS || c == Code::NetBSD || c == Code::DarwinBoot || c == Code::HFSHFSPlus || c == Code::BSDIFs || c == Code::BSDISwap || c == Code::BootWizardHidden || c == Code::AcronisFAT32LBA || c == Code::SolarisBoot || c == Code::Solaris || c == Code::DRDOSSecuredFAT12 || c == Code::DRDOSSecuredFAT16,
    ensures
        c.text() == byte_hex_text(c.value()),
{
    match c {
        Code::Linux => {
            reveal_strlit("0x83");
            assert(c.text() =~= byte_hex_text(c.value()));
        },
        Code::OS2HiddenCDrive => {
            reveal_strlit("0x84");
            assert(c.text() =~= byte_hex_text(c.value()));
        },
        Code::LinuxExtended => {
            reveal_strlit("0x85");
            assert(c.text() =~= byte_hex_text(c.value()));
        },
        Code::FAT16VolumeSet => {
            reveal_strlit("0x86");
            assert(c.text() =~= byte_hex_text(c.value()));
        },
        Code::NTFSVolumeSet => {
            reveal_strlit("0x87");
            assert(c.text() =~= byte_hex_text(c.value()));
        },
        Code::LinuxPlaintext => {
            reveal_strlit("0x88");
            assert(c.text() =~= byte_hex_text(c.value()));
        },
        Code::LinuxLVM => {
            reveal_strlit("0x8e");
            assert(c.text() =~= byte_hex_text(c.value()));
        },
        Code::Amoeba => {
            reveal_strlit("0x93");
            assert(c.text() =~= byte_hex_text(c.value()));
        },
        Code::AmoebaBadBlockTable => {
            reveal_strlit("0x94");
            assert(c.text() =~= byte_hex_text(c.value()));
        },
        Code::BSDOs => {
            reveal_strlit("0x9f");
            assert(c.text() =~= byte_hex_text(c.value()));
        },
        Code::IBMThinkpad => {
            reveal_strlit("0xa0");
            assert(c.text() =~= byte_hex_text(c.value()));
        },
        Code::FreeBSD => {
            reveal_strlit("0xa5");
            assert(c.text() =~= byte_hex_text(c.value()));
        },
        Code::OpenBSD => {
            reveal_strlit("0xa6");
            assert(c.text() =~= byte_hex_text(c.value()));
        },
        Code::NextStep => {
            reveal_strlit("0xa7");
            assert(c.text() =~= byte_hex_text(c.value()));
        },
        Code::DarwinUFS => {
            reveal_strlit("0xa8");
            assert(c.text() =~= byte_hex_text(c.value()));
        },
        Code::NetBSD => {
            reveal_strlit("0xa9");
            assert(c.text() =~= byte_hex_text(c.value()));
        },
        Code::DarwinBoot => {
            reveal_strlit("0xab");
            assert(c.text() =~= byte_hex_text(c.value()));
        },
        Code::HFSHFSPlus => {
            reveal_strlit("0xaf");
            assert(c.text() =~= byte_hex_text(c.value()));
        },
        Code::BSDIFs => {
            reveal_strlit("0xb7");
            assert(c.text() =~= byte_hex_text(c.value()));
        },
        Code::BSDISwap => {
            reveal_strlit("0xb8");
            assert(c.text() =~= byte_hex_text(c.value()));
        },
        Code::BootWizardHidden => {
            reveal_strlit("0xbb");
            assert(c.text() =~= byte_hex_text(c.value()));
        },
        Code::AcronisFAT32LBA => {
            reveal_strlit("0xbc");
            assert(c.text() =~= byte_hex_text(c.value()));
        },
        Code::SolarisBoot => {
            reveal_strlit("0xbe");
            assert(c.text() =~= byte_hex_text(c.value()));
        },
        Code::Solaris => {
            reveal_strlit("0xbf");
            assert(c.text() =~= byte_hex_text(c.value()));
        },
        Code::DRDOSSecuredFAT12 => {
            reveal_strlit("0xc1");
            assert(c.text() =~= byte_hex_text(c.value()));
        },
        Code::DRDOSSecuredFAT16 => {
            reveal_strlit("0xc4");
            assert(c.text() =~= byte_hex_text(c.value()));
        },
        _ => {},
    }
}

proof fn lemma_code_text_part3(c: Code)
    requires
        c == Code::DRDOSSecuredFAT16B || c == Code::Syrinx || c == Code::NonFsData || c == Code::CPMCtOs || c == Code::DellUtilityFAT16 || c == Code::BootIt || c == Code::DOSAccess || c == Code::DOSRO || c == Code::SpeedStorFAT16 || c == Code::FreedesktopBoot || c == Code::BeOSBFS || c == Code::GPTProtectiveMBR || c == Code::EfiSystem || c == Code::PARISCLinux || c == Code::SDSpeedstor || c == Code::SpeedStorFAT16B || c == Code::DOSSecondary || c == Code::EBBRProtective || c == Code::VMWareVMFS || c == Code::VMWareVMKCORE || c == Code::LinuxRaidAuto || c == Code::LanStep || c == Code::XenixBadBlockTable,
    ensures
        c.text() == byte_hex_text(c.value()),
{
    match c {
        Code::DRDOSSecuredFAT16B => {
            reveal_strlit("0xc6");
            assert(c.text() =~= byte_hex_text(c.value()));
        },
        Code::Syrinx => {
            reveal_strlit("0xc7");
            assert(c.text() =~= byte_hex_text(c.value()));
        },
        Code::NonFsData => {
            reveal_strlit("0xda");
            assert(c.text() =~= byte_hex_text(c.value()));
        },
        Code::CPMCtOs => {
            reveal_strlit("0xdb");
            assert(c.text() =~= byte_hex_text(c.value()));
        },
        Code::DellUtilityFAT16 => {
            reveal_strlit("0xde");
            assert(c.text() =~= byte_hex_text(c.value()));
        },
        Code::BootIt => {
            reveal_strlit("0xdf");
            assert(c.text() =~= byte_hex_text(c.value()));
        },
        Code::DOSAccess => {
            reveal_strlit("0xe1");
            assert(c.text() =~= byte_hex_text(c.value()));
        },
        Code::DOSRO => {
            reveal_strlit("0xe3");
            assert(c.text() =~= byte_hex_text(c.value()));
        },
        Code::SpeedStorFAT16 => {
            reveal_strlit("0xe4");
            assert(c.text() =~= byte_hex_text(c.value()));
        },
        Code::FreedesktopBoot => {
            reveal_strlit("0xea");
            assert(c.text() =~= byte_hex_text(c.value()));
        },
        Code::BeOSBFS => {
            reveal_strlit("0xeb");
            assert(c.text() =~= byte_hex_text(c.value()));
        },
        Code::GPTProtectiveMBR => {
            reveal_strlit("0xee");
            assert(c.text() =~= byte_hex_text(c.value()));
        },
        Code::EfiSystem => {
            reveal_strlit("0xef");
            assert(c.text() =~= byte_hex_text(c.value()));
        },
        Code::PARISCLinux => {
            reveal_strlit("0xf0");
            assert(c.text() =~= byte_hex_text(c.value()));
        },
        Code::SDSpeedstor => {
            reveal_strlit("0xf1");
            assert(c.text() =~= byte_hex_text(c.value()));
        },
        Code::SpeedStorFAT16B => {
            reveal_strlit("0xf4");
            assert(c.text() =~= byte_hex_text(c.value()));
        },
        Code::DOSSecondary => {
            reveal_strlit("0xf2");
            assert(c.text() =~= byte_hex_text(c.value()));
        },
        Code::EBBRProtective => {
            reveal_strlit("0xf8");
            assert(c.text() =~= byte_hex_text(c.value()));
        },
        Code::VMWareVMFS => {
            reveal_strlit("0xfb");
            assert(c.text() =~= byte_hex_text(c.value()));
        },
        Code::VMWareVMKCORE => {
            reveal_strlit("0xfc");
            assert(c.text() =~= byte_hex_text(c.value()));
        },
        Code::LinuxRaidAuto => {
            reveal_strlit("0xfd");
            assert(c.text() =~= byte_hex_text(c.value()));
        },
        Code::LanStep => {
            reveal_strlit("0xfe");
            assert(c.text() =~= byte_hex_text(c.value()));
        },
        Code::XenixBadBlockTable => {
            reveal_strlit("0xff");
            assert(c.text() =~= byte_hex_text(c.value()));
        },
        _ => {},
    }
}

/// The text form of a `Code` is `0x` followed by the two lower-case hexadecimal digits of its
/// identifier.
pub proof fn lemma_code_text(c: Code)
    ensures
        c.text() == byte_hex_text(c.value()),
{
    if c == Code::EmptyPartition || c == Code::FAT12 || c == Code::XenixRoot || c == Code::XenixUser || c == Code::FAT16 || c == Code::ExtendedPartition || c == Code::FAT16B || c == Code::HPFSNTFSExfat || c == Code::AIX || c == Code::AIXBootable || c == Code::OS2BootManager || c == Code::W95FAT32 || c == Code::W95FAT32LBA || c == Code::W95FAT16LBA || c == Code::W95ExtendedLBA || c == Code::OPUS || c == Code::HiddenFAT12 || c == Code::CompaqDiagnostics || c == Code::HiddenFAT16 || c == Code::HiddenFAT16B || c == Code::HiddenHPFSNTFSExFat || c == Code::ASTSmartSleep || c == Code::HiddenW95FAT32 || c == Code::HiddenW95FAT32LBA || c == Code::HiddenW95FAT16LBA || c == Code::NecDOS {
        lemma_code_text_part0(c);
    }
    if c == Code::HiddenNTFSRescue || c == Code::Plan9 || c == Code::PartitionMagic || c == Code::Venix80286 || c == Code::PPCPrepBoot || c == Code::Sfs || c == Code::QNX4Primary || c == Code::QNX4Secondary || c == Code::QNX4Tertiary || c == Code::OnTrackDM || c == Code::OnTrackDM6Aux1 || c == Code::CPM80 || c == Code::OnTrackDM6Aux3 || c == Code::OnTrackDM6Ddo || c == Code::EZDrive || c == Code::GoldenBow || c == Code::PriamEDisk || c == Code::SpeedStor || c == Code::GNUHurdSystemV || c == Code::NovellNetware286 || c == Code::NovellNetware386 || c == Code::DiskSecureMultiBoot || c == Code::PCIX || c == Code::OldMinix || c == Code::MinixOldLinux || c == Code::LinuxSwap {
        lemma_code_text_part1(c);
    }
    if c == Code::Linux || c == Code::OS2HiddenCDrive || c == Code::LinuxExtended || c == Code::FAT16VolumeSet || c == Code::NTFSVolumeSet || c == Code::LinuxPlaintext || c == Code::LinuxLVM || c == Code::Amoeba || c == Code::AmoebaBadBlockTable || c == Code::BSDOs || c == Code::IBMThinkpad || c == Code::FreeBSD || c == Code::OpenBSD || c == Code::NextStep || c == Code::DarwinUFS || c == Code::NetBSD || c == Code::DarwinBoot || c == Code::HFSHFSPlus || c == Code::BSDIFs || c == Code::BSDISwap || c == Code::BootWizardHidden || c == Code::AcronisFAT32LBA || c == Code::SolarisBoot || c == Code::Solaris || c == Code::DRDOSSecuredFAT12 || c == Code::DRDOSSecuredFAT16 {
        lemma_code_text_part2(c);
    }
    if c == Code::DRDOSSecuredFAT16B || c == Code::Syrinx || c == Code::NonFsData || c == Code::CPMCtOs || c == Code::DellUtilityFAT16 || c == Code::BootIt || c == Code::DOSAccess || c == Code::DOSRO || c == Code::SpeedStorFAT16 || c == Code::FreedesktopBoot || c == Code::BeOSBFS || c == Code::GPTProtectiveMBR || c == Code::EfiSystem || c == Code::PARISCLinux || c == Code::SDSpeedstor || c == Code::SpeedStorFAT16B || c == Code::DOSSecondary || c == Code::EBBRProtective || c == Code::VMWareVMFS || c == Code::VMWareVMKCORE || c == Code::LinuxRaidAuto || c == Code::LanStep || c == Code::XenixBadBlockTable {
        lemma_code_text_part3(c);
    }
}

/// Identifiers and partition types correspond one to one.
pub proof fn lemma_code_value_roundtrip(c: Code)
    ensures
        Code::from_value(c.value()) == Some(c),
{
}

/// What parsing the text `s` as a `Code` gives: the partition type, or the message of the error.
///
/// Surrounding whitespace is ignored, then one pair of enclosing double or single quotes, then
/// whitespace again; what is left must be `0x` followed by the hexadecimal form of a supported
/// identifier, as `u8::from_str_radix` reads it.
pub open spec fn code_parse(s: Seq<char>) -> Result<Code, Seq<char>> {
    let t = trim(s);
    match unquote(t) {
        None => if opening_quote(t) == Some('"') {
            Err("missing closing double-quote in: "@ + s)
        } else {
            Err("missing closing quote in: "@ + s)
        },
        Some(u) => {
            let body = trim(u);
            if !(body.len() >= 2 && body[0] == '0' && body[1] == 'x') {
                Err("missing '0x' prefix in: "@ + s)
            } else {
                match parse_hex_u8(body.skip(2)) {
                    Err(k) => Err(
                        "invalid hexadecimal string: "@ + s + " ParseIntError { kind: "@ + k.name()
                            + " }"@,
                    ),
                    Ok(n) => match Code::from_value(n) {
                        Some(c) => Ok(c),
                        None => Err("unsupported OS type: "@ + s),
                    },
                }
            }
        },
    }
}

/// What converting the bytes `b` to a `Code` gives: the partition type, or the message of the
/// error.
pub open spec fn code_from_bytes(b: Seq<u8>) -> Result<Code, Seq<char>> {
    if !vstd::utf8::valid_utf8(b) {
        Err("bytes to UTF-8 string slice conversion error. "@ + utf8_error_text(b))
    } else {
        code_parse(vstd::utf8::decode_utf8(b))
    }
}

impl Code {
    /// Parses a partition type from its text form (e.g. `"0x83"` for [`Code::Linux`]).
    pub fn from_text(s: &str) -> (r: Result<Code, ParserError>)
        ensures
            match r {
                Ok(c) => code_parse(s@) == Ok::<Code, Seq<char>>(c),
                Err(e) => e matches ParserError::Code(m) && code_parse(s@) == Err::<Code, Seq<char>>(
                    m@,
                ),
            },
    {
        let chars = chars_of(s);
        let t = trim_chars(&chars);
        let u = match strip_quotes(&t) {
            Unquoted::UnclosedDoubleQuote => {
                return Err(ParserError::Code(join_text("missing closing double-quote in: ", s)));
            },
            Unquoted::UnclosedQuote => {
                return Err(ParserError::Code(join_text("missing closing quote in: ", s)));
            },
            Unquoted::Text(u) => u,
        };
        let body = trim_chars(&u);
        if !(body.len() >= 2 && body[0] == '0' && body[1] == 'x') {
            return Err(ParserError::Code(join_text("missing '0x' prefix in: ", s)));
        }
        let hex = slice_chars(&body, 2, body.len());
        assert(hex@ == body@.skip(2));
        match hex_u8(&hex) {
            Err(k) => {
                let mut m = join_text("invalid hexadecimal string: ", s);
                m.append(" ParseIntError { kind: ");
                m.append(k.name_str());
                m.append(" }");
                Err(ParserError::Code(m))
            },
            Ok(n) => match Code::try_from_u8(n) {
                Some(c) => Ok(c),
                None => Err(ParserError::Code(join_text("unsupported OS type: ", s))),
            },
        }
    }

    /// Converts UTF-8 encoded bytes holding the text form of a partition type to a `Code`.
    pub fn try_from_bytes(bytes: &[u8]) -> (r: Result<Code, ConversionError>)
        ensures
            match r {
                Ok(c) => code_from_bytes(bytes@) == Ok::<Code, Seq<char>>(c),
                Err(e) => e matches ConversionError::Code(m) && code_from_bytes(bytes@) == Err::<
                    Code,
                    Seq<char>,
                >(m@),
            },
    {
        match decode_utf8_text(bytes) {
            Err(e) => Err(
                ConversionError::Code(join_text("bytes to UTF-8 string slice conversion error. ", e.as_str())),
            ),
            Ok(s) => match Code::from_text(s) {
                Ok(c) => Ok(c),
                Err(e) => Err(ConversionError::Code(e.to_string())),
            },
        }
    }
}

impl core::str::FromStr for Code {
    type Err = ParserError;

    fn from_str(s: &str) -> (r: core::result::Result<Code, ParserError>)
        ensures
            match r {
                Ok(c) => code_parse(s@) == Ok::<Code, Seq<char>>(c),
                Err(e) => e matches ParserError::Code(m) && code_parse(s@) == Err::<Code, Seq<char>>(
                    m@,
                ),
            },
    {
        Code::from_text(s)
    }
}

impl<'a> TryFrom<&'a [u8]> for Code {
    type Error = ConversionError;

    fn try_from(bytes: &'a [u8]) -> (r: core::result::Result<Code, ConversionError>)
        ensures
            match r {
                Ok(c) => code_from_bytes(bytes@) == Ok::<Code, Seq<char>>(c),
                Err(e) => e matches ConversionError::Code(m) && code_from_bytes(bytes@) == Err::<
                    Code,
                    Seq<char>,
                >(m@),
            },
    {
        Code::try_from_bytes(bytes)
    }
}

impl TryFrom<Vec<u8>> for Code {
    type Error = ConversionError;

    fn try_from(bytes: Vec<u8>) -> (r: core::result::Result<Code, ConversionError>)
        ensures
            match r {
                Ok(c) => code_from_bytes(bytes@) == Ok::<Code, Seq<char>>(c),
                Err(e) => e matches ConversionError::Code(m) && code_from_bytes(bytes@) == Err::<
                    Code,
                    Seq<char>,
                >(m@),
            },
    {
        Code::try_from_bytes(bytes.as_slice())
    }
}

impl<'a> vstd::std_specs::convert::TryFromSpecImpl<&'a [u8]> for Code {
    /// The generic `TryFrom` specification is not used: `try_from` and `Code::try_from_bytes`
    /// state the result themselves.
    open spec fn obeys_try_from_spec() -> bool {
        false
    }

    open spec fn try_from_spec(bytes: &'a [u8]) -> core::result::Result<Code, ConversionError> {
        vstd::pervasive::arbitrary()
    }
}

impl vstd::std_specs::convert::TryFromSpecImpl<Vec<u8>> for Code {
    /// The generic `TryFrom` specification is not used: `try_from` and `Code::try_from_bytes`
    /// state the result themselves.
    open spec fn obeys_try_from_spec() -> bool {
        false
    }

    open spec fn try_from_spec(bytes: Vec<u8>) -> core::result::Result<Code, ConversionError> {
        vstd::pervasive::arbitrary()
    }
}

impl From<Code> for u8 {
    fn from(c: Code) -> (v: u8)
        ensures
            v == c.value(),
    {
        c.to_u8()
    }
}

impl vstd::std_specs::convert::FromSpecImpl<Code> for u8 {
    open spec fn obeys_from_spec() -> bool {
        true
    }

    open spec fn from_spec(c: Code) -> u8 {
        c.value()
    }
}

/// The value of a lower-case hexadecimal digit character is the digit.
proof fn lemma_hex_digit_char(d: int)
    requires
        0 <= d < 16,
    ensures
        hex_digit_value(hex_digit_char(d)) == Some(d as u8),
        !is_whitespace(hex_digit_char(d)),
        hex_digit_char(d) != '+',
        hex_digit_char(d) != '-',
{
}

/// The text form of every `Code` parses back to that `Code`.
pub proof fn lemma_code_parse_text(c: Code)
    ensures
        code_parse(c.text()) == Ok::<Code, Seq<char>>(c),
{
    lemma_code_text(c);
    let v = c.value();
    let t = c.text();
    lemma_hex_digit_char(v as int / 16);
    lemma_hex_digit_char(v as int % 16);
    assert(trim_start(t) == t);
    assert(trim_end(t) == t);
    assert(trim(t) == t);
    assert(unquote(t) == Some(t));
    let h = t.skip(2);
    assert(h =~= seq![hex_digit_char(v as int / 16), hex_digit_char(v as int % 16)]);
    assert(h.drop_first().drop_first() =~= Seq::<char>::empty());
    let d1 = (v as int / 16) as nat;
    assert(hex_fold(h.drop_first().drop_first(), v as nat) == Ok::<u8, IntErrorKind>(v));
    assert(hex_fold(h.drop_first(), d1) == hex_fold(h.drop_first().drop_first(), v as nat));
    assert(hex_fold(h, 0) == hex_fold(h.drop_first(), d1));
    assert(parse_hex_u8(h) == Ok::<u8, IntErrorKind>(v));
    lemma_code_value_roundtrip(c);
}

/// Parsing ignores whitespace around the text form of a `Code`, one pair of double or single
/// quotes around it, and whitespace inside the quotes.
pub proof fn lemma_code_parse_dressed(
    c: Code,
    q: Option<char>,
    p1: Seq<char>,
    p2: Seq<char>,
    p3: Seq<char>,
    p4: Seq<char>,
)
    requires
        q is None || q == Some('"') || q == Some('\''),
        is_blank(p1),
        is_blank(p2),
        is_blank(p3),
        is_blank(p4),
    ensures
        code_parse(p1 + quoted(q, p3 + c.text() + p4) + p2) == Ok::<Code, Seq<char>>(c),
{
    lemma_code_text(c);
    let v = c.value();
    let t = c.text();
    lemma_hex_digit_char(v as int % 16);
    assert(t.last() == hex_digit_char(v as int % 16));
    lemma_dressed_core(q, p1, p2, p3, p4, t);
    lemma_code_parse_text(c);
    assert(trim(t) == t);
    assert(unquote(t) == Some(t));
}

/// The UTF-8 bytes of the text form of every `Code` convert back to that `Code`.
pub proof fn lemma_code_bytes_text(c: Code)
    ensures
        code_from_bytes(vstd::utf8::encode_utf8(c.text())) == Ok::<Code, Seq<char>>(c),
{
    vstd::utf8::encode_utf8_valid_utf8(c.text());
    vstd::utf8::encode_utf8_decode_utf8(c.text());
    lemma_code_parse_text(c);
}


/// A hexadecimal digit in either case has the value of the digit: the character of `d` written
/// in lower case, or with its letter in upper case (32 code points lower).
proof fn lemma_hex_digit_either_case(d: int, ch: char)
    requires
        0 <= d < 16,
        ch == hex_digit_char(d) || ('a' <= hex_digit_char(d) <= 'z' && (ch as u32) + 32
            == hex_digit_char(d) as u32),
    ensures
        hex_digit_value(ch) == Some(d as u8),
        !is_whitespace(ch),
        ch != '+',
        ch != '-',
{
    lemma_hex_digit_char(d);
}

/// Parsing reads the hexadecimal digits of a `Code` in either case: `0x` followed by the two
/// digits of its text form, each of whose letters may be written in upper case, parses to it.
pub proof fn lemma_code_parse_any_case(c: Code, u: Seq<char>)
    requires
        same_up_to_case(u, c.text().skip(2)),
    ensures
        code_parse(seq!['0', 'x'] + u) == Ok::<Code, Seq<char>>(c),
{
    lemma_code_text(c);
    let v = c.value();
    let t = c.text();
    let hi = v as int / 16;
    let lo = v as int % 16;
    assert(t.skip(2) =~= seq![hex_digit_char(hi), hex_digit_char(lo)]);
    assert(u.len() == 2);
    assert(u[0] == t.skip(2)[0] || ('a' <= t.skip(2)[0] <= 'z' && (u[0] as u32) + 32 == t.skip(
        2,
    )[0] as u32));
    assert(u[1] == t.skip(2)[1] || ('a' <= t.skip(2)[1] <= 'z' && (u[1] as u32) + 32 == t.skip(
        2,
    )[1] as u32));
    lemma_hex_digit_either_case(hi, u[0]);
    lemma_hex_digit_either_case(lo, u[1]);
    let s = seq!['0', 'x'] + u;
    assert(s =~= seq!['0', 'x', u[0], u[1]]);
    let e: Seq<char> = Seq::empty();
    assert(is_blank(e));
    assert(e + s + e =~= s);
    assert(s.last() == u[1]);
    lemma_trim_padded(e, s, e);
    assert(trim(s) == s);
    assert(unquote(s) == Some(s));
    let h = s.skip(2);
    assert(h =~= u);
    assert(h.drop_first().drop_first() =~= Seq::<char>::empty());
    let d1 = hi as nat;
    assert(hex_fold(h.drop_first().drop_first(), v as nat) == Ok::<u8, IntErrorKind>(v));
    assert(hex_fold(h.drop_first(), d1) == hex_fold(h.drop_first().drop_first(), v as nat));
    assert(hex_fold(h, 0) == hex_fold(h.drop_first(), d1));
    assert(parse_hex_u8(h) == Ok::<u8, IntErrorKind>(v));
    lemma_code_value_roundtrip(c);
}

/// The text form of every `Code` with its hexadecimal letters in upper case (`0xEF` for
/// `0xef`) parses to that `Code`.
pub proof fn lemma_code_parse_upper(c: Code)
    ensures
        code_parse(seq!['0', 'x'] + ascii_upper(c.text().skip(2))) == Ok::<Code, Seq<char>>(c),
{
    lemma_ascii_upper_same_up_to_case(c.text().skip(2));
    lemma_code_parse_any_case(c, ascii_upper(c.text().skip(2)));
}

} // verus!
