//! `GPT` partition type identifiers.
use vstd::prelude::*;

use crate::errors::{ConversionError, ParserError};
use crate::text::{
    ascii_lower, ascii_lower_char, chars_equal, chars_of, debug_str, debug_text, decode_utf8_text,
    ascii_upper, is_blank, is_whitespace, join_text, lemma_ascii_lower_same_up_to_case,
    lemma_ascii_upper_same_up_to_case, lemma_dressed_core, same_up_to_case, lower_ascii, opening_quote, quoted,
    strip_quotes, trim, trim_chars, trim_end, trim_start, unquote, utf8_error_text, Unquoted,
};

verus! {

/// Supported `GPT` partitions.
#[derive(Clone, Copy, Debug, PartialEq, Eq, Structural, PartialOrd, Ord, Hash)]
#[non_exhaustive]
pub enum Guid {
    /// Unused entry
    EmptyPartition,
    /// MBR partition scheme
    MBRPartition,
    /// EFI System partition or Fuchsia legacy uchsia-esp
    EfiSystem,
    /// BIOS boot partition
    BIOSBoot,
    /// Intel Fast Flash (iFFS) partition (for Intel Rapid Start technology)
    IntelFastFlash,
    /// Sony boot partition
    SonyBoot,
    /// Lenovo boot partition
    LenovoBoot,
    /// Windows Microsoft Reserved Partition (MSR)
    MicrosoftReserved,
    /// Windows Basic data partition
    WindowsBasicData,
    /// Windows Logical Disk Manager (LDM) metadata partition
    WindowsLDM,
    /// Windows Logical Disk Manager data partition
    WindowsLDMData,
    /// Windows Windows Recovery Environment
    WindowsRecovery,
    /// Windows IBM General Parallel File System (GPFS) partition
    IBMGPFS,
    /// Windows Storage Spaces partition
    WindowsStorageSpaces,
    /// Windows Storage Replica partition
    WindowsStorageReplica,
    /// HP-UX Data partition
    HPUXData,
    /// HP-UX Service partition
    HPUXService,
    /// Linux filesystem data
    LinuxData,
    /// Linux RAID partition
    LinuxRaid,
    /// Linux Root partition (Alpha)
    LinuxRootAlpha,
    /// Linux Root partition (ARC)
    LinuxRootARC,
    /// Linux Root partition (ARM 32‐bit)
    LinuxRootARM32,
    /// Linux Root partition (AArch64)
    LinuxRootARM64,
    /// Linux Root partition (IA-64)
    LinuxRootIA64,
    /// Linux Root partition (LoongArch 64‐bit)
    LinuxRootLoongArch64,
    /// Linux Root partition (mips: 32‐bit MIPS big‐endian)
    LinuxRootMIPS,
    /// Linux Root partition (mips64: 64‐bit MIPS big‐endian)
    LinuxRootMIPS64,
    /// Linux Root partition (mipsel: 32‐bit MIPS little‐endian)
    LinuxRootMIPSEL,
    /// Linux Root partition (mips64el: 64‐bit MIPS little‐endian)
    LinuxRootMIPS64EL,
    /// Linux Root partition (PA-RISC)
    LinuxRootPARISC,
    /// Linux Root partition (32‐bit PowerPC)
    LinuxRootPPC32,
    /// Linux Root partition (64‐bit PowerPC big‐endian)
    LinuxRootPPC64,
    /// Linux Root partition (64‐bit PowerPC little‐endian)
    LinuxRootPPC64LE,
    /// Linux Root partition (RISC-V 32‐bit)
    LinuxRootRISCV32,
    /// Linux Root partition (RISC-V 64‐bit)
    LinuxRootRISCV64,
    /// Linux Root partition (s390)
    LinuxRootS390,
    /// Linux Root partition (s390x)
    LinuxRootS390x,
    /// Linux Root partition (TILE-Gx)
    LinuxRootTILEGx,
    /// Linux Root partition (x86)
    LinuxRootx86,
    /// Linux Root partition (x86-64)
    LinuxRootx86_64,
    /// Linux /usr partition (Alpha)
    LinuxUsrAlpha,
    /// Linux /usr partition (ARC)
    LinuxUsrARC,
    /// Linux /usr partition (ARM 32‐bit)
    LinuxUsrARM32,
    /// Linux /usr partition (AArch64)
    LinuxUsrARM64,
    /// Linux /usr partition (IA-64)
    LinuxUsrIA64,
    /// Linux /usr partition (LoongArch 64‐bit)
    LinuxUsrLoongArch64,
    /// Linux /usr partition (mips: 32‐bit MIPS big‐endian)
    LinuxUsrMIPS,
    /// Linux /usr partition (mips64: 64‐bit MIPS big‐endian)
    LinuxUsrMIPS64,
    /// Linux /usr partition (mipsel: 32‐bit MIPS little‐endian)
    LinuxUsrMIPSEL,
    /// Linux /usr partition (mips64el: 64‐bit MIPS little‐endian)
    LinuxUsrMIPS64EL,
    /// Linux /usr partition (PA-RISC)
    LinuxUsrPARISC,
    /// Linux /usr partition (32‐bit PowerPC)
    LinuxUsrPPC32,
    /// Linux /usr partition (64‐bit PowerPC big‐endian)
    LinuxUsrPPC64,
    /// Linux /usr partition (64‐bit PowerPC little‐endian)
    LinuxUsrPPC64LE,
    /// Linux /usr partition (RISC-V 32‐bit)
    LinuxUsrRISCV32,
    /// Linux /usr partition (RISC-V 64‐bit)
    LinuxUsrRISCV64,
    /// Linux /usr partition (s390)
    LinuxUsrS390,
    /// Linux /usr partition (s390x)
    LinuxUsrS390x,
    /// Linux /usr partition (TILE-Gx)
    LinuxUsrTILEGx,
    /// Linux /usr partition (x86)
    LinuxUsrx86,
    /// Linux /usr partition (x86-64)
    LinuxUsrx86_64,
    /// Linux Root verity partition for dm-verity (Alpha)
    LinuxRootVerityAlpha,
    /// Linux Root verity partition for dm-verity (ARC)
    LinuxRootVerityARC,
    /// Linux Root verity partition for dm-verity (ARM 32‐bit)
    LinuxRootVerityARM32,
    /// Linux Root verity partition for dm-verity (AArch64)
    LinuxRootVerityARM64,
    /// Linux Root verity partition for dm-verity (IA-64)
    LinuxRootVerityIA64,
    /// Linux Root verity partition for dm-verity (LoongArch 64‐bit)
    LinuxRootVerityLoongArch64,
    /// Linux Root verity partition for dm-verity (mips: 32‐bit MIPS big‐endian)
    LinuxRootVerityMIPS,
    /// Linux Root verity partition for dm-verity (mips64: 64‐bit MIPS big‐endian)
    LinuxRootVerityMIPS64,
    /// Linux Root verity partition for dm-verity (mipsel: 32‐bit MIPS little‐endian)
    LinuxRootVerityMIPSEL,
    /// Linux Root verity partition for dm-verity (mips64el: 64‐bit MIPS little‐endian)
    LinuxRootVerityMIPS64EL,
    /// Linux Root verity partition for dm-verity (PA-RISC)
    LinuxRootVerityPARISC,
    /// Linux Root verity partition for dm-verity (32‐bit PowerPC)
    LinuxRootVerityPPC32,
    /// Linux Root verity partition for dm-verity (64‐bit PowerPC big‐endian)
    LinuxRootVerityPPC64,
    /// Linux Root verity partition for dm-verity (64‐bit PowerPC little‐endian)
    LinuxRootVerityPPC64LE,
    /// Linux Root verity partition for dm-verity (RISC-V 32‐bit)
    LinuxRootVerityRISCV32,
    /// Linux Root verity partition for dm-verity (RISC-V 64‐bit)
    LinuxRootVerityRISCV64,
    /// Linux Root verity partition for dm-verity (s390)
    LinuxRootVerityS390,
    /// Linux Root verity partition for dm-verity (s390x)
    LinuxRootVerityS390x,
    /// Linux Root verity partition for dm-verity (TILE-Gx)
    LinuxRootVerityTILEGx,
    /// Linux Root verity partition for dm-verity (x86)
    LinuxRootVerityx86,
    /// Linux Root verity partition for dm-verity (x86-64)
    LinuxRootVerityx86_64,
    /// Linux /usr verity partition for dm-verity (Alpha)
    LinuxUsrVerityAlpha,
    /// Linux /usr verity partition for dm-verity (ARC)
    LinuxUsrVerityARC,
    /// Linux /usr verity partition for dm-verity (ARM 32‐bit)
    LinuxUsrVerityARM32,
    /// Linux /usr verity partition for dm-verity (AArch64)
    LinuxUsrVerityARM64,
    /// Linux /usr verity partition for dm-verity (IA-64)
    LinuxUsrVerityIA64,
    /// Linux /usr verity partition for dm-verity (LoongArch 64‐bit)
    LinuxUsrVerityLoongArch64,
    /// Linux /usr verity partition for dm-verity (mips: 32‐bit MIPS big‐endian)
    LinuxUsrVerityMIPS,
    /// Linux /usr verity partition for dm-verity (mips64: 64‐bit MIPS big‐endian)
    LinuxUsrVerityMIPS64,
    /// Linux /usr verity partition for dm-verity (mipsel: 32‐bit MIPS little‐endian)
    LinuxUsrVerityMIPSEL,
    /// Linux /usr verity partition for dm-verity (mips64el: 64‐bit MIPS little‐endian)
    LinuxUsrVerityMIPS64EL,
    /// Linux /usr verity partition for dm-verity (PA-RISC)
    LinuxUsrVerityPARISC,
    /// Linux /usr verity partition for dm-verity (32‐bit PowerPC)
    LinuxUsrVerityPPC32,
    /// Linux /usr verity partition for dm-verity (64‐bit PowerPC big‐endian)
    LinuxUsrVerityPPC64,
    /// Linux /usr verity partition for dm-verity (64‐bit PowerPC little‐endian)
    LinuxUsrVerityPPC64LE,
    /// Linux /usr verity partition for dm-verity (RISC-V 32‐bit)
    LinuxUsrVerityRISCV32,
    /// Linux /usr verity partition for dm-verity (RISC-V 64‐bit)
    LinuxUsrVerityRISCV64,
    /// Linux /usr verity partition for dm-verity (s390)
    LinuxUsrVerityS390,
    /// Linux /usr verity partition for dm-verity (s390x)
    LinuxUsrVerityS390x,
    /// Linux /usr verity partition for dm-verity (TILE-Gx)
    LinuxUsrVerityTILEGx,
    /// Linux /usr verity partition for dm-verity (x86)
    LinuxUsrVerityx86,
    /// Linux /usr verity partition for dm-verity (x86-64)
    LinuxUsrVerityx86_64,
    /// Linux Root verity signature partition for dm-verity (Alpha)
    LinuxRootVeritySigAlpha,
    /// Linux Root verity signature partition for dm-verity (ARC)
    LinuxRootVeritySigARC,
    /// Linux Root verity signature partition for dm-verity (ARM 32‐bit)
    LinuxRootVeritySigARM32,
    /// Linux Root verity signature partition for dm-verity (AArch64)
    LinuxRootVeritySigARM64,
    /// Linux Root verity signature partition for dm-verity (IA-64)
    LinuxRootVeritySigIA64,
    /// Linux Root verity signature partition for dm-verity (LoongArch 64‐bit)
    LinuxRootVeritySigLoongArch64,
    /// Linux Root verity signature partition for dm-verity (mips: 32‐bit MIPS big‐endian)
    LinuxRootVeritySigMIPS,
    /// Linux Root verity signature partition for dm-verity (mips64: 64‐bit MIPS big‐endian)
    LinuxRootVeritySigMIPS64,
    /// Linux Root verity signature partition for dm-verity (mipsel: 32‐bit MIPS little‐endian)
    LinuxRootVeritySigMIPSEL,
    /// Linux Root verity signature partition for dm-verity (mips64el: 64‐bit MIPS little‐endian)
    LinuxRootVeritySigMIPS64EL,
    /// Linux Root verity signature partition for dm-verity (PA-RISC)
    LinuxRootVeritySigPARISC,
    /// Linux Root verity signature partition for dm-verity (32‐bit PowerPC)
    LinuxRootVeritySigPPC32,
    /// Linux Root verity signature partition for dm-verity (64‐bit PowerPC big‐endian)
    LinuxRootVeritySigPPC64,
    /// Linux Root verity signature partition for dm-verity (64‐bit PowerPC little‐endian)
    LinuxRootVeritySigPPC64LE,
    /// Linux Root verity signature partition for dm-verity (RISC-V 32‐bit)
    LinuxRootVeritySigRISCV32,
    /// Linux Root verity signature partition for dm-verity (RISC-V 64‐bit)
    LinuxRootVeritySigRISCV64,
    /// Linux Root verity signature partition for dm-verity (s390)
    LinuxRootVeritySigS390,
    /// Linux Root verity signature partition for dm-verity (s390x)
    LinuxRootVeritySigS390x,
    /// Linux Root verity signature partition for dm-verity (TILE-Gx)
    LinuxRootVeritySigTILEGx,
    /// Linux Root verity signature partition for dm-verity (x86)
    LinuxRootVeritySigx86,
    /// Linux Root verity signature partition for dm-verity (x86-64)
    LinuxRootVeritySigx86_64,
    /// Linux /usr verity signature partition for dm-verity (Alpha)
    LinuxUsrVeritySigAlpha,
    /// Linux /usr verity signature partition for dm-verity (ARC)
    LinuxUsrVeritySigARC,
    /// Linux /usr verity signature partition for dm-verity (ARM 32‐bit)
    LinuxUsrVeritySigARM32,
    /// Linux /usr verity signature partition for dm-verity (AArch64)
    LinuxUsrVeritySigARM64,
    /// Linux /usr verity signature partition for dm-verity (IA-64)
    LinuxUsrVeritySigIA64,
    /// Linux /usr verity signature partition for dm-verity (LoongArch 64‐bit)
    LinuxUsrVeritySigLoongArch64,
    /// Linux /usr verity signature partition for dm-verity (mips: 32‐bit MIPS big‐endian)
    LinuxUsrVeritySigMIPS,
    /// Linux /usr verity signature partition for dm-verity (mips64: 64‐bit MIPS big‐endian)
    LinuxUsrVeritySigMIPS64,
    /// Linux /usr verity signature partition for dm-verity (mipsel: 32‐bit MIPS little‐endian)
    LinuxUsrVeritySigMIPSEL,
    /// Linux /usr verity signature partition for dm-verity (mips64el: 64‐bit MIPS little‐endian)
    LinuxUsrVeritySigMIPS64EL,
    /// Linux /usr verity signature partition for dm-verity (PA-RISC)
    LinuxUsrVeritySigPARISC,
    /// Linux /usr verity signature partition for dm-verity (32‐bit PowerPC)
    LinuxUsrVeritySigPPC32,
    /// Linux /usr verity signature partition for dm-verity (64‐bit PowerPC big‐endian)
    LinuxUsrVeritySigPPC64,
    /// Linux /usr verity signature partition for dm-verity (64‐bit PowerPC little‐endian)
    LinuxUsrVeritySigPPC64LE,
    /// Linux /usr verity signature partition for dm-verity (RISC-V 32‐bit)
    LinuxUsrVeritySigRISCV32,
    /// Linux /usr verity signature partition for dm-verity (RISC-V 64‐bit)
    LinuxUsrVeritySigRISCV64,
    /// Linux /usr verity signature partition for dm-verity (s390)
    LinuxUsrVeritySigS390,
    /// Linux /usr verity signature partition for dm-verity (s390x)
    LinuxUsrVeritySigS390x,
    /// Linux /usr verity signature partition for dm-verity (TILE-Gx)
    LinuxUsrVeritySigTILEGx,
    /// Linux /usr verity signature partition for dm-verity (x86)
    LinuxUsrVeritySigx86,
    /// Linux /usr verity signature partition for dm-verity (x86-64)
    LinuxUsrVeritySigx86_64,
    /// Linux /boot, as an Extended Boot Loader (XBOOTLDR) partition
    LinuxXBOOTLDR,
    /// Linux Swap partition
    LinuxSwap,
    /// Linux Logical Volume Manager (LVM) partition
    LinuxLVM,
    /// Linux /home partition
    LinuxHome,
    /// Linux /srv (server data) partition
    LinuxServerData,
    /// Linux Per‐user home partition
    LinuxPerUserHome,
    /// Linux Plain dm-crypt partition
    LinuxPlain,
    /// Linux LUKS partition
    LinuxLUKS,
    /// Linux Reserved
    LinuxReserved,
    /// FreeBSD Boot partition
    FreeBSDBoot,
    /// FreeBSD BSD disklabel partition
    FreeBSDDisklabel,
    /// FreeBSD Swap partition
    FreeBSDSwap,
    /// FreeBSD Unix File System (UFS) partition
    FreeBSDUFS,
    /// FreeBSD Vinum volume manager partition
    FreeBSDVinum,
    /// FreeBSD ZFS partition
    FreeBSDZFS,
    /// FreeBSD nandfs partition
    FreeBSDnandfs,
    /// macOS Darwin Hierarchical File System Plus (HFS+) partition
    MacOSHFSPlus,
    /// macOS Darwin Apple APFS container APFS FileVault volume container
    MacOSAPFS,
    /// macOS Darwin Apple UFS container
    MacOSUFS,
    /// macOS Darwin Apple RAID partition
    MacOSRAID,
    /// macOS Darwin Apple RAID partition, offline
    MacOSRAIDOffline,
    /// macOS Darwin Apple Boot partition (Recovery HD)
    MacOSBootRecovery,
    /// macOS Darwin Apple Label
    MacOSLabel,
    /// macOS Darwin Apple TV Recovery partition
    MacOSAppleTVRecovery,
    /// macOS Darwin Apple Core Storage Container HFS+ FileVault volume container
    MacOSHFSPlusFileVault,
    /// macOS Darwin Apple APFS Preboot partition
    MacOSAPFSPreboot,
    /// macOS Darwin Apple APFS Recovery partition
    MacOSAPFSRecovery,
    /// Solaris/Illumos Boot partition
    SolarisBoot,
    /// Solaris/Illumos Root partition
    SolarisRoot,
    /// Solaris/Illumos Swap partition
    SolarisSwap,
    /// Solaris/Illumos Backup partition
    SolarisBackup,
    /// Solaris/Illumos /usr partition or MacOSZFS,
    SolarisUsr,
    /// Solaris/Illumos /var partition
    SolarisVar,
    /// Solaris/Illumos /home partition
    SolarisHome,
    /// Solaris/Illumos Alternate sector
    SolarisAlternateSector,
    /// Solaris/Illumos Reserved partition
    SolarisReserved1,
    /// Solaris/Illumos Reserved partition
    SolarisReserved2,
    /// Solaris/Illumos Reserved partition
    SolarisReserved3,
    /// Solaris/Illumos Reserved partition
    SolarisReserved4,
    /// Solaris/Illumos Reserved partition
    SolarisReserved5,
    /// NetBSD Swap partition
    NetBSDSwap,
    /// NetBSD FFS partition
    NetBSDFFS,
    /// NetBSD LFS partition
    NetBSDLFS,
    /// NetBSD RAID partition
    NetBSDRAID,
    /// NetBSD Concatenated partition
    NetBSDConcatenated,
    /// NetBSD Encrypted partition
    NetBSDEncrypted,
    /// ChromeOS kernel
    ChromeOSKernel,
    /// ChromeOS rootfs
    ChromeOSRootFs,
    /// ChromeOS firmware
    ChromeOSFirmware,
    /// ChromeOS future use
    ChromeOSFuture,
    /// ChromeOS miniOS
    ChromeOSMiniOS,
    /// ChromeOS hibernate
    ChromeOSHibernate,
    /// CoreOS /usr partition (coreos-usr)
    CoreOSUsr,
    /// CoreOS Resizable rootfs (coreos-resize)
    CoreOSResize,
    /// CoreOS OEM customizations (coreos-reserved)
    CoreOSReserved,
    /// CoreOS Root filesystem on RAID (coreos-root-raid)
    CoreOSRootRAID,
    ///  Haiku BFS
    HaikuBFS,
    /// MidnightBSD Boot partition
    MidnightBSDBoot,
    /// MidnightBSD Data partition
    MidnightBSDData,
    /// MidnightBSD Swap partition
    MidnightBSDSwap,
    /// MidnightBSD Unix File System (UFS) partition
    MidnightBSDUFS,
    /// MidnightBSD Vinum volume manager partition
    MidnightBSDVinum,
    /// MidnightBSD ZFS partition
    MidnightBSDZFS,
    /// Ceph Journal
    CephJournal,
    /// Ceph dm-crypt journal
    CephDMCryptJournal,
    /// Ceph OSD
    CephOSD,
    /// Ceph dm-crypt OSD
    CephDMCryptOSD,
    /// Ceph Disk in creation
    CephDisk,
    /// Ceph dm-crypt disk in creation
    CephDMCryptDisk,
    /// Ceph Block
    CephBlock,
    /// Ceph Block DB
    CephBlockDB,
    /// Ceph Block write-ahead log
    CephBlockLog,
    /// Ceph Lockbox for dm-crypt keys
    CephLockbox,
    /// Ceph Multipath OSD
    CephMultipathOSD,
    /// Ceph Multipath journal
    CephMultipathJournal,
    /// Ceph Multipath block
    CephMultipathBlock1,
    /// Ceph Multipath block
    CephMultipathBlock2,
    /// Ceph Multipath block DB
    CephMultipathBlockDB,
    /// Ceph Multipath block write-ahead log
    CephMultipathLog,
    /// Ceph dm-crypt block
    CephDMCryptBlock,
    /// Ceph dm-crypt block DB
    CephDMCryptBlockDB,
    /// Ceph dm-crypt block write-ahead log
    CephDMCryptBlockLog,
    /// Ceph dm-crypt LUKS OSD
    CephLUKSOSD,
    /// Ceph dm-crypt LUKS journal
    CephLUKSJournal,
    /// Ceph dm-crypt LUKS block
    CephLUKSBlock,
    /// Ceph dm-crypt LUKS block DB
    CephLUKSBlockDB,
    /// Ceph dm-crypt LUKS block write-ahead log
    CephLUKSBlockLog,
    /// OpenBSD Data partition
    OpenBSDData,
    /// QNX Power-safe (QNX6) file system
    QNX6Fs,
    /// Plan 9 partition
    Plan9,
    /// VMWare ESX vmkcore (coredump partition)
    VMWareVMKCORE,
    /// VMWare ESX VMFS filesystem partition
    VMWareVMFS,
    /// VMWare ESX VMware Reserved
    VMWareWmkReserved,
    /// Android-IA Bootloader
    AndroidBootloader,
    /// Android-IA Bootloader2
    AndroidBootloader2,
    /// Android-IA Boot
    AndroidBoot,
    /// Android-IA Recovery
    AndroidRecovery,
    /// Android-IA Misc
    AndroidMisc,
    /// Android-IA Metadata
    AndroidMetadata,
    /// Android-IA System
    AndroidSystem,
    /// Android-IA Cache
    AndroidCache,
    /// Android-IA Data
    AndroidData,
    /// Android-IA Persistent
    AndroidPersistent,
    /// Android-IA Vendor
    AndroidVendor,
    /// Android-IA Config
    AndroidConfig,
    /// Android-IA Factory
    AndroidFactory,
    /// Android-IA Factory (alt)
    AndroidFactoryAlt,
    /// Android-IA Fastboot / Tertiary
    AndroidFastboot,
    /// Android-IA OEM
    AndroidOEM,
    /// Android 6.0+ ARM Android Meta
    Android6Meta,
    /// Android 6.0+ ARM Android EXT
    Android6Ext,
    /// Open Network Install Environment (ONIE) Boot
    ONIEBoot,
    /// Open Network Install Environment (ONIE) Config
    ONIEConfig,
    /// PowerPC PReP boot
    PPCPrePBoot,
    /// Atari TOS Basic data partition (GEM, BGM, F32)
    AtariTOSBasicData,
    /// Atari TOS Raw data partition (RAW), XHDI
    AtariTOSRawData,
    /// VeraCrypt Encrypted data partition
    VeraCryptEncrypted,
    /// OS/2 ArcaOS Type 1
    OS2ArcaOS,
    /// Storage Performance Development Kit (SPDK) SPDK block device
    SPDK,
    /// barebox bootloader  barebox-state
    BareboxState,
    /// U-Boot bootloader  U-Boot environment
    UBootEnv,
    /// SoftRAID SoftRAID_Status
    SoftRAIDStatus,
    /// SoftRAID SoftRAID_Scratch
    SoftRAIDScratch,
    /// SoftRAID SoftRAID_Volume
    SoftRAIDVolume,
    /// SoftRAID SoftRAID_Cache
    SoftRAIDCache,
    /// Fuchsia Bootloader (slot A/B/R)
    FuchsiaBoot,
    /// Fuchsia Durable mutable encrypted system data
    FuchsiaSystemData,
    /// Fuchsia Durable mutable bootloader data (including A/B/R metadata)
    FuchsiaBootData,
    /// Fuchsia Factory-provisioned read-only system data
    FuchsiaFactorySystemData,
    /// Fuchsia Factory-provisioned read-only bootloader data
    FuchsiaFactoryBootData,
    /// Fuchsia Fuchsia Volume Manager
    FuchsiaVolumeManager,
    /// Fuchsia Verified boot metadata (slot A/B/R)
    FuchsiaVerifiedBoot,
    /// Fuchsia Zircon boot image (slot A/B/R)
    FuchsiaZirconBoot,
    /// Fuchsia legacy fuchsia-system
    FuchsiaLegacySystem,
    /// Fuchsia legacy fuchsia-data
    FuchsiaLegacyData,
    /// Fuchsia legacy fuchsia-install
    FuchsiaLegacyInstall,
    /// Fuchsia legacy fuchsia-blob
    FuchsiaLegacyBlob,
    /// Fuchsia legacy fuchsia-fvm
    FuchsiaLegacyFVM,
    /// Fuchsia legacy Zircon boot image (slot A)
    FuchsiaLegacyZirconBootSlotA,
    /// Fuchsia legacy Zircon boot image (slot B)
    FuchsiaLegacyZirconBootSlotB,
    /// Fuchsia legacy Zircon boot image (slot R)
    FuchsiaLegacyZirconBootSlotR,
    /// Fuchsia legacy sys-config
    FuchsiaLegacySysConfig,
    /// Fuchsia legacy factory-config
    FuchsiaLegacyFactoryConfig,
    /// Fuchsia legacy bootloader
    FuchsiaLegacyBoot,
    /// Fuchsia legacy guid-test
    FuchsiaLegacyGuidTest,
    /// Fuchsia legacy Verified boot metadata (slot A)
    FuchsiaLegacyVerifiedBootSlotA,
    /// Fuchsia legacy Verified boot metadata (slot B)
    FuchsiaLegacyVerifiedBootSlotB,
    /// Fuchsia legacy Verified boot metadata (slot R)
    FuchsiaLegacyVerifiedBootSlotR,
    /// Fuchsia legacy misc
    FuchsiaLegacyMisc,
    /// Fuchsia legacy emmc-boot1
    FuchsiaLegacyEmmcBoot1,
    /// Fuchsia legacy emmc-boot2
    FuchsiaLegacyEmmcBoot2,
    /// Minix filesystem
    Minix,
}

/// The number of supported `GPT` partition types.
pub const GUID_COUNT: usize = 297;

/// The value of a lower-case hexadecimal digit.
pub open spec fn lower_hex_value(c: char) -> Option<int> {
    if '0' <= c <= '9' {
        Some(c as int - '0' as int)
    } else if 'a' <= c <= 'f' {
        Some(c as int - 'a' as int + 10)
    } else {
        None
    }
}

/// The value of the lower-case hexadecimal digit at position `p` of `t`.
pub open spec fn uuid_digit(t: Seq<char>, p: int) -> int {
    match lower_hex_value(t[p]) {
        Some(d) => d,
        None => 0,
    }
}

/// Whether `t` is the canonical text of a 128-bit identifier: 36 characters, hyphens at
/// positions 8, 13, 18 and 23, lower-case hexadecimal digits everywhere else.
#[verifier::opaque]
pub open spec fn is_uuid_text(t: Seq<char>) -> bool {
    &&& t.len() == 36
    &&& t[8] == '-'
    &&& t[13] == '-'
    &&& t[18] == '-'
    &&& t[23] == '-'
    &&& lower_hex_value(t[0]) is Some
    &&& lower_hex_value(t[1]) is Some
    &&& lower_hex_value(t[2]) is Some
    &&& lower_hex_value(t[3]) is Some
    &&& lower_hex_value(t[4]) is Some
    &&& lower_hex_value(t[5]) is Some
    &&& lower_hex_value(t[6]) is Some
    &&& lower_hex_value(t[7]) is Some
    &&& lower_hex_value(t[9]) is Some
    &&& lower_hex_value(t[10]) is Some
    &&& lower_hex_value(t[11]) is Some
    &&& lower_hex_value(t[12]) is Some
    &&& lower_hex_value(t[14]) is Some
    &&& lower_hex_value(t[15]) is Some
    &&& lower_hex_value(t[16]) is Some
    &&& lower_hex_value(t[17]) is Some
    &&& lower_hex_value(t[19]) is Some
    &&& lower_hex_value(t[20]) is Some
    &&& lower_hex_value(t[21]) is Some
    &&& lower_hex_value(t[22]) is Some
    &&& lower_hex_value(t[24]) is Some
    &&& lower_hex_value(t[25]) is Some
    &&& lower_hex_value(t[26]) is Some
    &&& lower_hex_value(t[27]) is Some
    &&& lower_hex_value(t[28]) is Some
    &&& lower_hex_value(t[29]) is Some
    &&& lower_hex_value(t[30]) is Some
    &&& lower_hex_value(t[31]) is Some
    &&& lower_hex_value(t[32]) is Some
    &&& lower_hex_value(t[33]) is Some
    &&& lower_hex_value(t[34]) is Some
    &&& lower_hex_value(t[35]) is Some
}

/// The 128-bit number written by the canonical identifier text `t`.
#[verifier::opaque]
pub open spec fn uuid_text_value(t: Seq<char>) -> int {
    uuid_digit(t, 0) * 0x10000000000000000000000000000000
        + uuid_digit(t, 1) * 0x1000000000000000000000000000000
        + uuid_digit(t, 2) * 0x100000000000000000000000000000
        + uuid_digit(t, 3) * 0x10000000000000000000000000000
        + uuid_digit(t, 4) * 0x1000000000000000000000000000
        + uuid_digit(t, 5) * 0x100000000000000000000000000
        + uuid_digit(t, 6) * 0x10000000000000000000000000
        + uuid_digit(t, 7) * 0x1000000000000000000000000
        + uuid_digit(t, 9) * 0x100000000000000000000000
        + uuid_digit(t, 10) * 0x10000000000000000000000
        + uuid_digit(t, 11) * 0x1000000000000000000000
        + uuid_digit(t, 12) * 0x100000000000000000000
        + uuid_digit(t, 14) * 0x10000000000000000000
        + uuid_digit(t, 15) * 0x1000000000000000000
        + uuid_digit(t, 16) * 0x100000000000000000
        + uuid_digit(t, 17) * 0x10000000000000000
        + uuid_digit(t, 19) * 0x1000000000000000
        + uuid_digit(t, 20) * 0x100000000000000
        + uuid_digit(t, 21) * 0x10000000000000
        + uuid_digit(t, 22) * 0x1000000000000
        + uuid_digit(t, 24) * 0x100000000000
        + uuid_digit(t, 25) * 0x10000000000
        + uuid_digit(t, 26) * 0x1000000000
        + uuid_digit(t, 27) * 0x100000000
        + uuid_digit(t, 28) * 0x10000000
        + uuid_digit(t, 29) * 0x1000000
        + uuid_digit(t, 30) * 0x100000
        + uuid_digit(t, 31) * 0x10000
        + uuid_digit(t, 32) * 0x1000
        + uuid_digit(t, 33) * 0x100
        + uuid_digit(t, 34) * 0x10
        + uuid_digit(t, 35) * 0x1
}

impl Guid {
    /// The 128-bit identifier of this partition type.
    pub open spec fn value(self) -> u128 {
        match self {
            Guid::EmptyPartition => 0x00000000000000000000000000000000,
            Guid::MBRPartition => 0x024dee4133e711d39d690008c781f39f,
            Guid::EfiSystem => 0xc12a7328f81f11d2ba4b00a0c93ec93b,
            Guid::BIOSBoot => 0x2168614864496e6f744e656564454649,
            Guid::IntelFastFlash => 0xd3bfe2de3daf11dfba40e3a556d89593,
            Guid::SonyBoot => 0xf4019732066e4e128273346c5641494f,
            Guid::LenovoBoot => 0xbfbfafe7a34f448a9a5b6213eb736c22,
            Guid::MicrosoftReserved => 0xe3c9e3160b5c4db8817df92df00215ae,
            Guid::WindowsBasicData => 0xebd0a0a2b9e5443387c068b6b72699c7,
            Guid::WindowsLDM => 0x5808c8aa7e8f42e085d2e1e90434cfb3,
            Guid::WindowsLDMData => 0xaf9b60a014314f62bc683311714a69ad,
            Guid::WindowsRecovery => 0xde94bba406d14d40a16abfd50179d6ac,
            Guid::IBMGPFS => 0x37affc90ef7d4e9691c32d7ae055b174,
            Guid::WindowsStorageSpaces => 0xe75caf8ff6804ceeafa3b001e56efc2d,
            Guid::WindowsStorageReplica => 0x558d43c5a1ac43c0aac8d1472b2923d1,
            Guid::HPUXData => 0x75894c1e3aeb11d3b7c17b03a0000000,
            Guid::HPUXService => 0xe2a1e72832e311d6a6827b03a0000000,
            Guid::LinuxData => 0x0fc63daf848347728e793d69d8477de4,
            Guid::LinuxRaid => 0xa19d880f05fc4d3ba006743f0f84911e,
            Guid::LinuxRootAlpha => 0x6523f8ae3eb14e2aa05a18b695ae656f,
            Guid::LinuxRootARC => 0xd27f46ed29194cb8bd259531f3c16534,
            Guid::LinuxRootARM32 => 0x69dad7102ce44e3cb16c21a1d49abed3,
            Guid::LinuxRootARM64 => 0xb921b0451df041c3af444c6f280d3fae,
            Guid::LinuxRootIA64 => 0x993d8d3df80e4225855a9daf8ed7ea97,
            Guid::LinuxRootLoongArch64 => 0x77055800792c4f94b39a98c91b762bb6,
            Guid::LinuxRootMIPS => 0xe94345446e2c47ccbae212d6deafb44c,
            Guid::LinuxRootMIPS64 => 0xd113af7680ef41b4bdb60cff4d3d4a25,
            Guid::LinuxRootMIPSEL => 0x37c58c8ad9134156a25f48b1b64e07f0,
            Guid::LinuxRootMIPS64EL => 0x700bda437a344507b179eeb93d7a7ca3,
            Guid::LinuxRootPARISC => 0x1aacdb3b54444138bd9ee5c2239b2346,
            Guid::LinuxRootPPC32 => 0x1de3f1effa9847b58dcd4a860a654d78,
            Guid::LinuxRootPPC64 => 0x912ade1da83949138964a10eee08fbd2,
            Guid::LinuxRootPPC64LE => 0xc31c45e63f39412e80fb4809c4980599,
            Guid::LinuxRootRISCV32 => 0x60d5a7fe8e7d435cb7143dd8162144e1,
            Guid::LinuxRootRISCV64 => 0x72ec70a6cf7440e6bd494bda08e8f224,
            Guid::LinuxRootS390 => 0x08a7acea624c4a2091e86e0fa67d23f9,
            Guid::LinuxRootS390x => 0x5eead9a9fe094a1ea1d7520d00531306,
            Guid::LinuxRootTILEGx => 0xc50cdd7038624cc390e1809a8c93ee2c,
            Guid::LinuxRootx86 => 0x44479540f29741b29af7d131d5f0458a,
            Guid::LinuxRootx86_64 => 0x4f68bce3e8cd4db196e7fbcaf984b709,
            Guid::LinuxUsrAlpha => 0xe18cf08c33ec4c0d8246c6c6fb3da024,
            Guid::LinuxUsrARC => 0x7978a68363164922bbee38bff5a2fecc,
            Guid::LinuxUsrARM32 => 0x7d0359a302b34f0a865c654403e70625,
            Guid::LinuxUsrARM64 => 0xb0e01050ee5f4390949a9101b17104e9,
            Guid::LinuxUsrIA64 => 0x4301d2a64e3b4b2abb949e0b2c4225ea,
            Guid::LinuxUsrLoongArch64 => 0xe611c702575c4cbe9a46434fa0bf7e3f,
            Guid::LinuxUsrMIPS => 0x773b2abc2a9943988bf503baac40d02b,
            Guid::LinuxUsrMIPS64 => 0x57e13958733143658e6e35eeee17c61b,
            Guid::LinuxUsrMIPSEL => 0x0f4868e999524706979f3ed3a473e947,
            Guid::LinuxUsrMIPS64EL => 0xc97c1f32ba0640b49f22236061b08aa8,
            Guid::LinuxUsrPARISC => 0xdc4a448069174262a4ecdb9384949f25,
            Guid::LinuxUsrPPC32 => 0x7d14fec5cc71415d9d6c06bf0b3c3eaf,
            Guid::LinuxUsrPPC64 => 0x2c9739e2f06846b39fd001c5a9afbcca,
            Guid::LinuxUsrPPC64LE => 0x15bb03af77e74d4ab12bc0d084f7491c,
            Guid::LinuxUsrRISCV32 => 0xb933fb225c3f4f91af90e2bb0fa50702,
            Guid::LinuxUsrRISCV64 => 0xbeaec34b8442439ba40b984381ed097d,
            Guid::LinuxUsrS390 => 0xcd0f869bd0fb4ca0b1419ea87cc78d66,
            Guid::LinuxUsrS390x => 0x8a4f577050aa4ed3874a99b710db6fea,
            Guid::LinuxUsrTILEGx => 0x55497029c7c144ccaa39815ed1558630,
            Guid::LinuxUsrx86 => 0x75250d768cc6458ebd66bd47cc81a812,
            Guid::LinuxUsrx86_64 => 0x8484680c952148c69c11b0720656f69e,
            Guid::LinuxRootVerityAlpha => 0xfc56d9e9e6e54c06be32e74407ce09a5,
            Guid::LinuxRootVerityARC => 0x24b2d9750f974521afa1cd531e421b8d,
            Guid::LinuxRootVerityARM32 => 0x7386cdf2203c47a9a498f2ecce45a2d6,
            Guid::LinuxRootVerityARM64 => 0xdf3300ced69f4c92978c9bfb0f38d820,
            Guid::LinuxRootVerityIA64 => 0x86ed10d5b60745bb8957d350f23d0571,
            Guid::LinuxRootVerityLoongArch64 => 0xf3393b22e9af4613a9489d3bfbd0c535,
            Guid::LinuxRootVerityMIPS => 0x7a430799f7114c7e8e5b1d685bd48607,
            Guid::LinuxRootVerityMIPS64 => 0x579536f86a334055a95adf2d5e2c42a8,
            Guid::LinuxRootVerityMIPSEL => 0xd7d150d22a044a338f1216651205ff7b,
            Guid::LinuxRootVerityMIPS64EL => 0x16b417f83e064f578dd29b5232f41aa6,
            Guid::LinuxRootVerityPARISC => 0xd212a430fbc549f9a983a7feef2b8d0e,
            Guid::LinuxRootVerityPPC32 => 0x98cfe649158846dcb2f0add147424925,
            Guid::LinuxRootVerityPPC64 => 0x9225a9a33c194d89b4f6eeff88f17631,
            Guid::LinuxRootVerityPPC64LE => 0x906bd94445894aaea4e4dd983917446a,
            Guid::LinuxRootVerityRISCV32 => 0xae0253be11674007ac6843926c14c5de,
            Guid::LinuxRootVerityRISCV64 => 0xb6ed5582440b4209b8da5ff7c419ea3d,
            Guid::LinuxRootVerityS390 => 0x7ac63b47b25c463b8df8b4a94e6c90e1,
            Guid::LinuxRootVerityS390x => 0xb325bfbec7be4ab88357139e652d2f6b,
            Guid::LinuxRootVerityTILEGx => 0x966061ec28e44b2eb4a51f0a825a1d84,
            Guid::LinuxRootVerityx86 => 0xd13c5d3bb5d1422ab29f9454fdc89d76,
            Guid::LinuxRootVerityx86_64 => 0x2c7357edebd246d9aec123d437ec2bf5,
            Guid::LinuxUsrVerityAlpha => 0x8cce0d25c0d04a44bd8746331bf1df67,
            Guid::LinuxUsrVerityARC => 0xfca0598cd88045918c164eda05c7347c,
            Guid::LinuxUsrVerityARM32 => 0xc215d7517bcd4649be906627490a4c05,
            Guid::LinuxUsrVerityARM64 => 0x6e11a4e7fbca4dedb9e9e1a512bb664e,
            Guid::LinuxUsrVerityIA64 => 0x6a491e033be745458e3883320e0ea880,
            Guid::LinuxUsrVerityLoongArch64 => 0xf46b2c2659ae48f09106c50ed47f673d,
            Guid::LinuxUsrVerityMIPS => 0x6e5a1bc8d22349b7bca837a5fcceb996,
            Guid::LinuxUsrVerityMIPS64 => 0x81cf9d9074584df48dcfc8a3a404f09b,
            Guid::LinuxUsrVerityMIPSEL => 0x46b98d8db55c4e8faab337fca7f80752,
            Guid::LinuxUsrVerityMIPS64EL => 0x3c3d61feb5f3414dbb718739a694a4ef,
            Guid::LinuxUsrVerityPARISC => 0x5843d618ec3748d79f12cea8e08768b2,
            Guid::LinuxUsrVerityPPC32 => 0xdf765d00270e49e5bc75f47bb2118b09,
            Guid::LinuxUsrVerityPPC64 => 0xbdb528a5a259475fa87dda53fa736a07,
            Guid::LinuxUsrVerityPPC64LE => 0xee2b998321e8415386d9b6901a54d1ce,
            Guid::LinuxUsrVerityRISCV32 => 0xcb1ee4e38cd04136a0a4aa61a32e8730,
            Guid::LinuxUsrVerityRISCV64 => 0x8f1056be9b0547c481d6be53128e5b54,
            Guid::LinuxUsrVerityS390 => 0xb663c618e7bc4d6d90aa11b756bb1797,
            Guid::LinuxUsrVerityS390x => 0x31741cc41a2a4111a581e00b447d2d06,
            Guid::LinuxUsrVerityTILEGx => 0x2fb4bf5607fa42da81326b139f2026ae,
            Guid::LinuxUsrVerityx86 => 0x8f461b0d14ee4e819aa9049b6fb97abd,
            Guid::LinuxUsrVerityx86_64 => 0x77ff5f63e7b64633acf41565b864c0e6,
            Guid::LinuxRootVeritySigAlpha => 0xd46495b7a053414f80f7700c99921ef8,
            Guid::LinuxRootVeritySigARC => 0x143a70bacbd34f06919f6c05683a78bc,
            Guid::LinuxRootVeritySigARM32 => 0x42b0455feb11491d98d356145ba9d037,
            Guid::LinuxRootVeritySigARM64 => 0x6db69de629f44758a7a5962190f00ce3,
            Guid::LinuxRootVeritySigIA64 => 0xe98b36ee32ba48829b120ce14655f46a,
            Guid::LinuxRootVeritySigLoongArch64 => 0x5afb67ebecc84f85ae8eac1e7c50e7d0,
            Guid::LinuxRootVeritySigMIPS => 0xbba210a29c5d45ee9e87ff2ccbd002d0,
            Guid::LinuxRootVeritySigMIPS64 => 0x43ce94d40f3d49998250b9deafd98e6e,
            Guid::LinuxRootVeritySigMIPSEL => 0xc919cc1f44564eff918cf75e94525ca5,
            Guid::LinuxRootVeritySigMIPS64EL => 0x904e58ef5c654a319c576af5fc7c5de7,
            Guid::LinuxRootVeritySigPARISC => 0x15de617065d3431c916eb0dcd8393f25,
            Guid::LinuxRootVeritySigPPC32 => 0x1b31b5aaadd9463ab2edbd467fc857e7,
            Guid::LinuxRootVeritySigPPC64 => 0xf5e2c20c45b24ffabce92a60737e1aaf,
            Guid::LinuxRootVeritySigPPC64LE => 0xd4a236e7e8734c07bf1dbf6cf7f1c3c6,
            Guid::LinuxRootVeritySigRISCV32 => 0x3a112a7587294380b4cf764d79934448,
            Guid::LinuxRootVeritySigRISCV64 => 0xefe0f087ea8d4469821a4c2a96a8386a,
            Guid::LinuxRootVeritySigS390 => 0x3482388e4254435aa241766a065f9960,
            Guid::LinuxRootVeritySigS390x => 0xc80187a573a3491a901a017c3fa953e9,
            Guid::LinuxRootVeritySigTILEGx => 0xb367143997b04a5390f72d5a8f3ad47b,
            Guid::LinuxRootVeritySigx86 => 0x5996fc05109c48de808b23fa0830b676,
            Guid::LinuxRootVeritySigx86_64 => 0x41092b059fc84523994f2def0408b176,
            Guid::LinuxUsrVeritySigAlpha => 0x5c6e1c76076a457aa0fef3b4cd21ce6e,
            Guid::LinuxUsrVeritySigARC => 0x94f9a9a19971427aa40050cb297f0f35,
            Guid::LinuxUsrVeritySigARM32 => 0xd7ff812f37d14902a810d76ba57b975a,
            Guid::LinuxUsrVeritySigARM64 => 0xc23ce4ff44bd4b00b2d4b41b3419e02a,
            Guid::LinuxUsrVeritySigIA64 => 0x8de58bc22a43460db14ea76e4a17b47f,
            Guid::LinuxUsrVeritySigLoongArch64 => 0xb024f315d330444c846144bbde524e99,
            Guid::LinuxUsrVeritySigMIPS => 0x97ae158df216497b8057f7f905770f54,
            Guid::LinuxUsrVeritySigMIPS64 => 0x05816ce2dd404ac6a61d37d32dc1ba7d,
            Guid::LinuxUsrVeritySigMIPSEL => 0x3e23ca0ba4bc4b4e80875ab6a26aa8a9,
            Guid::LinuxUsrVeritySigMIPS64EL => 0xf2c2c7eeadcc4351b5c6ee9816b66e16,
            Guid::LinuxUsrVeritySigPARISC => 0x450dd7d1322445ec9cf2a43a346d71ee,
            Guid::LinuxUsrVeritySigPPC32 => 0x7007891dd3714a8086a45cb875b9302e,
            Guid::LinuxUsrVeritySigPPC64 => 0x0b888863d7f84d9e9766239fce4d58af,
            Guid::LinuxUsrVeritySigPPC64LE => 0xc8bfbd1e268e45218bbabf314c399557,
            Guid::LinuxUsrVeritySigRISCV32 => 0xc3836a13313745bab583b16c50fe5eb4,
            Guid::LinuxUsrVeritySigRISCV64 => 0xd2f9000a7a18453fb5cd4d32f77a7b32,
            Guid::LinuxUsrVeritySigS390 => 0x17440e4fa8d0467fa46e3912ae6ef2c5,
            Guid::LinuxUsrVeritySigS390x => 0x3f324816667b46ae86ee9b0c0c6c11b4,
            Guid::LinuxUsrVeritySigTILEGx => 0x4ede75e26ccc4cc8b9c770334b087510,
            Guid::LinuxUsrVeritySigx86 => 0x974a71c0de4143c3be5d5c5ccd1ad2c0,
            Guid::LinuxUsrVeritySigx86_64 => 0xe7bb33fb06cf4e818273e543b413e2e2,
            Guid::LinuxXBOOTLDR => 0xbc13c2ff59e64262a352b275fd6f7172,
            Guid::LinuxSwap => 0x0657fd6da4ab43c484e50933c84b4f4f,
            Guid::LinuxLVM => 0xe6d6d379f50744c2a23c238f2a3df928,
            Guid::LinuxHome => 0x933ac7e12eb44f13b8440e14e2aef915,
            Guid::LinuxServerData => 0x3b8f842520e04f3b907f1a25a76f98e8,
            Guid::LinuxPerUserHome => 0x773f91ef66d449b5bd83d683bf40ad16,
            Guid::LinuxPlain => 0x7ffec5c92d0049b789413ea10a5586b7,
            Guid::LinuxLUKS => 0xca7d7ccb63ed4c53861c1742536059cc,
            Guid::LinuxReserved => 0x8da63339000760c0c436083ac8230908,
            Guid::FreeBSDBoot => 0x83bd6b9d7f4111dcbe0b001560b84f0f,
            Guid::FreeBSDDisklabel => 0x516e7cb46ecf11d68ff800022d09712b,
            Guid::FreeBSDSwap => 0x516e7cb56ecf11d68ff800022d09712b,
            Guid::FreeBSDUFS => 0x516e7cb66ecf11d68ff800022d09712b,
            Guid::FreeBSDVinum => 0x516e7cb86ecf11d68ff800022d09712b,
            Guid::FreeBSDZFS => 0x516e7cba6ecf11d68ff800022d09712b,
            Guid::FreeBSDnandfs => 0x74ba7dd9a68911e1bd0400e081286acf,
            Guid::MacOSHFSPlus => 0x48465300000011aaaa1100306543ecac,
            Guid::MacOSAPFS => 0x7c3457ef000011aaaa1100306543ecac,
            Guid::MacOSUFS => 0x55465300000011aaaa1100306543ecac,
            Guid::MacOSRAID => 0x52414944000011aaaa1100306543ecac,
            Guid::MacOSRAIDOffline => 0x524149445f4f11aaaa1100306543ecac,
            Guid::MacOSBootRecovery => 0x426f6f74000011aaaa1100306543ecac,
            Guid::MacOSLabel => 0x4c6162656c0011aaaa1100306543ecac,
            Guid::MacOSAppleTVRecovery => 0x5265636f766511aaaa1100306543ecac,
            Guid::MacOSHFSPlusFileVault => 0x53746f72616711aaaa1100306543ecac,
            Guid::MacOSAPFSPreboot => 0x69646961670011aaaa1100306543ecac,
            Guid::MacOSAPFSRecovery => 0x52637672790011aaaa1100306543ecac,
            Guid::SolarisBoot => 0x6a82cb451dd211b299a6080020736631,
            Guid::SolarisRoot => 0x6a85cf4d1dd211b299a6080020736631,
            Guid::SolarisSwap => 0x6a87c46f1dd211b299a6080020736631,
            Guid::SolarisBackup => 0x6a8b642b1dd211b299a6080020736631,
            Guid::SolarisUsr => 0x6a898cc31dd211b299a6080020736631,
            Guid::SolarisVar => 0x6a8ef2e91dd211b299a6080020736631,
            Guid::SolarisHome => 0x6a90ba391dd211b299a6080020736631,
            Guid::SolarisAlternateSector => 0x6a9283a51dd211b299a6080020736631,
            Guid::SolarisReserved1 => 0x6a945a3b1dd211b299a6080020736631,
            Guid::SolarisReserved2 => 0x6a9630d11dd211b299a6080020736631,
            Guid::SolarisReserved3 => 0x6a9807671dd211b299a6080020736631,
            Guid::SolarisReserved4 => 0x6a96237f1dd211b299a6080020736631,
            Guid::SolarisReserved5 => 0x6a8d2ac71dd211b299a6080020736631,
            Guid::NetBSDSwap => 0x49f48d32b10e11dcb99b0019d1879648,
            Guid::NetBSDFFS => 0x49f48d5ab10e11dcb99b0019d1879648,
            Guid::NetBSDLFS => 0x49f48d82b10e11dcb99b0019d1879648,
            Guid::NetBSDRAID => 0x49f48daab10e11dcb99b0019d1879648,
            Guid::NetBSDConcatenated => 0x2db519c4b10f11dcb99b0019d1879648,
            Guid::NetBSDEncrypted => 0x2db519ecb10f11dcb99b0019d1879648,
            Guid::ChromeOSKernel => 0xfe3a2a5d4f3241a7b725accc3285a309,
            Guid::ChromeOSRootFs => 0x3cb8e2023b7e47dd8a3c7ff2a13cfcec,
            Guid::ChromeOSFirmware => 0xcab6e88eabf34102a07ad4bb9be3c1d3,
            Guid::ChromeOSFuture => 0x2e0a753d9e4843b08337b15192cb1b5e,
            Guid::ChromeOSMiniOS => 0x09845860705f4bb5b16c8a8a099caf52,
            Guid::ChromeOSHibernate => 0x3f0f8318f1464e6b8222c28c8f02e0d5,
            Guid::CoreOSUsr => 0x5dfbf5f428484bacaa5e0d9a20b745a6,
            Guid::CoreOSResize => 0x3884dd4185824404b9a8e9b84f2df50e,
            Guid::CoreOSReserved => 0xc95dc21adf0e43408d7b26cbfa9a03e0,
            Guid::CoreOSRootRAID => 0xbe9067b9ea494f15b4f6f36f8c9e1818,
            Guid::HaikuBFS => 0x424653313ba310f1802a4861696b7521,
            Guid::MidnightBSDBoot => 0x85d5e45e237c11e1b4b3e89a8f7fc3a7,
            Guid::MidnightBSDData => 0x85d5e45a237c11e1b4b3e89a8f7fc3a7,
            Guid::MidnightBSDSwap => 0x85d5e45b237c11e1b4b3e89a8f7fc3a7,
            Guid::MidnightBSDUFS => 0x0394ef8b237e11e1b4b3e89a8f7fc3a7,
            Guid::MidnightBSDVinum => 0x85d5e45c237c11e1b4b3e89a8f7fc3a7,
            Guid::MidnightBSDZFS => 0x85d5e45d237c11e1b4b3e89a8f7fc3a7,
            Guid::CephJournal => 0x45b0969e9b034f30b4c6b4b80ceff106,
            Guid::CephDMCryptJournal => 0x45b0969e9b034f30b4c65ec00ceff106,
            Guid::CephOSD => 0x4fbd7e299d2541b8afd0062c0ceff05d,
            Guid::CephDMCryptOSD => 0x4fbd7e299d2541b8afd05ec00ceff05d,
            Guid::CephDisk => 0x89c57f982fe54dc089c1f3ad0ceff2be,
            Guid::CephDMCryptDisk => 0x89c57f982fe54dc089c15ec00ceff2be,
            Guid::CephBlock => 0xcafecafe9b034f30b4c6b4b80ceff106,
            Guid::CephBlockDB => 0x30cd0809c2b2499c88792d6b78529876,
            Guid::CephBlockLog => 0x5ce17fce40874169b7ff056cc58473f9,
            Guid::CephLockbox => 0xfb3aabf9d25f47ccbf5e721d1816496b,
            Guid::CephMultipathOSD => 0x4fbd7e298ae04982bf9d5a8d867af560,
            Guid::CephMultipathJournal => 0x45b0969e8ae04982bf9d5a8d867af560,
            Guid::CephMultipathBlock1 => 0xcafecafe8ae04982bf9d5a8d867af560,
            Guid::CephMultipathBlock2 => 0x7f4a666a16f347a28445152ef4d03f6c,
            Guid::CephMultipathBlockDB => 0xec6d6385e34645dcbe91da2a7c8b3261,
            Guid::CephMultipathLog => 0x01b41e1b002a453c9f1788793989ff8f,
            Guid::CephDMCryptBlock => 0xcafecafe9b034f30b4c65ec00ceff106,
            Guid::CephDMCryptBlockDB => 0x93b0052d02d94d8aa43b33a3ee4dfbc3,
            Guid::CephDMCryptBlockLog => 0x306e86834fe24330b7c000a917c16966,
            Guid::CephLUKSOSD => 0x4fbd7e299d2541b8afd035865ceff05d,
            Guid::CephLUKSJournal => 0x45b0969e9b034f30b4c635865ceff106,
            Guid::CephLUKSBlock => 0xcafecafe9b034f30b4c635865ceff106,
            Guid::CephLUKSBlockDB => 0x166418dac4694022adf4b30afd37f176,
            Guid::CephLUKSBlockLog => 0x86a32090364740b9bbbd38d8c573aa86,
            Guid::OpenBSDData => 0x824cc7a036a811e3890a952519ad3f61,
            Guid::QNX6Fs => 0xcef5a9ad73bc460189f3cdeeeee321a1,
            Guid::Plan9 => 0xc91818f9802547af89d2f030d7000c2c,
            Guid::VMWareVMKCORE => 0x9d27538040ad11dbbf97000c2911d1b8,
            Guid::VMWareVMFS => 0xaa31e02a400f11db9590000c2911d1b8,
            Guid::VMWareWmkReserved => 0x9198effc31c011db8f78000c2911d1b8,
            Guid::AndroidBootloader => 0x2568845d23324675bc398fa5a4748d15,
            Guid::AndroidBootloader2 => 0x114eaffe15524022b26e9b053604cf84,
            Guid::AndroidBoot => 0x49a4d17f93a345c1a0def50b2ebe2599,
            Guid::AndroidRecovery => 0x4177c7229e924aab864443502bfd5506,
            Guid::AndroidMisc => 0xef32a33ba409486c91419ffb711f6266,
            Guid::AndroidMetadata => 0x20ac26be20b711e384c56cfdb94711e9,
            Guid::AndroidSystem => 0x38f428e6d326425d91406e0ea133647c,
            Guid::AndroidCache => 0xa893ef21e428470a9e550668fd91a2d9,
            Guid::AndroidData => 0xdc76dda95ac1491caf42a82591580c0d,
            Guid::AndroidPersistent => 0xebc597d020534b158b64e0aac75f4db1,
            Guid::AndroidVendor => 0xc5a0aeec13ea11e5a1b1001e67ca0c3c,
            Guid::AndroidConfig => 0xbd59408b4514490dbf129878d963f378,
            Guid::AndroidFactory => 0x8f68cc74c5e548dabe91a0c8c15e9c80,
            Guid::AndroidFactoryAlt => 0x9fdaa6ef4b3f40d2ba8dbff16bfb887b,
            Guid::AndroidFastboot => 0x767941d0208511e3ad3b6cfdb94711e9,
            Guid::AndroidOEM => 0xac6d7924eb714df8b48de267b27148ff,
            Guid::Android6Meta => 0x19a710a2b3ca11e4b02610604b889dcf,
            Guid::Android6Ext => 0x193d1ea4b3ca11e4b07510604b889dcf,
            Guid::ONIEBoot => 0x7412f7d5a1564b1381dc867174929325,
            Guid::ONIEConfig => 0xd4e6e2cd446946f3b5cb1bff57afc149,
            Guid::PPCPrePBoot => 0x9e1a2d38c6124316aa268b49521e5a8b,
            Guid::AtariTOSBasicData => 0x734e5afef61a11e6bc6492361f002671,
            Guid::AtariTOSRawData => 0x35540011b055499f842dc69aeca357b7,
            Guid::VeraCryptEncrypted => 0x8c8f8effac954770814a21994f2dbc8f,
            Guid::OS2ArcaOS => 0x90b6ff38b98f4358a21f48f35b4a8ad3,
            Guid::SPDK => 0x7c5222bd8f5d40879c00bf9843c7b58c,
            Guid::BareboxState => 0x4778ed65bf4245fa9c5b287a1dc4aab1,
            Guid::UBootEnv => 0x3de2176495bd54bda5c34abe786f38a8,
            Guid::SoftRAIDStatus => 0xb6fa30da92d24a9a96f1871ec6486200,
            Guid::SoftRAIDScratch => 0x2e31346519b9463f81268a7993773801,
            Guid::SoftRAIDVolume => 0xfa709c7e65b14593bfd5e71d61de9b02,
            Guid::SoftRAIDCache => 0xbbba6df5f46f4a898f598765b2727503,
            Guid::FuchsiaBoot => 0xfe8a26345e2e46ba99e33a192091a350,
            Guid::FuchsiaSystemData => 0xd9fd4535106c4cec8d37dfc020ca87cb,
            Guid::FuchsiaBootData => 0xa409e16b78aa4acc995c302352621a41,
            Guid::FuchsiaFactorySystemData => 0xf95d940ecaba45789b93bb6c90f29d3e,
            Guid::FuchsiaFactoryBootData => 0x10b8dbaad2bf42a998c6a7c5db3701e7,
            Guid::FuchsiaVolumeManager => 0x49fd7cb8df154e73b9d9992070127f0f,
            Guid::FuchsiaVerifiedBoot => 0x421a8bfc85d94d85acdab64eec0133e9,
            Guid::FuchsiaZirconBoot => 0x9b37fff62e58466a983af7926d0b04e0,
            Guid::FuchsiaLegacySystem => 0x606b000bb7c74653a7d5b737332c899d,
            Guid::FuchsiaLegacyData => 0x08185f0c892d428aa789dbeec8f55e6a,
            Guid::FuchsiaLegacyInstall => 0x4843554649532041494e5354414c4c52,
            Guid::FuchsiaLegacyBlob => 0x2967380e134c4cbbb6da17e7ce1ca45d,
            Guid::FuchsiaLegacyFVM => 0x41d0e34057e3954e8c1e17ecac44cff5,
            Guid::FuchsiaLegacyZirconBootSlotA => 0xde30cc861f4a4a3193c466f147d33e05,
            Guid::FuchsiaLegacyZirconBootSlotB => 0x23cc04dfc2784ce78471897d1a4bcdf7,
            Guid::FuchsiaLegacyZirconBootSlotR => 0xa0e5cf572def46bea80ca2067c37cd49,
            Guid::FuchsiaLegacySysConfig => 0x4e5e989e4c8611e8a15b480fcf35f8e6,
            Guid::FuchsiaLegacyFactoryConfig => 0x5a3a90be4c8611e8a15b480fcf35f8e6,
            Guid::FuchsiaLegacyBoot => 0x5ece94fe4c8611e8a15b480fcf35f8e6,
            Guid::FuchsiaLegacyGuidTest => 0x8b94d04330be48719dfad69556e8c1f3,
            Guid::FuchsiaLegacyVerifiedBootSlotA => 0xa13b4d9aec5f11e897d86c3be52705bf,
            Guid::FuchsiaLegacyVerifiedBootSlotB => 0xa288abf2ec5f11e897d86c3be52705bf,
            Guid::FuchsiaLegacyVerifiedBootSlotR => 0x6a2460c3cd114e8b80a812cce268ed0a,
            Guid::FuchsiaLegacyMisc => 0x1d75395df2c6476ba8b745cc1c97b476,
            Guid::FuchsiaLegacyEmmcBoot1 => 0x900b0fc590cd4d4f84f99f8ed579db88,
            Guid::FuchsiaLegacyEmmcBoot2 => 0xb2b2e8d17c104ebca2d04614568260ad,
            Guid::Minix => 0x481b2a380561420bb72af1c4988efc16,
        }
    }

    /// The partition type whose 128-bit identifier is `v`, if there is one.
    pub open spec fn from_value(v: u128) -> Option<Guid> {
        match v {
            0x00000000000000000000000000000000 => Some(Guid::EmptyPartition),
            0x024dee4133e711d39d690008c781f39f => Some(Guid::MBRPartition),
            0xc12a7328f81f11d2ba4b00a0c93ec93b => Some(Guid::EfiSystem),
            0x2168614864496e6f744e656564454649 => Some(Guid::BIOSBoot),
            0xd3bfe2de3daf11dfba40e3a556d89593 => Some(Guid::IntelFastFlash),
            0xf4019732066e4e128273346c5641494f => Some(Guid::SonyBoot),
            0xbfbfafe7a34f448a9a5b6213eb736c22 => Some(Guid::LenovoBoot),
            0xe3c9e3160b5c4db8817df92df00215ae => Some(Guid::MicrosoftReserved),
            0xebd0a0a2b9e5443387c068b6b72699c7 => Some(Guid::WindowsBasicData),
            0x5808c8aa7e8f42e085d2e1e90434cfb3 => Some(Guid::WindowsLDM),
            0xaf9b60a014314f62bc683311714a69ad => Some(Guid::WindowsLDMData),
            0xde94bba406d14d40a16abfd50179d6ac => Some(Guid::WindowsRecovery),
            0x37affc90ef7d4e9691c32d7ae055b174 => Some(Guid::IBMGPFS),
            0xe75caf8ff6804ceeafa3b001e56efc2d => Some(Guid::WindowsStorageSpaces),
            0x558d43c5a1ac43c0aac8d1472b2923d1 => Some(Guid::WindowsStorageReplica),
            0x75894c1e3aeb11d3b7c17b03a0000000 => Some(Guid::HPUXData),
            0xe2a1e72832e311d6a6827b03a0000000 => Some(Guid::HPUXService),
            0x0fc63daf848347728e793d69d8477de4 => Some(Guid::LinuxData),
            0xa19d880f05fc4d3ba006743f0f84911e => Some(Guid::LinuxRaid),
            0x6523f8ae3eb14e2aa05a18b695ae656f => Some(Guid::LinuxRootAlpha),
            0xd27f46ed29194cb8bd259531f3c16534 => Some(Guid::LinuxRootARC),
            0x69dad7102ce44e3cb16c21a1d49abed3 => Some(Guid::LinuxRootARM32),
            0xb921b0451df041c3af444c6f280d3fae => Some(Guid::LinuxRootARM64),
            0x993d8d3df80e4225855a9daf8ed7ea97 => Some(Guid::LinuxRootIA64),
            0x77055800792c4f94b39a98c91b762bb6 => Some(Guid::LinuxRootLoongArch64),
            0xe94345446e2c47ccbae212d6deafb44c => Some(Guid::LinuxRootMIPS),
            0xd113af7680ef41b4bdb60cff4d3d4a25 => Some(Guid::LinuxRootMIPS64),
            0x37c58c8ad9134156a25f48b1b64e07f0 => Some(Guid::LinuxRootMIPSEL),
            0x700bda437a344507b179eeb93d7a7ca3 => Some(Guid::LinuxRootMIPS64EL),
            0x1aacdb3b54444138bd9ee5c2239b2346 => Some(Guid::LinuxRootPARISC),
            0x1de3f1effa9847b58dcd4a860a654d78 => Some(Guid::LinuxRootPPC32),
            0x912ade1da83949138964a10eee08fbd2 => Some(Guid::LinuxRootPPC64),
            0xc31c45e63f39412e80fb4809c4980599 => Some(Guid::LinuxRootPPC64LE),
            0x60d5a7fe8e7d435cb7143dd8162144e1 => Some(Guid::LinuxRootRISCV32),
            0x72ec70a6cf7440e6bd494bda08e8f224 => Some(Guid::LinuxRootRISCV64),
            0x08a7acea624c4a2091e86e0fa67d23f9 => Some(Guid::LinuxRootS390),
            0x5eead9a9fe094a1ea1d7520d00531306 => Some(Guid::LinuxRootS390x),
            0xc50cdd7038624cc390e1809a8c93ee2c => Some(Guid::LinuxRootTILEGx),
            0x44479540f29741b29af7d131d5f0458a => Some(Guid::LinuxRootx86),
            0x4f68bce3e8cd4db196e7fbcaf984b709 => Some(Guid::LinuxRootx86_64),
            0xe18cf08c33ec4c0d8246c6c6fb3da024 => Some(Guid::LinuxUsrAlpha),
            0x7978a68363164922bbee38bff5a2fecc => Some(Guid::LinuxUsrARC),
            0x7d0359a302b34f0a865c654403e70625 => Some(Guid::LinuxUsrARM32),
            0xb0e01050ee5f4390949a9101b17104e9 => Some(Guid::LinuxUsrARM64),
            0x4301d2a64e3b4b2abb949e0b2c4225ea => Some(Guid::LinuxUsrIA64),
            0xe611c702575c4cbe9a46434fa0bf7e3f => Some(Guid::LinuxUsrLoongArch64),
            0x773b2abc2a9943988bf503baac40d02b => Some(Guid::LinuxUsrMIPS),
            0x57e13958733143658e6e35eeee17c61b => Some(Guid::LinuxUsrMIPS64),
            0x0f4868e999524706979f3ed3a473e947 => Some(Guid::LinuxUsrMIPSEL),
            0xc97c1f32ba0640b49f22236061b08aa8 => Some(Guid::LinuxUsrMIPS64EL),
            0xdc4a448069174262a4ecdb9384949f25 => Some(Guid::LinuxUsrPARISC),
            0x7d14fec5cc71415d9d6c06bf0b3c3eaf => Some(Guid::LinuxUsrPPC32),
            0x2c9739e2f06846b39fd001c5a9afbcca => Some(Guid::LinuxUsrPPC64),
            0x15bb03af77e74d4ab12bc0d084f7491c => Some(Guid::LinuxUsrPPC64LE),
            0xb933fb225c3f4f91af90e2bb0fa50702 => Some(Guid::LinuxUsrRISCV32),
            0xbeaec34b8442439ba40b984381ed097d => Some(Guid::LinuxUsrRISCV64),
            0xcd0f869bd0fb4ca0b1419ea87cc78d66 => Some(Guid::LinuxUsrS390),
            0x8a4f577050aa4ed3874a99b710db6fea => Some(Guid::LinuxUsrS390x),
            0x55497029c7c144ccaa39815ed1558630 => Some(Guid::LinuxUsrTILEGx),
            0x75250d768cc6458ebd66bd47cc81a812 => Some(Guid::LinuxUsrx86),
            0x8484680c952148c69c11b0720656f69e => Some(Guid::LinuxUsrx86_64),
            0xfc56d9e9e6e54c06be32e74407ce09a5 => Some(Guid::LinuxRootVerityAlpha),
            0x24b2d9750f974521afa1cd531e421b8d => Some(Guid::LinuxRootVerityARC),
            0x7386cdf2203c47a9a498f2ecce45a2d6 => Some(Guid::LinuxRootVerityARM32),
            0xdf3300ced69f4c92978c9bfb0f38d820 => Some(Guid::LinuxRootVerityARM64),
            0x86ed10d5b60745bb8957d350f23d0571 => Some(Guid::LinuxRootVerityIA64),
            0xf3393b22e9af4613a9489d3bfbd0c535 => Some(Guid::LinuxRootVerityLoongArch64),
            0x7a430799f7114c7e8e5b1d685bd48607 => Some(Guid::LinuxRootVerityMIPS),
            0x579536f86a334055a95adf2d5e2c42a8 => Some(Guid::LinuxRootVerityMIPS64),
            0xd7d150d22a044a338f1216651205ff7b => Some(Guid::LinuxRootVerityMIPSEL),
            0x16b417f83e064f578dd29b5232f41aa6 => Some(Guid::LinuxRootVerityMIPS64EL),
            0xd212a430fbc549f9a983a7feef2b8d0e => Some(Guid::LinuxRootVerityPARISC),
            0x98cfe649158846dcb2f0add147424925 => Some(Guid::LinuxRootVerityPPC32),
            0x9225a9a33c194d89b4f6eeff88f17631 => Some(Guid::LinuxRootVerityPPC64),
            0x906bd94445894aaea4e4dd983917446a => Some(Guid::LinuxRootVerityPPC64LE),
            0xae0253be11674007ac6843926c14c5de => Some(Guid::LinuxRootVerityRISCV32),
            0xb6ed5582440b4209b8da5ff7c419ea3d => Some(Guid::LinuxRootVerityRISCV64),
            0x7ac63b47b25c463b8df8b4a94e6c90e1 => Some(Guid::LinuxRootVerityS390),
            0xb325bfbec7be4ab88357139e652d2f6b => Some(Guid::LinuxRootVerityS390x),
            0x966061ec28e44b2eb4a51f0a825a1d84 => Some(Guid::LinuxRootVerityTILEGx),
            0xd13c5d3bb5d1422ab29f9454fdc89d76 => Some(Guid::LinuxRootVerityx86),
            0x2c7357edebd246d9aec123d437ec2bf5 => Some(Guid::LinuxRootVerityx86_64),
            0x8cce0d25c0d04a44bd8746331bf1df67 => Some(Guid::LinuxUsrVerityAlpha),
            0xfca0598cd88045918c164eda05c7347c => Some(Guid::LinuxUsrVerityARC),
            0xc215d7517bcd4649be906627490a4c05 => Some(Guid::LinuxUsrVerityARM32),
            0x6e11a4e7fbca4dedb9e9e1a512bb664e => Some(Guid::LinuxUsrVerityARM64),
            0x6a491e033be745458e3883320e0ea880 => Some(Guid::LinuxUsrVerityIA64),
            0xf46b2c2659ae48f09106c50ed47f673d => Some(Guid::LinuxUsrVerityLoongArch64),
            0x6e5a1bc8d22349b7bca837a5fcceb996 => Some(Guid::LinuxUsrVerityMIPS),
            0x81cf9d9074584df48dcfc8a3a404f09b => Some(Guid::LinuxUsrVerityMIPS64),
            0x46b98d8db55c4e8faab337fca7f80752 => Some(Guid::LinuxUsrVerityMIPSEL),
            0x3c3d61feb5f3414dbb718739a694a4ef => Some(Guid::LinuxUsrVerityMIPS64EL),
            0x5843d618ec3748d79f12cea8e08768b2 => Some(Guid::LinuxUsrVerityPARISC),
            0xdf765d00270e49e5bc75f47bb2118b09 => Some(Guid::LinuxUsrVerityPPC32),
            0xbdb528a5a259475fa87dda53fa736a07 => Some(Guid::LinuxUsrVerityPPC64),
            0xee2b998321e8415386d9b6901a54d1ce => Some(Guid::LinuxUsrVerityPPC64LE),
            0xcb1ee4e38cd04136a0a4aa61a32e8730 => Some(Guid::LinuxUsrVerityRISCV32),
            0x8f1056be9b0547c481d6be53128e5b54 => Some(Guid::LinuxUsrVerityRISCV64),
            0xb663c618e7bc4d6d90aa11b756bb1797 => Some(Guid::LinuxUsrVerityS390),
            0x31741cc41a2a4111a581e00b447d2d06 => Some(Guid::LinuxUsrVerityS390x),
            0x2fb4bf5607fa42da81326b139f2026ae => Some(Guid::LinuxUsrVerityTILEGx),
            0x8f461b0d14ee4e819aa9049b6fb97abd => Some(Guid::LinuxUsrVerityx86),
            0x77ff5f63e7b64633acf41565b864c0e6 => Some(Guid::LinuxUsrVerityx86_64),
            0xd46495b7a053414f80f7700c99921ef8 => Some(Guid::LinuxRootVeritySigAlpha),
            0x143a70bacbd34f06919f6c05683a78bc => Some(Guid::LinuxRootVeritySigARC),
            0x42b0455feb11491d98d356145ba9d037 => Some(Guid::LinuxRootVeritySigARM32),
            0x6db69de629f44758a7a5962190f00ce3 => Some(Guid::LinuxRootVeritySigARM64),
            0xe98b36ee32ba48829b120ce14655f46a => Some(Guid::LinuxRootVeritySigIA64),
            0x5afb67ebecc84f85ae8eac1e7c50e7d0 => Some(Guid::LinuxRootVeritySigLoongArch64),
            0xbba210a29c5d45ee9e87ff2ccbd002d0 => Some(Guid::LinuxRootVeritySigMIPS),
            0x43ce94d40f3d49998250b9deafd98e6e => Some(Guid::LinuxRootVeritySigMIPS64),
            0xc919cc1f44564eff918cf75e94525ca5 => Some(Guid::LinuxRootVeritySigMIPSEL),
            0x904e58ef5c654a319c576af5fc7c5de7 => Some(Guid::LinuxRootVeritySigMIPS64EL),
            0x15de617065d3431c916eb0dcd8393f25 => Some(Guid::LinuxRootVeritySigPARISC),
            0x1b31b5aaadd9463ab2edbd467fc857e7 => Some(Guid::LinuxRootVeritySigPPC32),
            0xf5e2c20c45b24ffabce92a60737e1aaf => Some(Guid::LinuxRootVeritySigPPC64),
            0xd4a236e7e8734c07bf1dbf6cf7f1c3c6 => Some(Guid::LinuxRootVeritySigPPC64LE),
            0x3a112a7587294380b4cf764d79934448 => Some(Guid::LinuxRootVeritySigRISCV32),
            0xefe0f087ea8d4469821a4c2a96a8386a => Some(Guid::LinuxRootVeritySigRISCV64),
            0x3482388e4254435aa241766a065f9960 => Some(Guid::LinuxRootVeritySigS390),
            0xc80187a573a3491a901a017c3fa953e9 => Some(Guid::LinuxRootVeritySigS390x),
            0xb367143997b04a5390f72d5a8f3ad47b => Some(Guid::LinuxRootVeritySigTILEGx),
            0x5996fc05109c48de808b23fa0830b676 => Some(Guid::LinuxRootVeritySigx86),
            0x41092b059fc84523994f2def0408b176 => Some(Guid::LinuxRootVeritySigx86_64),
            0x5c6e1c76076a457aa0fef3b4cd21ce6e => Some(Guid::LinuxUsrVeritySigAlpha),
            0x94f9a9a19971427aa40050cb297f0f35 => Some(Guid::LinuxUsrVeritySigARC),
            0xd7ff812f37d14902a810d76ba57b975a => Some(Guid::LinuxUsrVeritySigARM32),
            0xc23ce4ff44bd4b00b2d4b41b3419e02a => Some(Guid::LinuxUsrVeritySigARM64),
            0x8de58bc22a43460db14ea76e4a17b47f => Some(Guid::LinuxUsrVeritySigIA64),
            0xb024f315d330444c846144bbde524e99 => Some(Guid::LinuxUsrVeritySigLoongArch64),
            0x97ae158df216497b8057f7f905770f54 => Some(Guid::LinuxUsrVeritySigMIPS),
            0x05816ce2dd404ac6a61d37d32dc1ba7d => Some(Guid::LinuxUsrVeritySigMIPS64),
            0x3e23ca0ba4bc4b4e80875ab6a26aa8a9 => Some(Guid::LinuxUsrVeritySigMIPSEL),
            0xf2c2c7eeadcc4351b5c6ee9816b66e16 => Some(Guid::LinuxUsrVeritySigMIPS64EL),
            0x450dd7d1322445ec9cf2a43a346d71ee => Some(Guid::LinuxUsrVeritySigPARISC),
            0x7007891dd3714a8086a45cb875b9302e => Some(Guid::LinuxUsrVeritySigPPC32),
            0x0b888863d7f84d9e9766239fce4d58af => Some(Guid::LinuxUsrVeritySigPPC64),
            0xc8bfbd1e268e45218bbabf314c399557 => Some(Guid::LinuxUsrVeritySigPPC64LE),
            0xc3836a13313745bab583b16c50fe5eb4 => Some(Guid::LinuxUsrVeritySigRISCV32),
            0xd2f9000a7a18453fb5cd4d32f77a7b32 => Some(Guid::LinuxUsrVeritySigRISCV64),
            0x17440e4fa8d0467fa46e3912ae6ef2c5 => Some(Guid::LinuxUsrVeritySigS390),
            0x3f324816667b46ae86ee9b0c0c6c11b4 => Some(Guid::LinuxUsrVeritySigS390x),
            0x4ede75e26ccc4cc8b9c770334b087510 => Some(Guid::LinuxUsrVeritySigTILEGx),
            0x974a71c0de4143c3be5d5c5ccd1ad2c0 => Some(Guid::LinuxUsrVeritySigx86),
            0xe7bb33fb06cf4e818273e543b413e2e2 => Some(Guid::LinuxUsrVeritySigx86_64),
            0xbc13c2ff59e64262a352b275fd6f7172 => Some(Guid::LinuxXBOOTLDR),
            0x0657fd6da4ab43c484e50933c84b4f4f => Some(Guid::LinuxSwap),
            0xe6d6d379f50744c2a23c238f2a3df928 => Some(Guid::LinuxLVM),
            0x933ac7e12eb44f13b8440e14e2aef915 => Some(Guid::LinuxHome),
            0x3b8f842520e04f3b907f1a25a76f98e8 => Some(Guid::LinuxServerData),
            0x773f91ef66d449b5bd83d683bf40ad16 => Some(Guid::LinuxPerUserHome),
            0x7ffec5c92d0049b789413ea10a5586b7 => Some(Guid::LinuxPlain),
            0xca7d7ccb63ed4c53861c1742536059cc => Some(Guid::LinuxLUKS),
            0x8da63339000760c0c436083ac8230908 => Some(Guid::LinuxReserved),
            0x83bd6b9d7f4111dcbe0b001560b84f0f => Some(Guid::FreeBSDBoot),
            0x516e7cb46ecf11d68ff800022d09712b => Some(Guid::FreeBSDDisklabel),
            0x516e7cb56ecf11d68ff800022d09712b => Some(Guid::FreeBSDSwap),
            0x516e7cb66ecf11d68ff800022d09712b => Some(Guid::FreeBSDUFS),
            0x516e7cb86ecf11d68ff800022d09712b => Some(Guid::FreeBSDVinum),
            0x516e7cba6ecf11d68ff800022d09712b => Some(Guid::FreeBSDZFS),
            0x74ba7dd9a68911e1bd0400e081286acf => Some(Guid::FreeBSDnandfs),
            0x48465300000011aaaa1100306543ecac => Some(Guid::MacOSHFSPlus),
            0x7c3457ef000011aaaa1100306543ecac => Some(Guid::MacOSAPFS),
            0x55465300000011aaaa1100306543ecac => Some(Guid::MacOSUFS),
            0x52414944000011aaaa1100306543ecac => Some(Guid::MacOSRAID),
            0x524149445f4f11aaaa1100306543ecac => Some(Guid::MacOSRAIDOffline),
            0x426f6f74000011aaaa1100306543ecac => Some(Guid::MacOSBootRecovery),
            0x4c6162656c0011aaaa1100306543ecac => Some(Guid::MacOSLabel),
            0x5265636f766511aaaa1100306543ecac => Some(Guid::MacOSAppleTVRecovery),
            0x53746f72616711aaaa1100306543ecac => Some(Guid::MacOSHFSPlusFileVault),
            0x69646961670011aaaa1100306543ecac => Some(Guid::MacOSAPFSPreboot),
            0x52637672790011aaaa1100306543ecac => Some(Guid::MacOSAPFSRecovery),
            0x6a82cb451dd211b299a6080020736631 => Some(Guid::SolarisBoot),
            0x6a85cf4d1dd211b299a6080020736631 => Some(Guid::SolarisRoot),
            0x6a87c46f1dd211b299a6080020736631 => Some(Guid::SolarisSwap),
            0x6a8b642b1dd211b299a6080020736631 => Some(Guid::SolarisBackup),
            0x6a898cc31dd211b299a6080020736631 => Some(Guid::SolarisUsr),
            0x6a8ef2e91dd211b299a6080020736631 => Some(Guid::SolarisVar),
            0x6a90ba391dd211b299a6080020736631 => Some(Guid::SolarisHome),
            0x6a9283a51dd211b299a6080020736631 => Some(Guid::SolarisAlternateSector),
            0x6a945a3b1dd211b299a6080020736631 => Some(Guid::SolarisReserved1),
            0x6a9630d11dd211b299a6080020736631 => Some(Guid::SolarisReserved2),
            0x6a9807671dd211b299a6080020736631 => Some(Guid::SolarisReserved3),
            0x6a96237f1dd211b299a6080020736631 => Some(Guid::SolarisReserved4),
            0x6a8d2ac71dd211b299a6080020736631 => Some(Guid::SolarisReserved5),
            0x49f48d32b10e11dcb99b0019d1879648 => Some(Guid::NetBSDSwap),
            0x49f48d5ab10e11dcb99b0019d1879648 => Some(Guid::NetBSDFFS),
            0x49f48d82b10e11dcb99b0019d1879648 => Some(Guid::NetBSDLFS),
            0x49f48daab10e11dcb99b0019d1879648 => Some(Guid::NetBSDRAID),
            0x2db519c4b10f11dcb99b0019d1879648 => Some(Guid::NetBSDConcatenated),
            0x2db519ecb10f11dcb99b0019d1879648 => Some(Guid::NetBSDEncrypted),
            0xfe3a2a5d4f3241a7b725accc3285a309 => Some(Guid::ChromeOSKernel),
            0x3cb8e2023b7e47dd8a3c7ff2a13cfcec => Some(Guid::ChromeOSRootFs),
            0xcab6e88eabf34102a07ad4bb9be3c1d3 => Some(Guid::ChromeOSFirmware),
            0x2e0a753d9e4843b08337b15192cb1b5e => Some(Guid::ChromeOSFuture),
            0x09845860705f4bb5b16c8a8a099caf52 => Some(Guid::ChromeOSMiniOS),
            0x3f0f8318f1464e6b8222c28c8f02e0d5 => Some(Guid::ChromeOSHibernate),
            0x5dfbf5f428484bacaa5e0d9a20b745a6 => Some(Guid::CoreOSUsr),
            0x3884dd4185824404b9a8e9b84f2df50e => Some(Guid::CoreOSResize),
            0xc95dc21adf0e43408d7b26cbfa9a03e0 => Some(Guid::CoreOSReserved),
            0xbe9067b9ea494f15b4f6f36f8c9e1818 => Some(Guid::CoreOSRootRAID),
            0x424653313ba310f1802a4861696b7521 => Some(Guid::HaikuBFS),
            0x85d5e45e237c11e1b4b3e89a8f7fc3a7 => Some(Guid::MidnightBSDBoot),
            0x85d5e45a237c11e1b4b3e89a8f7fc3a7 => Some(Guid::MidnightBSDData),
            0x85d5e45b237c11e1b4b3e89a8f7fc3a7 => Some(Guid::MidnightBSDSwap),
            0x0394ef8b237e11e1b4b3e89a8f7fc3a7 => Some(Guid::MidnightBSDUFS),
            0x85d5e45c237c11e1b4b3e89a8f7fc3a7 => Some(Guid::MidnightBSDVinum),
            0x85d5e45d237c11e1b4b3e89a8f7fc3a7 => Some(Guid::MidnightBSDZFS),
            0x45b0969e9b034f30b4c6b4b80ceff106 => Some(Guid::CephJournal),
            0x45b0969e9b034f30b4c65ec00ceff106 => Some(Guid::CephDMCryptJournal),
            0x4fbd7e299d2541b8afd0062c0ceff05d => Some(Guid::CephOSD),
            0x4fbd7e299d2541b8afd05ec00ceff05d => Some(Guid::CephDMCryptOSD),
            0x89c57f982fe54dc089c1f3ad0ceff2be => Some(Guid::CephDisk),
            0x89c57f982fe54dc089c15ec00ceff2be => Some(Guid::CephDMCryptDisk),
            0xcafecafe9b034f30b4c6b4b80ceff106 => Some(Guid::CephBlock),
            0x30cd0809c2b2499c88792d6b78529876 => Some(Guid::CephBlockDB),
            0x5ce17fce40874169b7ff056cc58473f9 => Some(Guid::CephBlockLog),
            0xfb3aabf9d25f47ccbf5e721d1816496b => Some(Guid::CephLockbox),
            0x4fbd7e298ae04982bf9d5a8d867af560 => Some(Guid::CephMultipathOSD),
            0x45b0969e8ae04982bf9d5a8d867af560 => Some(Guid::CephMultipathJournal),
            0xcafecafe8ae04982bf9d5a8d867af560 => Some(Guid::CephMultipathBlock1),
            0x7f4a666a16f347a28445152ef4d03f6c => Some(Guid::CephMultipathBlock2),
            0xec6d6385e34645dcbe91da2a7c8b3261 => Some(Guid::CephMultipathBlockDB),
            0x01b41e1b002a453c9f1788793989ff8f => Some(Guid::CephMultipathLog),
            0xcafecafe9b034f30b4c65ec00ceff106 => Some(Guid::CephDMCryptBlock),
            0x93b0052d02d94d8aa43b33a3ee4dfbc3 => Some(Guid::CephDMCryptBlockDB),
            0x306e86834fe24330b7c000a917c16966 => Some(Guid::CephDMCryptBlockLog),
            0x4fbd7e299d2541b8afd035865ceff05d => Some(Guid::CephLUKSOSD),
            0x45b0969e9b034f30b4c635865ceff106 => Some(Guid::CephLUKSJournal),
            0xcafecafe9b034f30b4c635865ceff106 => Some(Guid::CephLUKSBlock),
            0x166418dac4694022adf4b30afd37f176 => Some(Guid::CephLUKSBlockDB),
            0x86a32090364740b9bbbd38d8c573aa86 => Some(Guid::CephLUKSBlockLog),
            0x824cc7a036a811e3890a952519ad3f61 => Some(Guid::OpenBSDData),
            0xcef5a9ad73bc460189f3cdeeeee321a1 => Some(Guid::QNX6Fs),
            0xc91818f9802547af89d2f030d7000c2c => Some(Guid::Plan9),
            0x9d27538040ad11dbbf97000c2911d1b8 => Some(Guid::VMWareVMKCORE),
            0xaa31e02a400f11db9590000c2911d1b8 => Some(Guid::VMWareVMFS),
            0x9198effc31c011db8f78000c2911d1b8 => Some(Guid::VMWareWmkReserved),
            0x2568845d23324675bc398fa5a4748d15 => Some(Guid::AndroidBootloader),
            0x114eaffe15524022b26e9b053604cf84 => Some(Guid::AndroidBootloader2),
            0x49a4d17f93a345c1a0def50b2ebe2599 => Some(Guid::AndroidBoot),
            0x4177c7229e924aab864443502bfd5506 => Some(Guid::AndroidRecovery),
            0xef32a33ba409486c91419ffb711f6266 => Some(Guid::AndroidMisc),
            0x20ac26be20b711e384c56cfdb94711e9 => Some(Guid::AndroidMetadata),
            0x38f428e6d326425d91406e0ea133647c => Some(Guid::AndroidSystem),
            0xa893ef21e428470a9e550668fd91a2d9 => Some(Guid::AndroidCache),
            0xdc76dda95ac1491caf42a82591580c0d => Some(Guid::AndroidData),
            0xebc597d020534b158b64e0aac75f4db1 => Some(Guid::AndroidPersistent),
            0xc5a0aeec13ea11e5a1b1001e67ca0c3c => Some(Guid::AndroidVendor),
            0xbd59408b4514490dbf129878d963f378 => Some(Guid::AndroidConfig),
            0x8f68cc74c5e548dabe91a0c8c15e9c80 => Some(Guid::AndroidFactory),
            0x9fdaa6ef4b3f40d2ba8dbff16bfb887b => Some(Guid::AndroidFactoryAlt),
            0x767941d0208511e3ad3b6cfdb94711e9 => Some(Guid::AndroidFastboot),
            0xac6d7924eb714df8b48de267b27148ff => Some(Guid::AndroidOEM),
            0x19a710a2b3ca11e4b02610604b889dcf => Some(Guid::Android6Meta),
            0x193d1ea4b3ca11e4b07510604b889dcf => Some(Guid::Android6Ext),
            0x7412f7d5a1564b1381dc867174929325 => Some(Guid::ONIEBoot),
            0xd4e6e2cd446946f3b5cb1bff57afc149 => Some(Guid::ONIEConfig),
            0x9e1a2d38c6124316aa268b49521e5a8b => Some(Guid::PPCPrePBoot),
            0x734e5afef61a11e6bc6492361f002671 => Some(Guid::AtariTOSBasicData),
            0x35540011b055499f842dc69aeca357b7 => Some(Guid::AtariTOSRawData),
            0x8c8f8effac954770814a21994f2dbc8f => Some(Guid::VeraCryptEncrypted),
            0x90b6ff38b98f4358a21f48f35b4a8ad3 => Some(Guid::OS2ArcaOS),
            0x7c5222bd8f5d40879c00bf9843c7b58c => Some(Guid::SPDK),
            0x4778ed65bf4245fa9c5b287a1dc4aab1 => Some(Guid::BareboxState),
            0x3de2176495bd54bda5c34abe786f38a8 => Some(Guid::UBootEnv),
            0xb6fa30da92d24a9a96f1871ec6486200 => Some(Guid::SoftRAIDStatus),
            0x2e31346519b9463f81268a7993773801 => Some(Guid::SoftRAIDScratch),
            0xfa709c7e65b14593bfd5e71d61de9b02 => Some(Guid::SoftRAIDVolume),
            0xbbba6df5f46f4a898f598765b2727503 => Some(Guid::SoftRAIDCache),
            0xfe8a26345e2e46ba99e33a192091a350 => Some(Guid::FuchsiaBoot),
            0xd9fd4535106c4cec8d37dfc020ca87cb => Some(Guid::FuchsiaSystemData),
            0xa409e16b78aa4acc995c302352621a41 => Some(Guid::FuchsiaBootData),
            0xf95d940ecaba45789b93bb6c90f29d3e => Some(Guid::FuchsiaFactorySystemData),
            0x10b8dbaad2bf42a998c6a7c5db3701e7 => Some(Guid::FuchsiaFactoryBootData),
            0x49fd7cb8df154e73b9d9992070127f0f => Some(Guid::FuchsiaVolumeManager),
            0x421a8bfc85d94d85acdab64eec0133e9 => Some(Guid::FuchsiaVerifiedBoot),
            0x9b37fff62e58466a983af7926d0b04e0 => Some(Guid::FuchsiaZirconBoot),
            0x606b000bb7c74653a7d5b737332c899d => Some(Guid::FuchsiaLegacySystem),
            0x08185f0c892d428aa789dbeec8f55e6a => Some(Guid::FuchsiaLegacyData),
            0x4843554649532041494e5354414c4c52 => Some(Guid::FuchsiaLegacyInstall),
            0x2967380e134c4cbbb6da17e7ce1ca45d => Some(Guid::FuchsiaLegacyBlob),
            0x41d0e34057e3954e8c1e17ecac44cff5 => Some(Guid::FuchsiaLegacyFVM),
            0xde30cc861f4a4a3193c466f147d33e05 => Some(Guid::FuchsiaLegacyZirconBootSlotA),
            0x23cc04dfc2784ce78471897d1a4bcdf7 => Some(Guid::FuchsiaLegacyZirconBootSlotB),
            0xa0e5cf572def46bea80ca2067c37cd49 => Some(Guid::FuchsiaLegacyZirconBootSlotR),
            0x4e5e989e4c8611e8a15b480fcf35f8e6 => Some(Guid::FuchsiaLegacySysConfig),
            0x5a3a90be4c8611e8a15b480fcf35f8e6 => Some(Guid::FuchsiaLegacyFactoryConfig),
            0x5ece94fe4c8611e8a15b480fcf35f8e6 => Some(Guid::FuchsiaLegacyBoot),
            0x8b94d04330be48719dfad69556e8c1f3 => Some(Guid::FuchsiaLegacyGuidTest),
            0xa13b4d9aec5f11e897d86c3be52705bf => Some(Guid::FuchsiaLegacyVerifiedBootSlotA),
            0xa288abf2ec5f11e897d86c3be52705bf => Some(Guid::FuchsiaLegacyVerifiedBootSlotB),
            0x6a2460c3cd114e8b80a812cce268ed0a => Some(Guid::FuchsiaLegacyVerifiedBootSlotR),
            0x1d75395df2c6476ba8b745cc1c97b476 => Some(Guid::FuchsiaLegacyMisc),
            0x900b0fc590cd4d4f84f99f8ed579db88 => Some(Guid::FuchsiaLegacyEmmcBoot1),
            0xb2b2e8d17c104ebca2d04614568260ad => Some(Guid::FuchsiaLegacyEmmcBoot2),
            0x481b2a380561420bb72af1c4988efc16 => Some(Guid::Minix),
            _ => None,
        }
    }

    /// The position of this partition type in the list of supported types.
    pub open spec fn index(self) -> usize {
        match self {
            Guid::EmptyPartition => 0,
            Guid::MBRPartition => 1,
            Guid::EfiSystem => 2,
            Guid::BIOSBoot => 3,
            Guid::IntelFastFlash => 4,
            Guid::SonyBoot => 5,
            Guid::LenovoBoot => 6,
            Guid::MicrosoftReserved => 7,
            Guid::WindowsBasicData => 8,
            Guid::WindowsLDM => 9,
            Guid::WindowsLDMData => 10,
            Guid::WindowsRecovery => 11,
            Guid::IBMGPFS => 12,
            Guid::WindowsStorageSpaces => 13,
            Guid::WindowsStorageReplica => 14,
            Guid::HPUXData => 15,
            Guid::HPUXService => 16,
            Guid::LinuxData => 17,
            Guid::LinuxRaid => 18,
            Guid::LinuxRootAlpha => 19,
            Guid::LinuxRootARC => 20,
            Guid::LinuxRootARM32 => 21,
            Guid::LinuxRootARM64 => 22,
            Guid::LinuxRootIA64 => 23,
            Guid::LinuxRootLoongArch64 => 24,
            Guid::LinuxRootMIPS => 25,
            Guid::LinuxRootMIPS64 => 26,
            Guid::LinuxRootMIPSEL => 27,
            Guid::LinuxRootMIPS64EL => 28,
            Guid::LinuxRootPARISC => 29,
            Guid::LinuxRootPPC32 => 30,
            Guid::LinuxRootPPC64 => 31,
            Guid::LinuxRootPPC64LE => 32,
            Guid::LinuxRootRISCV32 => 33,
            Guid::LinuxRootRISCV64 => 34,
            Guid::LinuxRootS390 => 35,
            Guid::LinuxRootS390x => 36,
            Guid::LinuxRootTILEGx => 37,
            Guid::LinuxRootx86 => 38,
            Guid::LinuxRootx86_64 => 39,
            Guid::LinuxUsrAlpha => 40,
            Guid::LinuxUsrARC => 41,
            Guid::LinuxUsrARM32 => 42,
            Guid::LinuxUsrARM64 => 43,
            Guid::LinuxUsrIA64 => 44,
            Guid::LinuxUsrLoongArch64 => 45,
            Guid::LinuxUsrMIPS => 46,
            Guid::LinuxUsrMIPS64 => 47,
            Guid::LinuxUsrMIPSEL => 48,
            Guid::LinuxUsrMIPS64EL => 49,
            Guid::LinuxUsrPARISC => 50,
            Guid::LinuxUsrPPC32 => 51,
            Guid::LinuxUsrPPC64 => 52,
            Guid::LinuxUsrPPC64LE => 53,
            Guid::LinuxUsrRISCV32 => 54,
            Guid::LinuxUsrRISCV64 => 55,
            Guid::LinuxUsrS390 => 56,
            Guid::LinuxUsrS390x => 57,
            Guid::LinuxUsrTILEGx => 58,
            Guid::LinuxUsrx86 => 59,
            Guid::LinuxUsrx86_64 => 60,
            Guid::LinuxRootVerityAlpha => 61,
            Guid::LinuxRootVerityARC => 62,
            Guid::LinuxRootVerityARM32 => 63,
            Guid::LinuxRootVerityARM64 => 64,
            Guid::LinuxRootVerityIA64 => 65,
            Guid::LinuxRootVerityLoongArch64 => 66,
            Guid::LinuxRootVerityMIPS => 67,
            Guid::LinuxRootVerityMIPS64 => 68,
            Guid::LinuxRootVerityMIPSEL => 69,
            Guid::LinuxRootVerityMIPS64EL => 70,
            Guid::LinuxRootVerityPARISC => 71,
            Guid::LinuxRootVerityPPC32 => 72,
            Guid::LinuxRootVerityPPC64 => 73,
            Guid::LinuxRootVerityPPC64LE => 74,
            Guid::LinuxRootVerityRISCV32 => 75,
            Guid::LinuxRootVerityRISCV64 => 76,
            Guid::LinuxRootVerityS390 => 77,
            Guid::LinuxRootVerityS390x => 78,
            Guid::LinuxRootVerityTILEGx => 79,
            Guid::LinuxRootVerityx86 => 80,
            Guid::LinuxRootVerityx86_64 => 81,
            Guid::LinuxUsrVerityAlpha => 82,
            Guid::LinuxUsrVerityARC => 83,
            Guid::LinuxUsrVerityARM32 => 84,
            Guid::LinuxUsrVerityARM64 => 85,
            Guid::LinuxUsrVerityIA64 => 86,
            Guid::LinuxUsrVerityLoongArch64 => 87,
            Guid::LinuxUsrVerityMIPS => 88,
            Guid::LinuxUsrVerityMIPS64 => 89,
            Guid::LinuxUsrVerityMIPSEL => 90,
            Guid::LinuxUsrVerityMIPS64EL => 91,
            Guid::LinuxUsrVerityPARISC => 92,
            Guid::LinuxUsrVerityPPC32 => 93,
            Guid::LinuxUsrVerityPPC64 => 94,
            Guid::LinuxUsrVerityPPC64LE => 95,
            Guid::LinuxUsrVerityRISCV32 => 96,
            Guid::LinuxUsrVerityRISCV64 => 97,
            Guid::LinuxUsrVerityS390 => 98,
            Guid::LinuxUsrVerityS390x => 99,
            Guid::LinuxUsrVerityTILEGx => 100,
            Guid::LinuxUsrVerityx86 => 101,
            Guid::LinuxUsrVerityx86_64 => 102,
            Guid::LinuxRootVeritySigAlpha => 103,
            Guid::LinuxRootVeritySigARC => 104,
            Guid::LinuxRootVeritySigARM32 => 105,
            Guid::LinuxRootVeritySigARM64 => 106,
            Guid::LinuxRootVeritySigIA64 => 107,
            Guid::LinuxRootVeritySigLoongArch64 => 108,
            Guid::LinuxRootVeritySigMIPS => 109,
            Guid::LinuxRootVeritySigMIPS64 => 110,
            Guid::LinuxRootVeritySigMIPSEL => 111,
            Guid::LinuxRootVeritySigMIPS64EL => 112,
            Guid::LinuxRootVeritySigPARISC => 113,
            Guid::LinuxRootVeritySigPPC32 => 114,
            Guid::LinuxRootVeritySigPPC64 => 115,
            Guid::LinuxRootVeritySigPPC64LE => 116,
            Guid::LinuxRootVeritySigRISCV32 => 117,
            Guid::LinuxRootVeritySigRISCV64 => 118,
            Guid::LinuxRootVeritySigS390 => 119,
            Guid::LinuxRootVeritySigS390x => 120,
            Guid::LinuxRootVeritySigTILEGx => 121,
            Guid::LinuxRootVeritySigx86 => 122,
            Guid::LinuxRootVeritySigx86_64 => 123,
            Guid::LinuxUsrVeritySigAlpha => 124,
            Guid::LinuxUsrVeritySigARC => 125,
            Guid::LinuxUsrVeritySigARM32 => 126,
            Guid::LinuxUsrVeritySigARM64 => 127,
            Guid::LinuxUsrVeritySigIA64 => 128,
            Guid::LinuxUsrVeritySigLoongArch64 => 129,
            Guid::LinuxUsrVeritySigMIPS => 130,
            Guid::LinuxUsrVeritySigMIPS64 => 131,
            Guid::LinuxUsrVeritySigMIPSEL => 132,
            Guid::LinuxUsrVeritySigMIPS64EL => 133,
            Guid::LinuxUsrVeritySigPARISC => 134,
            Guid::LinuxUsrVeritySigPPC32 => 135,
            Guid::LinuxUsrVeritySigPPC64 => 136,
            Guid::LinuxUsrVeritySigPPC64LE => 137,
            Guid::LinuxUsrVeritySigRISCV32 => 138,
            Guid::LinuxUsrVeritySigRISCV64 => 139,
            Guid::LinuxUsrVeritySigS390 => 140,
            Guid::LinuxUsrVeritySigS390x => 141,
            Guid::LinuxUsrVeritySigTILEGx => 142,
            Guid::LinuxUsrVeritySigx86 => 143,
            Guid::LinuxUsrVeritySigx86_64 => 144,
            Guid::LinuxXBOOTLDR => 145,
            Guid::LinuxSwap => 146,
            Guid::LinuxLVM => 147,
            Guid::LinuxHome => 148,
            Guid::LinuxServerData => 149,
            Guid::LinuxPerUserHome => 150,
            Guid::LinuxPlain => 151,
            Guid::LinuxLUKS => 152,
            Guid::LinuxReserved => 153,
            Guid::FreeBSDBoot => 154,
            Guid::FreeBSDDisklabel => 155,
            Guid::FreeBSDSwap => 156,
            Guid::FreeBSDUFS => 157,
            Guid::FreeBSDVinum => 158,
            Guid::FreeBSDZFS => 159,
            Guid::FreeBSDnandfs => 160,
            Guid::MacOSHFSPlus => 161,
            Guid::MacOSAPFS => 162,
            Guid::MacOSUFS => 163,
            Guid::MacOSRAID => 164,
            Guid::MacOSRAIDOffline => 165,
            Guid::MacOSBootRecovery => 166,
            Guid::MacOSLabel => 167,
            Guid::MacOSAppleTVRecovery => 168,
            Guid::MacOSHFSPlusFileVault => 169,
            Guid::MacOSAPFSPreboot => 170,
            Guid::MacOSAPFSRecovery => 171,
            Guid::SolarisBoot => 172,
            Guid::SolarisRoot => 173,
            Guid::SolarisSwap => 174,
            Guid::SolarisBackup => 175,
            Guid::SolarisUsr => 176,
            Guid::SolarisVar => 177,
            Guid::SolarisHome => 178,
            Guid::SolarisAlternateSector => 179,
            Guid::SolarisReserved1 => 180,
            Guid::SolarisReserved2 => 181,
            Guid::SolarisReserved3 => 182,
            Guid::SolarisReserved4 => 183,
            Guid::SolarisReserved5 => 184,
            Guid::NetBSDSwap => 185,
            Guid::NetBSDFFS => 186,
            Guid::NetBSDLFS => 187,
            Guid::NetBSDRAID => 188,
            Guid::NetBSDConcatenated => 189,
            Guid::NetBSDEncrypted => 190,
            Guid::ChromeOSKernel => 191,
            Guid::ChromeOSRootFs => 192,
            Guid::ChromeOSFirmware => 193,
            Guid::ChromeOSFuture => 194,
            Guid::ChromeOSMiniOS => 195,
            Guid::ChromeOSHibernate => 196,
            Guid::CoreOSUsr => 197,
            Guid::CoreOSResize => 198,
            Guid::CoreOSReserved => 199,
            Guid::CoreOSRootRAID => 200,
            Guid::HaikuBFS => 201,
            Guid::MidnightBSDBoot => 202,
            Guid::MidnightBSDData => 203,
            Guid::MidnightBSDSwap => 204,
            Guid::MidnightBSDUFS => 205,
            Guid::MidnightBSDVinum => 206,
            Guid::MidnightBSDZFS => 207,
            Guid::CephJournal => 208,
            Guid::CephDMCryptJournal => 209,
            Guid::CephOSD => 210,
            Guid::CephDMCryptOSD => 211,
            Guid::CephDisk => 212,
            Guid::CephDMCryptDisk => 213,
            Guid::CephBlock => 214,
            Guid::CephBlockDB => 215,
            Guid::CephBlockLog => 216,
            Guid::CephLockbox => 217,
            Guid::CephMultipathOSD => 218,
            Guid::CephMultipathJournal => 219,
            Guid::CephMultipathBlock1 => 220,
            Guid::CephMultipathBlock2 => 221,
            Guid::CephMultipathBlockDB => 222,
            Guid::CephMultipathLog => 223,
            Guid::CephDMCryptBlock => 224,
            Guid::CephDMCryptBlockDB => 225,
            Guid::CephDMCryptBlockLog => 226,
            Guid::CephLUKSOSD => 227,
            Guid::CephLUKSJournal => 228,
            Guid::CephLUKSBlock => 229,
            Guid::CephLUKSBlockDB => 230,
            Guid::CephLUKSBlockLog => 231,
            Guid::OpenBSDData => 232,
            Guid::QNX6Fs => 233,
            Guid::Plan9 => 234,
            Guid::VMWareVMKCORE => 235,
            Guid::VMWareVMFS => 236,
            Guid::VMWareWmkReserved => 237,
            Guid::AndroidBootloader => 238,
            Guid::AndroidBootloader2 => 239,
            Guid::AndroidBoot => 240,
            Guid::AndroidRecovery => 241,
            Guid::AndroidMisc => 242,
            Guid::AndroidMetadata => 243,
            Guid::AndroidSystem => 244,
            Guid::AndroidCache => 245,
            Guid::AndroidData => 246,
            Guid::AndroidPersistent => 247,
            Guid::AndroidVendor => 248,
            Guid::AndroidConfig => 249,
            Guid::AndroidFactory => 250,
            Guid::AndroidFactoryAlt => 251,
            Guid::AndroidFastboot => 252,
            Guid::AndroidOEM => 253,
            Guid::Android6Meta => 254,
            Guid::Android6Ext => 255,
            Guid::ONIEBoot => 256,
            Guid::ONIEConfig => 257,
            Guid::PPCPrePBoot => 258,
            Guid::AtariTOSBasicData => 259,
            Guid::AtariTOSRawData => 260,
            Guid::VeraCryptEncrypted => 261,
            Guid::OS2ArcaOS => 262,
            Guid::SPDK => 263,
            Guid::BareboxState => 264,
            Guid::UBootEnv => 265,
            Guid::SoftRAIDStatus => 266,
            Guid::SoftRAIDScratch => 267,
            Guid::SoftRAIDVolume => 268,
            Guid::SoftRAIDCache => 269,
            Guid::FuchsiaBoot => 270,
            Guid::FuchsiaSystemData => 271,
            Guid::FuchsiaBootData => 272,
            Guid::FuchsiaFactorySystemData => 273,
            Guid::FuchsiaFactoryBootData => 274,
            Guid::FuchsiaVolumeManager => 275,
            Guid::FuchsiaVerifiedBoot => 276,
            Guid::FuchsiaZirconBoot => 277,
            Guid::FuchsiaLegacySystem => 278,
            Guid::FuchsiaLegacyData => 279,
            Guid::FuchsiaLegacyInstall => 280,
            Guid::FuchsiaLegacyBlob => 281,
            Guid::FuchsiaLegacyFVM => 282,
            Guid::FuchsiaLegacyZirconBootSlotA => 283,
            Guid::FuchsiaLegacyZirconBootSlotB => 284,
            Guid::FuchsiaLegacyZirconBootSlotR => 285,
            Guid::FuchsiaLegacySysConfig => 286,
            Guid::FuchsiaLegacyFactoryConfig => 287,
            Guid::FuchsiaLegacyBoot => 288,
            Guid::FuchsiaLegacyGuidTest => 289,
            Guid::FuchsiaLegacyVerifiedBootSlotA => 290,
            Guid::FuchsiaLegacyVerifiedBootSlotB => 291,
            Guid::FuchsiaLegacyVerifiedBootSlotR => 292,
            Guid::FuchsiaLegacyMisc => 293,
            Guid::FuchsiaLegacyEmmcBoot1 => 294,
            Guid::FuchsiaLegacyEmmcBoot2 => 295,
            Guid::Minix => 296,
        }
    }

    /// The partition type at position `i` of the list of supported types.
    pub open spec fn at(i: usize) -> Guid {
        match i {
            0 => Guid::EmptyPartition,
            1 => Guid::MBRPartition,
            2 => Guid::EfiSystem,
            3 => Guid::BIOSBoot,
            4 => Guid::IntelFastFlash,
            5 => Guid::SonyBoot,
            6 => Guid::LenovoBoot,
            7 => Guid::MicrosoftReserved,
            8 => Guid::WindowsBasicData,
            9 => Guid::WindowsLDM,
            10 => Guid::WindowsLDMData,
            11 => Guid::WindowsRecovery,
            12 => Guid::IBMGPFS,
            13 => Guid::WindowsStorageSpaces,
            14 => Guid::WindowsStorageReplica,
            15 => Guid::HPUXData,
            16 => Guid::HPUXService,
            17 => Guid::LinuxData,
            18 => Guid::LinuxRaid,
            19 => Guid::LinuxRootAlpha,
            20 => Guid::LinuxRootARC,
            21 => Guid::LinuxRootARM32,
            22 => Guid::LinuxRootARM64,
            23 => Guid::LinuxRootIA64,
            24 => Guid::LinuxRootLoongArch64,
            25 => Guid::LinuxRootMIPS,
            26 => Guid::LinuxRootMIPS64,
            27 => Guid::LinuxRootMIPSEL,
            28 => Guid::LinuxRootMIPS64EL,
            29 => Guid::LinuxRootPARISC,
            30 => Guid::LinuxRootPPC32,
            31 => Guid::LinuxRootPPC64,
            32 => Guid::LinuxRootPPC64LE,
            33 => Guid::LinuxRootRISCV32,
            34 => Guid::LinuxRootRISCV64,
            35 => Guid::LinuxRootS390,
            36 => Guid::LinuxRootS390x,
            37 => Guid::LinuxRootTILEGx,
            38 => Guid::LinuxRootx86,
            39 => Guid::LinuxRootx86_64,
            40 => Guid::LinuxUsrAlpha,
            41 => Guid::LinuxUsrARC,
            42 => Guid::LinuxUsrARM32,
            43 => Guid::LinuxUsrARM64,
            44 => Guid::LinuxUsrIA64,
            45 => Guid::LinuxUsrLoongArch64,
            46 => Guid::LinuxUsrMIPS,
            47 => Guid::LinuxUsrMIPS64,
            48 => Guid::LinuxUsrMIPSEL,
            49 => Guid::LinuxUsrMIPS64EL,
            50 => Guid::LinuxUsrPARISC,
            51 => Guid::LinuxUsrPPC32,
            52 => Guid::LinuxUsrPPC64,
            53 => Guid::LinuxUsrPPC64LE,
            54 => Guid::LinuxUsrRISCV32,
            55 => Guid::LinuxUsrRISCV64,
            56 => Guid::LinuxUsrS390,
            57 => Guid::LinuxUsrS390x,
            58 => Guid::LinuxUsrTILEGx,
            59 => Guid::LinuxUsrx86,
            60 => Guid::LinuxUsrx86_64,
            61 => Guid::LinuxRootVerityAlpha,
            62 => Guid::LinuxRootVerityARC,
            63 => Guid::LinuxRootVerityARM32,
            64 => Guid::LinuxRootVerityARM64,
            65 => Guid::LinuxRootVerityIA64,
            66 => Guid::LinuxRootVerityLoongArch64,
            67 => Guid::LinuxRootVerityMIPS,
            68 => Guid::LinuxRootVerityMIPS64,
            69 => Guid::LinuxRootVerityMIPSEL,
            70 => Guid::LinuxRootVerityMIPS64EL,
            71 => Guid::LinuxRootVerityPARISC,
            72 => Guid::LinuxRootVerityPPC32,
            73 => Guid::LinuxRootVerityPPC64,
            74 => Guid::LinuxRootVerityPPC64LE,
            75 => Guid::LinuxRootVerityRISCV32,
            76 => Guid::LinuxRootVerityRISCV64,
            77 => Guid::LinuxRootVerityS390,
            78 => Guid::LinuxRootVerityS390x,
            79 => Guid::LinuxRootVerityTILEGx,
            80 => Guid::LinuxRootVerityx86,
            81 => Guid::LinuxRootVerityx86_64,
            82 => Guid::LinuxUsrVerityAlpha,
            83 => Guid::LinuxUsrVerityARC,
            84 => Guid::LinuxUsrVerityARM32,
            85 => Guid::LinuxUsrVerityARM64,
            86 => Guid::LinuxUsrVerityIA64,
            87 => Guid::LinuxUsrVerityLoongArch64,
            88 => Guid::LinuxUsrVerityMIPS,
            89 => Guid::LinuxUsrVerityMIPS64,
            90 => Guid::LinuxUsrVerityMIPSEL,
            91 => Guid::LinuxUsrVerityMIPS64EL,
            92 => Guid::LinuxUsrVerityPARISC,
            93 => Guid::LinuxUsrVerityPPC32,
            94 => Guid::LinuxUsrVerityPPC64,
            95 => Guid::LinuxUsrVerityPPC64LE,
            96 => Guid::LinuxUsrVerityRISCV32,
            97 => Guid::LinuxUsrVerityRISCV64,
            98 => Guid::LinuxUsrVerityS390,
            99 => Guid::LinuxUsrVerityS390x,
            100 => Guid::LinuxUsrVerityTILEGx,
            101 => Guid::LinuxUsrVerityx86,
            102 => Guid::LinuxUsrVerityx86_64,
            103 => Guid::LinuxRootVeritySigAlpha,
            104 => Guid::LinuxRootVeritySigARC,
            105 => Guid::LinuxRootVeritySigARM32,
            106 => Guid::LinuxRootVeritySigARM64,
            107 => Guid::LinuxRootVeritySigIA64,
            108 => Guid::LinuxRootVeritySigLoongArch64,
            109 => Guid::LinuxRootVeritySigMIPS,
            110 => Guid::LinuxRootVeritySigMIPS64,
            111 => Guid::LinuxRootVeritySigMIPSEL,
            112 => Guid::LinuxRootVeritySigMIPS64EL,
            113 => Guid::LinuxRootVeritySigPARISC,
            114 => Guid::LinuxRootVeritySigPPC32,
            115 => Guid::LinuxRootVeritySigPPC64,
            116 => Guid::LinuxRootVeritySigPPC64LE,
            117 => Guid::LinuxRootVeritySigRISCV32,
            118 => Guid::LinuxRootVeritySigRISCV64,
            119 => Guid::LinuxRootVeritySigS390,
            120 => Guid::LinuxRootVeritySigS390x,
            121 => Guid::LinuxRootVeritySigTILEGx,
            122 => Guid::LinuxRootVeritySigx86,
            123 => Guid::LinuxRootVeritySigx86_64,
            124 => Guid::LinuxUsrVeritySigAlpha,
            125 => Guid::LinuxUsrVeritySigARC,
            126 => Guid::LinuxUsrVeritySigARM32,
            127 => Guid::LinuxUsrVeritySigARM64,
            128 => Guid::LinuxUsrVeritySigIA64,
            129 => Guid::LinuxUsrVeritySigLoongArch64,
            130 => Guid::LinuxUsrVeritySigMIPS,
            131 => Guid::LinuxUsrVeritySigMIPS64,
            132 => Guid::LinuxUsrVeritySigMIPSEL,
            133 => Guid::LinuxUsrVeritySigMIPS64EL,
            134 => Guid::LinuxUsrVeritySigPARISC,
            135 => Guid::LinuxUsrVeritySigPPC32,
            136 => Guid::LinuxUsrVeritySigPPC64,
            137 => Guid::LinuxUsrVeritySigPPC64LE,
            138 => Guid::LinuxUsrVeritySigRISCV32,
            139 => Guid::LinuxUsrVeritySigRISCV64,
            140 => Guid::LinuxUsrVeritySigS390,
            141 => Guid::LinuxUsrVeritySigS390x,
            142 => Guid::LinuxUsrVeritySigTILEGx,
            143 => Guid::LinuxUsrVeritySigx86,
            144 => Guid::LinuxUsrVeritySigx86_64,
            145 => Guid::LinuxXBOOTLDR,
            146 => Guid::LinuxSwap,
            147 => Guid::LinuxLVM,
            148 => Guid::LinuxHome,
            149 => Guid::LinuxServerData,
            150 => Guid::LinuxPerUserHome,
            151 => Guid::LinuxPlain,
            152 => Guid::LinuxLUKS,
            153 => Guid::LinuxReserved,
            154 => Guid::FreeBSDBoot,
            155 => Guid::FreeBSDDisklabel,
            156 => Guid::FreeBSDSwap,
            157 => Guid::FreeBSDUFS,
            158 => Guid::FreeBSDVinum,
            159 => Guid::FreeBSDZFS,
            160 => Guid::FreeBSDnandfs,
            161 => Guid::MacOSHFSPlus,
            162 => Guid::MacOSAPFS,
            163 => Guid::MacOSUFS,
            164 => Guid::MacOSRAID,
            165 => Guid::MacOSRAIDOffline,
            166 => Guid::MacOSBootRecovery,
            167 => Guid::MacOSLabel,
            168 => Guid::MacOSAppleTVRecovery,
            169 => Guid::MacOSHFSPlusFileVault,
            170 => Guid::MacOSAPFSPreboot,
            171 => Guid::MacOSAPFSRecovery,
            172 => Guid::SolarisBoot,
            173 => Guid::SolarisRoot,
            174 => Guid::SolarisSwap,
            175 => Guid::SolarisBackup,
            176 => Guid::SolarisUsr,
            177 => Guid::SolarisVar,
            178 => Guid::SolarisHome,
            179 => Guid::SolarisAlternateSector,
            180 => Guid::SolarisReserved1,
            181 => Guid::SolarisReserved2,
            182 => Guid::SolarisReserved3,
            183 => Guid::SolarisReserved4,
            184 => Guid::SolarisReserved5,
            185 => Guid::NetBSDSwap,
            186 => Guid::NetBSDFFS,
            187 => Guid::NetBSDLFS,
            188 => Guid::NetBSDRAID,
            189 => Guid::NetBSDConcatenated,
            190 => Guid::NetBSDEncrypted,
            191 => Guid::ChromeOSKernel,
            192 => Guid::ChromeOSRootFs,
            193 => Guid::ChromeOSFirmware,
            194 => Guid::ChromeOSFuture,
            195 => Guid::ChromeOSMiniOS,
            196 => Guid::ChromeOSHibernate,
            197 => Guid::CoreOSUsr,
            198 => Guid::CoreOSResize,
            199 => Guid::CoreOSReserved,
            200 => Guid::CoreOSRootRAID,
            201 => Guid::HaikuBFS,
            202 => Guid::MidnightBSDBoot,
            203 => Guid::MidnightBSDData,
            204 => Guid::MidnightBSDSwap,
            205 => Guid::MidnightBSDUFS,
            206 => Guid::MidnightBSDVinum,
            207 => Guid::MidnightBSDZFS,
            208 => Guid::CephJournal,
            209 => Guid::CephDMCryptJournal,
            210 => Guid::CephOSD,
            211 => Guid::CephDMCryptOSD,
            212 => Guid::CephDisk,
            213 => Guid::CephDMCryptDisk,
            214 => Guid::CephBlock,
            215 => Guid::CephBlockDB,
            216 => Guid::CephBlockLog,
            217 => Guid::CephLockbox,
            218 => Guid::CephMultipathOSD,
            219 => Guid::CephMultipathJournal,
            220 => Guid::CephMultipathBlock1,
            221 => Guid::CephMultipathBlock2,
            222 => Guid::CephMultipathBlockDB,
            223 => Guid::CephMultipathLog,
            224 => Guid::CephDMCryptBlock,
            225 => Guid::CephDMCryptBlockDB,
            226 => Guid::CephDMCryptBlockLog,
            227 => Guid::CephLUKSOSD,
            228 => Guid::CephLUKSJournal,
            229 => Guid::CephLUKSBlock,
            230 => Guid::CephLUKSBlockDB,
            231 => Guid::CephLUKSBlockLog,
            232 => Guid::OpenBSDData,
            233 => Guid::QNX6Fs,
            234 => Guid::Plan9,
            235 => Guid::VMWareVMKCORE,
            236 => Guid::VMWareVMFS,
            237 => Guid::VMWareWmkReserved,
            238 => Guid::AndroidBootloader,
            239 => Guid::AndroidBootloader2,
            240 => Guid::AndroidBoot,
            241 => Guid::AndroidRecovery,
            242 => Guid::AndroidMisc,
            243 => Guid::AndroidMetadata,
            244 => Guid::AndroidSystem,
            245 => Guid::AndroidCache,
            246 => Guid::AndroidData,
            247 => Guid::AndroidPersistent,
            248 => Guid::AndroidVendor,
            249 => Guid::AndroidConfig,
            250 => Guid::AndroidFactory,
            251 => Guid::AndroidFactoryAlt,
            252 => Guid::AndroidFastboot,
            253 => Guid::AndroidOEM,
            254 => Guid::Android6Meta,
            255 => Guid::Android6Ext,
            256 => Guid::ONIEBoot,
            257 => Guid::ONIEConfig,
            258 => Guid::PPCPrePBoot,
            259 => Guid::AtariTOSBasicData,
            260 => Guid::AtariTOSRawData,
            261 => Guid::VeraCryptEncrypted,
            262 => Guid::OS2ArcaOS,
            263 => Guid::SPDK,
            264 => Guid::BareboxState,
            265 => Guid::UBootEnv,
            266 => Guid::SoftRAIDStatus,
            267 => Guid::SoftRAIDScratch,
            268 => Guid::SoftRAIDVolume,
            269 => Guid::SoftRAIDCache,
            270 => Guid::FuchsiaBoot,
            271 => Guid::FuchsiaSystemData,
            272 => Guid::FuchsiaBootData,
            273 => Guid::FuchsiaFactorySystemData,
            274 => Guid::FuchsiaFactoryBootData,
            275 => Guid::FuchsiaVolumeManager,
            276 => Guid::FuchsiaVerifiedBoot,
            277 => Guid::FuchsiaZirconBoot,
            278 => Guid::FuchsiaLegacySystem,
            279 => Guid::FuchsiaLegacyData,
            280 => Guid::FuchsiaLegacyInstall,
            281 => Guid::FuchsiaLegacyBlob,
            282 => Guid::FuchsiaLegacyFVM,
            283 => Guid::FuchsiaLegacyZirconBootSlotA,
            284 => Guid::FuchsiaLegacyZirconBootSlotB,
            285 => Guid::FuchsiaLegacyZirconBootSlotR,
            286 => Guid::FuchsiaLegacySysConfig,
            287 => Guid::FuchsiaLegacyFactoryConfig,
            288 => Guid::FuchsiaLegacyBoot,
            289 => Guid::FuchsiaLegacyGuidTest,
            290 => Guid::FuchsiaLegacyVerifiedBootSlotA,
            291 => Guid::FuchsiaLegacyVerifiedBootSlotB,
            292 => Guid::FuchsiaLegacyVerifiedBootSlotR,
            293 => Guid::FuchsiaLegacyMisc,
            294 => Guid::FuchsiaLegacyEmmcBoot1,
            295 => Guid::FuchsiaLegacyEmmcBoot2,
            _ => Guid::Minix,
        }
    }

    /// The text form of this partition type.
    pub open spec fn text(self) -> Seq<char> {
        match self {
            Guid::EmptyPartition => "00000000-0000-0000-0000-000000000000"@,
            Guid::MBRPartition => "024dee41-33e7-11d3-9d69-0008c781f39f"@,
            Guid::EfiSystem => "c12a7328-f81f-11d2-ba4b-00a0c93ec93b"@,
            Guid::BIOSBoot => "21686148-6449-6e6f-744e-656564454649"@,
            Guid::IntelFastFlash => "d3bfe2de-3daf-11df-ba40-e3a556d89593"@,
            Guid::SonyBoot => "f4019732-066e-4e12-8273-346c5641494f"@,
            Guid::LenovoBoot => "bfbfafe7-a34f-448a-9a5b-6213eb736c22"@,
            Guid::MicrosoftReserved => "e3c9e316-0b5c-4db8-817d-f92df00215ae"@,
            Guid::WindowsBasicData => "ebd0a0a2-b9e5-4433-87c0-68b6b72699c7"@,
            Guid::WindowsLDM => "5808c8aa-7e8f-42e0-85d2-e1e90434cfb3"@,
            Guid::WindowsLDMData => "af9b60a0-1431-4f62-bc68-3311714a69ad"@,
            Guid::WindowsRecovery => "de94bba4-06d1-4d40-a16a-bfd50179d6ac"@,
            Guid::IBMGPFS => "37affc90-ef7d-4e96-91c3-2d7ae055b174"@,
            Guid::WindowsStorageSpaces => "e75caf8f-f680-4cee-afa3-b001e56efc2d"@,
            Guid::WindowsStorageReplica => "558d43c5-a1ac-43c0-aac8-d1472b2923d1"@,
            Guid::HPUXData => "75894c1e-3aeb-11d3-b7c1-7b03a0000000"@,
            Guid::HPUXService => "e2a1e728-32e3-11d6-a682-7b03a0000000"@,
            Guid::LinuxData => "0fc63daf-8483-4772-8e79-3d69d8477de4"@,
            Guid::LinuxRaid => "a19d880f-05fc-4d3b-a006-743f0f84911e"@,
            Guid::LinuxRootAlpha => "6523f8ae-3eb1-4e2a-a05a-18b695ae656f"@,
            Guid::LinuxRootARC => "d27f46ed-2919-4cb8-bd25-9531f3c16534"@,
            Guid::LinuxRootARM32 => "69dad710-2ce4-4e3c-b16c-21a1d49abed3"@,
            Guid::LinuxRootARM64 => "b921b045-1df0-41c3-af44-4c6f280d3fae"@,
            Guid::LinuxRootIA64 => "993d8d3d-f80e-4225-855a-9daf8ed7ea97"@,
            Guid::LinuxRootLoongArch64 => "77055800-792c-4f94-b39a-98c91b762bb6"@,
            Guid::LinuxRootMIPS => "e9434544-6e2c-47cc-bae2-12d6deafb44c"@,
            Guid::LinuxRootMIPS64 => "d113af76-80ef-41b4-bdb6-0cff4d3d4a25"@,
            Guid::LinuxRootMIPSEL => "37c58c8a-d913-4156-a25f-48b1b64e07f0"@,
            Guid::LinuxRootMIPS64EL => "700bda43-7a34-4507-b179-eeb93d7a7ca3"@,
            Guid::LinuxRootPARISC => "1aacdb3b-5444-4138-bd9e-e5c2239b2346"@,
            Guid::LinuxRootPPC32 => "1de3f1ef-fa98-47b5-8dcd-4a860a654d78"@,
            Guid::LinuxRootPPC64 => "912ade1d-a839-4913-8964-a10eee08fbd2"@,
            Guid::LinuxRootPPC64LE => "c31c45e6-3f39-412e-80fb-4809c4980599"@,
            Guid::LinuxRootRISCV32 => "60d5a7fe-8e7d-435c-b714-3dd8162144e1"@,
            Guid::LinuxRootRISCV64 => "72ec70a6-cf74-40e6-bd49-4bda08e8f224"@,
            Guid::LinuxRootS390 => "08a7acea-624c-4a20-91e8-6e0fa67d23f9"@,
            Guid::LinuxRootS390x => "5eead9a9-fe09-4a1e-a1d7-520d00531306"@,
            Guid::LinuxRootTILEGx => "c50cdd70-3862-4cc3-90e1-809a8c93ee2c"@,
            Guid::LinuxRootx86 => "44479540-f297-41b2-9af7-d131d5f0458a"@,
            Guid::LinuxRootx86_64 => "4f68bce3-e8cd-4db1-96e7-fbcaf984b709"@,
            Guid::LinuxUsrAlpha => "e18cf08c-33ec-4c0d-8246-c6c6fb3da024"@,
            Guid::LinuxUsrARC => "7978a683-6316-4922-bbee-38bff5a2fecc"@,
            Guid::LinuxUsrARM32 => "7d0359a3-02b3-4f0a-865c-654403e70625"@,
            Guid::LinuxUsrARM64 => "b0e01050-ee5f-4390-949a-9101b17104e9"@,
            Guid::LinuxUsrIA64 => "4301d2a6-4e3b-4b2a-bb94-9e0b2c4225ea"@,
            Guid::LinuxUsrLoongArch64 => "e611c702-575c-4cbe-9a46-434fa0bf7e3f"@,
            Guid::LinuxUsrMIPS => "773b2abc-2a99-4398-8bf5-03baac40d02b"@,
            Guid::LinuxUsrMIPS64 => "57e13958-7331-4365-8e6e-35eeee17c61b"@,
            Guid::LinuxUsrMIPSEL => "0f4868e9-9952-4706-979f-3ed3a473e947"@,
            Guid::LinuxUsrMIPS64EL => "c97c1f32-ba06-40b4-9f22-236061b08aa8"@,
            Guid::LinuxUsrPARISC => "dc4a4480-6917-4262-a4ec-db9384949f25"@,
            Guid::LinuxUsrPPC32 => "7d14fec5-cc71-415d-9d6c-06bf0b3c3eaf"@,
            Guid::LinuxUsrPPC64 => "2c9739e2-f068-46b3-9fd0-01c5a9afbcca"@,
            Guid::LinuxUsrPPC64LE => "15bb03af-77e7-4d4a-b12b-c0d084f7491c"@,
            Guid::LinuxUsrRISCV32 => "b933fb22-5c3f-4f91-af90-e2bb0fa50702"@,
            Guid::LinuxUsrRISCV64 => "beaec34b-8442-439b-a40b-984381ed097d"@,
            Guid::LinuxUsrS390 => "cd0f869b-d0fb-4ca0-b141-9ea87cc78d66"@,
            Guid::LinuxUsrS390x => "8a4f5770-50aa-4ed3-874a-99b710db6fea"@,
            Guid::LinuxUsrTILEGx => "55497029-c7c1-44cc-aa39-815ed1558630"@,
            Guid::LinuxUsrx86 => "75250d76-8cc6-458e-bd66-bd47cc81a812"@,
            Guid::LinuxUsrx86_64 => "8484680c-9521-48c6-9c11-b0720656f69e"@,
            Guid::LinuxRootVerityAlpha => "fc56d9e9-e6e5-4c06-be32-e74407ce09a5"@,
            Guid::LinuxRootVerityARC => "24b2d975-0f97-4521-afa1-cd531e421b8d"@,
            Guid::LinuxRootVerityARM32 => "7386cdf2-203c-47a9-a498-f2ecce45a2d6"@,
            Guid::LinuxRootVerityARM64 => "df3300ce-d69f-4c92-978c-9bfb0f38d820"@,
            Guid::LinuxRootVerityIA64 => "86ed10d5-b607-45bb-8957-d350f23d0571"@,
            Guid::LinuxRootVerityLoongArch64 => "f3393b22-e9af-4613-a948-9d3bfbd0c535"@,
            Guid::LinuxRootVerityMIPS => "7a430799-f711-4c7e-8e5b-1d685bd48607"@,
            Guid::LinuxRootVerityMIPS64 => "579536f8-6a33-4055-a95a-df2d5e2c42a8"@,
            Guid::LinuxRootVerityMIPSEL => "d7d150d2-2a04-4a33-8f12-16651205ff7b"@,
            Guid::LinuxRootVerityMIPS64EL => "16b417f8-3e06-4f57-8dd2-9b5232f41aa6"@,
            Guid::LinuxRootVerityPARISC => "d212a430-fbc5-49f9-a983-a7feef2b8d0e"@,
            Guid::LinuxRootVerityPPC32 => "98cfe649-1588-46dc-b2f0-add147424925"@,
            Guid::LinuxRootVerityPPC64 => "9225a9a3-3c19-4d89-b4f6-eeff88f17631"@,
            Guid::LinuxRootVerityPPC64LE => "906bd944-4589-4aae-a4e4-dd983917446a"@,
            Guid::LinuxRootVerityRISCV32 => "ae0253be-1167-4007-ac68-43926c14c5de"@,
            Guid::LinuxRootVerityRISCV64 => "b6ed5582-440b-4209-b8da-5ff7c419ea3d"@,
            Guid::LinuxRootVerityS390 => "7ac63b47-b25c-463b-8df8-b4a94e6c90e1"@,
            Guid::LinuxRootVerityS390x => "b325bfbe-c7be-4ab8-8357-139e652d2f6b"@,
            Guid::LinuxRootVerityTILEGx => "966061ec-28e4-4b2e-b4a5-1f0a825a1d84"@,
            Guid::LinuxRootVerityx86 => "d13c5d3b-b5d1-422a-b29f-9454fdc89d76"@,
            Guid::LinuxRootVerityx86_64 => "2c7357ed-ebd2-46d9-aec1-23d437ec2bf5"@,
            Guid::LinuxUsrVerityAlpha => "8cce0d25-c0d0-4a44-bd87-46331bf1df67"@,
            Guid::LinuxUsrVerityARC => "fca0598c-d880-4591-8c16-4eda05c7347c"@,
            Guid::LinuxUsrVerityARM32 => "c215d751-7bcd-4649-be90-6627490a4c05"@,
            Guid::LinuxUsrVerityARM64 => "6e11a4e7-fbca-4ded-b9e9-e1a512bb664e"@,
            Guid::LinuxUsrVerityIA64 => "6a491e03-3be7-4545-8e38-83320e0ea880"@,
            Guid::LinuxUsrVerityLoongArch64 => "f46b2c26-59ae-48f0-9106-c50ed47f673d"@,
            Guid::LinuxUsrVerityMIPS => "6e5a1bc8-d223-49b7-bca8-37a5fcceb996"@,
            Guid::LinuxUsrVerityMIPS64 => "81cf9d90-7458-4df4-8dcf-c8a3a404f09b"@,
            Guid::LinuxUsrVerityMIPSEL => "46b98d8d-b55c-4e8f-aab3-37fca7f80752"@,
            Guid::LinuxUsrVerityMIPS64EL => "3c3d61fe-b5f3-414d-bb71-8739a694a4ef"@,
            Guid::LinuxUsrVerityPARISC => "5843d618-ec37-48d7-9f12-cea8e08768b2"@,
            Guid::LinuxUsrVerityPPC32 => "df765d00-270e-49e5-bc75-f47bb2118b09"@,
            Guid::LinuxUsrVerityPPC64 => "bdb528a5-a259-475f-a87d-da53fa736a07"@,
            Guid::LinuxUsrVerityPPC64LE => "ee2b9983-21e8-4153-86d9-b6901a54d1ce"@,
            Guid::LinuxUsrVerityRISCV32 => "cb1ee4e3-8cd0-4136-a0a4-aa61a32e8730"@,
            Guid::LinuxUsrVerityRISCV64 => "8f1056be-9b05-47c4-81d6-be53128e5b54"@,
            Guid::LinuxUsrVerityS390 => "b663c618-e7bc-4d6d-90aa-11b756bb1797"@,
            Guid::LinuxUsrVerityS390x => "31741cc4-1a2a-4111-a581-e00b447d2d06"@,
            Guid::LinuxUsrVerityTILEGx => "2fb4bf56-07fa-42da-8132-6b139f2026ae"@,
            Guid::LinuxUsrVerityx86 => "8f461b0d-14ee-4e81-9aa9-049b6fb97abd"@,
            Guid::LinuxUsrVerityx86_64 => "77ff5f63-e7b6-4633-acf4-1565b864c0e6"@,
            Guid::LinuxRootVeritySigAlpha => "d46495b7-a053-414f-80f7-700c99921ef8"@,
            Guid::LinuxRootVeritySigARC => "143a70ba-cbd3-4f06-919f-6c05683a78bc"@,
            Guid::LinuxRootVeritySigARM32 => "42b0455f-eb11-491d-98d3-56145ba9d037"@,
            Guid::LinuxRootVeritySigARM64 => "6db69de6-29f4-4758-a7a5-962190f00ce3"@,
            Guid::LinuxRootVeritySigIA64 => "e98b36ee-32ba-4882-9b12-0ce14655f46a"@,
            Guid::LinuxRootVeritySigLoongArch64 => "5afb67eb-ecc8-4f85-ae8e-ac1e7c50e7d0"@,
            Guid::LinuxRootVeritySigMIPS => "bba210a2-9c5d-45ee-9e87-ff2ccbd002d0"@,
            Guid::LinuxRootVeritySigMIPS64 => "43ce94d4-0f3d-4999-8250-b9deafd98e6e"@,
            Guid::LinuxRootVeritySigMIPSEL => "c919cc1f-4456-4eff-918c-f75e94525ca5"@,
            Guid::LinuxRootVeritySigMIPS64EL => "904e58ef-5c65-4a31-9c57-6af5fc7c5de7"@,
            Guid::LinuxRootVeritySigPARISC => "15de6170-65d3-431c-916e-b0dcd8393f25"@,
            Guid::LinuxRootVeritySigPPC32 => "1b31b5aa-add9-463a-b2ed-bd467fc857e7"@,
            Guid::LinuxRootVeritySigPPC64 => "f5e2c20c-45b2-4ffa-bce9-2a60737e1aaf"@,
            Guid::LinuxRootVeritySigPPC64LE => "d4a236e7-e873-4c07-bf1d-bf6cf7f1c3c6"@,
            Guid::LinuxRootVeritySigRISCV32 => "3a112a75-8729-4380-b4cf-764d79934448"@,
            Guid::LinuxRootVeritySigRISCV64 => "efe0f087-ea8d-4469-821a-4c2a96a8386a"@,
            Guid::LinuxRootVeritySigS390 => "3482388e-4254-435a-a241-766a065f9960"@,
            Guid::LinuxRootVeritySigS390x => "c80187a5-73a3-491a-901a-017c3fa953e9"@,
            Guid::LinuxRootVeritySigTILEGx => "b3671439-97b0-4a53-90f7-2d5a8f3ad47b"@,
            Guid::LinuxRootVeritySigx86 => "5996fc05-109c-48de-808b-23fa0830b676"@,
            Guid::LinuxRootVeritySigx86_64 => "41092b05-9fc8-4523-994f-2def0408b176"@,
            Guid::LinuxUsrVeritySigAlpha => "5c6e1c76-076a-457a-a0fe-f3b4cd21ce6e"@,
            Guid::LinuxUsrVeritySigARC => "94f9a9a1-9971-427a-a400-50cb297f0f35"@,
            Guid::LinuxUsrVeritySigARM32 => "d7ff812f-37d1-4902-a810-d76ba57b975a"@,
            Guid::LinuxUsrVeritySigARM64 => "c23ce4ff-44bd-4b00-b2d4-b41b3419e02a"@,
            Guid::LinuxUsrVeritySigIA64 => "8de58bc2-2a43-460d-b14e-a76e4a17b47f"@,
            Guid::LinuxUsrVeritySigLoongArch64 => "b024f315-d330-444c-8461-44bbde524e99"@,
            Guid::LinuxUsrVeritySigMIPS => "97ae158d-f216-497b-8057-f7f905770f54"@,
            Guid::LinuxUsrVeritySigMIPS64 => "05816ce2-dd40-4ac6-a61d-37d32dc1ba7d"@,
            Guid::LinuxUsrVeritySigMIPSEL => "3e23ca0b-a4bc-4b4e-8087-5ab6a26aa8a9"@,
            Guid::LinuxUsrVeritySigMIPS64EL => "f2c2c7ee-adcc-4351-b5c6-ee9816b66e16"@,
            Guid::LinuxUsrVeritySigPARISC => "450dd7d1-3224-45ec-9cf2-a43a346d71ee"@,
            Guid::LinuxUsrVeritySigPPC32 => "7007891d-d371-4a80-86a4-5cb875b9302e"@,
            Guid::LinuxUsrVeritySigPPC64 => "0b888863-d7f8-4d9e-9766-239fce4d58af"@,
            Guid::LinuxUsrVeritySigPPC64LE => "c8bfbd1e-268e-4521-8bba-bf314c399557"@,
            Guid::LinuxUsrVeritySigRISCV32 => "c3836a13-3137-45ba-b583-b16c50fe5eb4"@,
            Guid::LinuxUsrVeritySigRISCV64 => "d2f9000a-7a18-453f-b5cd-4d32f77a7b32"@,
            Guid::LinuxUsrVeritySigS390 => "17440e4f-a8d0-467f-a46e-3912ae6ef2c5"@,
            Guid::LinuxUsrVeritySigS390x => "3f324816-667b-46ae-86ee-9b0c0c6c11b4"@,
            Guid::LinuxUsrVeritySigTILEGx => "4ede75e2-6ccc-4cc8-b9c7-70334b087510"@,
            Guid::LinuxUsrVeritySigx86 => "974a71c0-de41-43c3-be5d-5c5ccd1ad2c0"@,
            Guid::LinuxUsrVeritySigx86_64 => "e7bb33fb-06cf-4e81-8273-e543b413e2e2"@,
            Guid::LinuxXBOOTLDR => "bc13c2ff-59e6-4262-a352-b275fd6f7172"@,
            Guid::LinuxSwap => "0657fd6d-a4ab-43c4-84e5-0933c84b4f4f"@,
            Guid::LinuxLVM => "e6d6d379-f507-44c2-a23c-238f2a3df928"@,
            Guid::LinuxHome => "933ac7e1-2eb4-4f13-b844-0e14e2aef915"@,
            Guid::LinuxServerData => "3b8f8425-20e0-4f3b-907f-1a25a76f98e8"@,
            Guid::LinuxPerUserHome => "773f91ef-66d4-49b5-bd83-d683bf40ad16"@,
            Guid::LinuxPlain => "7ffec5c9-2d00-49b7-8941-3ea10a5586b7"@,
            Guid::LinuxLUKS => "ca7d7ccb-63ed-4c53-861c-1742536059cc"@,
            Guid::LinuxReserved => "8da63339-0007-60c0-c436-083ac8230908"@,
            Guid::FreeBSDBoot => "83bd6b9d-7f41-11dc-be0b-001560b84f0f"@,
            Guid::FreeBSDDisklabel => "516e7cb4-6ecf-11d6-8ff8-00022d09712b"@,
            Guid::FreeBSDSwap => "516e7cb5-6ecf-11d6-8ff8-00022d09712b"@,
            Guid::FreeBSDUFS => "516e7cb6-6ecf-11d6-8ff8-00022d09712b"@,
            Guid::FreeBSDVinum => "516e7cb8-6ecf-11d6-8ff8-00022d09712b"@,
            Guid::FreeBSDZFS => "516e7cba-6ecf-11d6-8ff8-00022d09712b"@,
            Guid::FreeBSDnandfs => "74ba7dd9-a689-11e1-bd04-00e081286acf"@,
            Guid::MacOSHFSPlus => "48465300-0000-11aa-aa11-00306543ecac"@,
            Guid::MacOSAPFS => "7c3457ef-0000-11aa-aa11-00306543ecac"@,
            Guid::MacOSUFS => "55465300-0000-11aa-aa11-00306543ecac"@,
            Guid::MacOSRAID => "52414944-0000-11aa-aa11-00306543ecac"@,
            Guid::MacOSRAIDOffline => "52414944-5f4f-11aa-aa11-00306543ecac"@,
            Guid::MacOSBootRecovery => "426f6f74-0000-11aa-aa11-00306543ecac"@,
            Guid::MacOSLabel => "4c616265-6c00-11aa-aa11-00306543ecac"@,
            Guid::MacOSAppleTVRecovery => "5265636f-7665-11aa-aa11-00306543ecac"@,
            Guid::MacOSHFSPlusFileVault => "53746f72-6167-11aa-aa11-00306543ecac"@,
            Guid::MacOSAPFSPreboot => "69646961-6700-11aa-aa11-00306543ecac"@,
            Guid::MacOSAPFSRecovery => "52637672-7900-11aa-aa11-00306543ecac"@,
            Guid::SolarisBoot => "6a82cb45-1dd2-11b2-99a6-080020736631"@,
            Guid::SolarisRoot => "6a85cf4d-1dd2-11b2-99a6-080020736631"@,
            Guid::SolarisSwap => "6a87c46f-1dd2-11b2-99a6-080020736631"@,
            Guid::SolarisBackup => "6a8b642b-1dd2-11b2-99a6-080020736631"@,
            Guid::SolarisUsr => "6a898cc3-1dd2-11b2-99a6-080020736631"@,
            Guid::SolarisVar => "6a8ef2e9-1dd2-11b2-99a6-080020736631"@,
            Guid::SolarisHome => "6a90ba39-1dd2-11b2-99a6-080020736631"@,
            Guid::SolarisAlternateSector => "6a9283a5-1dd2-11b2-99a6-080020736631"@,
            Guid::SolarisReserved1 => "6a945a3b-1dd2-11b2-99a6-080020736631"@,
            Guid::SolarisReserved2 => "6a9630d1-1dd2-11b2-99a6-080020736631"@,
            Guid::SolarisReserved3 => "6a980767-1dd2-11b2-99a6-080020736631"@,
            Guid::SolarisReserved4 => "6a96237f-1dd2-11b2-99a6-080020736631"@,
            Guid::SolarisReserved5 => "6a8d2ac7-1dd2-11b2-99a6-080020736631"@,
            Guid::NetBSDSwap => "49f48d32-b10e-11dc-b99b-0019d1879648"@,
            Guid::NetBSDFFS => "49f48d5a-b10e-11dc-b99b-0019d1879648"@,
            Guid::NetBSDLFS => "49f48d82-b10e-11dc-b99b-0019d1879648"@,
            Guid::NetBSDRAID => "49f48daa-b10e-11dc-b99b-0019d1879648"@,
            Guid::NetBSDConcatenated => "2db519c4-b10f-11dc-b99b-0019d1879648"@,
            Guid::NetBSDEncrypted => "2db519ec-b10f-11dc-b99b-0019d1879648"@,
            Guid::ChromeOSKernel => "fe3a2a5d-4f32-41a7-b725-accc3285a309"@,
            Guid::ChromeOSRootFs => "3cb8e202-3b7e-47dd-8a3c-7ff2a13cfcec"@,
            Guid::ChromeOSFirmware => "cab6e88e-abf3-4102-a07a-d4bb9be3c1d3"@,
            Guid::ChromeOSFuture => "2e0a753d-9e48-43b0-8337-b15192cb1b5e"@,
            Guid::ChromeOSMiniOS => "09845860-705f-4bb5-b16c-8a8a099caf52"@,
            Guid::ChromeOSHibernate => "3f0f8318-f146-4e6b-8222-c28c8f02e0d5"@,
            Guid::CoreOSUsr => "5dfbf5f4-2848-4bac-aa5e-0d9a20b745a6"@,
            Guid::CoreOSResize => "3884dd41-8582-4404-b9a8-e9b84f2df50e"@,
            Guid::CoreOSReserved => "c95dc21a-df0e-4340-8d7b-26cbfa9a03e0"@,
            Guid::CoreOSRootRAID => "be9067b9-ea49-4f15-b4f6-f36f8c9e1818"@,
            Guid::HaikuBFS => "42465331-3ba3-10f1-802a-4861696b7521"@,
            Guid::MidnightBSDBoot => "85d5e45e-237c-11e1-b4b3-e89a8f7fc3a7"@,
            Guid::MidnightBSDData => "85d5e45a-237c-11e1-b4b3-e89a8f7fc3a7"@,
            Guid::MidnightBSDSwap => "85d5e45b-237c-11e1-b4b3-e89a8f7fc3a7"@,
            Guid::MidnightBSDUFS => "0394ef8b-237e-11e1-b4b3-e89a8f7fc3a7"@,
            Guid::MidnightBSDVinum => "85d5e45c-237c-11e1-b4b3-e89a8f7fc3a7"@,
            Guid::MidnightBSDZFS => "85d5e45d-237c-11e1-b4b3-e89a8f7fc3a7"@,
            Guid::CephJournal => "45b0969e-9b03-4f30-b4c6-b4b80ceff106"@,
            Guid::CephDMCryptJournal => "45b0969e-9b03-4f30-b4c6-5ec00ceff106"@,
            Guid::CephOSD => "4fbd7e29-9d25-41b8-afd0-062c0ceff05d"@,
            Guid::CephDMCryptOSD => "4fbd7e29-9d25-41b8-afd0-5ec00ceff05d"@,
            Guid::CephDisk => "89c57f98-2fe5-4dc0-89c1-f3ad0ceff2be"@,
            Guid::CephDMCryptDisk => "89c57f98-2fe5-4dc0-89c1-5ec00ceff2be"@,
            Guid::CephBlock => "cafecafe-9b03-4f30-b4c6-b4b80ceff106"@,
            Guid::CephBlockDB => "30cd0809-c2b2-499c-8879-2d6b78529876"@,
            Guid::CephBlockLog => "5ce17fce-4087-4169-b7ff-056cc58473f9"@,
            Guid::CephLockbox => "fb3aabf9-d25f-47cc-bf5e-721d1816496b"@,
            Guid::CephMultipathOSD => "4fbd7e29-8ae0-4982-bf9d-5a8d867af560"@,
            Guid::CephMultipathJournal => "45b0969e-8ae0-4982-bf9d-5a8d867af560"@,
            Guid::CephMultipathBlock1 => "cafecafe-8ae0-4982-bf9d-5a8d867af560"@,
            Guid::CephMultipathBlock2 => "7f4a666a-16f3-47a2-8445-152ef4d03f6c"@,
            Guid::CephMultipathBlockDB => "ec6d6385-e346-45dc-be91-da2a7c8b3261"@,
            Guid::CephMultipathLog => "01b41e1b-002a-453c-9f17-88793989ff8f"@,
            Guid::CephDMCryptBlock => "cafecafe-9b03-4f30-b4c6-5ec00ceff106"@,
            Guid::CephDMCryptBlockDB => "93b0052d-02d9-4d8a-a43b-33a3ee4dfbc3"@,
            Guid::CephDMCryptBlockLog => "306e8683-4fe2-4330-b7c0-00a917c16966"@,
            Guid::CephLUKSOSD => "4fbd7e29-9d25-41b8-afd0-35865ceff05d"@,
            Guid::CephLUKSJournal => "45b0969e-9b03-4f30-b4c6-35865ceff106"@,
            Guid::CephLUKSBlock => "cafecafe-9b03-4f30-b4c6-35865ceff106"@,
            Guid::CephLUKSBlockDB => "166418da-c469-4022-adf4-b30afd37f176"@,
            Guid::CephLUKSBlockLog => "86a32090-3647-40b9-bbbd-38d8c573aa86"@,
            Guid::OpenBSDData => "824cc7a0-36a8-11e3-890a-952519ad3f61"@,
            Guid::QNX6Fs => "cef5a9ad-73bc-4601-89f3-cdeeeee321a1"@,
            Guid::Plan9 => "c91818f9-8025-47af-89d2-f030d7000c2c"@,
            Guid::VMWareVMKCORE => "9d275380-40ad-11db-bf97-000c2911d1b8"@,
            Guid::VMWareVMFS => "aa31e02a-400f-11db-9590-000c2911d1b8"@,
            Guid::VMWareWmkReserved => "9198effc-31c0-11db-8f78-000c2911d1b8"@,
            Guid::AndroidBootloader => "2568845d-2332-4675-bc39-8fa5a4748d15"@,
            Guid::AndroidBootloader2 => "114eaffe-1552-4022-b26e-9b053604cf84"@,
            Guid::AndroidBoot => "49a4d17f-93a3-45c1-a0de-f50b2ebe2599"@,
            Guid::AndroidRecovery => "4177c722-9e92-4aab-8644-43502bfd5506"@,
            Guid::AndroidMisc => "ef32a33b-a409-486c-9141-9ffb711f6266"@,
            Guid::AndroidMetadata => "20ac26be-20b7-11e3-84c5-6cfdb94711e9"@,
            Guid::AndroidSystem => "38f428e6-d326-425d-9140-6e0ea133647c"@,
            Guid::AndroidCache => "a893ef21-e428-470a-9e55-0668fd91a2d9"@,
            Guid::AndroidData => "dc76dda9-5ac1-491c-af42-a82591580c0d"@,
            Guid::AndroidPersistent => "ebc597d0-2053-4b15-8b64-e0aac75f4db1"@,
            Guid::AndroidVendor => "c5a0aeec-13ea-11e5-a1b1-001e67ca0c3c"@,
            Guid::AndroidConfig => "bd59408b-4514-490d-bf12-9878d963f378"@,
            Guid::AndroidFactory => "8f68cc74-c5e5-48da-be91-a0c8c15e9c80"@,
            Guid::AndroidFactoryAlt => "9fdaa6ef-4b3f-40d2-ba8d-bff16bfb887b"@,
            Guid::AndroidFastboot => "767941d0-2085-11e3-ad3b-6cfdb94711e9"@,
            Guid::AndroidOEM => "ac6d7924-eb71-4df8-b48d-e267b27148ff"@,
            Guid::Android6Meta => "19a710a2-b3ca-11e4-b026-10604b889dcf"@,
            Guid::Android6Ext => "193d1ea4-b3ca-11e4-b075-10604b889dcf"@,
            Guid::ONIEBoot => "7412f7d5-a156-4b13-81dc-867174929325"@,
            Guid::ONIEConfig => "d4e6e2cd-4469-46f3-b5cb-1bff57afc149"@,
            Guid::PPCPrePBoot => "9e1a2d38-c612-4316-aa26-8b49521e5a8b"@,
            Guid::AtariTOSBasicData => "734e5afe-f61a-11e6-bc64-92361f002671"@,
            Guid::AtariTOSRawData => "35540011-b055-499f-842d-c69aeca357b7"@,
            Guid::VeraCryptEncrypted => "8c8f8eff-ac95-4770-814a-21994f2dbc8f"@,
            Guid::OS2ArcaOS => "90b6ff38-b98f-4358-a21f-48f35b4a8ad3"@,
            Guid::SPDK => "7c5222bd-8f5d-4087-9c00-bf9843c7b58c"@,
            Guid::BareboxState => "4778ed65-bf42-45fa-9c5b-287a1dc4aab1"@,
            Guid::UBootEnv => "3de21764-95bd-54bd-a5c3-4abe786f38a8"@,
            Guid::SoftRAIDStatus => "b6fa30da-92d2-4a9a-96f1-871ec6486200"@,
            Guid::SoftRAIDScratch => "2e313465-19b9-463f-8126-8a7993773801"@,
            Guid::SoftRAIDVolume => "fa709c7e-65b1-4593-bfd5-e71d61de9b02"@,
            Guid::SoftRAIDCache => "bbba6df5-f46f-4a89-8f59-8765b2727503"@,
            Guid::FuchsiaBoot => "fe8a2634-5e2e-46ba-99e3-3a192091a350"@,
            Guid::FuchsiaSystemData => "d9fd4535-106c-4cec-8d37-dfc020ca87cb"@,
            Guid::FuchsiaBootData => "a409e16b-78aa-4acc-995c-302352621a41"@,
            Guid::FuchsiaFactorySystemData => "f95d940e-caba-4578-9b93-bb6c90f29d3e"@,
            Guid::FuchsiaFactoryBootData => "10b8dbaa-d2bf-42a9-98c6-a7c5db3701e7"@,
            Guid::FuchsiaVolumeManager => "49fd7cb8-df15-4e73-b9d9-992070127f0f"@,
            Guid::FuchsiaVerifiedBoot => "421a8bfc-85d9-4d85-acda-b64eec0133e9"@,
            Guid::FuchsiaZirconBoot => "9b37fff6-2e58-466a-983a-f7926d0b04e0"@,
            Guid::FuchsiaLegacySystem => "606b000b-b7c7-4653-a7d5-b737332c899d"@,
            Guid::FuchsiaLegacyData => "08185f0c-892d-428a-a789-dbeec8f55e6a"@,
            Guid::FuchsiaLegacyInstall => "48435546-4953-2041-494e-5354414c4c52"@,
            Guid::FuchsiaLegacyBlob => "2967380e-134c-4cbb-b6da-17e7ce1ca45d"@,
            Guid::FuchsiaLegacyFVM => "41d0e340-57e3-954e-8c1e-17ecac44cff5"@,
            Guid::FuchsiaLegacyZirconBootSlotA => "de30cc86-1f4a-4a31-93c4-66f147d33e05"@,
            Guid::FuchsiaLegacyZirconBootSlotB => "23cc04df-c278-4ce7-8471-897d1a4bcdf7"@,
            Guid::FuchsiaLegacyZirconBootSlotR => "a0e5cf57-2def-46be-a80c-a2067c37cd49"@,
            Guid::FuchsiaLegacySysConfig => "4e5e989e-4c86-11e8-a15b-480fcf35f8e6"@,
            Guid::FuchsiaLegacyFactoryConfig => "5a3a90be-4c86-11e8-a15b-480fcf35f8e6"@,
            Guid::FuchsiaLegacyBoot => "5ece94fe-4c86-11e8-a15b-480fcf35f8e6"@,
            Guid::FuchsiaLegacyGuidTest => "8b94d043-30be-4871-9dfa-d69556e8c1f3"@,
            Guid::FuchsiaLegacyVerifiedBootSlotA => "a13b4d9a-ec5f-11e8-97d8-6c3be52705bf"@,
            Guid::FuchsiaLegacyVerifiedBootSlotB => "a288abf2-ec5f-11e8-97d8-6c3be52705bf"@,
            Guid::FuchsiaLegacyVerifiedBootSlotR => "6a2460c3-cd11-4e8b-80a8-12cce268ed0a"@,
            Guid::FuchsiaLegacyMisc => "1d75395d-f2c6-476b-a8b7-45cc1c97b476"@,
            Guid::FuchsiaLegacyEmmcBoot1 => "900b0fc5-90cd-4d4f-84f9-9f8ed579db88"@,
            Guid::FuchsiaLegacyEmmcBoot2 => "b2b2e8d1-7c10-4ebc-a2d0-4614568260ad"@,
            Guid::Minix => "481b2a38-0561-420b-b72a-f1c4988efc16"@,
        }
    }

    /// Views this `Guid` as a UTF-8 `str`.
    pub fn as_str(&self) -> (s: &'static str)
        ensures
            s@ == self.text(),
    {
        match self {
            Guid::EmptyPartition => "00000000-0000-0000-0000-000000000000",
            Guid::MBRPartition => "024dee41-33e7-11d3-9d69-0008c781f39f",
            Guid::EfiSystem => "c12a7328-f81f-11d2-ba4b-00a0c93ec93b",
            Guid::BIOSBoot => "21686148-6449-6e6f-744e-656564454649",
            Guid::IntelFastFlash => "d3bfe2de-3daf-11df-ba40-e3a556d89593",
            Guid::SonyBoot => "f4019732-066e-4e12-8273-346c5641494f",
            Guid::LenovoBoot => "bfbfafe7-a34f-448a-9a5b-6213eb736c22",
            Guid::MicrosoftReserved => "e3c9e316-0b5c-4db8-817d-f92df00215ae",
            Guid::WindowsBasicData => "ebd0a0a2-b9e5-4433-87c0-68b6b72699c7",
            Guid::WindowsLDM => "5808c8aa-7e8f-42e0-85d2-e1e90434cfb3",
            Guid::WindowsLDMData => "af9b60a0-1431-4f62-bc68-3311714a69ad",
            Guid::WindowsRecovery => "de94bba4-06d1-4d40-a16a-bfd50179d6ac",
            Guid::IBMGPFS => "37affc90-ef7d-4e96-91c3-2d7ae055b174",
            Guid::WindowsStorageSpaces => "e75caf8f-f680-4cee-afa3-b001e56efc2d",
            Guid::WindowsStorageReplica => "558d43c5-a1ac-43c0-aac8-d1472b2923d1",
            Guid::HPUXData => "75894c1e-3aeb-11d3-b7c1-7b03a0000000",
            Guid::HPUXService => "e2a1e728-32e3-11d6-a682-7b03a0000000",
            Guid::LinuxData => "0fc63daf-8483-4772-8e79-3d69d8477de4",
            Guid::LinuxRaid => "a19d880f-05fc-4d3b-a006-743f0f84911e",
            Guid::LinuxRootAlpha => "6523f8ae-3eb1-4e2a-a05a-18b695ae656f",
            Guid::LinuxRootARC => "d27f46ed-2919-4cb8-bd25-9531f3c16534",
            Guid::LinuxRootARM32 => "69dad710-2ce4-4e3c-b16c-21a1d49abed3",
            Guid::LinuxRootARM64 => "b921b045-1df0-41c3-af44-4c6f280d3fae",
            Guid::LinuxRootIA64 => "993d8d3d-f80e-4225-855a-9daf8ed7ea97",
            Guid::LinuxRootLoongArch64 => "77055800-792c-4f94-b39a-98c91b762bb6",
            Guid::LinuxRootMIPS => "e9434544-6e2c-47cc-bae2-12d6deafb44c",
            Guid::LinuxRootMIPS64 => "d113af76-80ef-41b4-bdb6-0cff4d3d4a25",
            Guid::LinuxRootMIPSEL => "37c58c8a-d913-4156-a25f-48b1b64e07f0",
            Guid::LinuxRootMIPS64EL => "700bda43-7a34-4507-b179-eeb93d7a7ca3",
            Guid::LinuxRootPARISC => "1aacdb3b-5444-4138-bd9e-e5c2239b2346",
            Guid::LinuxRootPPC32 => "1de3f1ef-fa98-47b5-8dcd-4a860a654d78",
            Guid::LinuxRootPPC64 => "912ade1d-a839-4913-8964-a10eee08fbd2",
            Guid::LinuxRootPPC64LE => "c31c45e6-3f39-412e-80fb-4809c4980599",
            Guid::LinuxRootRISCV32 => "60d5a7fe-8e7d-435c-b714-3dd8162144e1",
            Guid::LinuxRootRISCV64 => "72ec70a6-cf74-40e6-bd49-4bda08e8f224",
            Guid::LinuxRootS390 => "08a7acea-624c-4a20-91e8-6e0fa67d23f9",
            Guid::LinuxRootS390x => "5eead9a9-fe09-4a1e-a1d7-520d00531306",
            Guid::LinuxRootTILEGx => "c50cdd70-3862-4cc3-90e1-809a8c93ee2c",
            Guid::LinuxRootx86 => "44479540-f297-41b2-9af7-d131d5f0458a",
            Guid::LinuxRootx86_64 => "4f68bce3-e8cd-4db1-96e7-fbcaf984b709",
            Guid::LinuxUsrAlpha => "e18cf08c-33ec-4c0d-8246-c6c6fb3da024",
            Guid::LinuxUsrARC => "7978a683-6316-4922-bbee-38bff5a2fecc",
            Guid::LinuxUsrARM32 => "7d0359a3-02b3-4f0a-865c-654403e70625",
            Guid::LinuxUsrARM64 => "b0e01050-ee5f-4390-949a-9101b17104e9",
            Guid::LinuxUsrIA64 => "4301d2a6-4e3b-4b2a-bb94-9e0b2c4225ea",
            Guid::LinuxUsrLoongArch64 => "e611c702-575c-4cbe-9a46-434fa0bf7e3f",
            Guid::LinuxUsrMIPS => "773b2abc-2a99-4398-8bf5-03baac40d02b",
            Guid::LinuxUsrMIPS64 => "57e13958-7331-4365-8e6e-35eeee17c61b",
            Guid::LinuxUsrMIPSEL => "0f4868e9-9952-4706-979f-3ed3a473e947",
            Guid::LinuxUsrMIPS64EL => "c97c1f32-ba06-40b4-9f22-236061b08aa8",
            Guid::LinuxUsrPARISC => "dc4a4480-6917-4262-a4ec-db9384949f25",
            Guid::LinuxUsrPPC32 => "7d14fec5-cc71-415d-9d6c-06bf0b3c3eaf",
            Guid::LinuxUsrPPC64 => "2c9739e2-f068-46b3-9fd0-01c5a9afbcca",
            Guid::LinuxUsrPPC64LE => "15bb03af-77e7-4d4a-b12b-c0d084f7491c",
            Guid::LinuxUsrRISCV32 => "b933fb22-5c3f-4f91-af90-e2bb0fa50702",
            Guid::LinuxUsrRISCV64 => "beaec34b-8442-439b-a40b-984381ed097d",
            Guid::LinuxUsrS390 => "cd0f869b-d0fb-4ca0-b141-9ea87cc78d66",
            Guid::LinuxUsrS390x => "8a4f5770-50aa-4ed3-874a-99b710db6fea",
            Guid::LinuxUsrTILEGx => "55497029-c7c1-44cc-aa39-815ed1558630",
            Guid::LinuxUsrx86 => "75250d76-8cc6-458e-bd66-bd47cc81a812",
            Guid::LinuxUsrx86_64 => "8484680c-9521-48c6-9c11-b0720656f69e",
            Guid::LinuxRootVerityAlpha => "fc56d9e9-e6e5-4c06-be32-e74407ce09a5",
            Guid::LinuxRootVerityARC => "24b2d975-0f97-4521-afa1-cd531e421b8d",
            Guid::LinuxRootVerityARM32 => "7386cdf2-203c-47a9-a498-f2ecce45a2d6",
            Guid::LinuxRootVerityARM64 => "df3300ce-d69f-4c92-978c-9bfb0f38d820",
            Guid::LinuxRootVerityIA64 => "86ed10d5-b607-45bb-8957-d350f23d0571",
            Guid::LinuxRootVerityLoongArch64 => "f3393b22-e9af-4613-a948-9d3bfbd0c535",
            Guid::LinuxRootVerityMIPS => "7a430799-f711-4c7e-8e5b-1d685bd48607",
            Guid::LinuxRootVerityMIPS64 => "579536f8-6a33-4055-a95a-df2d5e2c42a8",
            Guid::LinuxRootVerityMIPSEL => "d7d150d2-2a04-4a33-8f12-16651205ff7b",
            Guid::LinuxRootVerityMIPS64EL => "16b417f8-3e06-4f57-8dd2-9b5232f41aa6",
            Guid::LinuxRootVerityPARISC => "d212a430-fbc5-49f9-a983-a7feef2b8d0e",
            Guid::LinuxRootVerityPPC32 => "98cfe649-1588-46dc-b2f0-add147424925",
            Guid::LinuxRootVerityPPC64 => "9225a9a3-3c19-4d89-b4f6-eeff88f17631",
            Guid::LinuxRootVerityPPC64LE => "906bd944-4589-4aae-a4e4-dd983917446a",
            Guid::LinuxRootVerityRISCV32 => "ae0253be-1167-4007-ac68-43926c14c5de",
            Guid::LinuxRootVerityRISCV64 => "b6ed5582-440b-4209-b8da-5ff7c419ea3d",
            Guid::LinuxRootVerityS390 => "7ac63b47-b25c-463b-8df8-b4a94e6c90e1",
            Guid::LinuxRootVerityS390x => "b325bfbe-c7be-4ab8-8357-139e652d2f6b",
            Guid::LinuxRootVerityTILEGx => "966061ec-28e4-4b2e-b4a5-1f0a825a1d84",
            Guid::LinuxRootVerityx86 => "d13c5d3b-b5d1-422a-b29f-9454fdc89d76",
            Guid::LinuxRootVerityx86_64 => "2c7357ed-ebd2-46d9-aec1-23d437ec2bf5",
            Guid::LinuxUsrVerityAlpha => "8cce0d25-c0d0-4a44-bd87-46331bf1df67",
            Guid::LinuxUsrVerityARC => "fca0598c-d880-4591-8c16-4eda05c7347c",
            Guid::LinuxUsrVerityARM32 => "c215d751-7bcd-4649-be90-6627490a4c05",
            Guid::LinuxUsrVerityARM64 => "6e11a4e7-fbca-4ded-b9e9-e1a512bb664e",
            Guid::LinuxUsrVerityIA64 => "6a491e03-3be7-4545-8e38-83320e0ea880",
            Guid::LinuxUsrVerityLoongArch64 => "f46b2c26-59ae-48f0-9106-c50ed47f673d",
            Guid::LinuxUsrVerityMIPS => "6e5a1bc8-d223-49b7-bca8-37a5fcceb996",
            Guid::LinuxUsrVerityMIPS64 => "81cf9d90-7458-4df4-8dcf-c8a3a404f09b",
            Guid::LinuxUsrVerityMIPSEL => "46b98d8d-b55c-4e8f-aab3-37fca7f80752",
            Guid::LinuxUsrVerityMIPS64EL => "3c3d61fe-b5f3-414d-bb71-8739a694a4ef",
            Guid::LinuxUsrVerityPARISC => "5843d618-ec37-48d7-9f12-cea8e08768b2",
            Guid::LinuxUsrVerityPPC32 => "df765d00-270e-49e5-bc75-f47bb2118b09",
            Guid::LinuxUsrVerityPPC64 => "bdb528a5-a259-475f-a87d-da53fa736a07",
            Guid::LinuxUsrVerityPPC64LE => "ee2b9983-21e8-4153-86d9-b6901a54d1ce",
            Guid::LinuxUsrVerityRISCV32 => "cb1ee4e3-8cd0-4136-a0a4-aa61a32e8730",
            Guid::LinuxUsrVerityRISCV64 => "8f1056be-9b05-47c4-81d6-be53128e5b54",
            Guid::LinuxUsrVerityS390 => "b663c618-e7bc-4d6d-90aa-11b756bb1797",
            Guid::LinuxUsrVerityS390x => "31741cc4-1a2a-4111-a581-e00b447d2d06",
            Guid::LinuxUsrVerityTILEGx => "2fb4bf56-07fa-42da-8132-6b139f2026ae",
            Guid::LinuxUsrVerityx86 => "8f461b0d-14ee-4e81-9aa9-049b6fb97abd",
            Guid::LinuxUsrVerityx86_64 => "77ff5f63-e7b6-4633-acf4-1565b864c0e6",
            Guid::LinuxRootVeritySigAlpha => "d46495b7-a053-414f-80f7-700c99921ef8",
            Guid::LinuxRootVeritySigARC => "143a70ba-cbd3-4f06-919f-6c05683a78bc",
            Guid::LinuxRootVeritySigARM32 => "42b0455f-eb11-491d-98d3-56145ba9d037",
            Guid::LinuxRootVeritySigARM64 => "6db69de6-29f4-4758-a7a5-962190f00ce3",
            Guid::LinuxRootVeritySigIA64 => "e98b36ee-32ba-4882-9b12-0ce14655f46a",
            Guid::LinuxRootVeritySigLoongArch64 => "5afb67eb-ecc8-4f85-ae8e-ac1e7c50e7d0",
            Guid::LinuxRootVeritySigMIPS => "bba210a2-9c5d-45ee-9e87-ff2ccbd002d0",
            Guid::LinuxRootVeritySigMIPS64 => "43ce94d4-0f3d-4999-8250-b9deafd98e6e",
            Guid::LinuxRootVeritySigMIPSEL => "c919cc1f-4456-4eff-918c-f75e94525ca5",
            Guid::LinuxRootVeritySigMIPS64EL => "904e58ef-5c65-4a31-9c57-6af5fc7c5de7",
            Guid::LinuxRootVeritySigPARISC => "15de6170-65d3-431c-916e-b0dcd8393f25",
            Guid::LinuxRootVeritySigPPC32 => "1b31b5aa-add9-463a-b2ed-bd467fc857e7",
            Guid::LinuxRootVeritySigPPC64 => "f5e2c20c-45b2-4ffa-bce9-2a60737e1aaf",
            Guid::LinuxRootVeritySigPPC64LE => "d4a236e7-e873-4c07-bf1d-bf6cf7f1c3c6",
            Guid::LinuxRootVeritySigRISCV32 => "3a112a75-8729-4380-b4cf-764d79934448",
            Guid::LinuxRootVeritySigRISCV64 => "efe0f087-ea8d-4469-821a-4c2a96a8386a",
            Guid::LinuxRootVeritySigS390 => "3482388e-4254-435a-a241-766a065f9960",
            Guid::LinuxRootVeritySigS390x => "c80187a5-73a3-491a-901a-017c3fa953e9",
            Guid::LinuxRootVeritySigTILEGx => "b3671439-97b0-4a53-90f7-2d5a8f3ad47b",
            Guid::LinuxRootVeritySigx86 => "5996fc05-109c-48de-808b-23fa0830b676",
            Guid::LinuxRootVeritySigx86_64 => "41092b05-9fc8-4523-994f-2def0408b176",
            Guid::LinuxUsrVeritySigAlpha => "5c6e1c76-076a-457a-a0fe-f3b4cd21ce6e",
            Guid::LinuxUsrVeritySigARC => "94f9a9a1-9971-427a-a400-50cb297f0f35",
            Guid::LinuxUsrVeritySigARM32 => "d7ff812f-37d1-4902-a810-d76ba57b975a",
            Guid::LinuxUsrVeritySigARM64 => "c23ce4ff-44bd-4b00-b2d4-b41b3419e02a",
            Guid::LinuxUsrVeritySigIA64 => "8de58bc2-2a43-460d-b14e-a76e4a17b47f",
            Guid::LinuxUsrVeritySigLoongArch64 => "b024f315-d330-444c-8461-44bbde524e99",
            Guid::LinuxUsrVeritySigMIPS => "97ae158d-f216-497b-8057-f7f905770f54",
            Guid::LinuxUsrVeritySigMIPS64 => "05816ce2-dd40-4ac6-a61d-37d32dc1ba7d",
            Guid::LinuxUsrVeritySigMIPSEL => "3e23ca0b-a4bc-4b4e-8087-5ab6a26aa8a9",
            Guid::LinuxUsrVeritySigMIPS64EL => "f2c2c7ee-adcc-4351-b5c6-ee9816b66e16",
            Guid::LinuxUsrVeritySigPARISC => "450dd7d1-3224-45ec-9cf2-a43a346d71ee",
            Guid::LinuxUsrVeritySigPPC32 => "7007891d-d371-4a80-86a4-5cb875b9302e",
            Guid::LinuxUsrVeritySigPPC64 => "0b888863-d7f8-4d9e-9766-239fce4d58af",
            Guid::LinuxUsrVeritySigPPC64LE => "c8bfbd1e-268e-4521-8bba-bf314c399557",
            Guid::LinuxUsrVeritySigRISCV32 => "c3836a13-3137-45ba-b583-b16c50fe5eb4",
            Guid::LinuxUsrVeritySigRISCV64 => "d2f9000a-7a18-453f-b5cd-4d32f77a7b32",
            Guid::LinuxUsrVeritySigS390 => "17440e4f-a8d0-467f-a46e-3912ae6ef2c5",
            Guid::LinuxUsrVeritySigS390x => "3f324816-667b-46ae-86ee-9b0c0c6c11b4",
            Guid::LinuxUsrVeritySigTILEGx => "4ede75e2-6ccc-4cc8-b9c7-70334b087510",
            Guid::LinuxUsrVeritySigx86 => "974a71c0-de41-43c3-be5d-5c5ccd1ad2c0",
            Guid::LinuxUsrVeritySigx86_64 => "e7bb33fb-06cf-4e81-8273-e543b413e2e2",
            Guid::LinuxXBOOTLDR => "bc13c2ff-59e6-4262-a352-b275fd6f7172",
            Guid::LinuxSwap => "0657fd6d-a4ab-43c4-84e5-0933c84b4f4f",
            Guid::LinuxLVM => "e6d6d379-f507-44c2-a23c-238f2a3df928",
            Guid::LinuxHome => "933ac7e1-2eb4-4f13-b844-0e14e2aef915",
            Guid::LinuxServerData => "3b8f8425-20e0-4f3b-907f-1a25a76f98e8",
            Guid::LinuxPerUserHome => "773f91ef-66d4-49b5-bd83-d683bf40ad16",
            Guid::LinuxPlain => "7ffec5c9-2d00-49b7-8941-3ea10a5586b7",
            Guid::LinuxLUKS => "ca7d7ccb-63ed-4c53-861c-1742536059cc",
            Guid::LinuxReserved => "8da63339-0007-60c0-c436-083ac8230908",
            Guid::FreeBSDBoot => "83bd6b9d-7f41-11dc-be0b-001560b84f0f",
            Guid::FreeBSDDisklabel => "516e7cb4-6ecf-11d6-8ff8-00022d09712b",
            Guid::FreeBSDSwap => "516e7cb5-6ecf-11d6-8ff8-00022d09712b",
            Guid::FreeBSDUFS => "516e7cb6-6ecf-11d6-8ff8-00022d09712b",
            Guid::FreeBSDVinum => "516e7cb8-6ecf-11d6-8ff8-00022d09712b",
            Guid::FreeBSDZFS => "516e7cba-6ecf-11d6-8ff8-00022d09712b",
            Guid::FreeBSDnandfs => "74ba7dd9-a689-11e1-bd04-00e081286acf",
            Guid::MacOSHFSPlus => "48465300-0000-11aa-aa11-00306543ecac",
            Guid::MacOSAPFS => "7c3457ef-0000-11aa-aa11-00306543ecac",
            Guid::MacOSUFS => "55465300-0000-11aa-aa11-00306543ecac",
            Guid::MacOSRAID => "52414944-0000-11aa-aa11-00306543ecac",
            Guid::MacOSRAIDOffline => "52414944-5f4f-11aa-aa11-00306543ecac",
            Guid::MacOSBootRecovery => "426f6f74-0000-11aa-aa11-00306543ecac",
            Guid::MacOSLabel => "4c616265-6c00-11aa-aa11-00306543ecac",
            Guid::MacOSAppleTVRecovery => "5265636f-7665-11aa-aa11-00306543ecac",
            Guid::MacOSHFSPlusFileVault => "53746f72-6167-11aa-aa11-00306543ecac",
            Guid::MacOSAPFSPreboot => "69646961-6700-11aa-aa11-00306543ecac",
            Guid::MacOSAPFSRecovery => "52637672-7900-11aa-aa11-00306543ecac",
            Guid::SolarisBoot => "6a82cb45-1dd2-11b2-99a6-080020736631",
            Guid::SolarisRoot => "6a85cf4d-1dd2-11b2-99a6-080020736631",
            Guid::SolarisSwap => "6a87c46f-1dd2-11b2-99a6-080020736631",
            Guid::SolarisBackup => "6a8b642b-1dd2-11b2-99a6-080020736631",
            Guid::SolarisUsr => "6a898cc3-1dd2-11b2-99a6-080020736631",
            Guid::SolarisVar => "6a8ef2e9-1dd2-11b2-99a6-080020736631",
            Guid::SolarisHome => "6a90ba39-1dd2-11b2-99a6-080020736631",
            Guid::SolarisAlternateSector => "6a9283a5-1dd2-11b2-99a6-080020736631",
            Guid::SolarisReserved1 => "6a945a3b-1dd2-11b2-99a6-080020736631",
            Guid::SolarisReserved2 => "6a9630d1-1dd2-11b2-99a6-080020736631",
            Guid::SolarisReserved3 => "6a980767-1dd2-11b2-99a6-080020736631",
            Guid::SolarisReserved4 => "6a96237f-1dd2-11b2-99a6-080020736631",
            Guid::SolarisReserved5 => "6a8d2ac7-1dd2-11b2-99a6-080020736631",
            Guid::NetBSDSwap => "49f48d32-b10e-11dc-b99b-0019d1879648",
            Guid::NetBSDFFS => "49f48d5a-b10e-11dc-b99b-0019d1879648",
            Guid::NetBSDLFS => "49f48d82-b10e-11dc-b99b-0019d1879648",
            Guid::NetBSDRAID => "49f48daa-b10e-11dc-b99b-0019d1879648",
            Guid::NetBSDConcatenated => "2db519c4-b10f-11dc-b99b-0019d1879648",
            Guid::NetBSDEncrypted => "2db519ec-b10f-11dc-b99b-0019d1879648",
            Guid::ChromeOSKernel => "fe3a2a5d-4f32-41a7-b725-accc3285a309",
            Guid::ChromeOSRootFs => "3cb8e202-3b7e-47dd-8a3c-7ff2a13cfcec",
            Guid::ChromeOSFirmware => "cab6e88e-abf3-4102-a07a-d4bb9be3c1d3",
            Guid::ChromeOSFuture => "2e0a753d-9e48-43b0-8337-b15192cb1b5e",
            Guid::ChromeOSMiniOS => "09845860-705f-4bb5-b16c-8a8a099caf52",
            Guid::ChromeOSHibernate => "3f0f8318-f146-4e6b-8222-c28c8f02e0d5",
            Guid::CoreOSUsr => "5dfbf5f4-2848-4bac-aa5e-0d9a20b745a6",
            Guid::CoreOSResize => "3884dd41-8582-4404-b9a8-e9b84f2df50e",
            Guid::CoreOSReserved => "c95dc21a-df0e-4340-8d7b-26cbfa9a03e0",
            Guid::CoreOSRootRAID => "be9067b9-ea49-4f15-b4f6-f36f8c9e1818",
            Guid::HaikuBFS => "42465331-3ba3-10f1-802a-4861696b7521",
            Guid::MidnightBSDBoot => "85d5e45e-237c-11e1-b4b3-e89a8f7fc3a7",
            Guid::MidnightBSDData => "85d5e45a-237c-11e1-b4b3-e89a8f7fc3a7",
            Guid::MidnightBSDSwap => "85d5e45b-237c-11e1-b4b3-e89a8f7fc3a7",
            Guid::MidnightBSDUFS => "0394ef8b-237e-11e1-b4b3-e89a8f7fc3a7",
            Guid::MidnightBSDVinum => "85d5e45c-237c-11e1-b4b3-e89a8f7fc3a7",
            Guid::MidnightBSDZFS => "85d5e45d-237c-11e1-b4b3-e89a8f7fc3a7",
            Guid::CephJournal => "45b0969e-9b03-4f30-b4c6-b4b80ceff106",
            Guid::CephDMCryptJournal => "45b0969e-9b03-4f30-b4c6-5ec00ceff106",
            Guid::CephOSD => "4fbd7e29-9d25-41b8-afd0-062c0ceff05d",
            Guid::CephDMCryptOSD => "4fbd7e29-9d25-41b8-afd0-5ec00ceff05d",
            Guid::CephDisk => "89c57f98-2fe5-4dc0-89c1-f3ad0ceff2be",
            Guid::CephDMCryptDisk => "89c57f98-2fe5-4dc0-89c1-5ec00ceff2be",
            Guid::CephBlock => "cafecafe-9b03-4f30-b4c6-b4b80ceff106",
            Guid::CephBlockDB => "30cd0809-c2b2-499c-8879-2d6b78529876",
            Guid::CephBlockLog => "5ce17fce-4087-4169-b7ff-056cc58473f9",
            Guid::CephLockbox => "fb3aabf9-d25f-47cc-bf5e-721d1816496b",
            Guid::CephMultipathOSD => "4fbd7e29-8ae0-4982-bf9d-5a8d867af560",
            Guid::CephMultipathJournal => "45b0969e-8ae0-4982-bf9d-5a8d867af560",
            Guid::CephMultipathBlock1 => "cafecafe-8ae0-4982-bf9d-5a8d867af560",
            Guid::CephMultipathBlock2 => "7f4a666a-16f3-47a2-8445-152ef4d03f6c",
            Guid::CephMultipathBlockDB => "ec6d6385-e346-45dc-be91-da2a7c8b3261",
            Guid::CephMultipathLog => "01b41e1b-002a-453c-9f17-88793989ff8f",
            Guid::CephDMCryptBlock => "cafecafe-9b03-4f30-b4c6-5ec00ceff106",
            Guid::CephDMCryptBlockDB => "93b0052d-02d9-4d8a-a43b-33a3ee4dfbc3",
            Guid::CephDMCryptBlockLog => "306e8683-4fe2-4330-b7c0-00a917c16966",
            Guid::CephLUKSOSD => "4fbd7e29-9d25-41b8-afd0-35865ceff05d",
            Guid::CephLUKSJournal => "45b0969e-9b03-4f30-b4c6-35865ceff106",
            Guid::CephLUKSBlock => "cafecafe-9b03-4f30-b4c6-35865ceff106",
            Guid::CephLUKSBlockDB => "166418da-c469-4022-adf4-b30afd37f176",
            Guid::CephLUKSBlockLog => "86a32090-3647-40b9-bbbd-38d8c573aa86",
            Guid::OpenBSDData => "824cc7a0-36a8-11e3-890a-952519ad3f61",
            Guid::QNX6Fs => "cef5a9ad-73bc-4601-89f3-cdeeeee321a1",
            Guid::Plan9 => "c91818f9-8025-47af-89d2-f030d7000c2c",
            Guid::VMWareVMKCORE => "9d275380-40ad-11db-bf97-000c2911d1b8",
            Guid::VMWareVMFS => "aa31e02a-400f-11db-9590-000c2911d1b8",
            Guid::VMWareWmkReserved => "9198effc-31c0-11db-8f78-000c2911d1b8",
            Guid::AndroidBootloader => "2568845d-2332-4675-bc39-8fa5a4748d15",
            Guid::AndroidBootloader2 => "114eaffe-1552-4022-b26e-9b053604cf84",
            Guid::AndroidBoot => "49a4d17f-93a3-45c1-a0de-f50b2ebe2599",
            Guid::AndroidRecovery => "4177c722-9e92-4aab-8644-43502bfd5506",
            Guid::AndroidMisc => "ef32a33b-a409-486c-9141-9ffb711f6266",
            Guid::AndroidMetadata => "20ac26be-20b7-11e3-84c5-6cfdb94711e9",
            Guid::AndroidSystem => "38f428e6-d326-425d-9140-6e0ea133647c",
            Guid::AndroidCache => "a893ef21-e428-470a-9e55-0668fd91a2d9",
            Guid::AndroidData => "dc76dda9-5ac1-491c-af42-a82591580c0d",
            Guid::AndroidPersistent => "ebc597d0-2053-4b15-8b64-e0aac75f4db1",
            Guid::AndroidVendor => "c5a0aeec-13ea-11e5-a1b1-001e67ca0c3c",
            Guid::AndroidConfig => "bd59408b-4514-490d-bf12-9878d963f378",
            Guid::AndroidFactory => "8f68cc74-c5e5-48da-be91-a0c8c15e9c80",
            Guid::AndroidFactoryAlt => "9fdaa6ef-4b3f-40d2-ba8d-bff16bfb887b",
            Guid::AndroidFastboot => "767941d0-2085-11e3-ad3b-6cfdb94711e9",
            Guid::AndroidOEM => "ac6d7924-eb71-4df8-b48d-e267b27148ff",
            Guid::Android6Meta => "19a710a2-b3ca-11e4-b026-10604b889dcf",
            Guid::Android6Ext => "193d1ea4-b3ca-11e4-b075-10604b889dcf",
            Guid::ONIEBoot => "7412f7d5-a156-4b13-81dc-867174929325",
            Guid::ONIEConfig => "d4e6e2cd-4469-46f3-b5cb-1bff57afc149",
            Guid::PPCPrePBoot => "9e1a2d38-c612-4316-aa26-8b49521e5a8b",
            Guid::AtariTOSBasicData => "734e5afe-f61a-11e6-bc64-92361f002671",
            Guid::AtariTOSRawData => "35540011-b055-499f-842d-c69aeca357b7",
            Guid::VeraCryptEncrypted => "8c8f8eff-ac95-4770-814a-21994f2dbc8f",
            Guid::OS2ArcaOS => "90b6ff38-b98f-4358-a21f-48f35b4a8ad3",
            Guid::SPDK => "7c5222bd-8f5d-4087-9c00-bf9843c7b58c",
            Guid::BareboxState => "4778ed65-bf42-45fa-9c5b-287a1dc4aab1",
            Guid::UBootEnv => "3de21764-95bd-54bd-a5c3-4abe786f38a8",
            Guid::SoftRAIDStatus => "b6fa30da-92d2-4a9a-96f1-871ec6486200",
            Guid::SoftRAIDScratch => "2e313465-19b9-463f-8126-8a7993773801",
            Guid::SoftRAIDVolume => "fa709c7e-65b1-4593-bfd5-e71d61de9b02",
            Guid::SoftRAIDCache => "bbba6df5-f46f-4a89-8f59-8765b2727503",
            Guid::FuchsiaBoot => "fe8a2634-5e2e-46ba-99e3-3a192091a350",
            Guid::FuchsiaSystemData => "d9fd4535-106c-4cec-8d37-dfc020ca87cb",
            Guid::FuchsiaBootData => "a409e16b-78aa-4acc-995c-302352621a41",
            Guid::FuchsiaFactorySystemData => "f95d940e-caba-4578-9b93-bb6c90f29d3e",
            Guid::FuchsiaFactoryBootData => "10b8dbaa-d2bf-42a9-98c6-a7c5db3701e7",
            Guid::FuchsiaVolumeManager => "49fd7cb8-df15-4e73-b9d9-992070127f0f",
            Guid::FuchsiaVerifiedBoot => "421a8bfc-85d9-4d85-acda-b64eec0133e9",
            Guid::FuchsiaZirconBoot => "9b37fff6-2e58-466a-983a-f7926d0b04e0",
            Guid::FuchsiaLegacySystem => "606b000b-b7c7-4653-a7d5-b737332c899d",
            Guid::FuchsiaLegacyData => "08185f0c-892d-428a-a789-dbeec8f55e6a",
            Guid::FuchsiaLegacyInstall => "48435546-4953-2041-494e-5354414c4c52",
            Guid::FuchsiaLegacyBlob => "2967380e-134c-4cbb-b6da-17e7ce1ca45d",
            Guid::FuchsiaLegacyFVM => "41d0e340-57e3-954e-8c1e-17ecac44cff5",
            Guid::FuchsiaLegacyZirconBootSlotA => "de30cc86-1f4a-4a31-93c4-66f147d33e05",
            Guid::FuchsiaLegacyZirconBootSlotB => "23cc04df-c278-4ce7-8471-897d1a4bcdf7",
            Guid::FuchsiaLegacyZirconBootSlotR => "a0e5cf57-2def-46be-a80c-a2067c37cd49",
            Guid::FuchsiaLegacySysConfig => "4e5e989e-4c86-11e8-a15b-480fcf35f8e6",
            Guid::FuchsiaLegacyFactoryConfig => "5a3a90be-4c86-11e8-a15b-480fcf35f8e6",
            Guid::FuchsiaLegacyBoot => "5ece94fe-4c86-11e8-a15b-480fcf35f8e6",
            Guid::FuchsiaLegacyGuidTest => "8b94d043-30be-4871-9dfa-d69556e8c1f3",
            Guid::FuchsiaLegacyVerifiedBootSlotA => "a13b4d9a-ec5f-11e8-97d8-6c3be52705bf",
            Guid::FuchsiaLegacyVerifiedBootSlotB => "a288abf2-ec5f-11e8-97d8-6c3be52705bf",
            Guid::FuchsiaLegacyVerifiedBootSlotR => "6a2460c3-cd11-4e8b-80a8-12cce268ed0a",
            Guid::FuchsiaLegacyMisc => "1d75395d-f2c6-476b-a8b7-45cc1c97b476",
            Guid::FuchsiaLegacyEmmcBoot1 => "900b0fc5-90cd-4d4f-84f9-9f8ed579db88",
            Guid::FuchsiaLegacyEmmcBoot2 => "b2b2e8d1-7c10-4ebc-a2d0-4614568260ad",
            Guid::Minix => "481b2a38-0561-420b-b72a-f1c4988efc16",
        }
    }

    /// Returns the partition type at position `i` of the list of supported types.
    pub fn nth(i: usize) -> (g: Guid)
        requires
            i < GUID_COUNT,
        ensures
            g == Guid::at(i),
    {
        match i {
            0 => Guid::EmptyPartition,
            1 => Guid::MBRPartition,
            2 => Guid::EfiSystem,
            3 => Guid::BIOSBoot,
            4 => Guid::IntelFastFlash,
            5 => Guid::SonyBoot,
            6 => Guid::LenovoBoot,
            7 => Guid::MicrosoftReserved,
            8 => Guid::WindowsBasicData,
            9 => Guid::WindowsLDM,
            10 => Guid::WindowsLDMData,
            11 => Guid::WindowsRecovery,
            12 => Guid::IBMGPFS,
            13 => Guid::WindowsStorageSpaces,
            14 => Guid::WindowsStorageReplica,
            15 => Guid::HPUXData,
            16 => Guid::HPUXService,
            17 => Guid::LinuxData,
            18 => Guid::LinuxRaid,
            19 => Guid::LinuxRootAlpha,
            20 => Guid::LinuxRootARC,
            21 => Guid::LinuxRootARM32,
            22 => Guid::LinuxRootARM64,
            23 => Guid::LinuxRootIA64,
            24 => Guid::LinuxRootLoongArch64,
            25 => Guid::LinuxRootMIPS,
            26 => Guid::LinuxRootMIPS64,
            27 => Guid::LinuxRootMIPSEL,
            28 => Guid::LinuxRootMIPS64EL,
            29 => Guid::LinuxRootPARISC,
            30 => Guid::LinuxRootPPC32,
            31 => Guid::LinuxRootPPC64,
            32 => Guid::LinuxRootPPC64LE,
            33 => Guid::LinuxRootRISCV32,
            34 => Guid::LinuxRootRISCV64,
            35 => Guid::LinuxRootS390,
            36 => Guid::LinuxRootS390x,
            37 => Guid::LinuxRootTILEGx,
            38 => Guid::LinuxRootx86,
            39 => Guid::LinuxRootx86_64,
            40 => Guid::LinuxUsrAlpha,
            41 => Guid::LinuxUsrARC,
            42 => Guid::LinuxUsrARM32,
            43 => Guid::LinuxUsrARM64,
            44 => Guid::LinuxUsrIA64,
            45 => Guid::LinuxUsrLoongArch64,
            46 => Guid::LinuxUsrMIPS,
            47 => Guid::LinuxUsrMIPS64,
            48 => Guid::LinuxUsrMIPSEL,
            49 => Guid::LinuxUsrMIPS64EL,
            50 => Guid::LinuxUsrPARISC,
            51 => Guid::LinuxUsrPPC32,
            52 => Guid::LinuxUsrPPC64,
            53 => Guid::LinuxUsrPPC64LE,
            54 => Guid::LinuxUsrRISCV32,
            55 => Guid::LinuxUsrRISCV64,
            56 => Guid::LinuxUsrS390,
            57 => Guid::LinuxUsrS390x,
            58 => Guid::LinuxUsrTILEGx,
            59 => Guid::LinuxUsrx86,
            60 => Guid::LinuxUsrx86_64,
            61 => Guid::LinuxRootVerityAlpha,
            62 => Guid::LinuxRootVerityARC,
            63 => Guid::LinuxRootVerityARM32,
            64 => Guid::LinuxRootVerityARM64,
            65 => Guid::LinuxRootVerityIA64,
            66 => Guid::LinuxRootVerityLoongArch64,
            67 => Guid::LinuxRootVerityMIPS,
            68 => Guid::LinuxRootVerityMIPS64,
            69 => Guid::LinuxRootVerityMIPSEL,
            70 => Guid::LinuxRootVerityMIPS64EL,
            71 => Guid::LinuxRootVerityPARISC,
            72 => Guid::LinuxRootVerityPPC32,
            73 => Guid::LinuxRootVerityPPC64,
            74 => Guid::LinuxRootVerityPPC64LE,
            75 => Guid::LinuxRootVerityRISCV32,
            76 => Guid::LinuxRootVerityRISCV64,
            77 => Guid::LinuxRootVerityS390,
            78 => Guid::LinuxRootVerityS390x,
            79 => Guid::LinuxRootVerityTILEGx,
            80 => Guid::LinuxRootVerityx86,
            81 => Guid::LinuxRootVerityx86_64,
            82 => Guid::LinuxUsrVerityAlpha,
            83 => Guid::LinuxUsrVerityARC,
            84 => Guid::LinuxUsrVerityARM32,
            85 => Guid::LinuxUsrVerityARM64,
            86 => Guid::LinuxUsrVerityIA64,
            87 => Guid::LinuxUsrVerityLoongArch64,
            88 => Guid::LinuxUsrVerityMIPS,
            89 => Guid::LinuxUsrVerityMIPS64,
            90 => Guid::LinuxUsrVerityMIPSEL,
            91 => Guid::LinuxUsrVerityMIPS64EL,
            92 => Guid::LinuxUsrVerityPARISC,
            93 => Guid::LinuxUsrVerityPPC32,
            94 => Guid::LinuxUsrVerityPPC64,
            95 => Guid::LinuxUsrVerityPPC64LE,
            96 => Guid::LinuxUsrVerityRISCV32,
            97 => Guid::LinuxUsrVerityRISCV64,
            98 => Guid::LinuxUsrVerityS390,
            99 => Guid::LinuxUsrVerityS390x,
            100 => Guid::LinuxUsrVerityTILEGx,
            101 => Guid::LinuxUsrVerityx86,
            102 => Guid::LinuxUsrVerityx86_64,
            103 => Guid::LinuxRootVeritySigAlpha,
            104 => Guid::LinuxRootVeritySigARC,
            105 => Guid::LinuxRootVeritySigARM32,
            106 => Guid::LinuxRootVeritySigARM64,
            107 => Guid::LinuxRootVeritySigIA64,
            108 => Guid::LinuxRootVeritySigLoongArch64,
            109 => Guid::LinuxRootVeritySigMIPS,
            110 => Guid::LinuxRootVeritySigMIPS64,
            111 => Guid::LinuxRootVeritySigMIPSEL,
            112 => Guid::LinuxRootVeritySigMIPS64EL,
            113 => Guid::LinuxRootVeritySigPARISC,
            114 => Guid::LinuxRootVeritySigPPC32,
            115 => Guid::LinuxRootVeritySigPPC64,
            116 => Guid::LinuxRootVeritySigPPC64LE,
            117 => Guid::LinuxRootVeritySigRISCV32,
            118 => Guid::LinuxRootVeritySigRISCV64,
            119 => Guid::LinuxRootVeritySigS390,
            120 => Guid::LinuxRootVeritySigS390x,
            121 => Guid::LinuxRootVeritySigTILEGx,
            122 => Guid::LinuxRootVeritySigx86,
            123 => Guid::LinuxRootVeritySigx86_64,
            124 => Guid::LinuxUsrVeritySigAlpha,
            125 => Guid::LinuxUsrVeritySigARC,
            126 => Guid::LinuxUsrVeritySigARM32,
            127 => Guid::LinuxUsrVeritySigARM64,
            128 => Guid::LinuxUsrVeritySigIA64,
            129 => Guid::LinuxUsrVeritySigLoongArch64,
            130 => Guid::LinuxUsrVeritySigMIPS,
            131 => Guid::LinuxUsrVeritySigMIPS64,
            132 => Guid::LinuxUsrVeritySigMIPSEL,
            133 => Guid::LinuxUsrVeritySigMIPS64EL,
            134 => Guid::LinuxUsrVeritySigPARISC,
            135 => Guid::LinuxUsrVeritySigPPC32,
            136 => Guid::LinuxUsrVeritySigPPC64,
            137 => Guid::LinuxUsrVeritySigPPC64LE,
            138 => Guid::LinuxUsrVeritySigRISCV32,
            139 => Guid::LinuxUsrVeritySigRISCV64,
            140 => Guid::LinuxUsrVeritySigS390,
            141 => Guid::LinuxUsrVeritySigS390x,
            142 => Guid::LinuxUsrVeritySigTILEGx,
            143 => Guid::LinuxUsrVeritySigx86,
            144 => Guid::LinuxUsrVeritySigx86_64,
            145 => Guid::LinuxXBOOTLDR,
            146 => Guid::LinuxSwap,
            147 => Guid::LinuxLVM,
            148 => Guid::LinuxHome,
            149 => Guid::LinuxServerData,
            150 => Guid::LinuxPerUserHome,
            151 => Guid::LinuxPlain,
            152 => Guid::LinuxLUKS,
            153 => Guid::LinuxReserved,
            154 => Guid::FreeBSDBoot,
            155 => Guid::FreeBSDDisklabel,
            156 => Guid::FreeBSDSwap,
            157 => Guid::FreeBSDUFS,
            158 => Guid::FreeBSDVinum,
            159 => Guid::FreeBSDZFS,
            160 => Guid::FreeBSDnandfs,
            161 => Guid::MacOSHFSPlus,
            162 => Guid::MacOSAPFS,
            163 => Guid::MacOSUFS,
            164 => Guid::MacOSRAID,
            165 => Guid::MacOSRAIDOffline,
            166 => Guid::MacOSBootRecovery,
            167 => Guid::MacOSLabel,
            168 => Guid::MacOSAppleTVRecovery,
            169 => Guid::MacOSHFSPlusFileVault,
            170 => Guid::MacOSAPFSPreboot,
            171 => Guid::MacOSAPFSRecovery,
            172 => Guid::SolarisBoot,
            173 => Guid::SolarisRoot,
            174 => Guid::SolarisSwap,
            175 => Guid::SolarisBackup,
            176 => Guid::SolarisUsr,
            177 => Guid::SolarisVar,
            178 => Guid::SolarisHome,
            179 => Guid::SolarisAlternateSector,
            180 => Guid::SolarisReserved1,
            181 => Guid::SolarisReserved2,
            182 => Guid::SolarisReserved3,
            183 => Guid::SolarisReserved4,
            184 => Guid::SolarisReserved5,
            185 => Guid::NetBSDSwap,
            186 => Guid::NetBSDFFS,
            187 => Guid::NetBSDLFS,
            188 => Guid::NetBSDRAID,
            189 => Guid::NetBSDConcatenated,
            190 => Guid::NetBSDEncrypted,
            191 => Guid::ChromeOSKernel,
            192 => Guid::ChromeOSRootFs,
            193 => Guid::ChromeOSFirmware,
            194 => Guid::ChromeOSFuture,
            195 => Guid::ChromeOSMiniOS,
            196 => Guid::ChromeOSHibernate,
            197 => Guid::CoreOSUsr,
            198 => Guid::CoreOSResize,
            199 => Guid::CoreOSReserved,
            200 => Guid::CoreOSRootRAID,
            201 => Guid::HaikuBFS,
            202 => Guid::MidnightBSDBoot,
            203 => Guid::MidnightBSDData,
            204 => Guid::MidnightBSDSwap,
            205 => Guid::MidnightBSDUFS,
            206 => Guid::MidnightBSDVinum,
            207 => Guid::MidnightBSDZFS,
            208 => Guid::CephJournal,
            209 => Guid::CephDMCryptJournal,
            210 => Guid::CephOSD,
            211 => Guid::CephDMCryptOSD,
            212 => Guid::CephDisk,
            213 => Guid::CephDMCryptDisk,
            214 => Guid::CephBlock,
            215 => Guid::CephBlockDB,
            216 => Guid::CephBlockLog,
            217 => Guid::CephLockbox,
            218 => Guid::CephMultipathOSD,
            219 => Guid::CephMultipathJournal,
            220 => Guid::CephMultipathBlock1,
            221 => Guid::CephMultipathBlock2,
            222 => Guid::CephMultipathBlockDB,
            223 => Guid::CephMultipathLog,
            224 => Guid::CephDMCryptBlock,
            225 => Guid::CephDMCryptBlockDB,
            226 => Guid::CephDMCryptBlockLog,
            227 => Guid::CephLUKSOSD,
            228 => Guid::CephLUKSJournal,
            229 => Guid::CephLUKSBlock,
            230 => Guid::CephLUKSBlockDB,
            231 => Guid::CephLUKSBlockLog,
            232 => Guid::OpenBSDData,
            233 => Guid::QNX6Fs,
            234 => Guid::Plan9,
            235 => Guid::VMWareVMKCORE,
            236 => Guid::VMWareVMFS,
            237 => Guid::VMWareWmkReserved,
            238 => Guid::AndroidBootloader,
            239 => Guid::AndroidBootloader2,
            240 => Guid::AndroidBoot,
            241 => Guid::AndroidRecovery,
            242 => Guid::AndroidMisc,
            243 => Guid::AndroidMetadata,
            244 => Guid::AndroidSystem,
            245 => Guid::AndroidCache,
            246 => Guid::AndroidData,
            247 => Guid::AndroidPersistent,
            248 => Guid::AndroidVendor,
            249 => Guid::AndroidConfig,
            250 => Guid::AndroidFactory,
            251 => Guid::AndroidFactoryAlt,
            252 => Guid::AndroidFastboot,
            253 => Guid::AndroidOEM,
            254 => Guid::Android6Meta,
            255 => Guid::Android6Ext,
            256 => Guid::ONIEBoot,
            257 => Guid::ONIEConfig,
            258 => Guid::PPCPrePBoot,
            259 => Guid::AtariTOSBasicData,
            260 => Guid::AtariTOSRawData,
            261 => Guid::VeraCryptEncrypted,
            262 => Guid::OS2ArcaOS,
            263 => Guid::SPDK,
            264 => Guid::BareboxState,
            265 => Guid::UBootEnv,
            266 => Guid::SoftRAIDStatus,
            267 => Guid::SoftRAIDScratch,
            268 => Guid::SoftRAIDVolume,
            269 => Guid::SoftRAIDCache,
            270 => Guid::FuchsiaBoot,
            271 => Guid::FuchsiaSystemData,
            272 => Guid::FuchsiaBootData,
            273 => Guid::FuchsiaFactorySystemData,
            274 => Guid::FuchsiaFactoryBootData,
            275 => Guid::FuchsiaVolumeManager,
            276 => Guid::FuchsiaVerifiedBoot,
            277 => Guid::FuchsiaZirconBoot,
            278 => Guid::FuchsiaLegacySystem,
            279 => Guid::FuchsiaLegacyData,
            280 => Guid::FuchsiaLegacyInstall,
            281 => Guid::FuchsiaLegacyBlob,
            282 => Guid::FuchsiaLegacyFVM,
            283 => Guid::FuchsiaLegacyZirconBootSlotA,
            284 => Guid::FuchsiaLegacyZirconBootSlotB,
            285 => Guid::FuchsiaLegacyZirconBootSlotR,
            286 => Guid::FuchsiaLegacySysConfig,
            287 => Guid::FuchsiaLegacyFactoryConfig,
            288 => Guid::FuchsiaLegacyBoot,
            289 => Guid::FuchsiaLegacyGuidTest,
            290 => Guid::FuchsiaLegacyVerifiedBootSlotA,
            291 => Guid::FuchsiaLegacyVerifiedBootSlotB,
            292 => Guid::FuchsiaLegacyVerifiedBootSlotR,
            293 => Guid::FuchsiaLegacyMisc,
            294 => Guid::FuchsiaLegacyEmmcBoot1,
            295 => Guid::FuchsiaLegacyEmmcBoot2,
            _ => Guid::Minix,
        }
    }
}

/// Every partition type sits at its own position of the list of supported types.
pub proof fn lemma_guid_index(g: Guid)
    ensures
        0 <= g.index() < GUID_COUNT,
        Guid::at(g.index()) == g,
{
}

/// 128-bit identifiers and partition types correspond one to one.
pub proof fn lemma_guid_value_roundtrip(g: Guid)
    ensures
        Guid::from_value(g.value()) == Some(g),
{
}

proof fn lemma_guid_text_part0(g: Guid)
    requires
        g == Guid::EmptyPartition || g == Guid::MBRPartition || g == Guid::EfiSystem || g == Guid::BIOSBoot || g == Guid::IntelFastFlash || g == Guid::SonyBoot || g == Guid::LenovoBoot || g == Guid::MicrosoftReserved,
    ensures
        is_uuid_text(g.text()),
        uuid_text_value(g.text()) == g.value() as int,
{
    reveal(is_uuid_text);
    reveal(uuid_text_value);
    match g {
        Guid::EmptyPartition => {
            reveal_strlit("00000000-0000-0000-0000-000000000000");
        },
        Guid::MBRPartition => {
            reveal_strlit("024dee41-33e7-11d3-9d69-0008c781f39f");
        },
        Guid::EfiSystem => {
            reveal_strlit("c12a7328-f81f-11d2-ba4b-00a0c93ec93b");
        },
        Guid::BIOSBoot => {
            reveal_strlit("21686148-6449-6e6f-744e-656564454649");
        },
        Guid::IntelFastFlash => {
            reveal_strlit("d3bfe2de-3daf-11df-ba40-e3a556d89593");
        },
        Guid::SonyBoot => {
            reveal_strlit("f4019732-066e-4e12-8273-346c5641494f");
        },
        Guid::LenovoBoot => {
            reveal_strlit("bfbfafe7-a34f-448a-9a5b-6213eb736c22");
        },
        Guid::MicrosoftReserved => {
            reveal_strlit("e3c9e316-0b5c-4db8-817d-f92df00215ae");
        },
        _ => {},
    }
}

proof fn lemma_guid_text_part1(g: Guid)
    requires
        g == Guid::WindowsBasicData || g == Guid::WindowsLDM || g == Guid::WindowsLDMData || g == Guid::WindowsRecovery || g == Guid::IBMGPFS || g == Guid::WindowsStorageSpaces || g == Guid::WindowsStorageReplica || g == Guid::HPUXData,
    ensures
        is_uuid_text(g.text()),
        uuid_text_value(g.text()) == g.value() as int,
{
    reveal(is_uuid_text);
    reveal(uuid_text_value);
    match g {
        Guid::WindowsBasicData => {
            reveal_strlit("ebd0a0a2-b9e5-4433-87c0-68b6b72699c7");
        },
        Guid::WindowsLDM => {
            reveal_strlit("5808c8aa-7e8f-42e0-85d2-e1e90434cfb3");
        },
        Guid::WindowsLDMData => {
            reveal_strlit("af9b60a0-1431-4f62-bc68-3311714a69ad");
        },
        Guid::WindowsRecovery => {
            reveal_strlit("de94bba4-06d1-4d40-a16a-bfd50179d6ac");
        },
        Guid::IBMGPFS => {
            reveal_strlit("37affc90-ef7d-4e96-91c3-2d7ae055b174");
        },
        Guid::WindowsStorageSpaces => {
            reveal_strlit("e75caf8f-f680-4cee-afa3-b001e56efc2d");
        },
        Guid::WindowsStorageReplica => {
            reveal_strlit("558d43c5-a1ac-43c0-aac8-d1472b2923d1");
        },
        Guid::HPUXData => {
            reveal_strlit("75894c1e-3aeb-11d3-b7c1-7b03a0000000");
        },
        _ => {},
    }
}

proof fn lemma_guid_text_part2(g: Guid)
    requires
        g == Guid::HPUXService || g == Guid::LinuxData || g == Guid::LinuxRaid || g == Guid::LinuxRootAlpha || g == Guid::LinuxRootARC || g == Guid::LinuxRootARM32 || g == Guid::LinuxRootARM64 || g == Guid::LinuxRootIA64,
    ensures
        is_uuid_text(g.text()),
        uuid_text_value(g.text()) == g.value() as int,
{
    reveal(is_uuid_text);
    reveal(uuid_text_value);
    match g {
        Guid::HPUXService => {
            reveal_strlit("e2a1e728-32e3-11d6-a682-7b03a0000000");
        },
        Guid::LinuxData => {
            reveal_strlit("0fc63daf-8483-4772-8e79-3d69d8477de4");
        },
        Guid::LinuxRaid => {
            reveal_strlit("a19d880f-05fc-4d3b-a006-743f0f84911e");
        },
        Guid::LinuxRootAlpha => {
            reveal_strlit("6523f8ae-3eb1-4e2a-a05a-18b695ae656f");
        },
        Guid::LinuxRootARC => {
            reveal_strlit("d27f46ed-2919-4cb8-bd25-9531f3c16534");
        },
        Guid::LinuxRootARM32 => {
            reveal_strlit("69dad710-2ce4-4e3c-b16c-21a1d49abed3");
        },
        Guid::LinuxRootARM64 => {
            reveal_strlit("b921b045-1df0-41c3-af44-4c6f280d3fae");
        },
        Guid::LinuxRootIA64 => {
            reveal_strlit("993d8d3d-f80e-4225-855a-9daf8ed7ea97");
        },
        _ => {},
    }
}

proof fn lemma_guid_text_part3(g: Guid)
    requires
        g == Guid::LinuxRootLoongArch64 || g == Guid::LinuxRootMIPS || g == Guid::LinuxRootMIPS64 || g == Guid::LinuxRootMIPSEL || g == Guid::LinuxRootMIPS64EL || g == Guid::LinuxRootPARISC || g == Guid::LinuxRootPPC32 || g == Guid::LinuxRootPPC64,
    ensures
        is_uuid_text(g.text()),
        uuid_text_value(g.text()) == g.value() as int,
{
    reveal(is_uuid_text);
    reveal(uuid_text_value);
    match g {
        Guid::LinuxRootLoongArch64 => {
            reveal_strlit("77055800-792c-4f94-b39a-98c91b762bb6");
        },
        Guid::LinuxRootMIPS => {
            reveal_strlit("e9434544-6e2c-47cc-bae2-12d6deafb44c");
        },
        Guid::LinuxRootMIPS64 => {
            reveal_strlit("d113af76-80ef-41b4-bdb6-0cff4d3d4a25");
        },
        Guid::LinuxRootMIPSEL => {
            reveal_strlit("37c58c8a-d913-4156-a25f-48b1b64e07f0");
        },
        Guid::LinuxRootMIPS64EL => {
            reveal_strlit("700bda43-7a34-4507-b179-eeb93d7a7ca3");
        },
        Guid::LinuxRootPARISC => {
            reveal_strlit("1aacdb3b-5444-4138-bd9e-e5c2239b2346");
        },
        Guid::LinuxRootPPC32 => {
            reveal_strlit("1de3f1ef-fa98-47b5-8dcd-4a860a654d78");
        },
        Guid::LinuxRootPPC64 => {
            reveal_strlit("912ade1d-a839-4913-8964-a10eee08fbd2");
        },
        _ => {},
    }
}

proof fn lemma_guid_text_part4(g: Guid)
    requires
        g == Guid::LinuxRootPPC64LE || g == Guid::LinuxRootRISCV32 || g == Guid::LinuxRootRISCV64 || g == Guid::LinuxRootS390 || g == Guid::LinuxRootS390x || g == Guid::LinuxRootTILEGx || g == Guid::LinuxRootx86 || g == Guid::LinuxRootx86_64,
    ensures
        is_uuid_text(g.text()),
        uuid_text_value(g.text()) == g.value() as int,
{
    reveal(is_uuid_text);
    reveal(uuid_text_value);
    match g {
        Guid::LinuxRootPPC64LE => {
            reveal_strlit("c31c45e6-3f39-412e-80fb-4809c4980599");
        },
        Guid::LinuxRootRISCV32 => {
            reveal_strlit("60d5a7fe-8e7d-435c-b714-3dd8162144e1");
        },
        Guid::LinuxRootRISCV64 => {
            reveal_strlit("72ec70a6-cf74-40e6-bd49-4bda08e8f224");
        },
        Guid::LinuxRootS390 => {
            reveal_strlit("08a7acea-624c-4a20-91e8-6e0fa67d23f9");
        },
        Guid::LinuxRootS390x => {
            reveal_strlit("5eead9a9-fe09-4a1e-a1d7-520d00531306");
        },
        Guid::LinuxRootTILEGx => {
            reveal_strlit("c50cdd70-3862-4cc3-90e1-809a8c93ee2c");
        },
        Guid::LinuxRootx86 => {
            reveal_strlit("44479540-f297-41b2-9af7-d131d5f0458a");
        },
        Guid::LinuxRootx86_64 => {
            reveal_strlit("4f68bce3-e8cd-4db1-96e7-fbcaf984b709");
        },
        _ => {},
    }
}

proof fn lemma_guid_text_part5(g: Guid)
    requires
        g == Guid::LinuxUsrAlpha || g == Guid::LinuxUsrARC || g == Guid::LinuxUsrARM32 || g == Guid::LinuxUsrARM64 || g == Guid::LinuxUsrIA64 || g == Guid::LinuxUsrLoongArch64 || g == Guid::LinuxUsrMIPS || g == Guid::LinuxUsrMIPS64,
    ensures
        is_uuid_text(g.text()),
        uuid_text_value(g.text()) == g.value() as int,
{
    reveal(is_uuid_text);
    reveal(uuid_text_value);
    match g {
        Guid::LinuxUsrAlpha => {
            reveal_strlit("e18cf08c-33ec-4c0d-8246-c6c6fb3da024");
        },
        Guid::LinuxUsrARC => {
            reveal_strlit("7978a683-6316-4922-bbee-38bff5a2fecc");
        },
        Guid::LinuxUsrARM32 => {
            reveal_strlit("7d0359a3-02b3-4f0a-865c-654403e70625");
        },
        Guid::LinuxUsrARM64 => {
            reveal_strlit("b0e01050-ee5f-4390-949a-9101b17104e9");
        },
        Guid::LinuxUsrIA64 => {
            reveal_strlit("4301d2a6-4e3b-4b2a-bb94-9e0b2c4225ea");
        },
        Guid::LinuxUsrLoongArch64 => {
            reveal_strlit("e611c702-575c-4cbe-9a46-434fa0bf7e3f");
        },
        Guid::LinuxUsrMIPS => {
            reveal_strlit("773b2abc-2a99-4398-8bf5-03baac40d02b");
        },
        Guid::LinuxUsrMIPS64 => {
            reveal_strlit("57e13958-7331-4365-8e6e-35eeee17c61b");
        },
        _ => {},
    }
}

proof fn lemma_guid_text_part6(g: Guid)
    requires
        g == Guid::LinuxUsrMIPSEL || g == Guid::LinuxUsrMIPS64EL || g == Guid::LinuxUsrPARISC || g == Guid::LinuxUsrPPC32 || g == Guid::LinuxUsrPPC64 || g == Guid::LinuxUsrPPC64LE || g == Guid::LinuxUsrRISCV32 || g == Guid::LinuxUsrRISCV64,
    ensures
        is_uuid_text(g.text()),
        uuid_text_value(g.text()) == g.value() as int,
{
    reveal(is_uuid_text);
    reveal(uuid_text_value);
    match g {
        Guid::LinuxUsrMIPSEL => {
            reveal_strlit("0f4868e9-9952-4706-979f-3ed3a473e947");
        },
        Guid::LinuxUsrMIPS64EL => {
            reveal_strlit("c97c1f32-ba06-40b4-9f22-236061b08aa8");
        },
        Guid::LinuxUsrPARISC => {
            reveal_strlit("dc4a4480-6917-4262-a4ec-db9384949f25");
        },
        Guid::LinuxUsrPPC32 => {
            reveal_strlit("7d14fec5-cc71-415d-9d6c-06bf0b3c3eaf");
        },
        Guid::LinuxUsrPPC64 => {
            reveal_strlit("2c9739e2-f068-46b3-9fd0-01c5a9afbcca");
        },
        Guid::LinuxUsrPPC64LE => {
            reveal_strlit("15bb03af-77e7-4d4a-b12b-c0d084f7491c");
        },
        Guid::LinuxUsrRISCV32 => {
            reveal_strlit("b933fb22-5c3f-4f91-af90-e2bb0fa50702");
        },
        Guid::LinuxUsrRISCV64 => {
            reveal_strlit("beaec34b-8442-439b-a40b-984381ed097d");
        },
        _ => {},
    }
}

proof fn lemma_guid_text_part7(g: Guid)
    requires
        g == Guid::LinuxUsrS390 || g == Guid::LinuxUsrS390x || g == Guid::LinuxUsrTILEGx || g == Guid::LinuxUsrx86 || g == Guid::LinuxUsrx86_64 || g == Guid::LinuxRootVerityAlpha || g == Guid::LinuxRootVerityARC || g == Guid::LinuxRootVerityARM32,
    ensures
        is_uuid_text(g.text()),
        uuid_text_value(g.text()) == g.value() as int,
{
    reveal(is_uuid_text);
    reveal(uuid_text_value);
    match g {
        Guid::LinuxUsrS390 => {
            reveal_strlit("cd0f869b-d0fb-4ca0-b141-9ea87cc78d66");
        },
        Guid::LinuxUsrS390x => {
            reveal_strlit("8a4f5770-50aa-4ed3-874a-99b710db6fea");
        },
        Guid::LinuxUsrTILEGx => {
            reveal_strlit("55497029-c7c1-44cc-aa39-815ed1558630");
        },
        Guid::LinuxUsrx86 => {
            reveal_strlit("75250d76-8cc6-458e-bd66-bd47cc81a812");
        },
        Guid::LinuxUsrx86_64 => {
            reveal_strlit("8484680c-9521-48c6-9c11-b0720656f69e");
        },
        Guid::LinuxRootVerityAlpha => {
            reveal_strlit("fc56d9e9-e6e5-4c06-be32-e74407ce09a5");
        },
        Guid::LinuxRootVerityARC => {
            reveal_strlit("24b2d975-0f97-4521-afa1-cd531e421b8d");
        },
        Guid::LinuxRootVerityARM32 => {
            reveal_strlit("7386cdf2-203c-47a9-a498-f2ecce45a2d6");
        },
        _ => {},
    }
}

proof fn lemma_guid_text_part8(g: Guid)
    requires
        g == Guid::LinuxRootVerityARM64 || g == Guid::LinuxRootVerityIA64 || g == Guid::LinuxRootVerityLoongArch64 || g == Guid::LinuxRootVerityMIPS || g == Guid::LinuxRootVerityMIPS64 || g == Guid::LinuxRootVerityMIPSEL || g == Guid::LinuxRootVerityMIPS64EL || g == Guid::LinuxRootVerityPARISC,
    ensures
        is_uuid_text(g.text()),
        uuid_text_value(g.text()) == g.value() as int,
{
    reveal(is_uuid_text);
    reveal(uuid_text_value);
    match g {
        Guid::LinuxRootVerityARM64 => {
            reveal_strlit("df3300ce-d69f-4c92-978c-9bfb0f38d820");
        },
        Guid::LinuxRootVerityIA64 => {
            reveal_strlit("86ed10d5-b607-45bb-8957-d350f23d0571");
        },
        Guid::LinuxRootVerityLoongArch64 => {
            reveal_strlit("f3393b22-e9af-4613-a948-9d3bfbd0c535");
        },
        Guid::LinuxRootVerityMIPS => {
            reveal_strlit("7a430799-f711-4c7e-8e5b-1d685bd48607");
        },
        Guid::LinuxRootVerityMIPS64 => {
            reveal_strlit("579536f8-6a33-4055-a95a-df2d5e2c42a8");
        },
        Guid::LinuxRootVerityMIPSEL => {
            reveal_strlit("d7d150d2-2a04-4a33-8f12-16651205ff7b");
        },
        Guid::LinuxRootVerityMIPS64EL => {
            reveal_strlit("16b417f8-3e06-4f57-8dd2-9b5232f41aa6");
        },
        Guid::LinuxRootVerityPARISC => {
            reveal_strlit("d212a430-fbc5-49f9-a983-a7feef2b8d0e");
        },
        _ => {},
    }
}

proof fn lemma_guid_text_part9(g: Guid)
    requires
        g == Guid::LinuxRootVerityPPC32 || g == Guid::LinuxRootVerityPPC64 || g == Guid::LinuxRootVerityPPC64LE || g == Guid::LinuxRootVerityRISCV32 || g == Guid::LinuxRootVerityRISCV64 || g == Guid::LinuxRootVerityS390 || g == Guid::LinuxRootVerityS390x || g == Guid::LinuxRootVerityTILEGx,
    ensures
        is_uuid_text(g.text()),
        uuid_text_value(g.text()) == g.value() as int,
{
    reveal(is_uuid_text);
    reveal(uuid_text_value);
    match g {
        Guid::LinuxRootVerityPPC32 => {
            reveal_strlit("98cfe649-1588-46dc-b2f0-add147424925");
        },
        Guid::LinuxRootVerityPPC64 => {
            reveal_strlit("9225a9a3-3c19-4d89-b4f6-eeff88f17631");
        },
        Guid::LinuxRootVerityPPC64LE => {
            reveal_strlit("906bd944-4589-4aae-a4e4-dd983917446a");
        },
        Guid::LinuxRootVerityRISCV32 => {
            reveal_strlit("ae0253be-1167-4007-ac68-43926c14c5de");
        },
        Guid::LinuxRootVerityRISCV64 => {
            reveal_strlit("b6ed5582-440b-4209-b8da-5ff7c419ea3d");
        },
        Guid::LinuxRootVerityS390 => {
            reveal_strlit("7ac63b47-b25c-463b-8df8-b4a94e6c90e1");
        },
        Guid::LinuxRootVerityS390x => {
            reveal_strlit("b325bfbe-c7be-4ab8-8357-139e652d2f6b");
        },
        Guid::LinuxRootVerityTILEGx => {
            reveal_strlit("966061ec-28e4-4b2e-b4a5-1f0a825a1d84");
        },
        _ => {},
    }
}

proof fn lemma_guid_text_part10(g: Guid)
    requires
        g == Guid::LinuxRootVerityx86 || g == Guid::LinuxRootVerityx86_64 || g == Guid::LinuxUsrVerityAlpha || g == Guid::LinuxUsrVerityARC || g == Guid::LinuxUsrVerityARM32 || g == Guid::LinuxUsrVerityARM64 || g == Guid::LinuxUsrVerityIA64 || g == Guid::LinuxUsrVerityLoongArch64,
    ensures
        is_uuid_text(g.text()),
        uuid_text_value(g.text()) == g.value() as int,
{
    reveal(is_uuid_text);
    reveal(uuid_text_value);
    match g {
        Guid::LinuxRootVerityx86 => {
            reveal_strlit("d13c5d3b-b5d1-422a-b29f-9454fdc89d76");
        },
        Guid::LinuxRootVerityx86_64 => {
            reveal_strlit("2c7357ed-ebd2-46d9-aec1-23d437ec2bf5");
        },
        Guid::LinuxUsrVerityAlpha => {
            reveal_strlit("8cce0d25-c0d0-4a44-bd87-46331bf1df67");
        },
        Guid::LinuxUsrVerityARC => {
            reveal_strlit("fca0598c-d880-4591-8c16-4eda05c7347c");
        },
        Guid::LinuxUsrVerityARM32 => {
            reveal_strlit("c215d751-7bcd-4649-be90-6627490a4c05");
        },
        Guid::LinuxUsrVerityARM64 => {
            reveal_strlit("6e11a4e7-fbca-4ded-b9e9-e1a512bb664e");
        },
        Guid::LinuxUsrVerityIA64 => {
            reveal_strlit("6a491e03-3be7-4545-8e38-83320e0ea880");
        },
        Guid::LinuxUsrVerityLoongArch64 => {
            reveal_strlit("f46b2c26-59ae-48f0-9106-c50ed47f673d");
        },
        _ => {},
    }
}

proof fn lemma_guid_text_part11(g: Guid)
    requires
        g == Guid::LinuxUsrVerityMIPS || g == Guid::LinuxUsrVerityMIPS64 || g == Guid::LinuxUsrVerityMIPSEL || g == Guid::LinuxUsrVerityMIPS64EL || g == Guid::LinuxUsrVerityPARISC || g == Guid::LinuxUsrVerityPPC32 || g == Guid::LinuxUsrVerityPPC64 || g == Guid::LinuxUsrVerityPPC64LE,
    ensures
        is_uuid_text(g.text()),
        uuid_text_value(g.text()) == g.value() as int,
{
    reveal(is_uuid_text);
    reveal(uuid_text_value);
    match g {
        Guid::LinuxUsrVerityMIPS => {
            reveal_strlit("6e5a1bc8-d223-49b7-bca8-37a5fcceb996");
        },
        Guid::LinuxUsrVerityMIPS64 => {
            reveal_strlit("81cf9d90-7458-4df4-8dcf-c8a3a404f09b");
        },
        Guid::LinuxUsrVerityMIPSEL => {
            reveal_strlit("46b98d8d-b55c-4e8f-aab3-37fca7f80752");
        },
        Guid::LinuxUsrVerityMIPS64EL => {
            reveal_strlit("3c3d61fe-b5f3-414d-bb71-8739a694a4ef");
        },
        Guid::LinuxUsrVerityPARISC => {
            reveal_strlit("5843d618-ec37-48d7-9f12-cea8e08768b2");
        },
        Guid::LinuxUsrVerityPPC32 => {
            reveal_strlit("df765d00-270e-49e5-bc75-f47bb2118b09");
        },
        Guid::LinuxUsrVerityPPC64 => {
            reveal_strlit("bdb528a5-a259-475f-a87d-da53fa736a07");
        },
        Guid::LinuxUsrVerityPPC64LE => {
            reveal_strlit("ee2b9983-21e8-4153-86d9-b6901a54d1ce");
        },
        _ => {},
    }
}

proof fn lemma_guid_text_part12(g: Guid)
    requires
        g == Guid::LinuxUsrVerityRISCV32 || g == Guid::LinuxUsrVerityRISCV64 || g == Guid::LinuxUsrVerityS390 || g == Guid::LinuxUsrVerityS390x || g == Guid::LinuxUsrVerityTILEGx || g == Guid::LinuxUsrVerityx86 || g == Guid::LinuxUsrVerityx86_64 || g == Guid::LinuxRootVeritySigAlpha,
    ensures
        is_uuid_text(g.text()),
        uuid_text_value(g.text()) == g.value() as int,
{
    reveal(is_uuid_text);
    reveal(uuid_text_value);
    match g {
        Guid::LinuxUsrVerityRISCV32 => {
            reveal_strlit("cb1ee4e3-8cd0-4136-a0a4-aa61a32e8730");
        },
        Guid::LinuxUsrVerityRISCV64 => {
            reveal_strlit("8f1056be-9b05-47c4-81d6-be53128e5b54");
        },
        Guid::LinuxUsrVerityS390 => {
            reveal_strlit("b663c618-e7bc-4d6d-90aa-11b756bb1797");
        },
        Guid::LinuxUsrVerityS390x => {
            reveal_strlit("31741cc4-1a2a-4111-a581-e00b447d2d06");
        },
        Guid::LinuxUsrVerityTILEGx => {
            reveal_strlit("2fb4bf56-07fa-42da-8132-6b139f2026ae");
        },
        Guid::LinuxUsrVerityx86 => {
            reveal_strlit("8f461b0d-14ee-4e81-9aa9-049b6fb97abd");
        },
        Guid::LinuxUsrVerityx86_64 => {
            reveal_strlit("77ff5f63-e7b6-4633-acf4-1565b864c0e6");
        },
        Guid::LinuxRootVeritySigAlpha => {
            reveal_strlit("d46495b7-a053-414f-80f7-700c99921ef8");
        },
        _ => {},
    }
}

proof fn lemma_guid_text_part13(g: Guid)
    requires
        g == Guid::LinuxRootVeritySigARC || g == Guid::LinuxRootVeritySigARM32 || g == Guid::LinuxRootVeritySigARM64 || g == Guid::LinuxRootVeritySigIA64 || g == Guid::LinuxRootVeritySigLoongArch64 || g == Guid::LinuxRootVeritySigMIPS || g == Guid::LinuxRootVeritySigMIPS64 || g == Guid::LinuxRootVeritySigMIPSEL,
    ensures
        is_uuid_text(g.text()),
        uuid_text_value(g.text()) == g.value() as int,
{
    reveal(is_uuid_text);
    reveal(uuid_text_value);
    match g {
        Guid::LinuxRootVeritySigARC => {
            reveal_strlit("143a70ba-cbd3-4f06-919f-6c05683a78bc");
        },
        Guid::LinuxRootVeritySigARM32 => {
            reveal_strlit("42b0455f-eb11-491d-98d3-56145ba9d037");
        },
        Guid::LinuxRootVeritySigARM64 => {
            reveal_strlit("6db69de6-29f4-4758-a7a5-962190f00ce3");
        },
        Guid::LinuxRootVeritySigIA64 => {
            reveal_strlit("e98b36ee-32ba-4882-9b12-0ce14655f46a");
        },
        Guid::LinuxRootVeritySigLoongArch64 => {
            reveal_strlit("5afb67eb-ecc8-4f85-ae8e-ac1e7c50e7d0");
        },
        Guid::LinuxRootVeritySigMIPS => {
            reveal_strlit("bba210a2-9c5d-45ee-9e87-ff2ccbd002d0");
        },
        Guid::LinuxRootVeritySigMIPS64 => {
            reveal_strlit("43ce94d4-0f3d-4999-8250-b9deafd98e6e");
        },
        Guid::LinuxRootVeritySigMIPSEL => {
            reveal_strlit("c919cc1f-4456-4eff-918c-f75e94525ca5");
        },
        _ => {},
    }
}

proof fn lemma_guid_text_part14(g: Guid)
    requires
        g == Guid::LinuxRootVeritySigMIPS64EL || g == Guid::LinuxRootVeritySigPARISC || g == Guid::LinuxRootVeritySigPPC32 || g == Guid::LinuxRootVeritySigPPC64 || g == Guid::LinuxRootVeritySigPPC64LE || g == Guid::LinuxRootVeritySigRISCV32 || g == Guid::LinuxRootVeritySigRISCV64 || g == Guid::LinuxRootVeritySigS390,
    ensures
        is_uuid_text(g.text()),
        uuid_text_value(g.text()) == g.value() as int,
{
    reveal(is_uuid_text);
    reveal(uuid_text_value);
    match g {
        Guid::LinuxRootVeritySigMIPS64EL => {
            reveal_strlit("904e58ef-5c65-4a31-9c57-6af5fc7c5de7");
        },
        Guid::LinuxRootVeritySigPARISC => {
            reveal_strlit("15de6170-65d3-431c-916e-b0dcd8393f25");
        },
        Guid::LinuxRootVeritySigPPC32 => {
            reveal_strlit("1b31b5aa-add9-463a-b2ed-bd467fc857e7");
        },
        Guid::LinuxRootVeritySigPPC64 => {
            reveal_strlit("f5e2c20c-45b2-4ffa-bce9-2a60737e1aaf");
        },
        Guid::LinuxRootVeritySigPPC64LE => {
            reveal_strlit("d4a236e7-e873-4c07-bf1d-bf6cf7f1c3c6");
        },
        Guid::LinuxRootVeritySigRISCV32 => {
            reveal_strlit("3a112a75-8729-4380-b4cf-764d79934448");
        },
        Guid::LinuxRootVeritySigRISCV64 => {
            reveal_strlit("efe0f087-ea8d-4469-821a-4c2a96a8386a");
        },
        Guid::LinuxRootVeritySigS390 => {
            reveal_strlit("3482388e-4254-435a-a241-766a065f9960");
        },
        _ => {},
    }
}

proof fn lemma_guid_text_part15(g: Guid)
    requires
        g == Guid::LinuxRootVeritySigS390x || g == Guid::LinuxRootVeritySigTILEGx || g == Guid::LinuxRootVeritySigx86 || g == Guid::LinuxRootVeritySigx86_64 || g == Guid::LinuxUsrVeritySigAlpha || g == Guid::LinuxUsrVeritySigARC || g == Guid::LinuxUsrVeritySigARM32 || g == Guid::LinuxUsrVeritySigARM64,
    ensures
        is_uuid_text(g.text()),
        uuid_text_value(g.text()) == g.value() as int,
{
    reveal(is_uuid_text);
    reveal(uuid_text_value);
    match g {
        Guid::LinuxRootVeritySigS390x => {
            reveal_strlit("c80187a5-73a3-491a-901a-017c3fa953e9");
        },
        Guid::LinuxRootVeritySigTILEGx => {
            reveal_strlit("b3671439-97b0-4a53-90f7-2d5a8f3ad47b");
        },
        Guid::LinuxRootVeritySigx86 => {
            reveal_strlit("5996fc05-109c-48de-808b-23fa0830b676");
        },
        Guid::LinuxRootVeritySigx86_64 => {
            reveal_strlit("41092b05-9fc8-4523-994f-2def0408b176");
        },
        Guid::LinuxUsrVeritySigAlpha => {
            reveal_strlit("5c6e1c76-076a-457a-a0fe-f3b4cd21ce6e");
        },
        Guid::LinuxUsrVeritySigARC => {
            reveal_strlit("94f9a9a1-9971-427a-a400-50cb297f0f35");
        },
        Guid::LinuxUsrVeritySigARM32 => {
            reveal_strlit("d7ff812f-37d1-4902-a810-d76ba57b975a");
        },
        Guid::LinuxUsrVeritySigARM64 => {
            reveal_strlit("c23ce4ff-44bd-4b00-b2d4-b41b3419e02a");
        },
        _ => {},
    }
}

proof fn lemma_guid_text_part16(g: Guid)
    requires
        g == Guid::LinuxUsrVeritySigIA64 || g == Guid::LinuxUsrVeritySigLoongArch64 || g == Guid::LinuxUsrVeritySigMIPS || g == Guid::LinuxUsrVeritySigMIPS64 || g == Guid::LinuxUsrVeritySigMIPSEL || g == Guid::LinuxUsrVeritySigMIPS64EL || g == Guid::LinuxUsrVeritySigPARISC || g == Guid::LinuxUsrVeritySigPPC32,
    ensures
        is_uuid_text(g.text()),
        uuid_text_value(g.text()) == g.value() as int,
{
    reveal(is_uuid_text);
    reveal(uuid_text_value);
    match g {
        Guid::LinuxUsrVeritySigIA64 => {
            reveal_strlit("8de58bc2-2a43-460d-b14e-a76e4a17b47f");
        },
        Guid::LinuxUsrVeritySigLoongArch64 => {
            reveal_strlit("b024f315-d330-444c-8461-44bbde524e99");
        },
        Guid::LinuxUsrVeritySigMIPS => {
            reveal_strlit("97ae158d-f216-497b-8057-f7f905770f54");
        },
        Guid::LinuxUsrVeritySigMIPS64 => {
            reveal_strlit("05816ce2-dd40-4ac6-a61d-37d32dc1ba7d");
        },
        Guid::LinuxUsrVeritySigMIPSEL => {
            reveal_strlit("3e23ca0b-a4bc-4b4e-8087-5ab6a26aa8a9");
        },
        Guid::LinuxUsrVeritySigMIPS64EL => {
            reveal_strlit("f2c2c7ee-adcc-4351-b5c6-ee9816b66e16");
        },
        Guid::LinuxUsrVeritySigPARISC => {
            reveal_strlit("450dd7d1-3224-45ec-9cf2-a43a346d71ee");
        },
        Guid::LinuxUsrVeritySigPPC32 => {
            reveal_strlit("7007891d-d371-4a80-86a4-5cb875b9302e");
        },
        _ => {},
    }
}

proof fn lemma_guid_text_part17(g: Guid)
    requires
        g == Guid::LinuxUsrVeritySigPPC64 || g == Guid::LinuxUsrVeritySigPPC64LE || g == Guid::LinuxUsrVeritySigRISCV32 || g == Guid::LinuxUsrVeritySigRISCV64 || g == Guid::LinuxUsrVeritySigS390 || g == Guid::LinuxUsrVeritySigS390x || g == Guid::LinuxUsrVeritySigTILEGx || g == Guid::LinuxUsrVeritySigx86,
    ensures
        is_uuid_text(g.text()),
        uuid_text_value(g.text()) == g.value() as int,
{
    reveal(is_uuid_text);
    reveal(uuid_text_value);
    match g {
        Guid::LinuxUsrVeritySigPPC64 => {
            reveal_strlit("0b888863-d7f8-4d9e-9766-239fce4d58af");
        },
        Guid::LinuxUsrVeritySigPPC64LE => {
            reveal_strlit("c8bfbd1e-268e-4521-8bba-bf314c399557");
        },
        Guid::LinuxUsrVeritySigRISCV32 => {
            reveal_strlit("c3836a13-3137-45ba-b583-b16c50fe5eb4");
        },
        Guid::LinuxUsrVeritySigRISCV64 => {
            reveal_strlit("d2f9000a-7a18-453f-b5cd-4d32f77a7b32");
        },
        Guid::LinuxUsrVeritySigS390 => {
            reveal_strlit("17440e4f-a8d0-467f-a46e-3912ae6ef2c5");
        },
        Guid::LinuxUsrVeritySigS390x => {
            reveal_strlit("3f324816-667b-46ae-86ee-9b0c0c6c11b4");
        },
        Guid::LinuxUsrVeritySigTILEGx => {
            reveal_strlit("4ede75e2-6ccc-4cc8-b9c7-70334b087510");
        },
        Guid::LinuxUsrVeritySigx86 => {
            reveal_strlit("974a71c0-de41-43c3-be5d-5c5ccd1ad2c0");
        },
        _ => {},
    }
}

proof fn lemma_guid_text_part18(g: Guid)
    requires
        g == Guid::LinuxUsrVeritySigx86_64 || g == Guid::LinuxXBOOTLDR || g == Guid::LinuxSwap || g == Guid::LinuxLVM || g == Guid::LinuxHome || g == Guid::LinuxServerData || g == Guid::LinuxPerUserHome || g == Guid::LinuxPlain,
    ensures
        is_uuid_text(g.text()),
        uuid_text_value(g.text()) == g.value() as int,
{
    reveal(is_uuid_text);
    reveal(uuid_text_value);
    match g {
        Guid::LinuxUsrVeritySigx86_64 => {
            reveal_strlit("e7bb33fb-06cf-4e81-8273-e543b413e2e2");
        },
        Guid::LinuxXBOOTLDR => {
            reveal_strlit("bc13c2ff-59e6-4262-a352-b275fd6f7172");
        },
        Guid::LinuxSwap => {
            reveal_strlit("0657fd6d-a4ab-43c4-84e5-0933c84b4f4f");
        },
        Guid::LinuxLVM => {
            reveal_strlit("e6d6d379-f507-44c2-a23c-238f2a3df928");
        },
        Guid::LinuxHome => {
            reveal_strlit("933ac7e1-2eb4-4f13-b844-0e14e2aef915");
        },
        Guid::LinuxServerData => {
            reveal_strlit("3b8f8425-20e0-4f3b-907f-1a25a76f98e8");
        },
        Guid::LinuxPerUserHome => {
            reveal_strlit("773f91ef-66d4-49b5-bd83-d683bf40ad16");
        },
        Guid::LinuxPlain => {
            reveal_strlit("7ffec5c9-2d00-49b7-8941-3ea10a5586b7");
        },
        _ => {},
    }
}

proof fn lemma_guid_text_part19(g: Guid)
    requires
        g == Guid::LinuxLUKS || g == Guid::LinuxReserved || g == Guid::FreeBSDBoot || g == Guid::FreeBSDDisklabel || g == Guid::FreeBSDSwap || g == Guid::FreeBSDUFS || g == Guid::FreeBSDVinum || g == Guid::FreeBSDZFS,
    ensures
        is_uuid_text(g.text()),
        uuid_text_value(g.text()) == g.value() as int,
{
    reveal(is_uuid_text);
    reveal(uuid_text_value);
    match g {
        Guid::LinuxLUKS => {
            reveal_strlit("ca7d7ccb-63ed-4c53-861c-1742536059cc");
        },
        Guid::LinuxReserved => {
            reveal_strlit("8da63339-0007-60c0-c436-083ac8230908");
        },
        Guid::FreeBSDBoot => {
            reveal_strlit("83bd6b9d-7f41-11dc-be0b-001560b84f0f");
        },
        Guid::FreeBSDDisklabel => {
            reveal_strlit("516e7cb4-6ecf-11d6-8ff8-00022d09712b");
        },
        Guid::FreeBSDSwap => {
            reveal_strlit("516e7cb5-6ecf-11d6-8ff8-00022d09712b");
        },
        Guid::FreeBSDUFS => {
            reveal_strlit("516e7cb6-6ecf-11d6-8ff8-00022d09712b");
        },
        Guid::FreeBSDVinum => {
            reveal_strlit("516e7cb8-6ecf-11d6-8ff8-00022d09712b");
        },
        Guid::FreeBSDZFS => {
            reveal_strlit("516e7cba-6ecf-11d6-8ff8-00022d09712b");
        },
        _ => {},
    }
}

proof fn lemma_guid_text_part20(g: Guid)
    requires
        g == Guid::FreeBSDnandfs || g == Guid::MacOSHFSPlus || g == Guid::MacOSAPFS || g == Guid::MacOSUFS || g == Guid::MacOSRAID || g == Guid::MacOSRAIDOffline || g == Guid::MacOSBootRecovery || g == Guid::MacOSLabel,
    ensures
        is_uuid_text(g.text()),
        uuid_text_value(g.text()) == g.value() as int,
{
    reveal(is_uuid_text);
    reveal(uuid_text_value);
    match g {
        Guid::FreeBSDnandfs => {
            reveal_strlit("74ba7dd9-a689-11e1-bd04-00e081286acf");
        },
        Guid::MacOSHFSPlus => {
            reveal_strlit("48465300-0000-11aa-aa11-00306543ecac");
        },
        Guid::MacOSAPFS => {
            reveal_strlit("7c3457ef-0000-11aa-aa11-00306543ecac");
        },
        Guid::MacOSUFS => {
            reveal_strlit("55465300-0000-11aa-aa11-00306543ecac");
        },
        Guid::MacOSRAID => {
            reveal_strlit("52414944-0000-11aa-aa11-00306543ecac");
        },
        Guid::MacOSRAIDOffline => {
            reveal_strlit("52414944-5f4f-11aa-aa11-00306543ecac");
        },
        Guid::MacOSBootRecovery => {
            reveal_strlit("426f6f74-0000-11aa-aa11-00306543ecac");
        },
        Guid::MacOSLabel => {
            reveal_strlit("4c616265-6c00-11aa-aa11-00306543ecac");
        },
        _ => {},
    }
}

proof fn lemma_guid_text_part21(g: Guid)
    requires
        g == Guid::MacOSAppleTVRecovery || g == Guid::MacOSHFSPlusFileVault || g == Guid::MacOSAPFSPreboot || g == Guid::MacOSAPFSRecovery || g == Guid::SolarisBoot || g == Guid::SolarisRoot || g == Guid::SolarisSwap || g == Guid::SolarisBackup,
    ensures
        is_uuid_text(g.text()),
        uuid_text_value(g.text()) == g.value() as int,
{
    reveal(is_uuid_text);
    reveal(uuid_text_value);
    match g {
        Guid::MacOSAppleTVRecovery => {
            reveal_strlit("5265636f-7665-11aa-aa11-00306543ecac");
        },
        Guid::MacOSHFSPlusFileVault => {
            reveal_strlit("53746f72-6167-11aa-aa11-00306543ecac");
        },
        Guid::MacOSAPFSPreboot => {
            reveal_strlit("69646961-6700-11aa-aa11-00306543ecac");
        },
        Guid::MacOSAPFSRecovery => {
            reveal_strlit("52637672-7900-11aa-aa11-00306543ecac");
        },
        Guid::SolarisBoot => {
            reveal_strlit("6a82cb45-1dd2-11b2-99a6-080020736631");
        },
        Guid::SolarisRoot => {
            reveal_strlit("6a85cf4d-1dd2-11b2-99a6-080020736631");
        },
        Guid::SolarisSwap => {
            reveal_strlit("6a87c46f-1dd2-11b2-99a6-080020736631");
        },
        Guid::SolarisBackup => {
            reveal_strlit("6a8b642b-1dd2-11b2-99a6-080020736631");
        },
        _ => {},
    }
}

proof fn lemma_guid_text_part22(g: Guid)
    requires
        g == Guid::SolarisUsr || g == Guid::SolarisVar || g == Guid::SolarisHome || g == Guid::SolarisAlternateSector || g == Guid::SolarisReserved1 || g == Guid::SolarisReserved2 || g == Guid::SolarisReserved3 || g == Guid::SolarisReserved4,
    ensures
        is_uuid_text(g.text()),
        uuid_text_value(g.text()) == g.value() as int,
{
    reveal(is_uuid_text);
    reveal(uuid_text_value);
    match g {
        Guid::SolarisUsr => {
            reveal_strlit("6a898cc3-1dd2-11b2-99a6-080020736631");
        },
        Guid::SolarisVar => {
            reveal_strlit("6a8ef2e9-1dd2-11b2-99a6-080020736631");
        },
        Guid::SolarisHome => {
            reveal_strlit("6a90ba39-1dd2-11b2-99a6-080020736631");
        },
        Guid::SolarisAlternateSector => {
            reveal_strlit("6a9283a5-1dd2-11b2-99a6-080020736631");
        },
        Guid::SolarisReserved1 => {
            reveal_strlit("6a945a3b-1dd2-11b2-99a6-080020736631");
        },
        Guid::SolarisReserved2 => {
            reveal_strlit("6a9630d1-1dd2-11b2-99a6-080020736631");
        },
        Guid::SolarisReserved3 => {
            reveal_strlit("6a980767-1dd2-11b2-99a6-080020736631");
        },
        Guid::SolarisReserved4 => {
            reveal_strlit("6a96237f-1dd2-11b2-99a6-080020736631");
        },
        _ => {},
    }
}

proof fn lemma_guid_text_part23(g: Guid)
    requires
        g == Guid::SolarisReserved5 || g == Guid::NetBSDSwap || g == Guid::NetBSDFFS || g == Guid::NetBSDLFS || g == Guid::NetBSDRAID || g == Guid::NetBSDConcatenated || g == Guid::NetBSDEncrypted || g == Guid::ChromeOSKernel,
    ensures
        is_uuid_text(g.text()),
        uuid_text_value(g.text()) == g.value() as int,
{
    reveal(is_uuid_text);
    reveal(uuid_text_value);
    match g {
        Guid::SolarisReserved5 => {
            reveal_strlit("6a8d2ac7-1dd2-11b2-99a6-080020736631");
        },
        Guid::NetBSDSwap => {
            reveal_strlit("49f48d32-b10e-11dc-b99b-0019d1879648");
        },
        Guid::NetBSDFFS => {
            reveal_strlit("49f48d5a-b10e-11dc-b99b-0019d1879648");
        },
        Guid::NetBSDLFS => {
            reveal_strlit("49f48d82-b10e-11dc-b99b-0019d1879648");
        },
        Guid::NetBSDRAID => {
            reveal_strlit("49f48daa-b10e-11dc-b99b-0019d1879648");
        },
        Guid::NetBSDConcatenated => {
            reveal_strlit("2db519c4-b10f-11dc-b99b-0019d1879648");
        },
        Guid::NetBSDEncrypted => {
            reveal_strlit("2db519ec-b10f-11dc-b99b-0019d1879648");
        },
        Guid::ChromeOSKernel => {
            reveal_strlit("fe3a2a5d-4f32-41a7-b725-accc3285a309");
        },
        _ => {},
    }
}

proof fn lemma_guid_text_part24(g: Guid)
    requires
        g == Guid::ChromeOSRootFs || g == Guid::ChromeOSFirmware || g == Guid::ChromeOSFuture || g == Guid::ChromeOSMiniOS || g == Guid::ChromeOSHibernate || g == Guid::CoreOSUsr || g == Guid::CoreOSResize || g == Guid::CoreOSReserved,
    ensures
        is_uuid_text(g.text()),
        uuid_text_value(g.text()) == g.value() as int,
{
    reveal(is_uuid_text);
    reveal(uuid_text_value);
    match g {
        Guid::ChromeOSRootFs => {
            reveal_strlit("3cb8e202-3b7e-47dd-8a3c-7ff2a13cfcec");
        },
        Guid::ChromeOSFirmware => {
            reveal_strlit("cab6e88e-abf3-4102-a07a-d4bb9be3c1d3");
        },
        Guid::ChromeOSFuture => {
            reveal_strlit("2e0a753d-9e48-43b0-8337-b15192cb1b5e");
        },
        Guid::ChromeOSMiniOS => {
            reveal_strlit("09845860-705f-4bb5-b16c-8a8a099caf52");
        },
        Guid::ChromeOSHibernate => {
            reveal_strlit("3f0f8318-f146-4e6b-8222-c28c8f02e0d5");
        },
        Guid::CoreOSUsr => {
            reveal_strlit("5dfbf5f4-2848-4bac-aa5e-0d9a20b745a6");
        },
        Guid::CoreOSResize => {
            reveal_strlit("3884dd41-8582-4404-b9a8-e9b84f2df50e");
        },
        Guid::CoreOSReserved => {
            reveal_strlit("c95dc21a-df0e-4340-8d7b-26cbfa9a03e0");
        },
        _ => {},
    }
}

proof fn lemma_guid_text_part25(g: Guid)
    requires
        g == Guid::CoreOSRootRAID || g == Guid::HaikuBFS || g == Guid::MidnightBSDBoot || g == Guid::MidnightBSDData || g == Guid::MidnightBSDSwap || g == Guid::MidnightBSDUFS || g == Guid::MidnightBSDVinum || g == Guid::MidnightBSDZFS,
    ensures
        is_uuid_text(g.text()),
        uuid_text_value(g.text()) == g.value() as int,
{
    reveal(is_uuid_text);
    reveal(uuid_text_value);
    match g {
        Guid::CoreOSRootRAID => {
            reveal_strlit("be9067b9-ea49-4f15-b4f6-f36f8c9e1818");
        },
        Guid::HaikuBFS => {
            reveal_strlit("42465331-3ba3-10f1-802a-4861696b7521");
        },
        Guid::MidnightBSDBoot => {
            reveal_strlit("85d5e45e-237c-11e1-b4b3-e89a8f7fc3a7");
        },
        Guid::MidnightBSDData => {
            reveal_strlit("85d5e45a-237c-11e1-b4b3-e89a8f7fc3a7");
        },
        Guid::MidnightBSDSwap => {
            reveal_strlit("85d5e45b-237c-11e1-b4b3-e89a8f7fc3a7");
        },
        Guid::MidnightBSDUFS => {
            reveal_strlit("0394ef8b-237e-11e1-b4b3-e89a8f7fc3a7");
        },
        Guid::MidnightBSDVinum => {
            reveal_strlit("85d5e45c-237c-11e1-b4b3-e89a8f7fc3a7");
        },
        Guid::MidnightBSDZFS => {
            reveal_strlit("85d5e45d-237c-11e1-b4b3-e89a8f7fc3a7");
        },
        _ => {},
    }
}

proof fn lemma_guid_text_part26(g: Guid)
    requires
        g == Guid::CephJournal || g == Guid::CephDMCryptJournal || g == Guid::CephOSD || g == Guid::CephDMCryptOSD || g == Guid::CephDisk || g == Guid::CephDMCryptDisk || g == Guid::CephBlock || g == Guid::CephBlockDB,
    ensures
        is_uuid_text(g.text()),
        uuid_text_value(g.text()) == g.value() as int,
{
    reveal(is_uuid_text);
    reveal(uuid_text_value);
    match g {
        Guid::CephJournal => {
            reveal_strlit("45b0969e-9b03-4f30-b4c6-b4b80ceff106");
        },
        Guid::CephDMCryptJournal => {
            reveal_strlit("45b0969e-9b03-4f30-b4c6-5ec00ceff106");
        },
        Guid::CephOSD => {
            reveal_strlit("4fbd7e29-9d25-41b8-afd0-062c0ceff05d");
        },
        Guid::CephDMCryptOSD => {
            reveal_strlit("4fbd7e29-9d25-41b8-afd0-5ec00ceff05d");
        },
        Guid::CephDisk => {
            reveal_strlit("89c57f98-2fe5-4dc0-89c1-f3ad0ceff2be");
        },
        Guid::CephDMCryptDisk => {
            reveal_strlit("89c57f98-2fe5-4dc0-89c1-5ec00ceff2be");
        },
        Guid::CephBlock => {
            reveal_strlit("cafecafe-9b03-4f30-b4c6-b4b80ceff106");
        },
        Guid::CephBlockDB => {
            reveal_strlit("30cd0809-c2b2-499c-8879-2d6b78529876");
        },
        _ => {},
    }
}

proof fn lemma_guid_text_part27(g: Guid)
    requires
        g == Guid::CephBlockLog || g == Guid::CephLockbox || g == Guid::CephMultipathOSD || g == Guid::CephMultipathJournal || g == Guid::CephMultipathBlock1 || g == Guid::CephMultipathBlock2 || g == Guid::CephMultipathBlockDB || g == Guid::CephMultipathLog,
    ensures
        is_uuid_text(g.text()),
        uuid_text_value(g.text()) == g.value() as int,
{
    reveal(is_uuid_text);
    reveal(uuid_text_value);
    match g {
        Guid::CephBlockLog => {
            reveal_strlit("5ce17fce-4087-4169-b7ff-056cc58473f9");
        },
        Guid::CephLockbox => {
            reveal_strlit("fb3aabf9-d25f-47cc-bf5e-721d1816496b");
        },
        Guid::CephMultipathOSD => {
            reveal_strlit("4fbd7e29-8ae0-4982-bf9d-5a8d867af560");
        },
        Guid::CephMultipathJournal => {
            reveal_strlit("45b0969e-8ae0-4982-bf9d-5a8d867af560");
        },
        Guid::CephMultipathBlock1 => {
            reveal_strlit("cafecafe-8ae0-4982-bf9d-5a8d867af560");
        },
        Guid::CephMultipathBlock2 => {
            reveal_strlit("7f4a666a-16f3-47a2-8445-152ef4d03f6c");
        },
        Guid::CephMultipathBlockDB => {
            reveal_strlit("ec6d6385-e346-45dc-be91-da2a7c8b3261");
        },
        Guid::CephMultipathLog => {
            reveal_strlit("01b41e1b-002a-453c-9f17-88793989ff8f");
        },
        _ => {},
    }
}

proof fn lemma_guid_text_part28(g: Guid)
    requires
        g == Guid::CephDMCryptBlock || g == Guid::CephDMCryptBlockDB || g == Guid::CephDMCryptBlockLog || g == Guid::CephLUKSOSD || g == Guid::CephLUKSJournal || g == Guid::CephLUKSBlock || g == Guid::CephLUKSBlockDB || g == Guid::CephLUKSBlockLog,
    ensures
        is_uuid_text(g.text()),
        uuid_text_value(g.text()) == g.value() as int,
{
    reveal(is_uuid_text);
    reveal(uuid_text_value);
    match g {
        Guid::CephDMCryptBlock => {
            reveal_strlit("cafecafe-9b03-4f30-b4c6-5ec00ceff106");
        },
        Guid::CephDMCryptBlockDB => {
            reveal_strlit("93b0052d-02d9-4d8a-a43b-33a3ee4dfbc3");
        },
        Guid::CephDMCryptBlockLog => {
            reveal_strlit("306e8683-4fe2-4330-b7c0-00a917c16966");
        },
        Guid::CephLUKSOSD => {
            reveal_strlit("4fbd7e29-9d25-41b8-afd0-35865ceff05d");
        },
        Guid::CephLUKSJournal => {
            reveal_strlit("45b0969e-9b03-4f30-b4c6-35865ceff106");
        },
        Guid::CephLUKSBlock => {
            reveal_strlit("cafecafe-9b03-4f30-b4c6-35865ceff106");
        },
        Guid::CephLUKSBlockDB => {
            reveal_strlit("166418da-c469-4022-adf4-b30afd37f176");
        },
        Guid::CephLUKSBlockLog => {
            reveal_strlit("86a32090-3647-40b9-bbbd-38d8c573aa86");
        },
        _ => {},
    }
}

proof fn lemma_guid_text_part29(g: Guid)
    requires
        g == Guid::OpenBSDData || g == Guid::QNX6Fs || g == Guid::Plan9 || g == Guid::VMWareVMKCORE || g == Guid::VMWareVMFS || g == Guid::VMWareWmkReserved || g == Guid::AndroidBootloader || g == Guid::AndroidBootloader2,
    ensures
        is_uuid_text(g.text()),
        uuid_text_value(g.text()) == g.value() as int,
{
    reveal(is_uuid_text);
    reveal(uuid_text_value);
    match g {
        Guid::OpenBSDData => {
            reveal_strlit("824cc7a0-36a8-11e3-890a-952519ad3f61");
        },
        Guid::QNX6Fs => {
            reveal_strlit("cef5a9ad-73bc-4601-89f3-cdeeeee321a1");
        },
        Guid::Plan9 => {
            reveal_strlit("c91818f9-8025-47af-89d2-f030d7000c2c");
        },
        Guid::VMWareVMKCORE => {
            reveal_strlit("9d275380-40ad-11db-bf97-000c2911d1b8");
        },
        Guid::VMWareVMFS => {
            reveal_strlit("aa31e02a-400f-11db-9590-000c2911d1b8");
        },
        Guid::VMWareWmkReserved => {
            reveal_strlit("9198effc-31c0-11db-8f78-000c2911d1b8");
        },
        Guid::AndroidBootloader => {
            reveal_strlit("2568845d-2332-4675-bc39-8fa5a4748d15");
        },
        Guid::AndroidBootloader2 => {
            reveal_strlit("114eaffe-1552-4022-b26e-9b053604cf84");
        },
        _ => {},
    }
}

proof fn lemma_guid_text_part30(g: Guid)
    requires
        g == Guid::AndroidBoot || g == Guid::AndroidRecovery || g == Guid::AndroidMisc || g == Guid::AndroidMetadata || g == Guid::AndroidSystem || g == Guid::AndroidCache || g == Guid::AndroidData || g == Guid::AndroidPersistent,
    ensures
        is_uuid_text(g.text()),
        uuid_text_value(g.text()) == g.value() as int,
{
    reveal(is_uuid_text);
    reveal(uuid_text_value);
    match g {
        Guid::AndroidBoot => {
            reveal_strlit("49a4d17f-93a3-45c1-a0de-f50b2ebe2599");
        },
        Guid::AndroidRecovery => {
            reveal_strlit("4177c722-9e92-4aab-8644-43502bfd5506");
        },
        Guid::AndroidMisc => {
            reveal_strlit("ef32a33b-a409-486c-9141-9ffb711f6266");
        },
        Guid::AndroidMetadata => {
            reveal_strlit("20ac26be-20b7-11e3-84c5-6cfdb94711e9");
        },
        Guid::AndroidSystem => {
            reveal_strlit("38f428e6-d326-425d-9140-6e0ea133647c");
        },
        Guid::AndroidCache => {
            reveal_strlit("a893ef21-e428-470a-9e55-0668fd91a2d9");
        },
        Guid::AndroidData => {
            reveal_strlit("dc76dda9-5ac1-491c-af42-a82591580c0d");
        },
        Guid::AndroidPersistent => {
            reveal_strlit("ebc597d0-2053-4b15-8b64-e0aac75f4db1");
        },
        _ => {},
    }
}

proof fn lemma_guid_text_part31(g: Guid)
    requires
        g == Guid::AndroidVendor || g == Guid::AndroidConfig || g == Guid::AndroidFactory || g == Guid::AndroidFactoryAlt || g == Guid::AndroidFastboot || g == Guid::AndroidOEM || g == Guid::Android6Meta || g == Guid::Android6Ext,
    ensures
        is_uuid_text(g.text()),
        uuid_text_value(g.text()) == g.value() as int,
{
    reveal(is_uuid_text);
    reveal(uuid_text_value);
    match g {
        Guid::AndroidVendor => {
            reveal_strlit("c5a0aeec-13ea-11e5-a1b1-001e67ca0c3c");
        },
        Guid::AndroidConfig => {
            reveal_strlit("bd59408b-4514-490d-bf12-9878d963f378");
        },
        Guid::AndroidFactory => {
            reveal_strlit("8f68cc74-c5e5-48da-be91-a0c8c15e9c80");
        },
        Guid::AndroidFactoryAlt => {
            reveal_strlit("9fdaa6ef-4b3f-40d2-ba8d-bff16bfb887b");
        },
        Guid::AndroidFastboot => {
            reveal_strlit("767941d0-2085-11e3-ad3b-6cfdb94711e9");
        },
        Guid::AndroidOEM => {
            reveal_strlit("ac6d7924-eb71-4df8-b48d-e267b27148ff");
        },
        Guid::Android6Meta => {
            reveal_strlit("19a710a2-b3ca-11e4-b026-10604b889dcf");
        },
        Guid::Android6Ext => {
            reveal_strlit("193d1ea4-b3ca-11e4-b075-10604b889dcf");
        },
        _ => {},
    }
}

proof fn lemma_guid_text_part32(g: Guid)
    requires
        g == Guid::ONIEBoot || g == Guid::ONIEConfig || g == Guid::PPCPrePBoot || g == Guid::AtariTOSBasicData || g == Guid::AtariTOSRawData || g == Guid::VeraCryptEncrypted || g == Guid::OS2ArcaOS || g == Guid::SPDK,
    ensures
        is_uuid_text(g.text()),
        uuid_text_value(g.text()) == g.value() as int,
{
    reveal(is_uuid_text);
    reveal(uuid_text_value);
    match g {
        Guid::ONIEBoot => {
            reveal_strlit("7412f7d5-a156-4b13-81dc-867174929325");
        },
        Guid::ONIEConfig => {
            reveal_strlit("d4e6e2cd-4469-46f3-b5cb-1bff57afc149");
        },
        Guid::PPCPrePBoot => {
            reveal_strlit("9e1a2d38-c612-4316-aa26-8b49521e5a8b");
        },
        Guid::AtariTOSBasicData => {
            reveal_strlit("734e5afe-f61a-11e6-bc64-92361f002671");
        },
        Guid::AtariTOSRawData => {
            reveal_strlit("35540011-b055-499f-842d-c69aeca357b7");
        },
        Guid::VeraCryptEncrypted => {
            reveal_strlit("8c8f8eff-ac95-4770-814a-21994f2dbc8f");
        },
        Guid::OS2ArcaOS => {
            reveal_strlit("90b6ff38-b98f-4358-a21f-48f35b4a8ad3");
        },
        Guid::SPDK => {
            reveal_strlit("7c5222bd-8f5d-4087-9c00-bf9843c7b58c");
        },
        _ => {},
    }
}

proof fn lemma_guid_text_part33(g: Guid)
    requires
        g == Guid::BareboxState || g == Guid::UBootEnv || g == Guid::SoftRAIDStatus || g == Guid::SoftRAIDScratch || g == Guid::SoftRAIDVolume || g == Guid::SoftRAIDCache || g == Guid::FuchsiaBoot || g == Guid::FuchsiaSystemData,
    ensures
        is_uuid_text(g.text()),
        uuid_text_value(g.text()) == g.value() as int,
{
    reveal(is_uuid_text);
    reveal(uuid_text_value);
    match g {
        Guid::BareboxState => {
            reveal_strlit("4778ed65-bf42-45fa-9c5b-287a1dc4aab1");
        },
        Guid::UBootEnv => {
            reveal_strlit("3de21764-95bd-54bd-a5c3-4abe786f38a8");
        },
        Guid::SoftRAIDStatus => {
            reveal_strlit("b6fa30da-92d2-4a9a-96f1-871ec6486200");
        },
        Guid::SoftRAIDScratch => {
            reveal_strlit("2e313465-19b9-463f-8126-8a7993773801");
        },
        Guid::SoftRAIDVolume => {
            reveal_strlit("fa709c7e-65b1-4593-bfd5-e71d61de9b02");
        },
        Guid::SoftRAIDCache => {
            reveal_strlit("bbba6df5-f46f-4a89-8f59-8765b2727503");
        },
        Guid::FuchsiaBoot => {
            reveal_strlit("fe8a2634-5e2e-46ba-99e3-3a192091a350");
        },
        Guid::FuchsiaSystemData => {
            reveal_strlit("d9fd4535-106c-4cec-8d37-dfc020ca87cb");
        },
        _ => {},
    }
}

proof fn lemma_guid_text_part34(g: Guid)
    requires
        g == Guid::FuchsiaBootData || g == Guid::FuchsiaFactorySystemData || g == Guid::FuchsiaFactoryBootData || g == Guid::FuchsiaVolumeManager || g == Guid::FuchsiaVerifiedBoot || g == Guid::FuchsiaZirconBoot || g == Guid::FuchsiaLegacySystem || g == Guid::FuchsiaLegacyData,
    ensures
        is_uuid_text(g.text()),
        uuid_text_value(g.text()) == g.value() as int,
{
    reveal(is_uuid_text);
    reveal(uuid_text_value);
    match g {
        Guid::FuchsiaBootData => {
            reveal_strlit("a409e16b-78aa-4acc-995c-302352621a41");
        },
        Guid::FuchsiaFactorySystemData => {
            reveal_strlit("f95d940e-caba-4578-9b93-bb6c90f29d3e");
        },
        Guid::FuchsiaFactoryBootData => {
            reveal_strlit("10b8dbaa-d2bf-42a9-98c6-a7c5db3701e7");
        },
        Guid::FuchsiaVolumeManager => {
            reveal_strlit("49fd7cb8-df15-4e73-b9d9-992070127f0f");
        },
        Guid::FuchsiaVerifiedBoot => {
            reveal_strlit("421a8bfc-85d9-4d85-acda-b64eec0133e9");
        },
        Guid::FuchsiaZirconBoot => {
            reveal_strlit("9b37fff6-2e58-466a-983a-f7926d0b04e0");
        },
        Guid::FuchsiaLegacySystem => {
            reveal_strlit("606b000b-b7c7-4653-a7d5-b737332c899d");
        },
        Guid::FuchsiaLegacyData => {
            reveal_strlit("08185f0c-892d-428a-a789-dbeec8f55e6a");
        },
        _ => {},
    }
}

proof fn lemma_guid_text_part35(g: Guid)
    requires
        g == Guid::FuchsiaLegacyInstall || g == Guid::FuchsiaLegacyBlob || g == Guid::FuchsiaLegacyFVM || g == Guid::FuchsiaLegacyZirconBootSlotA || g == Guid::FuchsiaLegacyZirconBootSlotB || g == Guid::FuchsiaLegacyZirconBootSlotR || g == Guid::FuchsiaLegacySysConfig || g == Guid::FuchsiaLegacyFactoryConfig,
    ensures
        is_uuid_text(g.text()),
        uuid_text_value(g.text()) == g.value() as int,
{
    reveal(is_uuid_text);
    reveal(uuid_text_value);
    match g {
        Guid::FuchsiaLegacyInstall => {
            reveal_strlit("48435546-4953-2041-494e-5354414c4c52");
        },
        Guid::FuchsiaLegacyBlob => {
            reveal_strlit("2967380e-134c-4cbb-b6da-17e7ce1ca45d");
        },
        Guid::FuchsiaLegacyFVM => {
            reveal_strlit("41d0e340-57e3-954e-8c1e-17ecac44cff5");
        },
        Guid::FuchsiaLegacyZirconBootSlotA => {
            reveal_strlit("de30cc86-1f4a-4a31-93c4-66f147d33e05");
        },
        Guid::FuchsiaLegacyZirconBootSlotB => {
            reveal_strlit("23cc04df-c278-4ce7-8471-897d1a4bcdf7");
        },
        Guid::FuchsiaLegacyZirconBootSlotR => {
            reveal_strlit("a0e5cf57-2def-46be-a80c-a2067c37cd49");
        },
        Guid::FuchsiaLegacySysConfig => {
            reveal_strlit("4e5e989e-4c86-11e8-a15b-480fcf35f8e6");
        },
        Guid::FuchsiaLegacyFactoryConfig => {
            reveal_strlit("5a3a90be-4c86-11e8-a15b-480fcf35f8e6");
        },
        _ => {},
    }
}

proof fn lemma_guid_text_part36(g: Guid)
    requires
        g == Guid::FuchsiaLegacyBoot || g == Guid::FuchsiaLegacyGuidTest || g == Guid::FuchsiaLegacyVerifiedBootSlotA || g == Guid::FuchsiaLegacyVerifiedBootSlotB || g == Guid::FuchsiaLegacyVerifiedBootSlotR || g == Guid::FuchsiaLegacyMisc || g == Guid::FuchsiaLegacyEmmcBoot1 || g == Guid::FuchsiaLegacyEmmcBoot2,
    ensures
        is_uuid_text(g.text()),
        uuid_text_value(g.text()) == g.value() as int,
{
    reveal(is_uuid_text);
    reveal(uuid_text_value);
    match g {
        Guid::FuchsiaLegacyBoot => {
            reveal_strlit("5ece94fe-4c86-11e8-a15b-480fcf35f8e6");
        },
        Guid::FuchsiaLegacyGuidTest => {
            reveal_strlit("8b94d043-30be-4871-9dfa-d69556e8c1f3");
        },
        Guid::FuchsiaLegacyVerifiedBootSlotA => {
            reveal_strlit("a13b4d9a-ec5f-11e8-97d8-6c3be52705bf");
        },
        Guid::FuchsiaLegacyVerifiedBootSlotB => {
            reveal_strlit("a288abf2-ec5f-11e8-97d8-6c3be52705bf");
        },
        Guid::FuchsiaLegacyVerifiedBootSlotR => {
            reveal_strlit("6a2460c3-cd11-4e8b-80a8-12cce268ed0a");
        },
        Guid::FuchsiaLegacyMisc => {
            reveal_strlit("1d75395d-f2c6-476b-a8b7-45cc1c97b476");
        },
        Guid::FuchsiaLegacyEmmcBoot1 => {
            reveal_strlit("900b0fc5-90cd-4d4f-84f9-9f8ed579db88");
        },
        Guid::FuchsiaLegacyEmmcBoot2 => {
            reveal_strlit("b2b2e8d1-7c10-4ebc-a2d0-4614568260ad");
        },
        _ => {},
    }
}

proof fn lemma_guid_text_part37(g: Guid)
    requires
        g == Guid::Minix,
    ensures
        is_uuid_text(g.text()),
        uuid_text_value(g.text()) == g.value() as int,
{
    reveal(is_uuid_text);
    reveal(uuid_text_value);
    match g {
        Guid::Minix => {
            reveal_strlit("481b2a38-0561-420b-b72a-f1c4988efc16");
        },
        _ => {},
    }
}

/// The text form of a `Guid` is the canonical text of its 128-bit identifier.
pub proof fn lemma_guid_text(g: Guid)
    ensures
        is_uuid_text(g.text()),
        uuid_text_value(g.text()) == g.value() as int,
{
    if g == Guid::EmptyPartition || g == Guid::MBRPartition || g == Guid::EfiSystem || g == Guid::BIOSBoot || g == Guid::IntelFastFlash || g == Guid::SonyBoot || g == Guid::LenovoBoot || g == Guid::MicrosoftReserved {
        lemma_guid_text_part0(g);
    }
    if g == Guid::WindowsBasicData || g == Guid::WindowsLDM || g == Guid::WindowsLDMData || g == Guid::WindowsRecovery || g == Guid::IBMGPFS || g == Guid::WindowsStorageSpaces || g == Guid::WindowsStorageReplica || g == Guid::HPUXData {
        lemma_guid_text_part1(g);
    }
    if g == Guid::HPUXService || g == Guid::LinuxData || g == Guid::LinuxRaid || g == Guid::LinuxRootAlpha || g == Guid::LinuxRootARC || g == Guid::LinuxRootARM32 || g == Guid::LinuxRootARM64 || g == Guid::LinuxRootIA64 {
        lemma_guid_text_part2(g);
    }
    if g == Guid::LinuxRootLoongArch64 || g == Guid::LinuxRootMIPS || g == Guid::LinuxRootMIPS64 || g == Guid::LinuxRootMIPSEL || g == Guid::LinuxRootMIPS64EL || g == Guid::LinuxRootPARISC || g == Guid::LinuxRootPPC32 || g == Guid::LinuxRootPPC64 {
        lemma_guid_text_part3(g);
    }
    if g == Guid::LinuxRootPPC64LE || g == Guid::LinuxRootRISCV32 || g == Guid::LinuxRootRISCV64 || g == Guid::LinuxRootS390 || g == Guid::LinuxRootS390x || g == Guid::LinuxRootTILEGx || g == Guid::LinuxRootx86 || g == Guid::LinuxRootx86_64 {
        lemma_guid_text_part4(g);
    }
    if g == Guid::LinuxUsrAlpha || g == Guid::LinuxUsrARC || g == Guid::LinuxUsrARM32 || g == Guid::LinuxUsrARM64 || g == Guid::LinuxUsrIA64 || g == Guid::LinuxUsrLoongArch64 || g == Guid::LinuxUsrMIPS || g == Guid::LinuxUsrMIPS64 {
        lemma_guid_text_part5(g);
    }
    if g == Guid::LinuxUsrMIPSEL || g == Guid::LinuxUsrMIPS64EL || g == Guid::LinuxUsrPARISC || g == Guid::LinuxUsrPPC32 || g == Guid::LinuxUsrPPC64 || g == Guid::LinuxUsrPPC64LE || g == Guid::LinuxUsrRISCV32 || g == Guid::LinuxUsrRISCV64 {
        lemma_guid_text_part6(g);
    }
    if g == Guid::LinuxUsrS390 || g == Guid::LinuxUsrS390x || g == Guid::LinuxUsrTILEGx || g == Guid::LinuxUsrx86 || g == Guid::LinuxUsrx86_64 || g == Guid::LinuxRootVerityAlpha || g == Guid::LinuxRootVerityARC || g == Guid::LinuxRootVerityARM32 {
        lemma_guid_text_part7(g);
    }
    if g == Guid::LinuxRootVerityARM64 || g == Guid::LinuxRootVerityIA64 || g == Guid::LinuxRootVerityLoongArch64 || g == Guid::LinuxRootVerityMIPS || g == Guid::LinuxRootVerityMIPS64 || g == Guid::LinuxRootVerityMIPSEL || g == Guid::LinuxRootVerityMIPS64EL || g == Guid::LinuxRootVerityPARISC {
        lemma_guid_text_part8(g);
    }
    if g == Guid::LinuxRootVerityPPC32 || g == Guid::LinuxRootVerityPPC64 || g == Guid::LinuxRootVerityPPC64LE || g == Guid::LinuxRootVerityRISCV32 || g == Guid::LinuxRootVerityRISCV64 || g == Guid::LinuxRootVerityS390 || g == Guid::LinuxRootVerityS390x || g == Guid::LinuxRootVerityTILEGx {
        lemma_guid_text_part9(g);
    }
    if g == Guid::LinuxRootVerityx86 || g == Guid::LinuxRootVerityx86_64 || g == Guid::LinuxUsrVerityAlpha || g == Guid::LinuxUsrVerityARC || g == Guid::LinuxUsrVerityARM32 || g == Guid::LinuxUsrVerityARM64 || g == Guid::LinuxUsrVerityIA64 || g == Guid::LinuxUsrVerityLoongArch64 {
        lemma_guid_text_part10(g);
    }
    if g == Guid::LinuxUsrVerityMIPS || g == Guid::LinuxUsrVerityMIPS64 || g == Guid::LinuxUsrVerityMIPSEL || g == Guid::LinuxUsrVerityMIPS64EL || g == Guid::LinuxUsrVerityPARISC || g == Guid::LinuxUsrVerityPPC32 || g == Guid::LinuxUsrVerityPPC64 || g == Guid::LinuxUsrVerityPPC64LE {
        lemma_guid_text_part11(g);
    }
    if g == Guid::LinuxUsrVerityRISCV32 || g == Guid::LinuxUsrVerityRISCV64 || g == Guid::LinuxUsrVerityS390 || g == Guid::LinuxUsrVerityS390x || g == Guid::LinuxUsrVerityTILEGx || g == Guid::LinuxUsrVerityx86 || g == Guid::LinuxUsrVerityx86_64 || g == Guid::LinuxRootVeritySigAlpha {
        lemma_guid_text_part12(g);
    }
    if g == Guid::LinuxRootVeritySigARC || g == Guid::LinuxRootVeritySigARM32 || g == Guid::LinuxRootVeritySigARM64 || g == Guid::LinuxRootVeritySigIA64 || g == Guid::LinuxRootVeritySigLoongArch64 || g == Guid::LinuxRootVeritySigMIPS || g == Guid::LinuxRootVeritySigMIPS64 || g == Guid::LinuxRootVeritySigMIPSEL {
        lemma_guid_text_part13(g);
    }
    if g == Guid::LinuxRootVeritySigMIPS64EL || g == Guid::LinuxRootVeritySigPARISC || g == Guid::LinuxRootVeritySigPPC32 || g == Guid::LinuxRootVeritySigPPC64 || g == Guid::LinuxRootVeritySigPPC64LE || g == Guid::LinuxRootVeritySigRISCV32 || g == Guid::LinuxRootVeritySigRISCV64 || g == Guid::LinuxRootVeritySigS390 {
        lemma_guid_text_part14(g);
    }
    if g == Guid::LinuxRootVeritySigS390x || g == Guid::LinuxRootVeritySigTILEGx || g == Guid::LinuxRootVeritySigx86 || g == Guid::LinuxRootVeritySigx86_64 || g == Guid::LinuxUsrVeritySigAlpha || g == Guid::LinuxUsrVeritySigARC || g == Guid::LinuxUsrVeritySigARM32 || g == Guid::LinuxUsrVeritySigARM64 {
        lemma_guid_text_part15(g);
    }
    if g == Guid::LinuxUsrVeritySigIA64 || g == Guid::LinuxUsrVeritySigLoongArch64 || g == Guid::LinuxUsrVeritySigMIPS || g == Guid::LinuxUsrVeritySigMIPS64 || g == Guid::LinuxUsrVeritySigMIPSEL || g == Guid::LinuxUsrVeritySigMIPS64EL || g == Guid::LinuxUsrVeritySigPARISC || g == Guid::LinuxUsrVeritySigPPC32 {
        lemma_guid_text_part16(g);
    }
    if g == Guid::LinuxUsrVeritySigPPC64 || g == Guid::LinuxUsrVeritySigPPC64LE || g == Guid::LinuxUsrVeritySigRISCV32 || g == Guid::LinuxUsrVeritySigRISCV64 || g == Guid::LinuxUsrVeritySigS390 || g == Guid::LinuxUsrVeritySigS390x || g == Guid::LinuxUsrVeritySigTILEGx || g == Guid::LinuxUsrVeritySigx86 {
        lemma_guid_text_part17(g);
    }
    if g == Guid::LinuxUsrVeritySigx86_64 || g == Guid::LinuxXBOOTLDR || g == Guid::LinuxSwap || g == Guid::LinuxLVM || g == Guid::LinuxHome || g == Guid::LinuxServerData || g == Guid::LinuxPerUserHome || g == Guid::LinuxPlain {
        lemma_guid_text_part18(g);
    }
    if g == Guid::LinuxLUKS || g == Guid::LinuxReserved || g == Guid::FreeBSDBoot || g == Guid::FreeBSDDisklabel || g == Guid::FreeBSDSwap || g == Guid::FreeBSDUFS || g == Guid::FreeBSDVinum || g == Guid::FreeBSDZFS {
        lemma_guid_text_part19(g);
    }
    if g == Guid::FreeBSDnandfs || g == Guid::MacOSHFSPlus || g == Guid::MacOSAPFS || g == Guid::MacOSUFS || g == Guid::MacOSRAID || g == Guid::MacOSRAIDOffline || g == Guid::MacOSBootRecovery || g == Guid::MacOSLabel {
        lemma_guid_text_part20(g);
    }
    if g == Guid::MacOSAppleTVRecovery || g == Guid::MacOSHFSPlusFileVault || g == Guid::MacOSAPFSPreboot || g == Guid::MacOSAPFSRecovery || g == Guid::SolarisBoot || g == Guid::SolarisRoot || g == Guid::SolarisSwap || g == Guid::SolarisBackup {
        lemma_guid_text_part21(g);
    }
    if g == Guid::SolarisUsr || g == Guid::SolarisVar || g == Guid::SolarisHome || g == Guid::SolarisAlternateSector || g == Guid::SolarisReserved1 || g == Guid::SolarisReserved2 || g == Guid::SolarisReserved3 || g == Guid::SolarisReserved4 {
        lemma_guid_text_part22(g);
    }
    if g == Guid::SolarisReserved5 || g == Guid::NetBSDSwap || g == Guid::NetBSDFFS || g == Guid::NetBSDLFS || g == Guid::NetBSDRAID || g == Guid::NetBSDConcatenated || g == Guid::NetBSDEncrypted || g == Guid::ChromeOSKernel {
        lemma_guid_text_part23(g);
    }
    if g == Guid::ChromeOSRootFs || g == Guid::ChromeOSFirmware || g == Guid::ChromeOSFuture || g == Guid::ChromeOSMiniOS || g == Guid::ChromeOSHibernate || g == Guid::CoreOSUsr || g == Guid::CoreOSResize || g == Guid::CoreOSReserved {
        lemma_guid_text_part24(g);
    }
    if g == Guid::CoreOSRootRAID || g == Guid::HaikuBFS || g == Guid::MidnightBSDBoot || g == Guid::MidnightBSDData || g == Guid::MidnightBSDSwap || g == Guid::MidnightBSDUFS || g == Guid::MidnightBSDVinum || g == Guid::MidnightBSDZFS {
        lemma_guid_text_part25(g);
    }
    if g == Guid::CephJournal || g == Guid::CephDMCryptJournal || g == Guid::CephOSD || g == Guid::CephDMCryptOSD || g == Guid::CephDisk || g == Guid::CephDMCryptDisk || g == Guid::CephBlock || g == Guid::CephBlockDB {
        lemma_guid_text_part26(g);
    }
    if g == Guid::CephBlockLog || g == Guid::CephLockbox || g == Guid::CephMultipathOSD || g == Guid::CephMultipathJournal || g == Guid::CephMultipathBlock1 || g == Guid::CephMultipathBlock2 || g == Guid::CephMultipathBlockDB || g == Guid::CephMultipathLog {
        lemma_guid_text_part27(g);
    }
    if g == Guid::CephDMCryptBlock || g == Guid::CephDMCryptBlockDB || g == Guid::CephDMCryptBlockLog || g == Guid::CephLUKSOSD || g == Guid::CephLUKSJournal || g == Guid::CephLUKSBlock || g == Guid::CephLUKSBlockDB || g == Guid::CephLUKSBlockLog {
        lemma_guid_text_part28(g);
    }
    if g == Guid::OpenBSDData || g == Guid::QNX6Fs || g == Guid::Plan9 || g == Guid::VMWareVMKCORE || g == Guid::VMWareVMFS || g == Guid::VMWareWmkReserved || g == Guid::AndroidBootloader || g == Guid::AndroidBootloader2 {
        lemma_guid_text_part29(g);
    }
    if g == Guid::AndroidBoot || g == Guid::AndroidRecovery || g == Guid::AndroidMisc || g == Guid::AndroidMetadata || g == Guid::AndroidSystem || g == Guid::AndroidCache || g == Guid::AndroidData || g == Guid::AndroidPersistent {
        lemma_guid_text_part30(g);
    }
    if g == Guid::AndroidVendor || g == Guid::AndroidConfig || g == Guid::AndroidFactory || g == Guid::AndroidFactoryAlt || g == Guid::AndroidFastboot || g == Guid::AndroidOEM || g == Guid::Android6Meta || g == Guid::Android6Ext {
        lemma_guid_text_part31(g);
    }
    if g == Guid::ONIEBoot || g == Guid::ONIEConfig || g == Guid::PPCPrePBoot || g == Guid::AtariTOSBasicData || g == Guid::AtariTOSRawData || g == Guid::VeraCryptEncrypted || g == Guid::OS2ArcaOS || g == Guid::SPDK {
        lemma_guid_text_part32(g);
    }
    if g == Guid::BareboxState || g == Guid::UBootEnv || g == Guid::SoftRAIDStatus || g == Guid::SoftRAIDScratch || g == Guid::SoftRAIDVolume || g == Guid::SoftRAIDCache || g == Guid::FuchsiaBoot || g == Guid::FuchsiaSystemData {
        lemma_guid_text_part33(g);
    }
    if g == Guid::FuchsiaBootData || g == Guid::FuchsiaFactorySystemData || g == Guid::FuchsiaFactoryBootData || g == Guid::FuchsiaVolumeManager || g == Guid::FuchsiaVerifiedBoot || g == Guid::FuchsiaZirconBoot || g == Guid::FuchsiaLegacySystem || g == Guid::FuchsiaLegacyData {
        lemma_guid_text_part34(g);
    }
    if g == Guid::FuchsiaLegacyInstall || g == Guid::FuchsiaLegacyBlob || g == Guid::FuchsiaLegacyFVM || g == Guid::FuchsiaLegacyZirconBootSlotA || g == Guid::FuchsiaLegacyZirconBootSlotB || g == Guid::FuchsiaLegacyZirconBootSlotR || g == Guid::FuchsiaLegacySysConfig || g == Guid::FuchsiaLegacyFactoryConfig {
        lemma_guid_text_part35(g);
    }
    if g == Guid::FuchsiaLegacyBoot || g == Guid::FuchsiaLegacyGuidTest || g == Guid::FuchsiaLegacyVerifiedBootSlotA || g == Guid::FuchsiaLegacyVerifiedBootSlotB || g == Guid::FuchsiaLegacyVerifiedBootSlotR || g == Guid::FuchsiaLegacyMisc || g == Guid::FuchsiaLegacyEmmcBoot1 || g == Guid::FuchsiaLegacyEmmcBoot2 {
        lemma_guid_text_part36(g);
    }
    if g == Guid::Minix {
        lemma_guid_text_part37(g);
    }
}

/// Distinct partition types have distinct text forms.
pub proof fn lemma_guid_text_injective(a: Guid, b: Guid)
    requires
        a.text() == b.text(),
    ensures
        a == b,
{
    lemma_guid_text(a);
    lemma_guid_text(b);
    lemma_guid_value_roundtrip(a);
    lemma_guid_value_roundtrip(b);
}

/// Every character of a canonical identifier text is a hyphen or a lower-case hexadecimal
/// digit.
pub proof fn lemma_uuid_text_chars(t: Seq<char>, i: int)
    requires
        is_uuid_text(t),
        0 <= i < 36,
    ensures
        t[i] == '-' || lower_hex_value(t[i]) is Some,
{
    reveal(is_uuid_text);
    if i == 0 {
        assert(t[0] == '-' || lower_hex_value(t[0]) is Some);
    } else if i == 1 {
        assert(t[1] == '-' || lower_hex_value(t[1]) is Some);
    } else if i == 2 {
        assert(t[2] == '-' || lower_hex_value(t[2]) is Some);
    } else if i == 3 {
        assert(t[3] == '-' || lower_hex_value(t[3]) is Some);
    } else if i == 4 {
        assert(t[4] == '-' || lower_hex_value(t[4]) is Some);
    } else if i == 5 {
        assert(t[5] == '-' || lower_hex_value(t[5]) is Some);
    } else if i == 6 {
        assert(t[6] == '-' || lower_hex_value(t[6]) is Some);
    } else if i == 7 {
        assert(t[7] == '-' || lower_hex_value(t[7]) is Some);
    } else if i == 8 {
        assert(t[8] == '-' || lower_hex_value(t[8]) is Some);
    } else if i == 9 {
        assert(t[9] == '-' || lower_hex_value(t[9]) is Some);
    } else if i == 10 {
        assert(t[10] == '-' || lower_hex_value(t[10]) is Some);
    } else if i == 11 {
        assert(t[11] == '-' || lower_hex_value(t[11]) is Some);
    } else if i == 12 {
        assert(t[12] == '-' || lower_hex_value(t[12]) is Some);
    } else if i == 13 {
        assert(t[13] == '-' || lower_hex_value(t[13]) is Some);
    } else if i == 14 {
        assert(t[14] == '-' || lower_hex_value(t[14]) is Some);
    } else if i == 15 {
        assert(t[15] == '-' || lower_hex_value(t[15]) is Some);
    } else if i == 16 {
        assert(t[16] == '-' || lower_hex_value(t[16]) is Some);
    } else if i == 17 {
        assert(t[17] == '-' || lower_hex_value(t[17]) is Some);
    } else if i == 18 {
        assert(t[18] == '-' || lower_hex_value(t[18]) is Some);
    } else if i == 19 {
        assert(t[19] == '-' || lower_hex_value(t[19]) is Some);
    } else if i == 20 {
        assert(t[20] == '-' || lower_hex_value(t[20]) is Some);
    } else if i == 21 {
        assert(t[21] == '-' || lower_hex_value(t[21]) is Some);
    } else if i == 22 {
        assert(t[22] == '-' || lower_hex_value(t[22]) is Some);
    } else if i == 23 {
        assert(t[23] == '-' || lower_hex_value(t[23]) is Some);
    } else if i == 24 {
        assert(t[24] == '-' || lower_hex_value(t[24]) is Some);
    } else if i == 25 {
        assert(t[25] == '-' || lower_hex_value(t[25]) is Some);
    } else if i == 26 {
        assert(t[26] == '-' || lower_hex_value(t[26]) is Some);
    } else if i == 27 {
        assert(t[27] == '-' || lower_hex_value(t[27]) is Some);
    } else if i == 28 {
        assert(t[28] == '-' || lower_hex_value(t[28]) is Some);
    } else if i == 29 {
        assert(t[29] == '-' || lower_hex_value(t[29]) is Some);
    } else if i == 30 {
        assert(t[30] == '-' || lower_hex_value(t[30]) is Some);
    } else if i == 31 {
        assert(t[31] == '-' || lower_hex_value(t[31]) is Some);
    } else if i == 32 {
        assert(t[32] == '-' || lower_hex_value(t[32]) is Some);
    } else if i == 33 {
        assert(t[33] == '-' || lower_hex_value(t[33]) is Some);
    } else if i == 34 {
        assert(t[34] == '-' || lower_hex_value(t[34]) is Some);
    } else if i == 35 {
        assert(t[35] == '-' || lower_hex_value(t[35]) is Some);
    }
}

/// The text that a `Guid` is looked up by: the input without surrounding whitespace, without
/// one pair of enclosing quotes and the whitespace inside them, in ASCII lower case. `None` when
/// the input opens with a quote that does not close it.
///
/// `str::to_lowercase` and ASCII lower-casing agree on whether a text equals a text form of a
/// `Guid`, as these hold only digits, letters `a` to `f` and hyphens, and no character outside
/// ASCII lower-cases to one of these.
pub open spec fn guid_key(s: Seq<char>) -> Option<Seq<char>> {
    match unquote(trim(s)) {
        Some(u) => Some(ascii_lower(trim(u))),
        None => None,
    }
}

/// What parsing the text `s` as a `Guid` gives: the partition type whose text form is the
/// lookup text of `s`, or the message of the error.
pub open spec fn guid_parse(s: Seq<char>) -> Result<Guid, Seq<char>> {
    let t = trim(s);
    match guid_key(s) {
        None => if opening_quote(t) == Some('"') {
            Err("missing closing double-quote in: "@ + s)
        } else {
            Err("missing closing quote in: "@ + s)
        },
        Some(key) => if exists|g: Guid| g.text() == key {
            Ok(choose|g: Guid| g.text() == key)
        } else {
            Err("unsupported GUID: "@ + debug_text(s))
        },
    }
}

/// What converting the bytes `b` to a `Guid` gives: the partition type, or the message of the
/// error.
pub open spec fn guid_from_bytes(b: Seq<u8>) -> Result<Guid, Seq<char>> {
    if !vstd::utf8::valid_utf8(b) {
        Err("bytes to UTF-8 string slice conversion error. "@ + utf8_error_text(b))
    } else {
        guid_parse(vstd::utf8::decode_utf8(b))
    }
}

impl Guid {
    /// Finds the partition type whose text form is `key`.
    fn lookup(key: &Vec<char>) -> (r: Option<Guid>)
        ensures
            match r {
                Some(g) => g.text() == key@,
                None => forall|g: Guid| g.text() != key@,
            },
    {
        let mut i: usize = 0;
        while i < GUID_COUNT
            invariant
                i <= GUID_COUNT,
                forall|j: usize| j < i ==> (#[trigger] Guid::at(j)).text() != key@,
            decreases GUID_COUNT - i,
        {
            let g = Guid::nth(i);
            if chars_equal(key, g.as_str()) {
                return Some(g);
            }
            i += 1;
        }
        assert forall|g: Guid| g.text() != key@ by {
            lemma_guid_index(g);
            assert(Guid::at(g.index()).text() != key@);
        }
        None
    }

    /// Parses a partition type from its text form (e.g.
    /// `"0fc63daf-8483-4772-8e79-3d69d8477de4"` for [`Guid::LinuxData`]).
    pub fn from_text(s: &str) -> (r: Result<Guid, ParserError>)
        ensures
            match r {
                Ok(g) => guid_parse(s@) == Ok::<Guid, Seq<char>>(g),
                Err(e) => e matches ParserError::Guid(m) && guid_parse(s@) == Err::<Guid, Seq<char>>(
                    m@,
                ),
            },
    {
        let chars = chars_of(s);
        let t = trim_chars(&chars);
        let u = match strip_quotes(&t) {
            Unquoted::UnclosedDoubleQuote => {
                return Err(ParserError::Guid(join_text("missing closing double-quote in: ", s)));
            },
            Unquoted::UnclosedQuote => {
                return Err(ParserError::Guid(join_text("missing closing quote in: ", s)));
            },
            Unquoted::Text(u) => u,
        };
        let body = trim_chars(&u);
        let key = lower_ascii(&body);
        assert(guid_key(s@) == Some(key@));
        match Guid::lookup(&key) {
            Some(g) => {
                proof {
                    let h = choose|h: Guid| h.text() == key@;
                    lemma_guid_text_injective(g, h);
                }
                Ok(g)
            },
            None => {
                let mut m = String::from_str("unsupported GUID: ");
                let d = debug_str(s);
                m.append(d.as_str());
                Err(ParserError::Guid(m))
            },
        }
    }

    /// Converts UTF-8 encoded bytes holding the text form of a partition type to a `Guid`.
    pub fn try_from_bytes(bytes: &[u8]) -> (r: Result<Guid, ConversionError>)
        ensures
            match r {
                Ok(g) => guid_from_bytes(bytes@) == Ok::<Guid, Seq<char>>(g),
                Err(e) => e matches ConversionError::Guid(m) && guid_from_bytes(bytes@) == Err::<
                    Guid,
                    Seq<char>,
                >(m@),
            },
    {
        match decode_utf8_text(bytes) {
            Err(e) => Err(
                ConversionError::Guid(join_text("bytes to UTF-8 string slice conversion error. ", e.as_str())),
            ),
            Ok(s) => match Guid::from_text(s) {
                Ok(g) => Ok(g),
                Err(e) => Err(ConversionError::Guid(e.to_string())),
            },
        }
    }
}

impl core::str::FromStr for Guid {
    type Err = ParserError;

    fn from_str(s: &str) -> (r: core::result::Result<Guid, ParserError>)
        ensures
            match r {
                Ok(g) => guid_parse(s@) == Ok::<Guid, Seq<char>>(g),
                Err(e) => e matches ParserError::Guid(m) && guid_parse(s@) == Err::<Guid, Seq<char>>(
                    m@,
                ),
            },
    {
        Guid::from_text(s)
    }
}

impl<'a> TryFrom<&'a [u8]> for Guid {
    type Error = ConversionError;

    fn try_from(bytes: &'a [u8]) -> (r: core::result::Result<Guid, ConversionError>)
        ensures
            match r {
                Ok(g) => guid_from_bytes(bytes@) == Ok::<Guid, Seq<char>>(g),
                Err(e) => e matches ConversionError::Guid(m) && guid_from_bytes(bytes@) == Err::<
                    Guid,
                    Seq<char>,
                >(m@),
            },
    {
        Guid::try_from_bytes(bytes)
    }
}

impl<'a> vstd::std_specs::convert::TryFromSpecImpl<&'a [u8]> for Guid {
    /// The generic `TryFrom` specification is not used: `try_from` and `Guid::try_from_bytes`
    /// state the result themselves.
    open spec fn obeys_try_from_spec() -> bool {
        false
    }

    open spec fn try_from_spec(bytes: &'a [u8]) -> core::result::Result<Guid, ConversionError> {
        vstd::pervasive::arbitrary()
    }
}

impl TryFrom<Vec<u8>> for Guid {
    type Error = ConversionError;

    fn try_from(bytes: Vec<u8>) -> (r: core::result::Result<Guid, ConversionError>)
        ensures
            match r {
                Ok(g) => guid_from_bytes(bytes@) == Ok::<Guid, Seq<char>>(g),
                Err(e) => e matches ConversionError::Guid(m) && guid_from_bytes(bytes@) == Err::<
                    Guid,
                    Seq<char>,
                >(m@),
            },
    {
        Guid::try_from_bytes(bytes.as_slice())
    }
}

impl vstd::std_specs::convert::TryFromSpecImpl<Vec<u8>> for Guid {
    /// The generic `TryFrom` specification is not used: `try_from` and `Guid::try_from_bytes`
    /// state the result themselves.
    open spec fn obeys_try_from_spec() -> bool {
        false
    }

    open spec fn try_from_spec(bytes: Vec<u8>) -> core::result::Result<Guid, ConversionError> {
        vstd::pervasive::arbitrary()
    }
}

/// A canonical identifier text is its own lookup text.
pub proof fn lemma_uuid_text_key(t: Seq<char>)
    requires
        is_uuid_text(t),
    ensures
        guid_key(t) == Some(t),
{
    reveal(is_uuid_text);
    lemma_uuid_text_chars(t, 0);
    lemma_uuid_text_chars(t, 35);
    assert(trim_start(t) == t);
    assert(trim_end(t) == t);
    assert(unquote(t) == Some(t));
    assert forall|i: int| 0 <= i < t.len() implies ascii_lower_char(t[i]) == t[i] by {
        lemma_uuid_text_chars(t, i);
    }
    assert(ascii_lower(t) =~= t);
}

/// The text form of every `Guid` parses back to that `Guid`.
pub proof fn lemma_guid_parse_text(g: Guid)
    ensures
        guid_parse(g.text()) == Ok::<Guid, Seq<char>>(g),
{
    let t = g.text();
    lemma_guid_text(g);
    lemma_uuid_text_key(t);
    assert(exists|h: Guid| h.text() == t);
    let h = choose|h: Guid| h.text() == t;
    lemma_guid_text_injective(g, h);
}

/// Parsing ignores the case of the letters of the text form of a `Guid`, whitespace around it,
/// one pair of double or single quotes around it, and whitespace inside the quotes: every text
/// whose ASCII lower-case form is the text form of `g` parses to `g`, dressed in these ways.
pub proof fn lemma_guid_parse_dressed(
    g: Guid,
    u: Seq<char>,
    q: Option<char>,
    p1: Seq<char>,
    p2: Seq<char>,
    p3: Seq<char>,
    p4: Seq<char>,
)
    requires
        ascii_lower(u) == g.text(),
        q is None || q == Some('"') || q == Some('\''),
        is_blank(p1),
        is_blank(p2),
        is_blank(p3),
        is_blank(p4),
    ensures
        guid_parse(p1 + quoted(q, p3 + u + p4) + p2) == Ok::<Guid, Seq<char>>(g),
{
    let t = g.text();
    lemma_guid_text(g);
    lemma_uuid_text_chars(t, 0);
    lemma_uuid_text_chars(t, 35);
    reveal(is_uuid_text);
    assert(u.len() == 36);
    assert(ascii_lower_char(u[0]) == t[0]);
    assert(ascii_lower_char(u[35]) == t[35]);
    assert(u.last() == u[35]);
    lemma_dressed_core(q, p1, p2, p3, p4, u);
    lemma_guid_parse_text(g);
    lemma_uuid_text_key(t);
    let s = p1 + quoted(q, p3 + u + p4) + p2;
    assert(guid_key(s) == Some(t));
    assert(exists|h: Guid| h.text() == t);
    let h = choose|h: Guid| h.text() == t;
    lemma_guid_text_injective(g, h);
}

/// The UTF-8 bytes of the text form of every `Guid` convert back to that `Guid`.
pub proof fn lemma_guid_bytes_text(g: Guid)
    ensures
        guid_from_bytes(vstd::utf8::encode_utf8(g.text())) == Ok::<Guid, Seq<char>>(g),
{
    vstd::utf8::encode_utf8_valid_utf8(g.text());
    vstd::utf8::encode_utf8_decode_utf8(g.text());
    lemma_guid_parse_text(g);
}

/// Parsing ignores letter case: every text that differs from the text form of `g` only in the
/// case of its letters parses to `g`.
pub proof fn lemma_guid_parse_any_case(g: Guid, u: Seq<char>)
    requires
        same_up_to_case(u, g.text()),
    ensures
        guid_parse(u) == Ok::<Guid, Seq<char>>(g),
{
    let t = g.text();
    lemma_guid_text(g);
    reveal(is_uuid_text);
    assert forall|i: int| 0 <= i < t.len() implies !('A' <= #[trigger] t[i] <= 'Z') by {
        lemma_uuid_text_chars(t, i);
    }
    lemma_ascii_lower_same_up_to_case(u, t);
    let e: Seq<char> = Seq::empty();
    assert(is_blank(e));
    assert(e + quoted(None, e + u + e) + e =~= u);
    lemma_guid_parse_dressed(g, u, None, e, e, e, e);
}

/// The text form of every `Guid` written in upper case parses to that `Guid`.
pub proof fn lemma_guid_parse_upper(g: Guid)
    ensures
        guid_parse(ascii_upper(g.text())) == Ok::<Guid, Seq<char>>(g),
{
    lemma_ascii_upper_same_up_to_case(g.text());
    lemma_guid_parse_any_case(g, ascii_upper(g.text()));
}

} // verus!
