use rsfdisk::partition::Code;
#[test]
#[should_panic(expected = "missing closing double-quote")]
fn code_can_not_parse_a_code_string_with_an_unclosed_double_quote() {
    let _: Code = r#""0x82"#.parse().unwrap();
}

#[test]
#[should_panic(expected = "missing closing quote")]
fn code_can_not_parse_a_code_string_with_an_unclosed_quote() {
    let _: Code = "'0x82".parse().unwrap();
}

#[test]
#[should_panic(expected = "missing '0x' prefix")]
fn code_can_not_parse_an_empty_string() {
    let _: Code = "".parse().unwrap();
}

#[test]
#[should_panic(expected = "missing '0x' prefix")]
fn code_can_not_parse_a_code_missing_its_0x_prefix() {
    let _: Code = "82".parse().unwrap();
}

#[test]
#[should_panic(expected = "invalid hexadecimal string")]
fn code_can_not_parse_a_code_string_with_an_invalid_hexadecimal() {
    let _: Code = "0xDUMMY".parse().unwrap();
}

#[test]
#[should_panic(expected = "invalid hexadecimal string")]
fn code_can_not_parse_a_code_string_with_a_too_large_hexadecimal() {
    let _: Code = "0xffffff".parse().unwrap();
}

#[test]
#[should_panic(expected = "bytes to UTF-8 string slice conversion error")]
fn code_can_not_convert_invalid_bytes_into_a_code() {
    // some invalid bytes, in a vector
    let bytes: Vec<u8> = vec![0, 159, 146, 150];
    let _ = Code::try_from(bytes).unwrap();
}

#[test]
fn code_can_convert_valid_bytes_into_a_code() -> rsfdisk::Result<()> {
    let bytes: Vec<u8> = b"0x83".to_vec();
    let actual = Code::try_from(bytes)?;
    let expected = Code::Linux;
    assert_eq!(actual, expected);

    Ok(())
}

#[test]
fn code_can_parse_a_valid_device_code() -> rsfdisk::Result<()> {
    let code_str = "0x00";
    let actual: Code = code_str.parse()?;
    let expected = Code::EmptyPartition;
    assert_eq!(actual, expected);

    let code_str = "0x01";
    let actual: Code = code_str.parse()?;
    let expected = Code::FAT12;
    assert_eq!(actual, expected);

    let code_str = "0x02";
    let actual: Code = code_str.parse()?;
    let expected = Code::XenixRoot;
    assert_eq!(actual, expected);

    let code_str = "0x03";
    let actual: Code = code_str.parse()?;
    let expected = Code::XenixUser;
    assert_eq!(actual, expected);

    let code_str = "0x04";
    let actual: Code = code_str.parse()?;
    let expected = Code::FAT16;
    assert_eq!(actual, expected);

    let code_str = "0x05";
    let actual: Code = code_str.parse()?;
    let expected = Code::ExtendedPartition;
    assert_eq!(actual, expected);

    let code_str = "0x06";
    let actual: Code = code_str.parse()?;
    let expected = Code::FAT16B;
    assert_eq!(actual, expected);

    let code_str = "0x07";
    let actual: Code = code_str.parse()?;
    let expected = Code::HPFSNTFSExfat;
    assert_eq!(actual, expected);

    let code_str = "0x08";
    let actual: Code = code_str.parse()?;
    let expected = Code::AIX;
    assert_eq!(actual, expected);

    let code_str = "0x09";
    let actual: Code = code_str.parse()?;
    let expected = Code::AIXBootable;
    assert_eq!(actual, expected);

    let code_str = "0x0a";
    let actual: Code = code_str.parse()?;
    let expected = Code::OS2BootManager;
    assert_eq!(actual, expected);

    let code_str = "0x0b";
    let actual: Code = code_str.parse()?;
    let expected = Code::W95FAT32;
    assert_eq!(actual, expected);

    let code_str = "0x0c";
    let actual: Code = code_str.parse()?;
    let expected = Code::W95FAT32LBA;
    assert_eq!(actual, expected);

    let code_str = "0x0e";
    let actual: Code = code_str.parse()?;
    let expected = Code::W95FAT16LBA;
    assert_eq!(actual, expected);

    let code_str = "0x0f";
    let actual: Code = code_str.parse()?;
    let expected = Code::W95ExtendedLBA;
    assert_eq!(actual, expected);

    let code_str = "0x10";
    let actual: Code = code_str.parse()?;
    let expected = Code::OPUS;
    assert_eq!(actual, expected);

    let code_str = "0x11";
    let actual: Code = code_str.parse()?;
    let expected = Code::HiddenFAT12;
    assert_eq!(actual, expected);

    let code_str = "0x12";
    let actual: Code = code_str.parse()?;
    let expected = Code::CompaqDiagnostics;
    assert_eq!(actual, expected);

    let code_str = "0x14";
    let actual: Code = code_str.parse()?;
    let expected = Code::HiddenFAT16;
    assert_eq!(actual, expected);

    let code_str = "0x16";
    let actual: Code = code_str.parse()?;
    let expected = Code::HiddenFAT16B;
    assert_eq!(actual, expected);

    let code_str = "0x17";
    let actual: Code = code_str.parse()?;
    let expected = Code::HiddenHPFSNTFSExFat;
    assert_eq!(actual, expected);

    let code_str = "0x18";
    let actual: Code = code_str.parse()?;
    let expected = Code::ASTSmartSleep;
    assert_eq!(actual, expected);

    let code_str = "0x1b";
    let actual: Code = code_str.parse()?;
    let expected = Code::HiddenW95FAT32;
    assert_eq!(actual, expected);

    let code_str = "0x1c";
    let actual: Code = code_str.parse()?;
    let expected = Code::HiddenW95FAT32LBA;
    assert_eq!(actual, expected);

    let code_str = "0x1e";
    let actual: Code = code_str.parse()?;
    let expected = Code::HiddenW95FAT16LBA;
    assert_eq!(actual, expected);

    let code_str = "0x24";
    let actual: Code = code_str.parse()?;
    let expected = Code::NecDOS;
    assert_eq!(actual, expected);

    let code_str = "0x27";
    let actual: Code = code_str.parse()?;
    let expected = Code::HiddenNTFSRescue;
    assert_eq!(actual, expected);

    let code_str = "0x39";
    let actual: Code = code_str.parse()?;
    let expected = Code::Plan9;
    assert_eq!(actual, expected);

    let code_str = "0x3c";
    let actual: Code = code_str.parse()?;
    let expected = Code::PartitionMagic;
    assert_eq!(actual, expected);

    let code_str = "0x40";
    let actual: Code = code_str.parse()?;
    let expected = Code::Venix80286;
    assert_eq!(actual, expected);

    let code_str = "0x41";
    let actual: Code = code_str.parse()?;
    let expected = Code::PPCPrepBoot;
    assert_eq!(actual, expected);

    let code_str = "0x42";
    let actual: Code = code_str.parse()?;
    let expected = Code::Sfs;
    assert_eq!(actual, expected);

    let code_str = "0x4d";
    let actual: Code = code_str.parse()?;
    let expected = Code::QNX4Primary;
    assert_eq!(actual, expected);

    let code_str = "0x4e";
    let actual: Code = code_str.parse()?;
    let expected = Code::QNX4Secondary;
    assert_eq!(actual, expected);

    let code_str = "0x4f";
    let actual: Code = code_str.parse()?;
    let expected = Code::QNX4Tertiary;
    assert_eq!(actual, expected);

    let code_str = "0x50";
    let actual: Code = code_str.parse()?;
    let expected = Code::OnTrackDM;
    assert_eq!(actual, expected);

    let code_str = "0x51";
    let actual: Code = code_str.parse()?;
    let expected = Code::OnTrackDM6Aux1;
    assert_eq!(actual, expected);

    let code_str = "0x52";
    let actual: Code = code_str.parse()?;
    let expected = Code::CPM80;
    assert_eq!(actual, expected);

    let code_str = "0x53";
    let actual: Code = code_str.parse()?;
    let expected = Code::OnTrackDM6Aux3;
    assert_eq!(actual, expected);

    let code_str = "0x54";
    let actual: Code = code_str.parse()?;
    let expected = Code::OnTrackDM6Ddo;
    assert_eq!(actual, expected);

    let code_str = "0x55";
    let actual: Code = code_str.parse()?;
    let expected = Code::EZDrive;
    assert_eq!(actual, expected);

    let code_str = "0x56";
    let actual: Code = code_str.parse()?;
    let expected = Code::GoldenBow;
    assert_eq!(actual, expected);

    let code_str = "0x5c";
    let actual: Code = code_str.parse()?;
    let expected = Code::PriamEDisk;
    assert_eq!(actual, expected);

    let code_str = "0x61";
    let actual: Code = code_str.parse()?;
    let expected = Code::SpeedStor;
    assert_eq!(actual, expected);

    let code_str = "0x63";
    let actual: Code = code_str.parse()?;
    let expected = Code::GNUHurdSystemV;
    assert_eq!(actual, expected);

    let code_str = "0x64";
    let actual: Code = code_str.parse()?;
    let expected = Code::NovellNetware286;
    assert_eq!(actual, expected);

    let code_str = "0x65";
    let actual: Code = code_str.parse()?;
    let expected = Code::NovellNetware386;
    assert_eq!(actual, expected);

    let code_str = "0x70";
    let actual: Code = code_str.parse()?;
    let expected = Code::DiskSecureMultiBoot;
    assert_eq!(actual, expected);

    let code_str = "0x75";
    let actual: Code = code_str.parse()?;
    let expected = Code::PCIX;
    assert_eq!(actual, expected);

    let code_str = "0x80";
    let actual: Code = code_str.parse()?;
    let expected = Code::OldMinix;
    assert_eq!(actual, expected);

    let code_str = "0x81";
    let actual: Code = code_str.parse()?;
    let expected = Code::MinixOldLinux;
    assert_eq!(actual, expected);

    let code_str = "0x82";
    let actual: Code = code_str.parse()?;
    let expected = Code::LinuxSwap;
    assert_eq!(actual, expected);

    let code_str = "0x83";
    let actual: Code = code_str.parse()?;
    let expected = Code::Linux;
    assert_eq!(actual, expected);

    let code_str = "0x84";
    let actual: Code = code_str.parse()?;
    let expected = Code::OS2HiddenCDrive;
    assert_eq!(actual, expected);

    let code_str = "0x85";
    let actual: Code = code_str.parse()?;
    let expected = Code::LinuxExtended;
    assert_eq!(actual, expected);

    let code_str = "0x86";
    let actual: Code = code_str.parse()?;
    let expected = Code::FAT16VolumeSet;
    assert_eq!(actual, expected);

    let code_str = "0x87";
    let actual: Code = code_str.parse()?;
    let expected = Code::NTFSVolumeSet;
    assert_eq!(actual, expected);

    let code_str = "0x88";
    let actual: Code = code_str.parse()?;
    let expected = Code::LinuxPlaintext;
    assert_eq!(actual, expected);

    let code_str = "0x8e";
    let actual: Code = code_str.parse()?;
    let expected = Code::LinuxLVM;
    assert_eq!(actual, expected);

    let code_str = "0x93";
    let actual: Code = code_str.parse()?;
    let expected = Code::Amoeba;
    assert_eq!(actual, expected);

    let code_str = "0x94";
    let actual: Code = code_str.parse()?;
    let expected = Code::AmoebaBadBlockTable;
    assert_eq!(actual, expected);

    let code_str = "0x9f";
    let actual: Code = code_str.parse()?;
    let expected = Code::BSDOs;
    assert_eq!(actual, expected);

    let code_str = "0xa0";
    let actual: Code = code_str.parse()?;
    let expected = Code::IBMThinkpad;
    assert_eq!(actual, expected);

    let code_str = "0xa5";
    let actual: Code = code_str.parse()?;
    let expected = Code::FreeBSD;
    assert_eq!(actual, expected);

    let code_str = "0xa6";
    let actual: Code = code_str.parse()?;
    let expected = Code::OpenBSD;
    assert_eq!(actual, expected);

    let code_str = "0xa7";
    let actual: Code = code_str.parse()?;
    let expected = Code::NextStep;
    assert_eq!(actual, expected);

    let code_str = "0xa8";
    let actual: Code = code_str.parse()?;
    let expected = Code::DarwinUFS;
    assert_eq!(actual, expected);

    let code_str = "0xa9";
    let actual: Code = code_str.parse()?;
    let expected = Code::NetBSD;
    assert_eq!(actual, expected);

    let code_str = "0xab";
    let actual: Code = code_str.parse()?;
    let expected = Code::DarwinBoot;
    assert_eq!(actual, expected);

    let code_str = "0xaf";
    let actual: Code = code_str.parse()?;
    let expected = Code::HFSHFSPlus;
    assert_eq!(actual, expected);

    let code_str = "0xb7";
    let actual: Code = code_str.parse()?;
    let expected = Code::BSDIFs;
    assert_eq!(actual, expected);

    let code_str = "0xb8";
    let actual: Code = code_str.parse()?;
    let expected = Code::BSDISwap;
    assert_eq!(actual, expected);

    let code_str = "0xbb";
    let actual: Code = code_str.parse()?;
    let expected = Code::BootWizardHidden;
    assert_eq!(actual, expected);

    let code_str = "0xbc";
    let actual: Code = code_str.parse()?;
    let expected = Code::AcronisFAT32LBA;
    assert_eq!(actual, expected);

    let code_str = "0xbe";
    let actual: Code = code_str.parse()?;
    let expected = Code::SolarisBoot;
    assert_eq!(actual, expected);

    let code_str = "0xbf";
    let actual: Code = code_str.parse()?;
    let expected = Code::Solaris;
    assert_eq!(actual, expected);

    let code_str = "0xc1";
    let actual: Code = code_str.parse()?;
    let expected = Code::DRDOSSecuredFAT12;
    assert_eq!(actual, expected);

    let code_str = "0xc4";
    let actual: Code = code_str.parse()?;
    let expected = Code::DRDOSSecuredFAT16;
    assert_eq!(actual, expected);

    let code_str = "0xc6";
    let actual: Code = code_str.parse()?;
    let expected = Code::DRDOSSecuredFAT16B;
    assert_eq!(actual, expected);

    let code_str = "0xc7";
    let actual: Code = code_str.parse()?;
    let expected = Code::Syrinx;
    assert_eq!(actual, expected);

    let code_str = "0xda";
    let actual: Code = code_str.parse()?;
    let expected = Code::NonFsData;
    assert_eq!(actual, expected);

    let code_str = "0xdb";
    let actual: Code = code_str.parse()?;
    let expected = Code::CPMCtOs;
    assert_eq!(actual, expected);

    let code_str = "0xde";
    let actual: Code = code_str.parse()?;
    let expected = Code::DellUtilityFAT16;
    assert_eq!(actual, expected);

    let code_str = "0xdf";
    let actual: Code = code_str.parse()?;
    let expected = Code::BootIt;
    assert_eq!(actual, expected);

    let code_str = "0xe1";
    let actual: Code = code_str.parse()?;
    let expected = Code::DOSAccess;
    assert_eq!(actual, expected);

    let code_str = "0xe3";
    let actual: Code = code_str.parse()?;
    let expected = Code::DOSRO;
    assert_eq!(actual, expected);

    let code_str = "0xe4";
    let actual: Code = code_str.parse()?;
    let expected = Code::SpeedStorFAT16;
    assert_eq!(actual, expected);

    let code_str = "0xea";
    let actual: Code = code_str.parse()?;
    let expected = Code::FreedesktopBoot;
    assert_eq!(actual, expected);

    let code_str = "0xeb";
    let actual: Code = code_str.parse()?;
    let expected = Code::BeOSBFS;
    assert_eq!(actual, expected);

    let code_str = "0xee";
    let actual: Code = code_str.parse()?;
    let expected = Code::GPTProtectiveMBR;
    assert_eq!(actual, expected);

    let code_str = "0xef";
    let actual: Code = code_str.parse()?;
    let expected = Code::EfiSystem;
    assert_eq!(actual, expected);

    let code_str = "0xf0";
    let actual: Code = code_str.parse()?;
    let expected = Code::PARISCLinux;
    assert_eq!(actual, expected);

    let code_str = "0xf1";
    let actual: Code = code_str.parse()?;
    let expected = Code::SDSpeedstor;
    assert_eq!(actual, expected);

    let code_str = "0xf4";
    let actual: Code = code_str.parse()?;
    let expected = Code::SpeedStorFAT16B;
    assert_eq!(actual, expected);

    let code_str = "0xf2";
    let actual: Code = code_str.parse()?;
    let expected = Code::DOSSecondary;
    assert_eq!(actual, expected);

    let code_str = "0xf8";
    let actual: Code = code_str.parse()?;
    let expected = Code::EBBRProtective;
    assert_eq!(actual, expected);

    let code_str = "0xfb";
    let actual: Code = code_str.parse()?;
    let expected = Code::VMWareVMFS;
    assert_eq!(actual, expected);

    let code_str = "0xfc";
    let actual: Code = code_str.parse()?;
    let expected = Code::VMWareVMKCORE;
    assert_eq!(actual, expected);

    let code_str = "0xfd";
    let actual: Code = code_str.parse()?;
    let expected = Code::LinuxRaidAuto;
    assert_eq!(actual, expected);

    let code_str = "0xfe";
    let actual: Code = code_str.parse()?;
    let expected = Code::LanStep;
    assert_eq!(actual, expected);

    let code_str = "0xff";
    let actual: Code = code_str.parse()?;
    let expected = Code::XenixBadBlockTable;
    assert_eq!(actual, expected);

    Ok(())
}
