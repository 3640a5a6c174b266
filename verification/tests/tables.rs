use std::cmp::Ordering;

use rsfdisk::errors::PartitionTableError;
use rsfdisk::iter::Direction;
use rsfdisk::partition::comparison::ordering_from_comparison;
use rsfdisk::partition::{BitFlag, DOSFlag, GPTFlag, SGIFlag};
use rsfdisk::partition_table::ext::{dos_mode_outcome, mode_flag};
use rsfdisk::partition_table::{
    Field, HeaderEntry, InputType, MaxColWidth, PartitionTableKind, Range, Shortcut, TableSection,
};
use rsfdisk::prompt::{MenuItem, PromptKind};

#[test]
fn partition_table_kinds() {
    assert_eq!(PartitionTableKind::GPT.as_str(), "gpt");
    assert_eq!(PartitionTableKind::DOS.to_u32(), 2);
    assert_eq!(PartitionTableKind::try_from_u32(32), Some(PartitionTableKind::GPT));
    assert_eq!(PartitionTableKind::try_from_u32(3), None);
    assert_eq!(u32::from(PartitionTableKind::SUN), 4);
}

#[test]
fn header_entries_carry_family_offsets() {
    assert_eq!(HeaderEntry::BsdType.to_u32(), 24);
    assert_eq!(HeaderEntry::BsdType.to_original_u32(), 8);
    assert_eq!(HeaderEntry::GptDiskGuid.to_u32(), 64);
    assert_eq!(HeaderEntry::GptDiskGuid.to_original_u32(), 0);
    assert_eq!(HeaderEntry::SunInterleave.to_original_u32(), 14);
    assert_eq!(HeaderEntry::SgiBootfile.to_u32(), 267);
    assert_eq!(HeaderEntry::GenericId.to_original_u32(), 0);
    assert_eq!(HeaderEntry::try_from_u32(1032), Some(HeaderEntry::SunPartitionTableType));
    assert_eq!(HeaderEntry::try_from_u32(8), None);
}

#[test]
fn fields_prompts_directions_and_inputs() {
    assert_eq!(Field::Device.to_u32(), 1);
    assert_eq!(Field::try_from_u32(20), Some(Field::FileSystemType));
    assert_eq!(Field::try_from_u32(21), None);
    assert_eq!(PromptKind::Menu.to_u32(), 8);
    assert_eq!(PromptKind::try_from_u32(0), Some(PromptKind::Undefined));
    assert_eq!(Direction::Backward.to_i32(), 1);
    assert_eq!(Direction::try_from_i32(0), Some(Direction::Forward));
    assert_eq!(InputType::Default.to_u32(), 410);
    assert_eq!(InputType::HexOrUuid.to_u32(), 2);
}

#[test]
fn bit_flags() {
    assert_eq!(BitFlag::from(DOSFlag::Boot).to_u64(), 1);
    assert_eq!(BitFlag::from(GPTFlag::LegacyBiosBootable).to_u64(), 3);
    assert_eq!(BitFlag::from(GPTFlag::Bit63).to_u64(), 63);
    assert_eq!(BitFlag::from(SGIFlag::Swap).to_u64(), 2);
}

#[test]
fn plain_records() {
    let r = Range::new(1, 255);
    assert_eq!((r.lower_bound(), r.upper_bound()), (1, 255));
    let s = Shortcut::new("linux".to_owned(), "L".to_owned(), "83".to_owned(), false);
    assert_eq!((s.alias(), s.shortcut(), s.type_string()), ("linux", "L", "83"));
    assert!(!s.has_alias_deprecated());
    let t = TableSection::new("MBR".to_owned(), 0, 512);
    assert_eq!((t.name(), t.starting_offset(), t.size()), ("MBR", 0, 512));
    let m = MenuItem::new("a".to_owned(), "toggle a flag".to_owned(), 97);
    assert_eq!((m.name(), m.description(), m.key_code()), ("a", "toggle a flag", 97));
    assert_eq!(MaxColWidth::Percentage(30), MaxColWidth::Percentage(30));
}

#[test]
fn comparison_results() {
    assert_eq!(ordering_from_comparison(-7), Ordering::Less);
    assert_eq!(ordering_from_comparison(0), Ordering::Equal);
    assert_eq!(ordering_from_comparison(3), Ordering::Greater);
}

#[test]
fn dos_compatible_mode_outcomes() {
    assert_eq!(mode_flag(true), 1);
    assert_eq!(mode_flag(false), 0);
    assert_eq!(dos_mode_outcome(true, 0), Ok(()));
    assert_eq!(
        dos_mode_outcome(true, -22),
        Err(PartitionTableError::Config("failed to enable DOS compatible mode".to_owned()))
    );
    assert_eq!(
        dos_mode_outcome(false, 1),
        Err(PartitionTableError::Config("failed to disable DOS compatible mode".to_owned()))
    );
}
