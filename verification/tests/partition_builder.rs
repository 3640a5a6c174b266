use rsfdisk::partition::{Guid, PartitionBuilder, PartitionSetting};

#[test]
fn partition_builder_defaults_use_free_space() {
    let settings = PartitionBuilder::<Guid>::new().settings();
    assert_eq!(
        settings,
        vec![
            PartitionSetting::FirstFreeNumber,
            PartitionSetting::FirstFreeStartingSector,
            PartitionSetting::LastFreeEndingSector(true),
        ]
    );
}

#[test]
fn partition_builder_applies_settings_in_order() {
    let settings = PartitionBuilder::new()
        .uuid("0a1b")
        .size_in_sectors(204800)
        .name("Linux backup data")
        .partition_type(Guid::LinuxData)
        .starting_sector(64)
        .number(2)
        .attribute_bits(b"RequiredPartition")
        .ask_size_interactive()
        .settings();
    assert_eq!(
        settings,
        vec![
            PartitionSetting::PartitionType(Guid::LinuxData),
            PartitionSetting::AskSizeInteractive,
            PartitionSetting::AttributeBits(b"RequiredPartition".to_vec()),
            PartitionSetting::Name("Linux backup data".to_owned()),
            PartitionSetting::Number(2),
            PartitionSetting::StartingSector(64),
            PartitionSetting::LastFreeEndingSector(false),
            PartitionSetting::SizeInSectors(204800),
            PartitionSetting::Uuid("0a1b".to_owned()),
        ]
    );
}
