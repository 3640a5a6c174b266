use rsfdisk::errors::{
    ConversionError, ParserError, PartitionBuilderError, PartitionError, PartitionKindError,
    RsFdiskError,
};

#[test]
fn error_texts() {
    let kind = PartitionKindError::CStringConversion("nul byte".to_owned());
    assert_eq!(kind.to_string(), "failed to convert value to `CString`: nul byte");
    let part = PartitionError::from(kind.clone());
    assert_eq!(part, PartitionError::PartitionKind(kind.clone()));
    assert_eq!(part.to_string(), "failed to convert value to `CString`: nul byte");
    let builder = PartitionBuilderError::from(part.clone());
    assert_eq!(builder.to_string(), part.to_string());
    let top = RsFdiskError::from(ParserError::Guid("bad".to_owned()));
    assert_eq!(top.to_string(), "bad");
    let conv = RsFdiskError::from(ConversionError::MaxColWidth("negative".to_owned()));
    assert_eq!(conv, RsFdiskError::Conversion(ConversionError::MaxColWidth("negative".to_owned())));
}
