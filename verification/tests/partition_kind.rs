use rsfdisk::errors::PartitionKindBuilderError;
use rsfdisk::partition::{Code, Guid, KindIdentifier, PartitionKindBuilder};

#[test]
#[should_panic(
    expected = "you must call one of the following methods: `code`, `guid`, or `unknown_kind`"
)]
fn partition_kind_one_of_code_guid_or_unknown_kind_must_be_set() {
    let _ = PartitionKindBuilder::new().request().unwrap();
}

#[test]
#[should_panic(
    expected = "methods `code`, `guid`, and `unknown_kind` can not be called at the same time"
)]
fn partition_kind_code_and_guid_are_mutually_exclusive() {
    let _ = PartitionKindBuilder::new()
        .code(Code::Linux)
        .guid(Guid::SolarisRoot)
        .request()
        .unwrap();
}

#[test]
#[should_panic(
    expected = "methods `code`, `guid`, and `unknown_kind` can not be called at the same time"
)]
fn partition_kind_code_and_unknown_kind_are_mutually_exclusive() {
    let _ = PartitionKindBuilder::new()
        .code(Code::Linux)
        .unknown_kind(0x1234, "unknown")
        .request()
        .unwrap();
}

#[test]
#[should_panic(
    expected = "methods `code`, `guid`, and `unknown_kind` can not be called at the same time"
)]
fn partition_kind_guid_and_unknown_kind_are_mutually_exclusive() {
    let _ = PartitionKindBuilder::new()
        .code(Code::Linux)
        .guid(Guid::SolarisRoot)
        .request()
        .unwrap();
}

#[test]
fn partition_kind_request_from_a_code_keeps_the_name() {
    let request = PartitionKindBuilder::new()
        .code(Code::Linux)
        .name("Linux Root")
        .request()
        .unwrap();
    assert_eq!(request.identifier, KindIdentifier::Code(Code::Linux));
    assert_eq!(request.name, Some("Linux Root".to_owned()));
}

#[test]
fn partition_kind_request_from_a_guid_without_a_name() {
    let request = PartitionKindBuilder::new().guid(Guid::SolarisRoot).request().unwrap();
    assert_eq!(request.identifier, KindIdentifier::Guid(Guid::SolarisRoot));
    assert_eq!(request.name, None);
}

#[test]
fn partition_kind_request_from_an_unknown_kind() {
    let request = PartitionKindBuilder::new()
        .unknown_kind(0x1234, "custom_root")
        .name("Custom Root")
        .request()
        .unwrap();
    assert_eq!(
        request.identifier,
        KindIdentifier::Unknown(0x1234, "custom_root".to_owned())
    );
    assert_eq!(request.name, Some("Custom Root".to_owned()));
}

#[test]
fn partition_kind_all_three_identifiers_are_mutually_exclusive() {
    let err = PartitionKindBuilder::new()
        .code(Code::Linux)
        .guid(Guid::LinuxData)
        .unknown_kind(1, "x")
        .request()
        .unwrap_err();
    assert!(matches!(err, PartitionKindBuilderError::MutuallyExclusive(_)));
    assert_eq!(
        err.to_string(),
        "methods `code`, `guid`, and `unknown_kind` can not be called at the same time"
    );
}

#[test]
fn partition_kind_missing_identifier_is_required_error() {
    let err = PartitionKindBuilder::new().name("nameless").request().unwrap_err();
    assert!(matches!(err, PartitionKindBuilderError::Required(_)));
}
