use rsfdisk::errors::{ConversionError, ParserError};
use rsfdisk::partition::Guid;

#[test]
fn guid_text_form_parses_back() {
    for g in [
        Guid::EmptyPartition,
        Guid::EfiSystem,
        Guid::LinuxData,
        Guid::LinuxSwap,
        Guid::SolarisUsr,
        Guid::LinuxXBOOTLDR,
        Guid::Minix,
    ] {
        assert_eq!(Guid::from_text(g.as_str()), Ok(g));
    }
}

#[test]
fn guid_parsing_is_case_insensitive_and_ignores_quotes() {
    assert_eq!(
        Guid::from_text(" \"0FC63DAF-8483-4772-8E79-3D69D8477DE4\" "),
        Ok(Guid::LinuxData)
    );
    assert_eq!(
        Guid::from_text("'c12a7328-f81f-11d2-ba4b-00a0c93ec93b'"),
        Ok(Guid::EfiSystem)
    );
}

#[test]
fn guid_parsing_error_messages() {
    assert_eq!(
        Guid::from_text("DUMMY"),
        Err(ParserError::Guid("unsupported GUID: \"DUMMY\"".to_owned()))
    );
    assert_eq!(
        Guid::from_text("a\"b"),
        Err(ParserError::Guid("unsupported GUID: \"a\\\"b\"".to_owned()))
    );
    assert_eq!(
        Guid::from_text("\"082"),
        Err(ParserError::Guid("missing closing double-quote in: \"082".to_owned()))
    );
    assert_eq!(
        Guid::from_text("'082"),
        Err(ParserError::Guid("missing closing quote in: '082".to_owned()))
    );
}

#[test]
fn guid_from_bytes() {
    assert_eq!(
        Guid::try_from(b"6a85cf4d-1dd2-11b2-99a6-080020736631".to_vec()),
        Ok(Guid::SolarisRoot)
    );
    let err = Guid::try_from(b"nope".as_slice()).unwrap_err();
    assert_eq!(err, ConversionError::Guid("unsupported GUID: \"nope\"".to_owned()));
}

#[test]
fn guid_enumeration_by_position() {
    assert_eq!(Guid::nth(0), Guid::EmptyPartition);
    assert_eq!(Guid::nth(rsfdisk::partition::guid::GUID_COUNT - 1), Guid::Minix);
}
