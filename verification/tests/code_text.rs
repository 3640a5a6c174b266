use rsfdisk::errors::{ConversionError, ParserError};
use rsfdisk::partition::Code;

#[test]
fn code_text_form_is_lowercase_hex_of_its_identifier() {
    assert_eq!(Code::Linux.as_str(), "0x83");
    assert_eq!(Code::Linux.to_u32(), 0x83);
    assert_eq!(Code::OS2BootManager.as_str(), "0x0a");
    assert_eq!(Code::XenixBadBlockTable.to_u8(), 0xff);
    assert_eq!(u8::from(Code::EfiSystem), 0xef);
}

#[test]
fn code_text_form_parses_back() {
    for c in [
        Code::EmptyPartition,
        Code::FAT12,
        Code::W95ExtendedLBA,
        Code::LinuxLVM,
        Code::GPTProtectiveMBR,
        Code::XenixBadBlockTable,
    ] {
        assert_eq!(Code::from_text(c.as_str()), Ok(c));
        assert_eq!(Code::try_from_u8(c.to_u8()), Some(c));
    }
}

#[test]
fn code_identifiers_without_a_partition_type() {
    assert_eq!(Code::try_from_u8(0x0d), None);
    assert_eq!(Code::try_from_u8(0x83), Some(Code::Linux));
}

#[test]
fn code_parsing_ignores_whitespace_and_quotes() {
    assert_eq!(Code::from_text("  0x83 "), Ok(Code::Linux));
    assert_eq!(Code::from_text("\"0x83\""), Ok(Code::Linux));
    assert_eq!(Code::from_text("' 0x83 '"), Ok(Code::Linux));
    assert_eq!(Code::from_text("\t\"0x0B\"\n"), Ok(Code::W95FAT32));
    assert_eq!(Code::from_text("0x+83"), Ok(Code::Linux));
}

#[test]
fn code_parsing_error_messages() {
    assert_eq!(
        Code::from_text("\"0x82"),
        Err(ParserError::Code("missing closing double-quote in: \"0x82".to_owned()))
    );
    assert_eq!(
        Code::from_text("'0x82"),
        Err(ParserError::Code("missing closing quote in: '0x82".to_owned()))
    );
    assert_eq!(
        Code::from_text("82"),
        Err(ParserError::Code("missing '0x' prefix in: 82".to_owned()))
    );
    assert_eq!(
        Code::from_text("0xDUMMY"),
        Err(ParserError::Code(
            "invalid hexadecimal string: 0xDUMMY ParseIntError { kind: InvalidDigit }".to_owned()
        ))
    );
    assert_eq!(
        Code::from_text("0xffffff"),
        Err(ParserError::Code(
            "invalid hexadecimal string: 0xffffff ParseIntError { kind: PosOverflow }".to_owned()
        ))
    );
    assert_eq!(
        Code::from_text("0x"),
        Err(ParserError::Code(
            "invalid hexadecimal string: 0x ParseIntError { kind: Empty }".to_owned()
        ))
    );
    assert_eq!(
        Code::from_text("0x0d"),
        Err(ParserError::Code("unsupported OS type: 0x0d".to_owned()))
    );
}

#[test]
fn code_hex_errors_match_the_standard_library() {
    for h in ["", "+", "-", "1z", "fff", "+ff", "-1", "ÿ"] {
        let ours = Code::from_text(&format!("0x{}", h));
        let std_kind = u8::from_str_radix(h, 16).map_err(|e| format!("{:?}", e));
        match (ours, std_kind) {
            (Err(ParserError::Code(m)), Err(k)) => assert!(m.ends_with(&k), "{} {}", m, k),
            (Ok(c), Ok(v)) => assert_eq!(c.to_u8(), v),
            (Err(ParserError::Code(m)), Ok(_)) => assert!(m.starts_with("unsupported OS type")),
            (o, s) => panic!("{:?} {:?}", o, s),
        }
    }
}

#[test]
fn code_from_bytes_reports_utf8_errors() {
    let err = Code::try_from(vec![0u8, 159, 146, 150]).unwrap_err();
    let expected = format!(
        "bytes to UTF-8 string slice conversion error. {:?}",
        std::str::from_utf8(&[0u8, 159, 146, 150]).unwrap_err()
    );
    assert_eq!(err, ConversionError::Code(expected));
}

#[test]
fn code_from_bytes_carries_parse_errors() {
    let err = Code::try_from(b"0x0d".as_slice()).unwrap_err();
    assert_eq!(err.to_string(), "unsupported OS type: 0x0d");
}
