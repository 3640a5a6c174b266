use rsfdisk::errors::VersionError;
use rsfdisk::utils::version::version_string_to_release_code;

#[test]
#[should_panic]
fn version_string_to_release_code_fails_on_invalid_c_string() {
    let version_string = String::from_utf8(b"2.39\0.4".to_vec()).unwrap();
    let _result = version_string_to_release_code(&version_string).unwrap();
}

#[test]
fn version_string_to_release_code_converts_up_to_first_invalid_character() {
    let version_string = "v2.39.4";
    let expected: i32 = 0;
    let result = version_string_to_release_code(version_string).unwrap();

    assert_eq!(result, expected);

    let version_string = "2.39.x";
    let expected: i32 = 239;
    let result = version_string_to_release_code(version_string).unwrap();

    assert_eq!(result, expected);
}

#[test]
fn version_string_to_release_code_reads_a_full_version() {
    assert_eq!(version_string_to_release_code("2.39.4").unwrap(), 2394);
    assert_eq!(version_string_to_release_code("").unwrap(), 0);
    assert_eq!(version_string_to_release_code("...").unwrap(), 0);
    assert_eq!(version_string_to_release_code("2..3").unwrap(), 23);
}

#[test]
fn version_string_with_a_nul_byte_reports_its_position() {
    let err = version_string_to_release_code("2.39\0.4").unwrap_err();
    match &err {
        VersionError::CStringConversion(m) => assert_eq!(
            m,
            "failed to convert value to `CString` nul byte found in provided data at position: 4"
        ),
        other => panic!("unexpected error {:?}", other),
    }
    assert_eq!(
        err.to_string(),
        "error converting to `CString`: failed to convert value to `CString` nul byte found in provided data at position: 4"
    );
}

#[test]
fn version_string_accumulator_wraps_like_a_c_int() {
    // 2147483647 fits; one more digit wraps around in 32-bit two's complement arithmetic.
    assert_eq!(
        version_string_to_release_code("2147483647").unwrap(),
        2147483647
    );
    let wrapped = (2147483647i32).wrapping_mul(10).wrapping_add(1);
    assert_eq!(
        version_string_to_release_code("21474836471").unwrap(),
        wrapped
    );
}
