use api_version::header::version_digits;
use api_version::{InvalidHeader, XApiVersion, X_API_VERSION};

#[test]
fn test_x_api_header() {
    let version = version_digits("v0");
    assert!(matches!(version, Some("0")));

    let version = version_digits("v1");
    assert!(matches!(version, Some("1")));

    let version = version_digits("v99");
    assert!(matches!(version, Some("99")));

    let version = version_digits("v9999");
    assert!(matches!(version, Some("9999")));

    let version = version_digits("v10000");
    assert!(matches!(version, None));

    let version = version_digits("vx");
    assert!(matches!(version, None));
}

fn decoded(value: &str) -> Option<u16> {
    XApiVersion::decode(Some(value)).ok().map(|header| header.version())
}

#[test]
fn designators_decode_to_their_version() {
    assert_eq!(decoded("v0"), Some(0));
    assert_eq!(decoded("v1"), Some(1));
    assert_eq!(decoded("v9"), Some(9));
    assert_eq!(decoded("v10"), Some(10));
    assert_eq!(decoded("v99"), Some(99));
    assert_eq!(decoded("v100"), Some(100));
    assert_eq!(decoded("v1234"), Some(1234));
    assert_eq!(decoded("v9999"), Some(9999));
}

#[test]
fn numbers_of_five_digits_do_not_decode() {
    assert_eq!(decoded("v10000"), None);
    assert_eq!(decoded("v12345"), None);
    assert_eq!(decoded("v65535"), None);
    assert_eq!(decoded("v99999999999999999999"), None);
}

#[test]
fn values_without_digits_do_not_decode() {
    assert_eq!(decoded("vx"), None);
    assert_eq!(decoded(""), None);
    assert_eq!(decoded("v"), None);
    assert_eq!(decoded("1"), None);
    assert_eq!(decoded("x1"), None);
    assert_eq!(decoded("V1"), None);
    assert_eq!(decoded("v1x"), None);
    assert_eq!(decoded("v-1"), None);
    assert_eq!(decoded("v+1"), None);
    assert_eq!(decoded("v1.0"), None);
    assert_eq!(decoded(" v1"), None);
    assert_eq!(decoded("v1 "), None);
    assert_eq!(decoded("v1\n"), None);
    assert_eq!(decoded("vv1"), None);
}

#[test]
fn leading_zeros_do_not_decode() {
    assert_eq!(decoded("v00"), None);
    assert_eq!(decoded("v01"), None);
    assert_eq!(decoded("v007"), None);
    assert_eq!(decoded("v0000"), None);
    assert_eq!(decoded("v0999"), None);
}

#[test]
fn digits_of_other_scripts_do_not_decode() {
    assert_eq!(decoded("v\u{0661}"), None);
    assert_eq!(decoded("v\u{ff11}"), None);
    assert_eq!(decoded("\u{ff56}1"), None);
}

#[test]
fn an_absent_header_does_not_decode() {
    assert_eq!(XApiVersion::decode(None).map(|header| header.version()), Err(InvalidHeader));
    assert_eq!(XApiVersion::decode(Some("vx")).map(|header| header.version()), Err(InvalidHeader));
}

#[test]
fn the_digits_are_handed_out_as_they_stand() {
    assert_eq!(version_digits("v10"), Some("10"));
    assert_eq!(version_digits("v1234"), Some("1234"));
    assert_eq!(version_digits("v01"), None);
    assert_eq!(version_digits("v"), None);
    assert_eq!(version_digits(""), None);
    assert_eq!(version_digits("1"), None);
}

#[test]
fn the_header_has_its_name() {
    assert_eq!(XApiVersion::name(), "x-api-version");
    assert_eq!(X_API_VERSION, "x-api-version");
}
