use vex2pdf::lib_utils::input_file_type::InputFileType;
use vex2pdf::lib_utils::version_shim::{
    downgrade_source, find_declared_version, next_minor_version, normalize,
};

const JSON_16: &str = r#"{"bomFormat": "CycloneDX", "specVersion" : "1.6", "version": 1}"#;
const JSON_15: &str = r#"{"bomFormat": "CycloneDX", "specVersion" : "1.5", "version": 1}"#;
const XML_16: &str = r#"<?xml version="1.0"?><bom xmlns="http://cyclonedx.org/schema/bom/1.6" version="1"></bom>"#;
const XML_15: &str = r#"<?xml version="1.0"?><bom xmlns="http://cyclonedx.org/schema/bom/1.5" version="1"></bom>"#;

#[test]
fn json_next_minor_is_downgraded() {
    let out = normalize(JSON_16.as_bytes(), b"1.5", InputFileType::JSON);
    assert_eq!(String::from_utf8(out).unwrap(), JSON_15);
    let src = downgrade_source(JSON_16.as_bytes(), b"1.5", InputFileType::JSON);
    assert_eq!(src, Some(b"1.6".to_vec()));
}

#[test]
fn xml_next_minor_is_downgraded() {
    let out = normalize(XML_16.as_bytes(), b"1.5", InputFileType::XML);
    assert_eq!(String::from_utf8(out).unwrap(), XML_15);
}

#[test]
fn target_version_is_kept_byte_for_byte() {
    assert_eq!(normalize(JSON_15.as_bytes(), b"1.5", InputFileType::JSON), JSON_15.as_bytes());
    assert_eq!(normalize(XML_15.as_bytes(), b"1.5", InputFileType::XML), XML_15.as_bytes());
    assert_eq!(downgrade_source(JSON_15.as_bytes(), b"1.5", InputFileType::JSON), None);
}

#[test]
fn normalizing_twice_equals_once() {
    for (doc, ft) in [
        (JSON_16, InputFileType::JSON),
        (JSON_15, InputFileType::JSON),
        (XML_16, InputFileType::XML),
        (XML_15, InputFileType::XML),
    ] {
        let once = normalize(doc.as_bytes(), b"1.5", ft);
        let twice = normalize(&once, b"1.5", ft);
        assert_eq!(once, twice);
    }
}

#[test]
fn other_versions_are_left_alone() {
    let j17 = JSON_16.replace("1.6", "1.7");
    assert_eq!(normalize(j17.as_bytes(), b"1.5", InputFileType::JSON), j17.as_bytes());
    let j14 = JSON_16.replace("1.6", "1.4");
    assert_eq!(normalize(j14.as_bytes(), b"1.5", InputFileType::JSON), j14.as_bytes());
    let no_key = br#"{"version": 1}"#;
    assert_eq!(normalize(no_key, b"1.5", InputFileType::JSON), no_key.to_vec());
    let unterminated = br#"{"specVersion": "1.6"#;
    assert_eq!(normalize(unterminated, b"1.5", InputFileType::JSON), unterminated.to_vec());
}

#[test]
fn declared_version_is_read_from_the_encoding() {
    assert_eq!(find_declared_version(JSON_16.as_bytes(), InputFileType::JSON), Some(b"1.6".to_vec()));
    assert_eq!(find_declared_version(XML_15.as_bytes(), InputFileType::XML), Some(b"1.5".to_vec()));
    assert_eq!(find_declared_version(JSON_16.as_bytes(), InputFileType::XML), None);
    let spaced = b"{ \"specVersion\"\n\t:\r \"1.10\" }";
    assert_eq!(find_declared_version(spaced, InputFileType::JSON), Some(b"1.10".to_vec()));
    let single = b"<bom xmlns='http://cyclonedx.org/schema/bom/1.6'/>";
    assert_eq!(find_declared_version(single, InputFileType::XML), Some(b"1.6".to_vec()));
}

#[test]
fn next_minor_versions() {
    assert_eq!(next_minor_version(b"1.5"), Some(b"1.6".to_vec()));
    assert_eq!(next_minor_version(b"1.9"), Some(b"1.10".to_vec()));
    assert_eq!(next_minor_version(b"2.99"), Some(b"2.100".to_vec()));
    assert_eq!(next_minor_version(b"1"), None);
    assert_eq!(next_minor_version(b".5"), None);
    assert_eq!(next_minor_version(b"1."), None);
    assert_eq!(next_minor_version(b"1.5.2"), None);
    assert_eq!(next_minor_version(b"a.5"), None);
}

#[test]
fn carry_across_digits_is_downgraded() {
    let doc = br#"{"specVersion":"1.10"}"#;
    let out = normalize(doc, b"1.9", InputFileType::JSON);
    assert_eq!(out, br#"{"specVersion":"1.9"}"#.to_vec());
}
