use rustltfs::error::RustLtfsError;
use rustltfs::validator::{
    is_valid_index_data, validate_index_data, validate_index_data_lenient, IndexValidationError, IndexValidator,
    ValidationResult,
};

const GOOD: &str = "<ltfsindex><volumeuuid>u-1</volumeuuid><generationnumber>7</generationnumber>\
<updatetime>t</updatetime><directory><name>r</name><file><name>a</name></file>\
<file><name>b</name></file></directory></ltfsindex>";

fn chars(s: &str) -> Vec<char> {
    s.chars().collect()
}

fn empty_result() -> ValidationResult {
    ValidationResult {
        is_valid: false,
        data_size: 0,
        has_ltfs_identifier: false,
        xml_well_formed: false,
        ltfs_version: None,
        volume_uuid: None,
        generation_number: None,
        file_count_estimate: None,
        warnings: Vec::new(),
        errors: Vec::new(),
    }
}

#[test]
fn tag_balance_check_names_the_first_problem() {
    let v = IndexValidator::new();
    assert_eq!(v.basic_xml_parse_check(&chars("<a><b></b></a>")), Ok(()));
    assert_eq!(
        v.basic_xml_parse_check(&chars("<a><b></a>")),
        Err(RustLtfsError::Parse("XML标签不匹配: 期望 b, 实际 a".to_string()))
    );
    assert_eq!(
        v.basic_xml_parse_check(&chars("</a>")),
        Err(RustLtfsError::Parse("多余的闭合标签: a".to_string()))
    );
    assert_eq!(
        v.basic_xml_parse_check(&chars("<a><b>")),
        Err(RustLtfsError::Parse("未闭合的XML标签: [\"a\", \"b\"]".to_string()))
    );
}

#[test]
fn strict_validation_accepts_a_complete_index() {
    let r = validate_index_data(GOOD.as_bytes()).unwrap();
    assert!(r.is_valid);
    assert!(r.errors.is_empty());
    assert_eq!(r.warnings.len(), 3);
    assert_eq!(r.data_size, GOOD.len());
    assert!(r.has_ltfs_identifier);
    assert!(r.xml_well_formed);
    assert_eq!(r.ltfs_version, None);
    assert_eq!(r.volume_uuid, Some("u-1".to_string()));
    assert_eq!(r.generation_number, Some(7));
    assert_eq!(r.file_count_estimate, Some(2));
    assert!(is_valid_index_data(GOOD.as_bytes()));
}

#[test]
fn strict_validation_fails_on_the_first_error() {
    assert_eq!(
        validate_index_data(b"").unwrap_err(),
        RustLtfsError::LtfsIndex("索引数据为空".to_string())
    );
    assert_eq!(
        validate_index_data(&[0u8; 10]).unwrap_err(),
        RustLtfsError::LtfsIndex("索引数据全为零 (读取了 10 字节的零数据)".to_string())
    );
    assert_eq!(
        validate_index_data(b"<ltfsindex version=\"2.4.0\"><a></ltfsindex>").unwrap_err(),
        RustLtfsError::LtfsIndex("XML格式无效: XML标签不匹配: 期望 a, 实际 ltfsindex".to_string())
    );
    assert_eq!(
        validate_index_data(b"<ltfsindex version=\"2.4.0\"></ltfsindex>").unwrap_err(),
        RustLtfsError::LtfsIndex("LTFS索引结构不完整: 卷UUID, 生成号, 更新时间, 根目录".to_string())
    );
    assert!(!is_valid_index_data(b"<a></a>"));
}

#[test]
fn lenient_validation_lists_every_failure() {
    let r = validate_index_data_lenient(b"<a></a>").unwrap();
    assert!(!r.is_valid);
    assert_eq!(r.errors.len(), 4);
    assert_eq!(r.warnings.len(), 5);
    assert!(r.xml_well_formed);
    assert!(!r.has_ltfs_identifier);
    let r = validate_index_data_lenient(b"").unwrap();
    assert_eq!(r.errors[0], "索引数据为空");
    assert!(!r.is_valid);
}

#[test]
fn first_version_attribute_is_reported() {
    let v = IndexValidator::new();
    let xml = chars("<?xml version=\"1.0\"?><ltfsindex version=\"2.4.0\">");
    assert_eq!(v.extract_ltfs_version(&xml), Some("1.0".to_string()));
    assert_eq!(v.extract_volume_uuid(&chars("<volumeuuid>x</volumeuuid>")), Some("x".to_string()));
    assert_eq!(v.extract_generation_number(&chars("<generationnumber>12</generationnumber>")), Some(12));
    assert_eq!(v.extract_generation_number(&chars("<generationnumber>x</generationnumber>")), None);
    assert_eq!(v.estimate_file_count(&chars("<file></file><file>")), Some(2));
    assert_eq!(v.estimate_file_count(&chars("<directory>")), None);
}

#[test]
fn low_share_of_printable_bytes_is_a_warning() {
    let v = IndexValidator::new_lenient();
    let mut r = empty_result();
    assert_eq!(v.validate_basic_data(&[1, 1, 1, b'a', b'b'], &mut r), Ok(()));
    assert_eq!(
        r.warnings,
        vec!["索引数据过小，可能不完整".to_string(), "可打印字符比例较低 (40.0%)，可能不是文本数据".to_string()]
    );
    let mut r = empty_result();
    assert_eq!(v.validate_basic_data(&[1, 1, b'a'], &mut r), Ok(()));
    assert_eq!(r.warnings[1], "可打印字符比例较低 (33.3%)，可能不是文本数据");
}

#[test]
fn validation_error_messages() {
    assert_eq!(IndexValidationError::AllZeroData { size: 5 }.message(), "索引数据全为零 (读取了 5 字节的零数据)");
    assert_eq!(
        IndexValidationError::UnsupportedVersion { version: "1.0".to_string() }.into_ltfs_error(),
        RustLtfsError::LtfsIndex("索引版本不支持: 1.0".to_string())
    );
    let mut v = IndexValidator::default();
    assert!(v.strict_mode);
    v.set_strict_mode(false);
    v.set_debug_mode(true);
    assert!(!v.strict_mode && v.debug_mode);
}

#[test]
fn tag_balance_skips_declarations_attributes_and_self_closing_tags() {
    let v = IndexValidator::new();
    assert_eq!(v.basic_xml_parse_check(&chars("<?xml version=\"1.0\"?><a x=\"1\"><b/></a>")), Ok(()));
    assert_eq!(v.basic_xml_parse_check(&chars("<!-- note --><a><c y=\"2\" /></a>")), Ok(()));
    assert_eq!(
        v.basic_xml_parse_check(&chars("<a x=\"1\"></b>")),
        Err(RustLtfsError::Parse("XML标签不匹配: 期望 a, 实际 b".to_string()))
    );
    let d = br#"<?xml version="1.0" encoding="UTF-8"?><ltfsindex version="2.4.0"><volumeuuid>u1</volumeuuid><generationnumber>7</generationnumber><updatetime>t</updatetime><directory><name>r</name></directory></ltfsindex>"#;
    assert!(is_valid_index_data(d));
}
