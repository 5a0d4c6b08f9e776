use edigeo::error::EdigeoError;
use edigeo::header::parse_code;
use edigeo::header::Code;
use edigeo::header::Header;
use edigeo::header::KeyWordCode;
use edigeo::header::TypeCode;
use edigeo::header::ValueFormat;
use edigeo::header::ValueType;
use edigeo::header::ZoneName;

#[test]
fn test_from_str_value_format() {
    let test_cases = [
        ("A", ValueFormat::A),
        ("C", ValueFormat::C),
        ("D", ValueFormat::D),
        ("E", ValueFormat::E),
        ("I", ValueFormat::I),
        ("N", ValueFormat::N),
        ("P", ValueFormat::P),
        ("R", ValueFormat::R),
        ("T", ValueFormat::T),
        (" ", ValueFormat::WhiteSpace),
    ];
    for (s, result) in test_cases {
        assert_eq!(s.parse::<ValueFormat>().unwrap(), result)
    }
}

#[test]
fn test_header_value_type_parse_passes() {
    let test_cases = [
        ("BOMT 12:E0000A01.THF", ValueType::T),
        ("CSET 03:IRV", ValueType::T),
        ("RTYSA03:GTS", ValueType::S),
        ("RIDSA10:SUPPORT_01", ValueType::S),
        ("VDASD08:19920801", ValueType::S),
        ("GDNSA02:S1:", ValueType::S),
        ("EOMT 00:", ValueType::T),
    ];
    for (line, result) in test_cases {
        let header = Header::parse_header(line).unwrap();
        assert_eq!(header.value_type, result);
    }
}

#[test]
fn test_header_value_format_parse_passes() {
    let test_cases = [
        ("BOMT 12:E0000A01.THF", ValueFormat::WhiteSpace),
        ("CSET 03:IRV", ValueFormat::WhiteSpace),
        ("RTYSA03:GTS", ValueFormat::A),
        ("RIDSA10:SUPPORT_01", ValueFormat::A),
        ("VDASD08:19920801", ValueFormat::D),
        ("GDNSA02:S1:", ValueFormat::A),
        ("EOMT 00:", ValueFormat::WhiteSpace),
    ];
    for (line, result) in test_cases {
        let header = Header::parse_header(line).unwrap();
        assert_eq!(header.value_format, result);
    }
}

#[test]
fn test_header_value_size_parse_passes() {
    let test_cases = [
        ("BOMT 12:E0000A01.THF", 12),
        ("CSET 03:IRV", 3),
        ("RTYSA03:GTS", 3),
        ("RIDSA10:SUPPORT_01", 10),
        ("VDASD08:19920801", 8),
        ("GDNSA02:S1:", 2),
        ("EOMT 00:", 0),
    ];
    for (line, result) in test_cases {
        let header = Header::parse_header(line).unwrap();
        assert_eq!(header.value_size, result);
    }
}

#[test]
#[should_panic]
fn test_header_parse_incorrect_data_passes() {
    let test_cases = ["BOMT:E0000A01.THF"];
    for line in test_cases {
        let _header = Header::parse_header(line).unwrap();
    }
}

#[test]
fn header_recovers_every_encoded_field() {
    let header = Header::parse_header("RTYSA03:GTS").unwrap();
    assert_eq!(header.code, Code::TypeCode(TypeCode::RTY));
    assert_eq!(header.value_type, ValueType::S);
    assert_eq!(header.value_format, ValueFormat::A);
    assert_eq!(header.value_size, 3);
}

#[test]
fn code_families_are_recovered() {
    assert_eq!("BOM".parse::<Code>().unwrap(), Code::KWCode(KeyWordCode::BOM));
    assert_eq!("CSE".parse::<Code>().unwrap(), Code::KWCode(KeyWordCode::CSE));
    assert_eq!("EOM".parse::<Code>().unwrap(), Code::KWCode(KeyWordCode::EOM));
    assert_eq!("RTY".parse::<Code>().unwrap(), Code::TypeCode(TypeCode::RTY));
    assert_eq!("RID".parse::<Code>().unwrap(), Code::ZoneCode(ZoneName::RID));
    assert_eq!("TEX".parse::<Code>().unwrap(), Code::ZoneCode(ZoneName::TEX));
    assert_eq!("GDN".parse::<Code>().unwrap(), Code::ZoneCode(ZoneName::GDN));
    assert!("ZZZ".parse::<Code>().is_err());
}

#[test]
fn unknown_code_is_rejected() {
    match Header::parse_header("XXXSA03:GTS") {
        Err(EdigeoError::UnknownCode(s)) => assert_eq!(s, "XXX"),
        other => panic!("expected an unknown-code error, got {:?}", other),
    }
}

#[test]
fn invalid_nature_is_rejected() {
    match Header::parse_header("RTYXA03:GTS") {
        Err(EdigeoError::InvalidNature(s)) => assert_eq!(s, "X"),
        other => panic!("expected an invalid-nature error, got {:?}", other),
    }
}

#[test]
fn invalid_format_is_rejected() {
    match Header::parse_header("RTYSX03:GTS") {
        Err(EdigeoError::InvalidFormat(s)) => assert_eq!(s, "X"),
        other => panic!("expected an invalid-format error, got {:?}", other),
    }
}

#[test]
fn invalid_size_is_rejected() {
    match Header::parse_header("RTYSAab:GTS") {
        Err(EdigeoError::InvalidSize(s)) => assert_eq!(s, "ab"),
        other => panic!("expected an invalid-size error, got {:?}", other),
    }
}

#[test]
fn short_prefix_is_missing_separator() {
    assert_eq!(Header::parse_header("RTY"), Err(EdigeoError::MissingSeparator));
    assert_eq!(parse_code("ab"), Err(EdigeoError::MissingSeparator));
}

#[test]
fn fixed_offsets_hold_with_colons_in_value() {
    let header = Header::parse_header("GDNSA02:S1:").unwrap();
    assert_eq!(header.code, Code::ZoneCode(ZoneName::GDN));
    assert_eq!(header.value_size, 2);
}
