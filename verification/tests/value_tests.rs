use edigeo::error::EdigeoError;
use edigeo::format::check_real;
use edigeo::format::decode_date;
use edigeo::format::decode_int;
use edigeo::format::Date;
use edigeo::format::FormatResult;
use edigeo::header::Code;
use edigeo::header::Header;
use edigeo::header::KeyWordCode;
use edigeo::header::ValueFormat;
use edigeo::header::ValueType;
use edigeo::header::ZoneName;
use edigeo::line::parse_value;
use edigeo::line::Line;

fn header(code: Code, vt: ValueType, vf: ValueFormat, size: usize) -> Header {
    Header { code, value_type: vt, value_format: vf, value_size: size }
}

#[test]
fn test_value_parse_passes() {
    // A blank-format record of reserved nature decodes to the text payload.
    let test_cases = [(
        "BOMT 12:E0000A01.THF",
        "E0000A01.THF",
        Ok(Some(FormatResult::Text("E0000A01.THF".to_string()))),
    )];
    for (line, raw_value, result) in test_cases {
        let header = Header::parse_header(line).unwrap();
        let parsed_value = parse_value(&header, raw_value);
        assert_eq!(result, parsed_value);
    }
}

#[test]
fn test_line_parse_passes() {
    let test_cases = [(
        "BOMT 12:E0000A01.THF",
        Line {
            header: Header {
                code: Code::KWCode(KeyWordCode::BOM),
                value_type: ValueType::T,
                value_format: ValueFormat::WhiteSpace,
                value_size: 12,
            },
            raw_value: "E0000A01.THF".to_string(),
            parsed_value: Some(FormatResult::Text("E0000A01.THF".to_string())),
        },
    )];
    for (line, result) in test_cases {
        let line = Line::parse_line(line).unwrap();
        assert_eq!(result, line);
    }
}

#[test]
#[should_panic]
fn test_line_parse_incorrect_passes() {
    let test_cases = [(
        "BOMT 12:E0000A01.THF",
        Line {
            header: Header {
                code: Code::KWCode(KeyWordCode::BOM),
                value_type: ValueType::T,
                value_format: ValueFormat::WhiteSpace,
                value_size: 7,
            },
            raw_value: "E0000A01.THF".to_string(),
            parsed_value: None,
        },
    )];
    for (line, result) in test_cases {
        let line = Line::parse_line(line).unwrap();
        assert_eq!(result, line);
    }
}

#[test]
fn size_mismatch_never_yields_a_value() {
    let h = header(Code::ZoneCode(ZoneName::RID), ValueType::S, ValueFormat::A, 12);
    match parse_value(&h, "SHORT") {
        Err(EdigeoError::SizeMismatch { declared, actual }) => {
            assert_eq!(declared, 12);
            assert_eq!(actual, 5);
        },
        other => panic!("expected a size-mismatch error, got {:?}", other),
    }
}

#[test]
fn line_size_mismatch_is_reported() {
    match Line::parse_line("RIDSA12:SHORT") {
        Err(EdigeoError::SizeMismatch { declared, actual }) => {
            assert_eq!(declared, 12);
            assert_eq!(actual, 5);
        },
        other => panic!("expected a size-mismatch error, got {:?}", other),
    }
}

#[test]
fn date_decode_yields_calendar_date() {
    assert_eq!(decode_date("20240116"), Ok(Date { year: 2024, month: 1, day: 16 }));
}

#[test]
fn date_decode_rejects_bad_input() {
    assert!(decode_date("2024011").is_err());
    assert!(decode_date("202401160").is_err());
    assert!(decode_date("2024A116").is_err());
    assert!(decode_date("20241301").is_err());
    assert!(decode_date("20240132").is_err());
    assert!(decode_date("20240230").is_err());
    assert!(decode_date("").is_err());
}

#[test]
fn date_decode_knows_leap_years() {
    assert_eq!(decode_date("20240229"), Ok(Date { year: 2024, month: 2, day: 29 }));
    assert!(decode_date("20230229").is_err());
    assert!(decode_date("19000229").is_err());
    assert_eq!(decode_date("20000229"), Ok(Date { year: 2000, month: 2, day: 29 }));
}

#[test]
fn date_through_dispatch() {
    let h = header(Code::ZoneCode(ZoneName::VDA), ValueType::S, ValueFormat::D, 8);
    assert_eq!(
        parse_value(&h, "19920801"),
        Ok(Some(FormatResult::Date(Date { year: 1992, month: 8, day: 1 })))
    );
    match parse_value(&h, "1992080x") {
        Err(EdigeoError::InvalidDate(s)) => assert_eq!(s, "1992080x"),
        other => panic!("expected an invalid-date error, got {:?}", other),
    }
}

#[test]
fn int_decode_parses_base_ten() {
    assert_eq!(decode_int("42"), Ok(42));
    assert_eq!(decode_int("-7"), Ok(-7));
    assert_eq!(decode_int("+5"), Ok(5));
    assert_eq!(decode_int("0"), Ok(0));
    assert_eq!(decode_int("2147483647"), Ok(2147483647));
    assert_eq!(decode_int("-2147483648"), Ok(-2147483648));
}

#[test]
fn int_decode_rejects_bad_input() {
    assert!(decode_int("").is_err());
    assert!(decode_int("+").is_err());
    assert!(decode_int("-").is_err());
    assert!(decode_int("4x").is_err());
    assert!(decode_int("2147483648").is_err());
    assert!(decode_int("-2147483649").is_err());
    assert!(decode_int("99999999999999999999").is_err());
}

#[test]
fn int_through_dispatch() {
    let h = header(Code::ZoneCode(ZoneName::COC), ValueType::S, ValueFormat::N, 2);
    assert_eq!(parse_value(&h, "17"), Ok(Some(FormatResult::Int(17))));
    let h = header(Code::ZoneCode(ZoneName::COC), ValueType::S, ValueFormat::I, 2);
    assert_eq!(parse_value(&h, "-3"), Ok(Some(FormatResult::Int(-3))));
    match parse_value(&h, "ab") {
        Err(EdigeoError::InvalidInteger(s)) => assert_eq!(s, "ab"),
        other => panic!("expected an invalid-integer error, got {:?}", other),
    }
}

#[test]
fn real_grammar_is_checked() {
    assert!(check_real("3.14"));
    assert!(check_real("-1.5e-3"));
    assert!(check_real("+2E10"));
    assert!(check_real(".5"));
    assert!(check_real("5."));
    assert!(check_real("inf"));
    assert!(check_real("-Infinity"));
    assert!(check_real("NaN"));
    assert!(!check_real(""));
    assert!(!check_real("abc"));
    assert!(!check_real("1e"));
    assert!(!check_real("."));
    assert!(!check_real("1.2.3"));
    assert!(!check_real("--5"));
}

#[test]
fn real_through_dispatch_keeps_text() {
    let h = header(Code::ZoneCode(ZoneName::RAT), ValueType::S, ValueFormat::R, 4);
    assert_eq!(parse_value(&h, "3.14"), Ok(Some(FormatResult::Real("3.14".to_string()))));
    match parse_value(&h, "abcd") {
        Err(EdigeoError::InvalidReal(s)) => assert_eq!(s, "abcd"),
        other => panic!("expected an invalid-real error, got {:?}", other),
    }
}

#[test]
fn exponent_format_stays_text() {
    let h = header(Code::ZoneCode(ZoneName::RAT), ValueType::S, ValueFormat::E, 6);
    assert_eq!(parse_value(&h, "1.5e-3"), Ok(Some(FormatResult::Text("1.5e-3".to_string()))));
}

#[test]
fn coordinate_decode_splits_once() {
    let h = header(Code::ZoneCode(ZoneName::COR), ValueType::S, ValueFormat::C, 12);
    assert_eq!(
        parse_value(&h, "45.123;5.456"),
        Ok(Some(FormatResult::Coordinate("45.123".to_string(), "5.456".to_string())))
    );
}

#[test]
fn coordinate_without_separator_fails() {
    let h = header(Code::ZoneCode(ZoneName::COR), ValueType::S, ValueFormat::C, 6);
    match parse_value(&h, "45.123") {
        Err(EdigeoError::MissingCoordinateSeparator(s)) => assert_eq!(s, "45.123"),
        other => panic!("expected a missing-separator error, got {:?}", other),
    }
}

#[test]
fn descriptor_decode_splits_compound_field() {
    let h = header(Code::ZoneCode(ZoneName::ATP), ValueType::C, ValueFormat::P, 5);
    assert_eq!(
        parse_value(&h, "A;B;C"),
        Ok(Some(FormatResult::Descriptor(vec![
            FormatResult::Text("A".to_string()),
            FormatResult::Text("B".to_string()),
            FormatResult::Text("C".to_string()),
        ])))
    );
}

#[test]
fn descriptor_simple_field_stays_text() {
    let h = header(Code::ZoneCode(ZoneName::ATP), ValueType::S, ValueFormat::P, 5);
    assert_eq!(parse_value(&h, "A;B;C"), Ok(Some(FormatResult::Text("A;B;C".to_string()))));
}

#[test]
fn blank_format_field_has_no_value() {
    let h = header(Code::KWCode(KeyWordCode::EOM), ValueType::S, ValueFormat::WhiteSpace, 0);
    assert_eq!(parse_value(&h, ""), Ok(None));
}

#[test]
fn line_without_colon_is_rejected() {
    assert_eq!(Line::parse_line("RTYSA03xGTS"), Err(EdigeoError::MissingSeparator));
    assert_eq!(Line::parse_line("RTYSA03"), Err(EdigeoError::MissingSeparator));
}

#[test]
fn line_is_empty_reflects_raw_value() {
    let l = Line::parse_line("EOMT 00:").unwrap();
    assert!(l.is_empty());
    let l = Line::parse_line("RTYSA03:GTS").unwrap();
    assert!(!l.is_empty());
}
