use edigeo::blocks::decode_lines;
use edigeo::blocks::segment;
use edigeo::blocks::BlockParse;
use edigeo::blocks::THFFile;
use edigeo::header::Code;
use edigeo::header::ZoneName;

const THF_TEXT: &str = "BOMT 12:E0000A01.THF\nCSET 03:IRV\nRTYSA03:GTS\nRIDSA10:SUPPORT_01\nRTYSA03:GTL\nRIDSA09:BATCH_001\nEOMT 00:";

#[test]
fn thf_segmentation_scenario() {
    let f = THFFile::parse(THF_TEXT).unwrap();
    assert_eq!(f.support_block.id, "GTS");
    assert_eq!(f.support_block.entries.len(), 1);
    assert_eq!(f.support_block.entries[0].header.code, Code::ZoneCode(ZoneName::RID));
    assert_eq!(f.support_block.entries[0].raw_value, "SUPPORT_01");
    assert_eq!(f.batch_block.id, "GTL");
    assert_eq!(f.batch_block.entries.len(), 1);
    assert_eq!(f.batch_block.entries[0].raw_value, "BATCH_001");
}

#[test]
fn thf_parse_from_raw_bytes() {
    let f = THFFile::new(THF_TEXT.as_bytes()).unwrap();
    assert_eq!(f.support_block.entries[0].raw_value, "SUPPORT_01");
    assert_eq!(f.batch_block.entries[0].raw_value, "BATCH_001");
    assert!(!f.is_empty());
}

#[test]
fn segmentation_is_idempotent() {
    let records_a = decode_lines(THF_TEXT).unwrap();
    let records_b = decode_lines(THF_TEXT).unwrap();
    let tokens = vec!["GTS".to_string(), "GTL".to_string()];
    let first = segment(records_a, &tokens);
    let second = segment(records_b, &tokens);
    assert_eq!(first, second);
}

#[test]
fn every_token_gets_a_block_even_when_empty() {
    let records = decode_lines("BOMT 12:E0000A01.THF\nEOMT 00:").unwrap();
    let tokens = vec!["GTS".to_string(), "GTL".to_string()];
    let out = segment(records, &tokens);
    assert_eq!(out.blocks.len(), 2);
    assert_eq!(out.blocks[0].id, "GTS");
    assert!(out.blocks[0].entries.is_empty());
    assert_eq!(out.blocks[1].id, "GTL");
    assert!(out.blocks[1].entries.is_empty());
}

#[test]
fn unrecognized_marker_is_counted_not_fatal() {
    let text = "RTYSA03:XYZ\nRTYSA03:GTS\nRIDSA10:SUPPORT_01";
    let records = decode_lines(text).unwrap();
    let tokens = vec!["GTS".to_string(), "GTL".to_string()];
    let out = segment(records, &tokens);
    assert_eq!(out.unrecognized, 1);
    assert_eq!(out.blocks[0].entries.len(), 1);
}

#[test]
fn orphan_records_are_dropped_and_counted() {
    let text = "BOMT 12:E0000A01.THF\nRIDSA10:SUPPORT_01\nEOMT 00:";
    let records = decode_lines(text).unwrap();
    let tokens = vec!["GTS".to_string(), "GTL".to_string()];
    let out = segment(records, &tokens);
    assert_eq!(out.orphans, 1);
    assert!(out.blocks[0].entries.is_empty());
    assert!(out.blocks[1].entries.is_empty());
}

#[test]
fn eom_closes_the_active_block() {
    let text = "RTYSA03:GTS\nEOMT 00:\nRIDSA10:SUPPORT_01";
    let records = decode_lines(text).unwrap();
    let tokens = vec!["GTS".to_string(), "GTL".to_string()];
    let out = segment(records, &tokens);
    assert!(out.blocks[0].entries.is_empty());
    assert_eq!(out.orphans, 1);
}

#[test]
fn recurring_role_accumulates_in_one_block() {
    let text = "RTYSA03:GTS\nRIDSA10:SUPPORT_01\nRTYSA03:GTL\nRIDSA09:BATCH_001\nRTYSA03:GTS\nRIDSA10:SUPPORT_02";
    let records = decode_lines(text).unwrap();
    let tokens = vec!["GTS".to_string(), "GTL".to_string()];
    let out = segment(records, &tokens);
    assert_eq!(out.blocks[0].entries.len(), 2);
    assert_eq!(out.blocks[0].entries[0].raw_value, "SUPPORT_01");
    assert_eq!(out.blocks[0].entries[1].raw_value, "SUPPORT_02");
    assert_eq!(out.blocks[1].entries.len(), 1);
}

#[test]
fn empty_lines_are_skipped() {
    let text = "RTYSA03:GTS\n\nRIDSA10:SUPPORT_01\n\n";
    let records = decode_lines(text).unwrap();
    assert_eq!(records.len(), 2);
}

#[test]
fn carriage_returns_are_stripped() {
    let text = "RTYSA03:GTS\r\nRIDSA10:SUPPORT_01\r\n";
    let records = decode_lines(text).unwrap();
    assert_eq!(records.len(), 2);
    assert_eq!(records[1].raw_value, "SUPPORT_01");
}

#[test]
fn failing_line_is_reported_by_index() {
    let text = "BOMT 12:E0000A01.THF\nCSET 03:IRV\nXXXSA03:GTS";
    match decode_lines(text) {
        Err(le) => assert_eq!(le.line, 2),
        Ok(_) => panic!("expected the third line to be rejected"),
    }
}

#[test]
fn thf_with_no_zone_records_is_empty() {
    let f = THFFile::parse("BOMT 12:E0000A01.THF\nEOMT 00:").unwrap();
    assert!(f.is_empty());
}
