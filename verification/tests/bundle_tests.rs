use edigeo::bundle::classify;
use edigeo::bundle::EdigeoBundle;
use edigeo::bundle::MemberEntry;
use edigeo::bundle::MemberKind;
use edigeo::directory::EdigeoDir;
use edigeo::error::EdigeoError;
use edigeo::reader::decode_file;
use edigeo::reader::DirReader;
use edigeo::reader::EdigeoReader;
use edigeo::reader::ExchangeReader;
use edigeo::reader::RawSource;
use edigeo::reader::Reader;
use edigeo::reader::TarReader;
use edigeo::reader::THFReader;

fn entry(name: &str, data: &[u8]) -> MemberEntry {
    MemberEntry { name: name.to_string(), data: data.to_vec() }
}

fn mandatory_entries() -> Vec<MemberEntry> {
    vec![
        entry("E0000A01.THF", b"BOMT 12:E0000A01.THF\n"),
        entry("E0000A01.GEO", b"g"),
        entry("E0000A01.QAL", b"q"),
        entry("EDAB01T1.VEC", b"1"),
        entry("EDAB01T2.VEC", b"2"),
        entry("EDAB01T3.VEC", b"3"),
        entry("EDAB01S1.VEC", b"s"),
    ]
}

#[test]
fn test_edigeo_bundel_is_complete() {
    let bundle = EdigeoBundle::default();
    assert_eq!(false, bundle.is_completed());
}

#[test]
#[should_panic]
fn test_edigeo_bundel_is_complete_incorrect() {
    let bundle = EdigeoBundle::default();
    assert_eq!(true, bundle.is_completed());
}

#[test]
fn bundle_with_all_mandatory_members_succeeds() {
    let b = EdigeoBundle::from_entries(&mandatory_entries()).unwrap();
    assert!(b.is_completed());
    assert_eq!(b.thf, b"BOMT 12:E0000A01.THF\n".to_vec());
    assert_eq!(b.geo, b"g".to_vec());
    assert_eq!(b.qal, b"q".to_vec());
    assert_eq!(b.t1, b"1".to_vec());
    assert_eq!(b.t2, b"2".to_vec());
    assert_eq!(b.t3, b"3".to_vec());
    assert_eq!(b.s1, b"s".to_vec());
    assert_eq!(b.dic, None);
    assert_eq!(b.gen, None);
    assert_eq!(b.scd, None);
}

#[test]
fn bundle_missing_any_mandatory_member_fails() {
    let all = mandatory_entries();
    for skip in 0..all.len() {
        let mut entries = Vec::new();
        for (i, e) in all.iter().enumerate() {
            if i != skip {
                entries.push(entry(&e.name, &e.data));
            }
        }
        assert_eq!(EdigeoBundle::from_entries(&entries), Err(EdigeoError::IncompleteBundle));
    }
}

#[test]
fn optional_members_are_kept_when_present() {
    let mut entries = mandatory_entries();
    entries.push(entry("E0000A01.DIC", b"d"));
    entries.push(entry("E0000A01.GEN", b"n"));
    entries.push(entry("E0000A01.SCD", b"c"));
    let b = EdigeoBundle::from_entries(&entries).unwrap();
    assert_eq!(b.dic, Some(b"d".to_vec()));
    assert_eq!(b.gen, Some(b"n".to_vec()));
    assert_eq!(b.scd, Some(b"c".to_vec()));
}

#[test]
fn duplicate_suffix_entries_accumulate() {
    let mut entries = mandatory_entries();
    entries.push(entry("EXTRA.GEO", b"more"));
    let b = EdigeoBundle::from_entries(&entries).unwrap();
    assert_eq!(b.geo, b"gmore".to_vec());
}

#[test]
fn unmatched_names_are_ignored() {
    let mut entries = mandatory_entries();
    entries.push(entry("README.txt", b"ignored"));
    entries.push(entry("E0000A01.thf", b"case matters"));
    let b = EdigeoBundle::from_entries(&entries).unwrap();
    assert_eq!(b.thf, b"BOMT 12:E0000A01.THF\n".to_vec());
}

#[test]
fn empty_mandatory_member_leaves_bundle_incomplete() {
    let mut entries = mandatory_entries();
    entries[1] = entry("E0000A01.GEO", b"");
    assert_eq!(EdigeoBundle::from_entries(&entries), Err(EdigeoError::IncompleteBundle));
}

#[test]
fn classify_follows_the_suffix_contract() {
    assert_eq!(classify("E0000A01.THF"), Some(MemberKind::Thf));
    assert_eq!(classify("E0000A01.GEO"), Some(MemberKind::Geo));
    assert_eq!(classify("E0000A01.QAL"), Some(MemberKind::Qal));
    assert_eq!(classify("EDAB01T1.VEC"), Some(MemberKind::T1));
    assert_eq!(classify("EDAB01T2.VEC"), Some(MemberKind::T2));
    assert_eq!(classify("EDAB01T3.VEC"), Some(MemberKind::T3));
    assert_eq!(classify("EDAB01S1.VEC"), Some(MemberKind::S1));
    assert_eq!(classify("E0000A01.DIC"), Some(MemberKind::Dic));
    assert_eq!(classify("E0000A01.GEN"), Some(MemberKind::Gen));
    assert_eq!(classify("E0000A01.SCD"), Some(MemberKind::Scd));
    assert_eq!(classify("E0000A01.thf"), None);
    assert_eq!(classify("notes.txt"), None);
}

#[test]
fn decode_file_maps_latin1_bytes() {
    assert_eq!(decode_file(&[0x45, 0xE9]), "E\u{e9}");
    assert_eq!(decode_file(&[0x80]), "\u{20ac}");
    assert_eq!(decode_file(b"BOMT 12:E0000A01.THF"), "BOMT 12:E0000A01.THF");
    assert_eq!(decode_file(&[]), "");
}

#[test]
fn bundle_decodes_its_manifest_text() {
    let b = EdigeoBundle::from_entries(&mandatory_entries()).unwrap();
    assert_eq!(b.decode_thf(), "BOMT 12:E0000A01.THF\n");
}

#[test]
fn extract_files_maps_names_to_slots() {
    let names = vec![
        "E0000A01.THF".to_string(),
        "E0000A01.GEO".to_string(),
        "E0000A01.QAL".to_string(),
        "EDAB01T1.VEC".to_string(),
        "EDAB01T2.VEC".to_string(),
        "EDAB01T3.VEC".to_string(),
        "EDAB01S1.VEC".to_string(),
        "E0000A01.SCD".to_string(),
        "notes.txt".to_string(),
    ];
    let d = EdigeoDir::extract_files(&names);
    assert_eq!(d.thf, "E0000A01.THF");
    assert_eq!(d.geo, "E0000A01.GEO");
    assert_eq!(d.qal, "E0000A01.QAL");
    assert_eq!(d.t1, "EDAB01T1.VEC");
    assert_eq!(d.t2, "EDAB01T2.VEC");
    assert_eq!(d.t3, "EDAB01T3.VEC");
    assert_eq!(d.s1, "EDAB01S1.VEC");
    assert_eq!(d.dic, None);
    assert_eq!(d.gen, None);
    assert_eq!(d.scd, Some("E0000A01.SCD".to_string()));
}

#[test]
fn extract_files_keeps_the_last_match() {
    let names = vec!["A.THF".to_string(), "B.THF".to_string()];
    let d = EdigeoDir::extract_files(&names);
    assert_eq!(d.thf, "B.THF");
    assert_eq!(d.geo, "");
}

#[test]
fn reader_kind_follows_path_shape() {
    let r = EdigeoReader::new("data/lot", true).unwrap();
    assert!(matches!(r.reader, Reader::Dir(_)));
    let r = EdigeoReader::new("data/lot.tar.bz2", false).unwrap();
    assert!(matches!(r.reader, Reader::Tar(_)));
    let r = EdigeoReader::new("data/E0000A01.THF", false).unwrap();
    assert!(matches!(r.reader, Reader::File(_)));
    match EdigeoReader::new("data/E0000A01.xyz", false) {
        Err(EdigeoError::InvalidSource(p)) => assert_eq!(p, "data/E0000A01.xyz"),
        other => panic!("expected an invalid-source error, got {:?}", other),
    }
    assert!(EdigeoReader::new("no_extension", false).is_err());
}

#[test]
fn reader_constructors_keep_their_paths() {
    let t = TarReader::new("a.tar.bz2");
    assert_eq!(t.path, "a.tar.bz2");
    let d = DirReader::new("dir");
    assert_eq!(d.path, "dir");
    let f = THFReader::new("x.THF");
    assert_eq!(f.path, "x.THF");
    assert!(matches!(EdigeoReader::with_tar("a").reader, Reader::Tar(_)));
    assert!(matches!(EdigeoReader::with_dir("a").reader, Reader::Dir(_)));
    assert!(matches!(EdigeoReader::with_thf("a").reader, Reader::File(_)));
}

#[test]
fn dir_reader_builds_bundle_from_files() {
    let d = DirReader::new("dir");
    let b = d.read_bundle(&RawSource::Files(mandatory_entries())).unwrap();
    assert!(b.is_completed());
}

#[test]
fn thf_reader_builds_bundle_from_sibling_files() {
    let f = THFReader::new("dir/E0000A01.THF");
    let b = f.read_bundle(&RawSource::Files(mandatory_entries())).unwrap();
    assert!(b.is_completed());
}

#[test]
fn readers_reject_mismatched_sources() {
    let t = TarReader::new("a.tar.bz2");
    assert_eq!(t.read_bundle(&RawSource::Files(vec![])), Err(EdigeoError::SourceMismatch));
    let d = DirReader::new("dir");
    assert_eq!(d.read_bundle(&RawSource::Archive(vec![])), Err(EdigeoError::SourceMismatch));
}

#[test]
fn corrupt_archive_is_rejected() {
    let t = TarReader::new("a.tar.bz2");
    let r = t.read_bundle(&RawSource::Archive(vec![1, 2, 3, 4]));
    assert_eq!(r, Err(EdigeoError::InvalidArchive));
}

#[test]
fn archive_roundtrip_builds_the_bundle() {
    let files: [(&str, &[u8]); 7] = [
        ("E0000A01.THF", b"BOMT 12:E0000A01.THF\n"),
        ("E0000A01.GEO", b"g"),
        ("E0000A01.QAL", b"q"),
        ("EDAB01T1.VEC", b"1"),
        ("EDAB01T2.VEC", b"2"),
        ("EDAB01T3.VEC", b"3"),
        ("EDAB01S1.VEC", b"s"),
    ];
    let mut builder = tar::Builder::new(Vec::new());
    for (name, data) in files {
        let mut h = tar::Header::new_gnu();
        h.set_size(data.len() as u64);
        h.set_mode(0o644);
        h.set_cksum();
        builder.append_data(&mut h, name, data).unwrap();
    }
    let tar_bytes = builder.into_inner().unwrap();
    let mut encoder = bzip2::write::BzEncoder::new(Vec::new(), bzip2::Compression::default());
    std::io::Write::write_all(&mut encoder, &tar_bytes).unwrap();
    let bz_bytes = encoder.finish().unwrap();

    let reader = EdigeoReader::with_tar("memory.tar.bz2");
    let b = reader.read_bundle(&RawSource::Archive(bz_bytes)).unwrap();
    assert!(b.is_completed());
    assert_eq!(b.thf, b"BOMT 12:E0000A01.THF\n".to_vec());
    assert_eq!(b.s1, b"s".to_vec());
    assert_eq!(b.dic, None);
}
