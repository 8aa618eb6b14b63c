//! Unit tests of the verified pieces: time-code parsing, marker validation,
//! chapter building, path derivation, and a tag round trip through a real
//! file.

use std::io::Write;

use presquile::Applier;
use presquile::AppliersErrors;
use presquile::model::AuditionCvsRecord;
use presquile::model::records_from_rows;

fn temp_file(suffix: &str, bytes: &[u8]) -> tempfile::NamedTempFile {
    let mut f = tempfile::Builder::new()
        .prefix("presquile_unit_")
        .suffix(suffix)
        .tempfile()
        .expect("temp file");
    f.write_all(bytes).expect("write temp file");
    f.flush().expect("flush temp file");
    f
}

fn path_of(f: &tempfile::NamedTempFile) -> String {
    f.path().to_str().expect("utf-8 path").to_string()
}

fn record(name: &str, start: &str) -> AuditionCvsRecord {
    AuditionCvsRecord {
        name: name.to_string(),
        start: start.to_string(),
    }
}

#[test]
fn convert_time_exact_values() {
    assert_eq!(Applier::convert_time("0:00.000").unwrap(), 0);
    assert_eq!(Applier::convert_time("1:30.500").unwrap(), 90_500);
    assert_eq!(Applier::convert_time("01:02:03.004").unwrap(), 3_723_004);
    assert_eq!(Applier::convert_time("10:00.1").unwrap(), 600_001);
}

#[test]
fn convert_time_rejects_malformed_codes() {
    // no dot, no colon, wrong segment counts, non-digits, empty pieces
    assert!(matches!(
        Applier::convert_time("1:30"),
        Err(AppliersErrors::TimeFormatInvalid)
    ));
    assert!(matches!(
        Applier::convert_time("130.500"),
        Err(AppliersErrors::TimeFormatInvalid)
    ));
    assert!(matches!(
        Applier::convert_time("1:2:3:4.5"),
        Err(AppliersErrors::TimeFormatInvalid)
    ));
    assert!(matches!(
        Applier::convert_time("a:bc.def"),
        Err(AppliersErrors::TimeFormatInvalid)
    ));
    assert!(matches!(
        Applier::convert_time(":30.500"),
        Err(AppliersErrors::TimeFormatInvalid)
    ));
    assert!(matches!(
        Applier::convert_time("1:30."),
        Err(AppliersErrors::TimeFormatInvalid)
    ));
    // value would overflow a u32 of milliseconds
    assert!(matches!(
        Applier::convert_time("9999999:00:00.000"),
        Err(AppliersErrors::TimeFormatInvalid)
    ));
    // segments are digits only: no signs, no inner spaces
    assert!(matches!(
        Applier::convert_time("+1:30.500"),
        Err(AppliersErrors::TimeFormatInvalid)
    ));
    assert!(matches!(
        Applier::convert_time("1: 30.500"),
        Err(AppliersErrors::TimeFormatInvalid)
    ));
}

#[test]
fn error_messages_name_the_failure() {
    assert_eq!(
        AppliersErrors::AudioFileNotCompatible("OGG".to_string()).message(),
        "Invalid audio file format OGG"
    );
    assert_eq!(
        AppliersErrors::ChaptersFileNotCompatible.message(),
        "Invalid chapter file format"
    );
    assert_eq!(
        AppliersErrors::ThreadInterrupted.message(),
        "Thread has been interrupted"
    );
}

#[test]
fn probe_decision_accepts_only_mp3() {
    assert_eq!(
        Applier::check_probe(&"MP3".to_string(), 123_456).unwrap(),
        123_456
    );
    // a duration beyond what a chapter frame can carry is clamped
    assert_eq!(
        Applier::check_probe(&"MP3".to_string(), u64::MAX).unwrap(),
        u32::MAX
    );
    match Applier::check_probe(&"OGG".to_string(), 123_456) {
        Err(AppliersErrors::AudioFileNotCompatible(detail)) => assert_eq!(detail, "OGG"),
        _ => panic!("expected the OGG container to be rejected"),
    }
    assert!(matches!(
        Applier::check_probe(&"Wav".to_string(), 1),
        Err(AppliersErrors::AudioFileNotCompatible(_))
    ));
}

#[test]
fn chapters_of_two_markers_meet_exactly() {
    // markers Intro at 0:00.000 and Verse at 1:30.500 over a 200 000 ms track
    let records = vec![record("Intro", "0:00.000"), record("Verse", "1:30.500")];
    let frames = Applier::build_chapters(&records, 200_000).unwrap();
    assert_eq!(frames.len(), 2);
    assert_eq!(frames[0].id, "0");
    assert_eq!(frames[0].start_ms, 0);
    assert_eq!(frames[0].end_ms, 90_500);
    assert_eq!(frames[0].title, "Intro");
    assert_eq!(frames[1].id, "1");
    assert_eq!(frames[1].start_ms, 90_500);
    assert_eq!(frames[1].end_ms, 200_000);
    assert_eq!(frames[1].title, "Verse");
}

#[test]
fn single_marker_spans_whole_track() {
    let records = vec![record("All", "0:00.000")];
    let frames = Applier::build_chapters(&records, 42_000).unwrap();
    assert_eq!(frames.len(), 1);
    assert_eq!(frames[0].start_ms, 0);
    assert_eq!(frames[0].end_ms, 42_000);
}

#[test]
fn empty_marker_list_is_rejected() {
    let records: Vec<AuditionCvsRecord> = Vec::new();
    assert!(matches!(
        Applier::build_chapters(&records, 1_000),
        Err(AppliersErrors::ChaptersFileNotCompatible)
    ));
}

#[test]
fn bad_timecode_propagates_from_chapter_building() {
    let records = vec![record("Intro", "0:00.000"), record("Verse", "90.500")];
    assert!(matches!(
        Applier::build_chapters(&records, 200_000),
        Err(AppliersErrors::TimeFormatInvalid)
    ));
}

#[test]
fn rows_without_separators_invalidate_the_file() {
    // a row whose start field misses `:` and `.`
    let headers = vec!["Name".to_string(), "Start".to_string()];
    let rows = vec![
        Some(vec!["Intro".to_string(), "0:00.000".to_string()]),
        Some(vec!["Verse".to_string(), "90500".to_string()]),
    ];
    assert!(matches!(
        records_from_rows(&headers, &rows),
        Err(AppliersErrors::ChaptersFileNotCompatible)
    ));
}

#[test]
fn tables_without_data_rows_or_columns_invalidate_the_file() {
    let headers = vec!["Name".to_string(), "Start".to_string()];
    let no_rows: Vec<Option<Vec<String>>> = Vec::new();
    assert!(matches!(
        records_from_rows(&headers, &no_rows),
        Err(AppliersErrors::ChaptersFileNotCompatible)
    ));

    let alien_headers = vec!["just some plain text".to_string()];
    let alien_rows = vec![Some(vec!["with a second line".to_string()])];
    assert!(matches!(
        records_from_rows(&alien_headers, &alien_rows),
        Err(AppliersErrors::ChaptersFileNotCompatible)
    ));

    let rejected_row = vec![None];
    assert!(matches!(
        records_from_rows(&headers, &rejected_row),
        Err(AppliersErrors::ChaptersFileNotCompatible)
    ));
}

#[test]
fn good_rows_become_records() {
    let headers = vec![
        "Name".to_string(),
        "Start".to_string(),
        "Duration".to_string(),
    ];
    let rows = vec![Some(vec![
        "Intro".to_string(),
        "0:00.000".to_string(),
        "0:10.000".to_string(),
    ])];
    let records = records_from_rows(&headers, &rows).unwrap();
    assert_eq!(records.len(), 1);
    assert_eq!(records[0].name, "Intro");
    assert_eq!(records[0].start, "0:00.000");
}

#[test]
fn copy_derives_the_enriched_path() {
    let audio = temp_file(".mp3", b"bytes that only get copied");
    let source = path_of(&audio);
    let applier = Applier::new(String::new(), source.clone());
    let dest = applier.copy_file().unwrap();
    assert!(dest.ends_with("_enriched.mp3"));
    let expected = {
        let stem_end = source.len() - ".mp3".len();
        format!("{}_enriched.mp3", &source[..stem_end])
    };
    assert_eq!(dest, expected);
}

#[test]
fn copy_without_a_file_name_is_unresolvable() {
    let dir = tempfile::tempdir().expect("temp dir");
    let mut source = dir.path().to_str().expect("utf-8 path").to_string();
    source.push('/');
    let applier = Applier::new(String::new(), source);
    assert!(matches!(
        applier.copy_file(),
        Err(AppliersErrors::DestinationUnresolvable)
    ));
}

#[test]
fn written_tag_reads_back_with_order_and_final_end() {
    // three markers over a track of 12 345 ms, written to a real file
    let records = vec![
        record("One", "0:00.000"),
        record("Two", "0:04.000"),
        record("Three", "0:08.345"),
    ];
    let tag = Applier::build_tag(&records, 12_345).unwrap();
    let target = temp_file(".mp3", b"pretend audio body");
    let dest = path_of(&target);
    Applier::write_tag(&tag, &dest).unwrap();

    let read_back = id3::Tag::read_from_path(&dest).unwrap();
    let chapters: Vec<_> = read_back.chapters().collect();
    assert_eq!(chapters.len(), 3);
    let tocs: Vec<_> = read_back.tables_of_contents().collect();
    assert_eq!(tocs.len(), 1);
    assert_eq!(tocs[0].elements.len(), 3);
    for (chap, id) in chapters.iter().zip(tocs[0].elements.iter()) {
        assert_eq!(chap.element_id, *id);
    }
    assert_eq!(chapters[2].end_time, 12_345);
}

#[test]
fn toc_lists_ids_zero_to_n_minus_one() {
    let records = vec![
        record("A", "0:00.000"),
        record("B", "0:01.000"),
        record("C", "0:02.000"),
        record("D", "0:03.000"),
        record("E", "0:04.000"),
        record("F", "0:05.000"),
        record("G", "0:06.000"),
        record("H", "0:07.000"),
        record("I", "0:08.000"),
        record("J", "0:09.000"),
        record("K", "0:10.000"),
        record("L", "0:11.000"),
    ];
    let tag = Applier::build_tag(&records, 60_000).unwrap();
    let target = temp_file(".mp3", b"pretend audio body");
    let dest = path_of(&target);
    Applier::write_tag(&tag, &dest).unwrap();

    let read_back = id3::Tag::read_from_path(&dest).unwrap();
    let tocs: Vec<_> = read_back.tables_of_contents().collect();
    assert_eq!(tocs.len(), 1);
    let expected: Vec<String> = (0..12).map(|i| i.to_string()).collect();
    assert_eq!(tocs[0].elements, expected);
    assert!(tocs[0].ordered);
    assert!(tocs[0].top_level);
    let chapters: Vec<_> = read_back.chapters().collect();
    let chapter_ids: Vec<String> = chapters.iter().map(|c| c.element_id.clone()).collect();
    assert_eq!(chapter_ids, expected);
}

#[test]
fn tag_carries_the_fixed_toc_title() {
    let records = vec![record("Only", "0:00.000")];
    let tag = Applier::build_tag(&records, 5_000).unwrap();
    let target = temp_file(".mp3", b"pretend audio body");
    let dest = path_of(&target);
    Applier::write_tag(&tag, &dest).unwrap();

    let read_back = id3::Tag::read_from_path(&dest).unwrap();
    let tocs: Vec<_> = read_back.tables_of_contents().collect();
    assert_eq!(tocs.len(), 1);
    let title = tocs[0]
        .frames
        .iter()
        .find_map(|f| f.content().text())
        .expect("toc title frame");
    assert_eq!(title, "chapters-chapz");
    let chapters: Vec<_> = read_back.chapters().collect();
    let chapter_title = chapters[0]
        .frames
        .iter()
        .find_map(|f| f.content().text())
        .expect("chapter title frame");
    assert_eq!(chapter_title, "Only");
}
