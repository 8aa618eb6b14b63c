//! Embeds chapter metadata from an audio-editor marker export into a copy of
//! an MP3 file.
//!
//! The marker file is a tab-separated table with `Name` and `Start` columns;
//! each start is a `[HH:]MM:SS.mmm` time-code. The library turns the markers
//! plus the track's probed duration into ID3v2.4 chapter frames and one
//! table-of-contents frame, and writes them to an `_enriched` copy of the
//! audio file, leaving the original untouched.

use vstd::prelude::*;
use vstd::string::StringExecFns;

pub mod chapters;
pub mod io;
pub mod model;
pub mod path;
pub mod text;
pub mod timecode;

use crate::chapters::{
    ChapterFrame, TableOfContentsFrame, all_starts_valid, chapter_entries, chapter_entry,
    chapter_frame_matches, toc_entry,
};
use crate::io::{
    copy_file_bytes, probe_audio, read_rows, string_from_chars, tag_chapters, tag_new,
    tag_push_chapter, tag_push_toc, tag_tocs, tag_write,
};
use crate::model::{
    AuditionCvsRecords, header_index, records_from_rows, row_fields_ok, start_separators_ok,
};
use crate::path::{enriched_path, enriched_path_chars};
use crate::text::{chars_of_str, decimal, decimal_chars, lemma_decimal_injective, str_eq_str};
use crate::timecode::{parse_timecode, timecode_valid, timecode_value};

verus! {

/// How the preparatory steps (marker loading, audio probing, file copying)
/// are scheduled.
pub enum Mode {
    Sequential,
    Parallel,
}

/// Everything that can go wrong while applying chapters.
#[derive(Debug)]
pub enum AppliersErrors {
    /// The audio file could not be probed, or its container format is not
    /// MP3. Carries the probed format, or the offending path when probing
    /// itself failed.
    AudioFileNotCompatible(String),
    /// The marker file has no valid data row, a row the reader rejects, or a
    /// start field without both `:` and `.`.
    ChaptersFileNotCompatible,
    /// A start field has the required separators but is not a well-formed
    /// `[HH:]MM:SS.mmm` time-code, or its value does not fit in a `u32` of
    /// milliseconds.
    TimeFormatInvalid,
    /// No file stem could be derived for the enriched copy.
    DestinationUnresolvable,
    /// Duplicating the audio file failed.
    CopyFile,
    /// Writing the assembled tag to the enriched copy failed.
    TagWriteFailed,
    /// A concurrent unit of work ended without reporting a result.
    ThreadInterrupted,
}

/// The human-readable message of each failure kind.
pub open spec fn message_of(e: AppliersErrors) -> Seq<char> {
    match e {
        AppliersErrors::AudioFileNotCompatible(detail) => "Invalid audio file format "@ + detail@,
        AppliersErrors::ChaptersFileNotCompatible => "Invalid chapter file format"@,
        AppliersErrors::TimeFormatInvalid => "Invalid time format"@,
        AppliersErrors::DestinationUnresolvable => "Cannot resolve destination file name"@,
        AppliersErrors::CopyFile => "Error while copying file"@,
        AppliersErrors::TagWriteFailed => "Error while writing tag"@,
        AppliersErrors::ThreadInterrupted => "Thread has been interrupted"@,
    }
}

impl AppliersErrors {
    /// The failure as a printable sentence.
    pub fn message(&self) -> (r: String)
        ensures
            r@ == message_of(*self),
    {
        match self {
            AppliersErrors::AudioFileNotCompatible(detail) => String::from_str(
                "Invalid audio file format ",
            ).concat(detail.as_str()),
            AppliersErrors::ChaptersFileNotCompatible => String::from_str(
                "Invalid chapter file format",
            ),
            AppliersErrors::TimeFormatInvalid => String::from_str("Invalid time format"),
            AppliersErrors::DestinationUnresolvable => String::from_str(
                "Cannot resolve destination file name",
            ),
            AppliersErrors::CopyFile => String::from_str("Error while copying file"),
            AppliersErrors::TagWriteFailed => String::from_str("Error while writing tag"),
            AppliersErrors::ThreadInterrupted => String::from_str("Thread has been interrupted"),
        }
    }
}

/// A probed duration, clamped to the `u32` milliseconds a chapter frame can
/// carry.
pub open spec fn clamped_duration(duration_ms: u64) -> u32 {
    if duration_ms > u32::MAX {
        u32::MAX
    } else {
        duration_ms as u32
    }
}

/// Applies the chapters of the marker file at `audition_cvs` to an enriched
/// copy of the MP3 file at `mp3_file`, returning the copy's path.
pub fn apply(audition_cvs: String, mp3_file: String, parallel: Mode) -> (r: Result<
    String,
    AppliersErrors,
>)
    ensures
        r is Ok ==> enriched_path(mp3_file@) is Some && r->Ok_0@ == enriched_path(mp3_file@)->0,
        r is Err && r->Err_0 is DestinationUnresolvable ==> enriched_path(mp3_file@) is None,
{
    match parallel {
        Mode::Sequential => Applier::new(audition_cvs, mp3_file).apply_seq(),
        Mode::Parallel => Applier::new(audition_cvs, mp3_file).apply_parallel(),
    }
}

/// Carries the two input paths through one run of the pipeline.
pub struct Applier {
    pub audition_cvs: String,
    pub mp3_file: String,
}

impl Applier {
    pub fn new(audition_cvs: String, mp3_file: String) -> (r: Applier)
        ensures
            r.audition_cvs == audition_cvs,
            r.mp3_file == mp3_file,
    {
        Applier { audition_cvs, mp3_file }
    }

    /// Runs the preparatory steps strictly in order — markers, audio probe,
    /// tag assembly, file copy — stopping at the first failure, then commits
    /// the tag to the enriched copy.
    pub fn apply_seq(&self) -> (r: Result<String, AppliersErrors>)
        ensures
            r is Ok ==> enriched_path(self.mp3_file@) is Some && r->Ok_0@ == enriched_path(
                self.mp3_file@,
            )->0,
            r is Err && r->Err_0 is DestinationUnresolvable ==> enriched_path(self.mp3_file@)
                is None,
    {
        let records = match self.load_cvs() {
            Ok(r) => r,
            Err(e) => {
                return Err(e);
            },
        };
        let duration_ms = match self.verify_mp3_file() {
            Ok(d) => d,
            Err(e) => {
                return Err(e);
            },
        };
        let tag = match Self::build_tag(&records, duration_ms) {
            Ok(t) => t,
            Err(e) => {
                return Err(e);
            },
        };
        let new_mp3_file = match self.copy_file() {
            Ok(p) => p,
            Err(e) => {
                return Err(e);
            },
        };
        match Self::write_tag(&tag, &new_mp3_file) {
            Ok(()) => Ok(new_mp3_file),
            Err(e) => Err(e),
        }
    }

    /// Runs the three independent preparatory steps each to completion before
    /// consulting any result, then reports in a fixed precedence: marker
    /// errors, then audio errors, then copy errors. The enriched copy can
    /// therefore exist on disk even when a step reported earlier failed.
    pub fn apply_parallel(&self) -> (r: Result<String, AppliersErrors>)
        ensures
            r is Ok ==> enriched_path(self.mp3_file@) is Some && r->Ok_0@ == enriched_path(
                self.mp3_file@,
            )->0,
            r is Err && r->Err_0 is DestinationUnresolvable ==> enriched_path(self.mp3_file@)
                is None,
    {
        let records_r = self.load_cvs();
        let duration_r = self.verify_mp3_file();
        let copy_r = self.copy_file();
        let records = match records_r {
            Ok(r) => r,
            Err(e) => {
                return Err(e);
            },
        };
        let duration_ms = match duration_r {
            Ok(d) => d,
            Err(e) => {
                return Err(e);
            },
        };
        let tag = match Self::build_tag(&records, duration_ms) {
            Ok(t) => t,
            Err(e) => {
                return Err(e);
            },
        };
        let new_mp3_file = match copy_r {
            Ok(p) => p,
            Err(e) => {
                return Err(e);
            },
        };
        match Self::write_tag(&tag, &new_mp3_file) {
            Ok(()) => Ok(new_mp3_file),
            Err(e) => Err(e),
        }
    }

    /// Reads the marker file as a tab-separated table and validates it; any
    /// defect anywhere invalidates the whole file.
    pub fn load_cvs(&self) -> (r: Result<AuditionCvsRecords, AppliersErrors>)
        ensures
            r is Ok ==> r->Ok_0@.len() > 0 && forall|i: int|
                0 <= i < r->Ok_0@.len() ==> start_separators_ok(
                    (#[trigger] r->Ok_0@[i]).start@,
                ),
            r is Err ==> r->Err_0 is ChaptersFileNotCompatible,
    {
        let tab: u8 = 9;
        match read_rows(&self.audition_cvs, tab) {
            Err(()) => Err(AppliersErrors::ChaptersFileNotCompatible),
            Ok((headers, rows)) => {
                let r = records_from_rows(&headers, &rows);
                proof {
                    if r is Ok {
                        let records = r->Ok_0@;
                        let ni = header_index(headers@, "Name"@);
                        let si = header_index(headers@, "Start"@);
                        assert forall|i: int|
                            0 <= i < records.len() implies start_separators_ok(
                            (#[trigger] records[i]).start@,
                        ) by {
                            assert(row_fields_ok(rows@[i], ni, si));
                            assert(records[i].start@ == rows@[i]->0@[si]@);
                        }
                    }
                }
                r
            },
        }
    }

    /// Probes the audio file; whatever the probe reports, only the MP3
    /// container is accepted.
    pub fn verify_mp3_file(&self) -> (r: Result<u32, AppliersErrors>)
        ensures
            r is Err ==> r->Err_0 is AudioFileNotCompatible,
    {
        match probe_audio(&self.mp3_file) {
            Err(()) => Err(AppliersErrors::AudioFileNotCompatible(self.mp3_file.clone())),
            Ok((format, duration_ms)) => Self::check_probe(&format, duration_ms),
        }
    }

    /// Decides from a probe's outcome whether the audio is usable, and at
    /// which millisecond offset the last chapter closes.
    pub fn check_probe(format: &String, duration_ms: u64) -> (r: Result<u32, AppliersErrors>)
        ensures
            r is Ok <==> format@ == "MP3"@,
            r is Ok ==> r->Ok_0 == clamped_duration(duration_ms),
            r is Err ==> (r->Err_0 matches AppliersErrors::AudioFileNotCompatible(d) && d@
                == format@),
    {
        if str_eq_str(format.as_str(), "MP3") {
            if duration_ms > 0xFFFF_FFFF {
                Ok(u32::MAX)
            } else {
                Ok(duration_ms as u32)
            }
        } else {
            Err(AppliersErrors::AudioFileNotCompatible(format.clone()))
        }
    }

    /// Derives the enriched copy's path — the stem gains `_enriched`, the
    /// directory and extension stay — and duplicates the audio file there.
    pub fn copy_file(&self) -> (r: Result<String, AppliersErrors>)
        ensures
            r is Ok ==> enriched_path(self.mp3_file@) is Some && r->Ok_0@ == enriched_path(
                self.mp3_file@,
            )->0,
            (r is Err && r->Err_0 is DestinationUnresolvable) <==> enriched_path(self.mp3_file@)
                is None,
            r is Err ==> r->Err_0 is DestinationUnresolvable || r->Err_0 is CopyFile,
    {
        let chars = chars_of_str(self.mp3_file.as_str());
        match enriched_path_chars(&chars) {
            None => Err(AppliersErrors::DestinationUnresolvable),
            Some(dest_chars) => {
                let dest = string_from_chars(&dest_chars);
                match copy_file_bytes(&self.mp3_file, &dest) {
                    Ok(()) => Ok(dest),
                    Err(()) => Err(AppliersErrors::CopyFile),
                }
            },
        }
    }

    /// Parses a `[HH:]MM:SS.mmm` time-code into its millisecond offset.
    pub fn convert_time(time: &str) -> (r: Result<u32, AppliersErrors>)
        ensures
            r is Ok <==> timecode_valid(time@),
            r is Ok ==> r->Ok_0 == timecode_value(time@),
            r is Err ==> r->Err_0 is TimeFormatInvalid,
    {
        let chars = chars_of_str(time);
        match parse_timecode(&chars) {
            Some(ms) => Ok(ms),
            None => Err(AppliersErrors::TimeFormatInvalid),
        }
    }

    /// Builds one chapter per marker, in order: chapter `i` starts at its
    /// marker's time-code and ends at the next marker's, the last at the
    /// track's total duration, so consecutive chapters always meet.
    pub fn build_chapters(records: &AuditionCvsRecords, duration_ms: u32) -> (r: Result<
        Vec<ChapterFrame>,
        AppliersErrors,
    >)
        ensures
            r is Ok <==> records@.len() > 0 && all_starts_valid(records@),
            r is Ok ==> {
                let frames = r->Ok_0@;
                &&& frames.len() == records@.len()
                &&& forall|i: int|
                    0 <= i < frames.len() ==> chapter_frame_matches(
                        #[trigger] frames[i],
                        chapter_entry(records@, duration_ms, i),
                    )
                &&& forall|i: int|
                    0 <= i < frames.len() - 1 ==> (#[trigger] frames[i]).end_ms == frames[
                        i + 1
                    ].start_ms
                &&& frames[frames.len() - 1].end_ms == duration_ms
            },
            r is Err && records@.len() == 0 ==> r->Err_0 is ChaptersFileNotCompatible,
            r is Err && records@.len() > 0 ==> r->Err_0 is TimeFormatInvalid,
    {
        if records.len() == 0 {
            return Err(AppliersErrors::ChaptersFileNotCompatible);
        }
        let mut starts: Vec<u32> = Vec::new();
        let mut i: usize = 0;
        while i < records.len()
            invariant
                i <= records@.len(),
                starts@.len() == i,
                forall|j: int|
                    0 <= j < i ==> timecode_valid((#[trigger] records@[j]).start@) && starts@[j]
                        == timecode_value(records@[j].start@),
            decreases records@.len() - i,
        {
            let chars = chars_of_str(records[i].start.as_str());
            match parse_timecode(&chars) {
                None => {
                    assert(!timecode_valid(records@[i as int].start@));
                    return Err(AppliersErrors::TimeFormatInvalid);
                },
                Some(ms) => {
                    starts.push(ms);
                },
            }
            i = i + 1;
        }
        let mut frames: Vec<ChapterFrame> = Vec::new();
        let mut i: usize = 0;
        while i < records.len()
            invariant
                i <= records@.len(),
                records@.len() > 0,
                frames@.len() == i,
                starts@.len() == records@.len(),
                all_starts_valid(records@),
                forall|j: int|
                    0 <= j < records@.len() ==> #[trigger] starts@[j] == timecode_value(
                        records@[j].start@,
                    ),
                forall|j: int|
                    0 <= j < i ==> chapter_frame_matches(
                        #[trigger] frames@[j],
                        chapter_entry(records@, duration_ms, j),
                    ),
            decreases records@.len() - i,
        {
            let end_ms: u32 = if i + 1 < records.len() {
                starts[i + 1]
            } else {
                duration_ms
            };
            let id_chars = decimal_chars(i as u64);
            let id = string_from_chars(&id_chars);
            let title = records[i].name.clone();
            let frame = ChapterFrame { id, start_ms: starts[i], end_ms, title };
            frames.push(frame);
            i = i + 1;
        }
        Ok(frames)
    }

    /// Assembles the whole tag: every chapter frame in marker order, then the
    /// single table of contents listing the chapter ids in the same order,
    /// under the fixed title.
    pub fn build_tag(records: &AuditionCvsRecords, duration_ms: u32) -> (r: Result<
        id3::Tag,
        AppliersErrors,
    >)
        ensures
            r is Ok <==> records@.len() > 0 && all_starts_valid(records@),
            r is Ok ==> tag_chapters(r->Ok_0) == chapter_entries(records@, duration_ms)
                && tag_tocs(r->Ok_0) == seq![toc_entry(records@.len())],
            r is Err && records@.len() == 0 ==> r->Err_0 is ChaptersFileNotCompatible,
            r is Err && records@.len() > 0 ==> r->Err_0 is TimeFormatInvalid,
    {
        let frames = match Self::build_chapters(records, duration_ms) {
            Ok(f) => f,
            Err(e) => {
                return Err(e);
            },
        };
        let ghost entries = chapter_entries(records@, duration_ms);
        let mut tag = tag_new();
        let mut chapter_ids: Vec<String> = Vec::new();
        let mut i: usize = 0;
        while i < frames.len()
            invariant
                i <= frames@.len(),
                frames@.len() == records@.len(),
                entries == chapter_entries(records@, duration_ms),
                forall|j: int|
                    0 <= j < frames@.len() ==> chapter_frame_matches(
                        #[trigger] frames@[j],
                        chapter_entry(records@, duration_ms, j),
                    ),
                tag_chapters(tag) == entries.take(i as int),
                tag_tocs(tag) == Seq::<crate::chapters::TocEntry>::empty(),
                chapter_ids@.len() == i,
                forall|j: int| 0 <= j < i ==> (#[trigger] chapter_ids@[j])@ == decimal(j as nat),
            decreases frames@.len() - i,
        {
            proof {
                assert(chapter_frame_matches(frames@[i as int], entries[i as int]));
                assert forall|k: int|
                    0 <= k < tag_chapters(tag).len() implies (#[trigger] tag_chapters(tag)[k]).0
                    != frames@[i as int].id@ by {
                    assert(tag_chapters(tag)[k] == entries[k]);
                    assert(entries[k].0 == decimal(k as nat));
                    lemma_decimal_injective(k as nat, i as nat);
                }
            }
            tag_push_chapter(&mut tag, &frames[i]);
            let id = frames[i].id.clone();
            chapter_ids.push(id);
            proof {
                let e = entries[i as int];
                assert(e == (e.0, e.1, e.2, e.3));
                assert(entries.take(i + 1 as int) =~= entries.take(i as int).push(
                    entries[i as int],
                ));
            }
            i = i + 1;
        }
        proof {
            assert(entries.take(frames@.len() as int) =~= entries);
        }
        let toc = TableOfContentsFrame {
            id: String::from_str("toc"),
            top_level: true,
            ordered: true,
            elements: chapter_ids,
            title: String::from_str("chapters-chapz"),
        };
        tag_push_toc(&mut tag, &toc);
        proof {
            assert(toc.elements.deep_view() =~= crate::chapters::toc_elements(records@.len()));
            let t = toc_entry(records@.len());
            assert(t == (t.0, t.1, t.2, t.3, t.4));
            assert(tag_tocs(tag) =~= seq![toc_entry(records@.len())]);
        }
        Ok(tag)
    }

    /// Commits the assembled tag to the enriched copy.
    pub fn write_tag(tag: &id3::Tag, dest: &String) -> (r: Result<(), AppliersErrors>)
        ensures
            r is Err ==> r->Err_0 is TagWriteFailed,
    {
        match tag_write(tag, dest) {
            Ok(()) => Ok(()),
            Err(()) => Err(AppliersErrors::TagWriteFailed),
        }
    }
}

} // verus!
