//! The trusted boundary: every call into an outside crate, and the one std
//! conversion Verus has no specification for, lives here behind a contract.

use vstd::prelude::*;

use id3::TagLike;
use lofty::prelude::AudioFile;
use lofty::prelude::TaggedFileExt;

use crate::chapters::{ChapterEntry, ChapterFrame, TableOfContentsFrame, TocEntry};

verus! {

/// Relies on std's `String` being buildable from an iterator over `char`s:
/// the resulting string holds exactly the given characters, in order.
#[verifier::external_body]
pub(crate) fn string_from_chars(v: &Vec<char>) -> (s: String)
    ensures
        s@ == v@,
{
    v.iter().collect()
}

/// Relies on `csv::ReaderBuilder` and `csv::Reader`: reads the file at `path`
/// as a delimited table with a header row, trimming headers and fields; every
/// data row the reader rejects is handed back as `None` in its place. What
/// comes back depends on the file on disk, so nothing is promised of it; the
/// callers handle every outcome.
#[verifier::external_body]
pub(crate) fn read_rows(path: &String, delimiter: u8) -> (r: Result<
    (Vec<String>, Vec<Option<Vec<String>>>),
    (),
>) {
    let built = csv::ReaderBuilder::new().delimiter(delimiter).trim(csv::Trim::All).from_path(path.as_str());
    let mut reader = match built {
        Ok(rdr) => rdr,
        Err(_) => return Err(()),
    };
    let headers: Vec<String> = match reader.headers() {
        Ok(h) => h.iter().map(|f| f.to_string()).collect(),
        Err(_) => return Err(()),
    };
    let rows = reader.records().map(|row| row.ok().map(|rec| rec.iter().map(|f| f.to_string()).collect())).collect();
    Ok((headers, rows))
}

/// Relies on `lofty::read_from_path`: probes the container format of the file
/// at `path` and its playing time, handed back in milliseconds. The MPEG and
/// Ogg Vorbis containers are reported under their conventional names. What
/// comes back depends on the file on disk, so nothing is promised of it; the
/// callers handle every outcome.
#[verifier::external_body]
pub(crate) fn probe_audio(path: &String) -> (r: Result<(String, u64), ()>) {
    let tagged = match lofty::read_from_path(path.as_str()) {
        Ok(t) => t,
        Err(_) => return Err(()),
    };
    let format = match tagged.file_type() {
        lofty::file::FileType::Mpeg => "MP3".to_string(),
        lofty::file::FileType::Vorbis => "OGG".to_string(),
        other => format!("{:?}", other),
    };
    Ok((format, tagged.properties().duration().as_millis() as u64))
}

/// Relies on `fs_extra::file::copy`: duplicates the bytes of the file at
/// `src` to `dst`, overwriting an existing destination and leaving the source
/// untouched.
#[verifier::external_body]
pub(crate) fn copy_file_bytes(src: &String, dst: &String) -> (r: Result<(), ()>) {
    let mut options = fs_extra::file::CopyOptions::new();
    options.overwrite = true;
    match fs_extra::file::copy(src.as_str(), dst.as_str(), &options) {
        Ok(_) => Ok(()),
        Err(_) => Err(()),
    }
}

#[verifier::external_type_specification]
#[verifier::external_body]
pub struct ExId3Tag(id3::Tag);

/// The chapter frames a tag holds, in frame order, each as
/// (element id, start ms, end ms, title of the TIT2 subframe).
pub uninterp spec fn tag_chapters(t: id3::Tag) -> Seq<ChapterEntry>;

/// The table-of-contents frames a tag holds, in frame order, each as
/// (element id, top-level flag, ordered flag, child element ids, title of the
/// TIT2 subframe).
pub uninterp spec fn tag_tocs(t: id3::Tag) -> Seq<TocEntry>;

/// Relies on `id3::Tag::new`: a fresh tag holds no frames.
#[verifier::external_body]
pub(crate) fn tag_new() -> (t: id3::Tag)
    ensures
        tag_chapters(t) == Seq::<ChapterEntry>::empty(),
        tag_tocs(t) == Seq::<TocEntry>::empty(),
{
    id3::Tag::new()
}

/// Relies on `id3::TagLike::add_frame`: a CHAP frame whose element id differs
/// from every chapter element id already present is appended after the
/// existing frames (an equal id would replace that frame instead, so it is
/// ruled out). The chapter title travels as a TIT2 text subframe.
#[verifier::external_body]
pub(crate) fn tag_push_chapter(t: &mut id3::Tag, ch: &ChapterFrame)
    requires
        forall|k: int|
            0 <= k < tag_chapters(*old(t)).len() ==> (#[trigger] tag_chapters(*old(t))[k]).0
                != ch.id@,
    ensures
        tag_chapters(*final(t)) == tag_chapters(*old(t)).push(
            (ch.id@, ch.start_ms, ch.end_ms, ch.title@),
        ),
        tag_tocs(*final(t)) == tag_tocs(*old(t)),
{
    t.add_frame(
        id3::frame::Chapter {
            element_id: ch.id.clone(),
            start_time: ch.start_ms,
            end_time: ch.end_ms,
            start_offset: 0,
            end_offset: 0,
            frames: vec![id3::Frame::text("TIT2", ch.title.clone())],
        },
    );
}

/// Relies on `id3::TagLike::add_frame`: a CTOC frame whose element id differs
/// from every table-of-contents element id already present is appended after
/// the existing frames. The title travels as a TIT2 text subframe.
#[verifier::external_body]
pub(crate) fn tag_push_toc(t: &mut id3::Tag, toc: &TableOfContentsFrame)
    requires
        forall|k: int|
            0 <= k < tag_tocs(*old(t)).len() ==> (#[trigger] tag_tocs(*old(t))[k]).0 != toc.id@,
    ensures
        tag_tocs(*final(t)) == tag_tocs(*old(t)).push(
            (toc.id@, toc.top_level, toc.ordered, toc.elements.deep_view(), toc.title@),
        ),
        tag_chapters(*final(t)) == tag_chapters(*old(t)),
{
    t.add_frame(
        id3::frame::TableOfContents {
            element_id: toc.id.clone(),
            top_level: toc.top_level,
            ordered: toc.ordered,
            elements: toc.elements.clone(),
            frames: vec![id3::Frame::text("TIT2", toc.title.clone())],
        },
    );
}

/// Relies on `id3::Tag::write_to_path`: encodes the tag as ID3v2.4 and embeds
/// it in the file at `path`. Whether that succeeds depends on the disk, so
/// nothing is promised of it.
#[verifier::external_body]
pub(crate) fn tag_write(t: &id3::Tag, path: &String) -> (r: Result<(), ()>) {
    match t.write_to_path(path.as_str(), id3::Version::Id3v24) {
        Ok(()) => Ok(()),
        Err(_) => Err(()),
    }
}

} // verus!
