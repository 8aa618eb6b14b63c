//! Chapter and table-of-contents frames, and the model of the tag content
//! that a marker list plus a total duration determine.

use vstd::prelude::*;

use crate::Mode;
use crate::model::AuditionCvsRecord;
use crate::text::decimal;
use crate::timecode::{timecode_valid, timecode_value};

verus! {

/// One chapter: a zero-based index rendered as its element id, the time range
/// in milliseconds, and the marker's name as title.
pub struct ChapterFrame {
    pub id: String,
    pub start_ms: u32,
    pub end_ms: u32,
    pub title: String,
}

/// The single table-of-contents frame: it lists every chapter element id, in
/// chapter order.
pub struct TableOfContentsFrame {
    pub id: String,
    pub top_level: bool,
    pub ordered: bool,
    pub elements: Vec<String>,
    pub title: String,
}

/// The model of a chapter frame: (element id, start ms, end ms, title).
pub type ChapterEntry = (Seq<char>, u32, u32, Seq<char>);

/// The model of a table-of-contents frame:
/// (element id, top-level flag, ordered flag, child element ids, title).
pub type TocEntry = (Seq<char>, bool, bool, Seq<Seq<char>>, Seq<char>);

/// Whether a built chapter frame carries exactly the modelled entry.
pub open spec fn chapter_frame_matches(f: ChapterFrame, e: ChapterEntry) -> bool {
    f.id@ == e.0 && f.start_ms == e.1 && f.end_ms == e.2 && f.title@ == e.3
}

/// Whether every marker's start field is a well-formed time-code.
pub open spec fn all_starts_valid(records: Seq<AuditionCvsRecord>) -> bool {
    forall|i: int| 0 <= i < records.len() ==> timecode_valid((#[trigger] records[i]).start@)
}

/// Where the chapter at `i` ends: at the next marker's start, or at the end
/// of the track for the last marker.
pub open spec fn chapter_end(records: Seq<AuditionCvsRecord>, duration_ms: u32, i: int) -> nat {
    if i + 1 < records.len() {
        timecode_value(records[i + 1].start@)
    } else {
        duration_ms as nat
    }
}

/// The chapter the marker at `i` determines.
pub open spec fn chapter_entry(
    records: Seq<AuditionCvsRecord>,
    duration_ms: u32,
    i: int,
) -> ChapterEntry {
    (
        decimal(i as nat),
        timecode_value(records[i].start@) as u32,
        chapter_end(records, duration_ms, i) as u32,
        records[i].name@,
    )
}

/// All chapters, in marker order.
pub open spec fn chapter_entries(records: Seq<AuditionCvsRecord>, duration_ms: u32) -> Seq<
    ChapterEntry,
> {
    Seq::new(records.len(), |i: int| chapter_entry(records, duration_ms, i))
}

/// The element ids `"0", "1", ..."` of `n` chapters, in order.
pub open spec fn toc_elements(n: nat) -> Seq<Seq<char>> {
    Seq::new(n, |i: int| decimal(i as nat))
}

/// The single table-of-contents entry over `n` chapters.
pub open spec fn toc_entry(n: nat) -> TocEntry {
    ("toc"@, true, true, toc_elements(n), "chapters-chapz"@)
}

/// The whole tag content a marker list and a duration determine: the chapter
/// frames in marker order, then one table of contents.
pub open spec fn tag_model(records: Seq<AuditionCvsRecord>, duration_ms: u32) -> (
    Seq<ChapterEntry>,
    Seq<TocEntry>,
) {
    (chapter_entries(records, duration_ms), seq![toc_entry(records.len())])
}

/// The tag content an execution strategy commits. Both strategies hand the
/// same markers and duration to the same assembly, so the mode never reaches
/// the tag.
pub open spec fn planned_tag(mode: Mode, records: Seq<AuditionCvsRecord>, duration_ms: u32) -> (
    Seq<ChapterEntry>,
    Seq<TocEntry>,
) {
    match mode {
        Mode::Sequential => tag_model(records, duration_ms),
        Mode::Parallel => tag_model(records, duration_ms),
    }
}

/// For every valid, non-empty marker list and total duration: there is one
/// chapter per marker; each chapter ends exactly where its successor starts;
/// and the last chapter ends at the track's total duration.
pub proof fn lemma_chapter_boundaries(records: Seq<AuditionCvsRecord>, duration_ms: u32)
    requires
        records.len() > 0,
        all_starts_valid(records),
    ensures
        chapter_entries(records, duration_ms).len() == records.len(),
        forall|i: int|
            0 <= i < records.len() - 1 ==> (#[trigger] chapter_entries(records, duration_ms)[i]).2
                == chapter_entries(records, duration_ms)[i + 1].1,
        chapter_entries(records, duration_ms)[records.len() - 1].2 == duration_ms,
{
}

/// For any marker count N >= 1, the table of contents lists exactly the ids
/// `"0", "1", ..., "N-1"`, in that order: element `i` is the id of chapter
/// `i`.
pub proof fn lemma_toc_lists_chapters_in_order(records: Seq<AuditionCvsRecord>, duration_ms: u32)
    requires
        records.len() >= 1,
    ensures
        toc_entry(records.len()).3.len() == chapter_entries(records, duration_ms).len(),
        forall|i: int|
            0 <= i < records.len() ==> toc_entry(records.len()).3[i] == (
            #[trigger] chapter_entries(records, duration_ms)[i]).0,
{
}

/// The sequential and the parallel strategy commit identical tag content for
/// identical markers and duration.
pub proof fn lemma_strategies_commit_identical_tags(
    records: Seq<AuditionCvsRecord>,
    duration_ms: u32,
)
    ensures
        planned_tag(Mode::Sequential, records, duration_ms) == planned_tag(
            Mode::Parallel,
            records,
            duration_ms,
        ),
{
}

} // verus!
