//! The marker records read from the tab-separated export, and the validation
//! that turns raw table rows into them.
//!
//! A table is usable when it has a header row naming a `Name` and a `Start`
//! column, at least one data row, no row the reader rejected, and every start
//! field carrying both a `:` and a `.`; anything else invalidates the whole
//! file.

use vstd::prelude::*;

use crate::AppliersErrors;
use crate::text::{str_contains_char, str_eq_str};

verus! {

/// One marker row: a chapter title and the raw text of its start time-code.
pub struct AuditionCvsRecord {
    pub name: String,
    pub start: String,
}

pub type AuditionCvsRecords = Vec<AuditionCvsRecord>;

/// The first column whose header reads `name`, or `-1`.
pub open spec fn header_index(headers: Seq<String>, name: Seq<char>) -> int
    decreases headers.len(),
{
    if headers.len() == 0 {
        -1
    } else if headers[0]@ == name {
        0
    } else {
        let r = header_index(headers.skip(1), name);
        if r < 0 {
            -1
        } else {
            r + 1
        }
    }
}

pub proof fn lemma_header_index(headers: Seq<String>, name: Seq<char>)
    ensures
        -1 <= header_index(headers, name) < headers.len(),
        header_index(headers, name) >= 0 ==> headers[header_index(headers, name)]@ == name,
        forall|j: int| 0 <= j < header_index(headers, name) ==> headers[j]@ != name,
        header_index(headers, name) == -1 ==> forall|j: int|
            0 <= j < headers.len() ==> headers[j]@ != name,
    decreases headers.len(),
{
    if headers.len() > 0 && headers[0]@ != name {
        lemma_header_index(headers.skip(1), name);
        let r = header_index(headers.skip(1), name);
        if r >= 0 {
            assert(headers[r + 1] == headers.skip(1)[r]);
            assert forall|j: int| 0 <= j < r + 1 implies headers[j]@ != name by {
                if j > 0 {
                    assert(headers[j] == headers.skip(1)[j - 1]);
                }
            }
        } else {
            assert forall|j: int| 0 <= j < headers.len() implies headers[j]@ != name by {
                if j > 0 {
                    assert(headers[j] == headers.skip(1)[j - 1]);
                }
            }
        }
    }
}

/// A start field must carry both separators of a time-code.
pub open spec fn start_separators_ok(s: Seq<char>) -> bool {
    s.contains(':') && s.contains('.')
}

/// Whether one raw row can become a record, given the two column positions.
pub open spec fn row_fields_ok(row: Option<Vec<String>>, ni: int, si: int) -> bool {
    &&& row is Some
    &&& ni < row->0@.len()
    &&& si < row->0@.len()
    &&& start_separators_ok(row->0@[si]@)
}

/// Whether the whole table yields a valid, non-empty record list.
pub open spec fn rows_ok(headers: Seq<String>, rows: Seq<Option<Vec<String>>>) -> bool {
    let ni = header_index(headers, "Name"@);
    let si = header_index(headers, "Start"@);
    &&& rows.len() > 0
    &&& ni >= 0
    &&& si >= 0
    &&& forall|i: int| 0 <= i < rows.len() ==> row_fields_ok(#[trigger] rows[i], ni, si)
}

/// The first column whose header reads `name`, if any.
fn find_header(headers: &Vec<String>, name: &str) -> (r: Option<usize>)
    ensures
        r is Some ==> header_index(headers@, name@) == r->0 as int && r->0 < headers@.len(),
        r is None ==> header_index(headers@, name@) == -1,
{
    proof {
        lemma_header_index(headers@, name@);
    }
    let mut i: usize = 0;
    while i < headers.len()
        invariant
            i <= headers@.len(),
            forall|j: int| 0 <= j < i ==> headers@[j]@ != name@,
        decreases headers@.len() - i,
    {
        if str_eq_str(headers[i].as_str(), name) {
            proof {
                lemma_header_index(headers@, name@);
            }
            return Some(i);
        }
        i = i + 1;
    }
    proof {
        lemma_header_index(headers@, name@);
    }
    None
}

/// Turns the raw table into marker records, or rejects the whole file.
///
/// Succeeds exactly on tables that `rows_ok` accepts; the records then carry,
/// row by row, the `Name` and `Start` fields of the first so-named columns.
pub fn records_from_rows(headers: &Vec<String>, rows: &Vec<Option<Vec<String>>>) -> (r: Result<
    AuditionCvsRecords,
    AppliersErrors,
>)
    ensures
        r is Ok <==> rows_ok(headers@, rows@),
        r is Ok ==> {
            let ni = header_index(headers@, "Name"@);
            let si = header_index(headers@, "Start"@);
            &&& r->Ok_0@.len() == rows@.len()
            &&& forall|i: int|
                0 <= i < rows@.len() ==> (#[trigger] r->Ok_0@[i]).name@ == rows@[i]->0@[ni]@
                    && r->Ok_0@[i].start@ == rows@[i]->0@[si]@
        },
        r is Err ==> r->Err_0 is ChaptersFileNotCompatible,
{
    let ni = match find_header(headers, "Name") {
        None => {
            return Err(AppliersErrors::ChaptersFileNotCompatible);
        },
        Some(x) => x,
    };
    let si = match find_header(headers, "Start") {
        None => {
            return Err(AppliersErrors::ChaptersFileNotCompatible);
        },
        Some(x) => x,
    };
    if rows.len() == 0 {
        return Err(AppliersErrors::ChaptersFileNotCompatible);
    }
    let mut out: Vec<AuditionCvsRecord> = Vec::new();
    let mut i: usize = 0;
    while i < rows.len()
        invariant
            i <= rows@.len(),
            rows@.len() > 0,
            ni as int == header_index(headers@, "Name"@),
            si as int == header_index(headers@, "Start"@),
            out@.len() == i,
            forall|j: int| 0 <= j < i ==> row_fields_ok(#[trigger] rows@[j], ni as int, si as int),
            forall|j: int|
                0 <= j < i ==> (#[trigger] out@[j]).name@ == rows@[j]->0@[ni as int]@
                    && out@[j].start@ == rows@[j]->0@[si as int]@,
        decreases rows@.len() - i,
    {
        match &rows[i] {
            None => {
                assert(!row_fields_ok(rows@[i as int], ni as int, si as int));
                return Err(AppliersErrors::ChaptersFileNotCompatible);
            },
            Some(fields) => {
                if ni >= fields.len() || si >= fields.len() {
                    assert(!row_fields_ok(rows@[i as int], ni as int, si as int));
                    return Err(AppliersErrors::ChaptersFileNotCompatible);
                }
                let has_colon = str_contains_char(fields[si].as_str(), ':');
                let has_dot = str_contains_char(fields[si].as_str(), '.');
                if !(has_colon && has_dot) {
                    assert(!row_fields_ok(rows@[i as int], ni as int, si as int));
                    return Err(AppliersErrors::ChaptersFileNotCompatible);
                }
                let rec = AuditionCvsRecord { name: fields[ni].clone(), start: fields[si].clone() };
                out.push(rec);
            },
        }
        i = i + 1;
    }
    Ok(out)
}

} // verus!
