//! Derivation of the enriched copy's path: the source file's stem gains an
//! `_enriched` suffix, keeping directory and extension.

use vstd::prelude::*;

use crate::text::subvec;

verus! {

/// The last index at which `c` occurs in `s`, or `-1`.
pub open spec fn rfind(s: Seq<char>, c: char) -> int
    decreases s.len(),
{
    if s.len() == 0 {
        -1
    } else if s.last() == c {
        s.len() - 1
    } else {
        rfind(s.drop_last(), c)
    }
}

pub proof fn lemma_rfind(s: Seq<char>, c: char)
    ensures
        -1 <= rfind(s, c) < s.len(),
        rfind(s, c) >= 0 ==> s[rfind(s, c)] == c,
        forall|j: int| rfind(s, c) < j < s.len() ==> s[j] != c,
    decreases s.len(),
{
    if s.len() > 0 && s.last() != c {
        lemma_rfind(s.drop_last(), c);
        assert forall|j: int| rfind(s, c) < j < s.len() implies s[j] != c by {
            if j < s.len() - 1 {
                assert(s[j] == s.drop_last()[j]);
            }
        }
    }
}

/// The suffix spliced in before the extension.
pub open spec fn enriched_suffix() -> Seq<char> {
    seq!['_', 'e', 'n', 'r', 'i', 'c', 'h', 'e', 'd']
}

/// The enriched copy's path: the file name's stem is suffixed `_enriched`,
/// directory and extension stay. `None` when the path carries no file name
/// (it ends in a separator or is empty). A leading dot alone does not open an
/// extension, so a dot-file keeps its whole name as the stem.
pub open spec fn enriched_path(p: Seq<char>) -> Option<Seq<char>> {
    let slash = rfind(p, '/');
    let fname = p.skip(slash + 1);
    if fname.len() == 0 {
        None
    } else {
        let dot = rfind(fname, '.');
        if dot > 0 {
            Some(p.take(slash + 1) + fname.take(dot) + enriched_suffix() + fname.skip(dot))
        } else {
            Some(p.take(slash + 1) + fname + enriched_suffix())
        }
    }
}

/// The last index at which `c` occurs in `v`, if any.
pub fn rfind_char_in(v: &Vec<char>, c: char) -> (r: Option<usize>)
    ensures
        r is Some ==> rfind(v@, c) == r->0 as int,
        r is None ==> rfind(v@, c) == -1,
{
    let mut best: Option<usize> = None;
    let mut i: usize = 0;
    while i < v.len()
        invariant
            i <= v@.len(),
            best is Some ==> rfind(v@.take(i as int), c) == best->0 as int,
            best is None ==> rfind(v@.take(i as int), c) == -1,
        decreases v@.len() - i,
    {
        proof {
            assert(v@.take(i + 1 as int).drop_last() =~= v@.take(i as int));
            assert(v@.take(i + 1 as int).last() == v@[i as int]);
        }
        if v[i] == c {
            best = Some(i);
        }
        i = i + 1;
    }
    proof {
        assert(v@.take(v@.len() as int) =~= v@);
    }
    best
}

/// Appends the characters of `src` to `dst`.
fn push_all(dst: &mut Vec<char>, src: &Vec<char>)
    ensures
        final(dst)@ == old(dst)@ + src@,
{
    let mut i: usize = 0;
    while i < src.len()
        invariant
            i <= src@.len(),
            dst@ == old(dst)@ + src@.take(i as int),
        decreases src@.len() - i,
    {
        dst.push(src[i]);
        proof {
            assert(old(dst)@ + src@.take(i + 1 as int) =~= (old(dst)@ + src@.take(i as int)).push(
                src@[i as int],
            ));
        }
        i = i + 1;
    }
    proof {
        assert(src@.take(src@.len() as int) =~= src@);
    }
}

/// Appends `_enriched` to `dst`.
fn push_suffix(dst: &mut Vec<char>)
    ensures
        final(dst)@ == old(dst)@ + enriched_suffix(),
{
    dst.push('_');
    dst.push('e');
    dst.push('n');
    dst.push('r');
    dst.push('i');
    dst.push('c');
    dst.push('h');
    dst.push('e');
    dst.push('d');
    proof {
        assert(dst@ =~= old(dst)@ + enriched_suffix());
    }
}

/// Derives the enriched copy's path from the source path's characters;
/// `None` exactly when no file name can be extracted.
pub fn enriched_path_chars(p: &Vec<char>) -> (r: Option<Vec<char>>)
    ensures
        r is Some <==> enriched_path(p@) is Some,
        r is Some ==> r->0@ == enriched_path(p@)->0,
{
    proof {
        lemma_rfind(p@, '/');
    }
    let n = p.len();
    let fstart: usize = match rfind_char_in(p, '/') {
        None => 0,
        Some(s) => {
            assert(s < n);
            s + 1
        },
    };
    let fname = subvec(p, fstart, n);
    proof {
        assert(fname@ =~= p@.skip(rfind(p@, '/') + 1));
    }
    if fname.len() == 0 {
        return None;
    }
    proof {
        lemma_rfind(fname@, '.');
    }
    let mut out = subvec(p, 0, fstart);
    proof {
        assert(out@ =~= p@.take(rfind(p@, '/') + 1));
    }
    match rfind_char_in(&fname, '.') {
        Some(dot) if dot > 0 => {
            let stem = subvec(&fname, 0, dot);
            let ext = subvec(&fname, dot, fname.len());
            push_all(&mut out, &stem);
            push_suffix(&mut out);
            push_all(&mut out, &ext);
            proof {
                assert(stem@ =~= fname@.take(rfind(fname@, '.')));
                assert(ext@ =~= fname@.skip(rfind(fname@, '.')));
            }
            Some(out)
        },
        _ => {
            push_all(&mut out, &fname);
            push_suffix(&mut out);
            Some(out)
        },
    }
}

} // verus!
