//! Parsing of `[HH:]MM:SS.mmm` time-codes into millisecond offsets.
//!
//! A time-code is split at its first `.`; the part before it must consist of
//! two or three non-empty, digits-only segments separated by `:`, and the part
//! after it is a non-empty, digits-only millisecond count. The segments weigh
//! in right-to-left as seconds, minutes and hours; the whole value must fit in
//! a `u32` of milliseconds.

use vstd::prelude::*;

use crate::text::{decimal, digit_char, find_char_in, find_first, subvec};

verus! {

pub open spec fn is_digit(c: char) -> bool {
    '0' <= c <= '9'
}

pub open spec fn digit_val(c: char) -> nat {
    (c as int - '0' as int) as nat
}

pub open spec fn all_digits(s: Seq<char>) -> bool {
    forall|i: int| 0 <= i < s.len() ==> is_digit(#[trigger] s[i])
}

/// The number a digits-only string denotes, most significant digit first.
pub open spec fn digits_val(s: Seq<char>) -> nat
    decreases s.len(),
{
    if s.len() == 0 {
        0
    } else {
        digits_val(s.drop_last()) * 10 + digit_val(s.last())
    }
}

/// The pieces of `s` between occurrences of `sep`, in order; a string without
/// `sep` is one piece, and separators at the ends contribute empty pieces.
pub open spec fn split_on(s: Seq<char>, sep: char) -> Seq<Seq<char>>
    decreases s.len(),
    via split_on_decreases
{
    let i = find_first(s, sep);
    if i < 0 {
        seq![s]
    } else {
        seq![s.take(i)] + split_on(s.skip(i + 1), sep)
    }
}

#[via_fn]
proof fn split_on_decreases(s: Seq<char>, sep: char) {
    crate::text::lemma_find_first(s, sep);
}

/// The weight of the colon-separated segments, right-to-left: seconds, then
/// minutes, then hours, each expressed in milliseconds. Meaningful only for
/// two or three segments.
pub open spec fn segments_value(segs: Seq<Seq<char>>) -> nat {
    if segs.len() == 2 {
        digits_val(segs[0]) * 60000 + digits_val(segs[1]) * 1000
    } else {
        digits_val(segs[0]) * 3600000 + digits_val(segs[1]) * 60000 + digits_val(segs[2]) * 1000
    }
}

/// Whether `s` is a well-formed time-code whose value fits in a `u32` of
/// milliseconds.
pub open spec fn timecode_valid(s: Seq<char>) -> bool {
    let dot = find_first(s, '.');
    &&& dot >= 0
    &&& {
        let segs = split_on(s.take(dot), ':');
        let ms = s.skip(dot + 1);
        &&& (segs.len() == 2 || segs.len() == 3)
        &&& forall|k: int|
            0 <= k < segs.len() ==> (#[trigger] segs[k]).len() > 0 && all_digits(segs[k])
        &&& ms.len() > 0
        &&& all_digits(ms)
        &&& segments_value(segs) + digits_val(ms) <= u32::MAX
    }
}

/// The millisecond offset a valid time-code denotes.
pub open spec fn timecode_value(s: Seq<char>) -> nat {
    let dot = find_first(s, '.');
    let segs = split_on(s.take(dot), ':');
    let ms = s.skip(dot + 1);
    segments_value(segs) + digits_val(ms)
}

proof fn lemma_digits_val_take_step(s: Seq<char>, i: int)
    requires
        0 <= i < s.len(),
    ensures
        digits_val(s.take(i + 1)) == digits_val(s.take(i)) * 10 + digit_val(s[i]),
{
    assert(s.take(i + 1).drop_last() =~= s.take(i));
    assert(s.take(i + 1).last() == s[i]);
}

proof fn lemma_digits_val_take_monotonic(s: Seq<char>, i: int)
    requires
        0 <= i <= s.len(),
    ensures
        digits_val(s.take(i)) <= digits_val(s),
    decreases s.len() - i,
{
    if i == s.len() {
        assert(s.take(i) =~= s);
    } else {
        lemma_digits_val_take_step(s, i);
        lemma_digits_val_take_monotonic(s, i + 1);
    }
}

/// Reads a digits-only piece as a number, rejecting empty or non-numeric
/// pieces and values beyond `u32::MAX`.
pub fn parse_segment(seg: &Vec<char>) -> (r: Option<u32>)
    ensures
        r is Some <==> seg@.len() > 0 && all_digits(seg@) && digits_val(seg@) <= u32::MAX,
        r is Some ==> r->0 == digits_val(seg@),
{
    if seg.len() == 0 {
        return None;
    }
    let mut acc: u64 = 0;
    let mut i: usize = 0;
    while i < seg.len()
        invariant
            i <= seg@.len(),
            acc == digits_val(seg@.take(i as int)),
            acc <= u32::MAX,
            all_digits(seg@.take(i as int)),
        decreases seg@.len() - i,
    {
        let c = seg[i];
        if c < '0' || c > '9' {
            assert(!is_digit(seg@[i as int]));
            return None;
        }
        let d = (c as u32) - ('0' as u32);
        proof {
            lemma_digits_val_take_step(seg@, i as int);
            assert(seg@.take(i + 1 as int).last() == seg@[i as int]);
            assert(all_digits(seg@.take(i + 1 as int))) by {
                assert(forall|j: int|
                    0 <= j < i + 1 ==> seg@.take(i + 1 as int)[j] == seg@.take(i as int).push(
                        seg@[i as int],
                    )[j]);
            }
        }
        acc = acc * 10 + (d as u64);
        if acc > 0xFFFF_FFFF {
            proof {
                lemma_digits_val_take_monotonic(seg@, i + 1);
            }
            return None;
        }
        i = i + 1;
    }
    proof {
        assert(seg@.take(seg@.len() as int) =~= seg@);
    }
    Some(acc as u32)
}

/// Splits `v` at every occurrence of `sep`.
pub fn split_on_char(v: &Vec<char>, sep: char) -> (r: Vec<Vec<char>>)
    ensures
        r@.len() == split_on(v@, sep).len(),
        forall|k: int| 0 <= k < r@.len() ==> (#[trigger] r@[k])@ == split_on(v@, sep)[k],
    decreases v@.len(),
{
    match find_char_in(v, sep) {
        None => {
            let mut r: Vec<Vec<char>> = Vec::new();
            let piece = subvec(v, 0, v.len());
            proof {
                assert(piece@ =~= v@);
            }
            r.push(piece);
            r
        },
        Some(i) => {
            proof {
                crate::text::lemma_find_first(v@, sep);
                assert(i as int == find_first(v@, sep));
                assert((i as int) < v@.len());
            }
            let head = subvec(v, 0, i);
            let tail = subvec(v, i + 1, v.len());
            proof {
                assert(tail@ =~= v@.skip(i + 1 as int));
                assert(head@ =~= v@.take(i as int));
            }
            let rest = split_on_char(&tail, sep);
            let mut r: Vec<Vec<char>> = Vec::new();
            r.push(head);
            let mut k: usize = 0;
            while k < rest.len()
                invariant
                    k <= rest@.len(),
                    r@.len() == k + 1,
                    r@[0]@ == v@.take(i as int),
                    forall|j: int| 1 <= j <= k ==> (#[trigger] r@[j])@ == rest@[j - 1]@,
                    rest@.len() == split_on(v@.skip(i + 1 as int), sep).len(),
                    forall|j: int|
                        0 <= j < rest@.len() ==> (#[trigger] rest@[j])@ == split_on(
                            v@.skip(i + 1 as int),
                            sep,
                        )[j],
                decreases rest@.len() - k,
            {
                let piece = subvec(&rest[k], 0, rest[k].len());
                proof {
                    assert(piece@ =~= rest@[k as int]@);
                }
                r.push(piece);
                k = k + 1;
            }
            proof {
                let spec_r = split_on(v@, sep);
                assert(spec_r == seq![v@.take(i as int)] + split_on(v@.skip(i + 1 as int), sep));
                assert(r@.len() == spec_r.len());
                assert forall|j: int| 0 <= j < r@.len() implies (#[trigger] r@[j])@ == spec_r[j] by {
                    if j == 0 {
                        assert(spec_r[0] == v@.take(i as int));
                    } else {
                        assert(r@[j]@ == rest@[j - 1]@);
                        assert(spec_r[j] == split_on(v@.skip(i + 1 as int), sep)[j - 1]);
                    }
                }
            }
            r
        },
    }
}

/// Parses a time-code into its millisecond offset; `None` exactly on the
/// strings that are not valid time-codes.
pub fn parse_timecode(v: &Vec<char>) -> (r: Option<u32>)
    ensures
        r is Some <==> timecode_valid(v@),
        r is Some ==> r->0 == timecode_value(v@),
{
    proof {
        crate::text::lemma_find_first(v@, '.');
    }
    let dot = match find_char_in(v, '.') {
        None => {
            return None;
        },
        Some(d) => d,
    };
    proof {
        assert(dot as int == find_first(v@, '.'));
        assert((dot as int) < v@.len());
    }
    let n_all = v.len();
    assert(dot < n_all);
    let pre = subvec(v, 0, dot);
    let ms_part = subvec(v, dot + 1, n_all);
    proof {
        assert(pre@ =~= v@.take(dot as int));
        assert(ms_part@ =~= v@.skip(dot + 1 as int));
    }
    let segs = split_on_char(&pre, ':');
    let n = segs.len();
    if !(n == 2 || n == 3) {
        return None;
    }
    let ms = match parse_segment(&ms_part) {
        None => {
            return None;
        },
        Some(m) => m,
    };
    let v0 = match parse_segment(&segs[0]) {
        None => {
            return None;
        },
        Some(x) => x,
    };
    let v1 = match parse_segment(&segs[1]) {
        None => {
            return None;
        },
        Some(x) => x,
    };
    let total: u64 = if n == 2 {
        (v0 as u64) * 60000 + (v1 as u64) * 1000 + (ms as u64)
    } else {
        let v2 = match parse_segment(&segs[2]) {
            None => {
                return None;
            },
            Some(x) => x,
        };
        (v0 as u64) * 3600000 + (v1 as u64) * 60000 + (v2 as u64) * 1000 + (ms as u64)
    };
    if total > 0xFFFF_FFFF {
        return None;
    }
    Some(total as u32)
}

} // verus!
