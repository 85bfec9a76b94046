//! The text extractor: pulls one value out of unstructured text.
//!
//! Two fixed patterns cover every probe. `extract_assignment` finds the first
//! `KEY=value` or `KEY="value"` assignment in a line-oriented blob (value
//! terminated by a newline, quotes optional and stripped). `extract_basename`
//! takes the trailing path segment after the last `/`. Both follow first-match
//! semantics: the match starting at the leftmost possible position wins.

use vstd::prelude::*;

verus! {

/// A character that may stand inside an extracted value: anything but a
/// newline or a double quote.
pub open spec fn is_value_char(c: char) -> bool {
    c != '\n' && c != '"'
}

/// The first position at or after `p` where the run of value characters
/// stops (the text's end if it never does).
pub open spec fn run_end(t: Seq<char>, p: int) -> int
    decreases t.len() - p,
{
    if p < 0 || p >= t.len() {
        p
    } else if is_value_char(t[p]) {
        run_end(t, p + 1)
    } else {
        p
    }
}

/// Does the assignment pattern for `key` match at position `i` of `t`?
/// It does when `t` carries `key` at `i`, followed by an optionally quoted,
/// nonempty run of value characters that a newline terminates.
pub open spec fn assign_match_at(t: Seq<char>, key: Seq<char>, i: int) -> bool {
    let j = i + key.len();
    &&& 0 <= i
    &&& j <= t.len()
    &&& t.subrange(i, j) == key
    &&& {
        let start = if j < t.len() && t[j] == '"' {
            j + 1
        } else {
            j
        };
        let end = run_end(t, start);
        &&& start < end
        &&& end < t.len()
        &&& (t[end] == '\n' || (t[end] == '"' && end + 1 < t.len() && t[end + 1] == '\n'))
    }
}

/// The value that a match of `key` at position `i` captures.
pub open spec fn assign_capture_at(t: Seq<char>, key: Seq<char>, i: int) -> Seq<char> {
    let j = i + key.len();
    let start = if j < t.len() && t[j] == '"' {
        j + 1
    } else {
        j
    };
    t.subrange(start, run_end(t, start))
}

/// The capture of the first match of `key` at or after position `i`.
pub open spec fn extract_assign_from(t: Seq<char>, key: Seq<char>, i: int) -> Option<Seq<char>>
    decreases t.len() - i,
{
    if i < 0 || i > t.len() {
        None
    } else if assign_match_at(t, key, i) {
        Some(assign_capture_at(t, key, i))
    } else if i == t.len() {
        None
    } else {
        extract_assign_from(t, key, i + 1)
    }
}

/// The capture of the first `KEY=value` assignment match in `t`.
pub open spec fn spec_extract_assign(t: Seq<char>, key: Seq<char>) -> Option<Seq<char>> {
    extract_assign_from(t, key, 0)
}

proof fn lemma_run_end_bounds(t: Seq<char>, p: int)
    requires
        0 <= p <= t.len(),
    ensures
        p <= run_end(t, p) <= t.len(),
        forall|m: int| p <= m < run_end(t, p) ==> is_value_char(t[m]),
        run_end(t, p) < t.len() ==> !is_value_char(t[run_end(t, p)]),
    decreases t.len() - p,
{
    if p < t.len() && is_value_char(t[p]) {
        lemma_run_end_bounds(t, p + 1);
    }
}

/// Compares `key` with the segment of `t` that starts at `i`.
fn text_eq_at(t: &str, tlen: usize, key: &str, klen: usize, i: usize) -> (r: bool)
    requires
        tlen == t@.len(),
        klen == key@.len(),
        i + klen <= tlen,
    ensures
        r == (t@.subrange(i as int, i + klen) == key@),
{
    let mut k: usize = 0;
    while k < klen
        invariant
            k <= klen,
            tlen == t@.len(),
            klen == key@.len(),
            i + klen <= tlen,
            forall|m: int| 0 <= m < k ==> t@[i + m] == key@[m],
        decreases klen - k,
    {
        if t.get_char(i + k) != key.get_char(k) {
            proof {
                assert(t@.subrange(i as int, i + klen)[k as int] != key@[k as int]);
            }
            return false;
        }
        k = k + 1;
    }
    proof {
        assert(t@.subrange(i as int, i + klen) =~= key@);
    }
    true
}

/// Tries the assignment pattern at one position; returns its capture if it
/// matches there.
fn try_assign_at(t: &str, tlen: usize, key: &str, klen: usize, i: usize) -> (r: Option<String>)
    requires
        tlen == t@.len(),
        klen == key@.len(),
        i <= tlen,
    ensures
        match r {
            Some(v) => assign_match_at(t@, key@, i as int) && v@ == assign_capture_at(
                t@,
                key@,
                i as int,
            ),
            None => !assign_match_at(t@, key@, i as int),
        },
{
    if klen > tlen - i {
        return None;
    }
    if !text_eq_at(t, tlen, key, klen, i) {
        return None;
    }
    let j = i + klen;
    let start: usize = if j < tlen && t.get_char(j) == '"' {
        j + 1
    } else {
        j
    };
    let mut end: usize = start;
    while end < tlen && t.get_char(end) != '\n' && t.get_char(end) != '"'
        invariant
            tlen == t@.len(),
            start <= end <= tlen,
            run_end(t@, start as int) == run_end(t@, end as int),
        decreases tlen - end,
    {
        end = end + 1;
    }
    proof {
        assert(run_end(t@, end as int) == end as int);
    }
    if end == start {
        return None;
    }
    if end == tlen {
        return None;
    }
    let terminator = t.get_char(end);
    if terminator == '\n' || (terminator == '"' && end + 1 < tlen && t.get_char(end + 1) == '\n') {
        let v = t.substring_char(start, end);
        Some(v.to_owned())
    } else {
        None
    }
}

/// Applies the assignment pattern for `key` to `text` and returns the first
/// captured value, or `None` when no position of `text` matches.
pub fn extract_assignment(text: &str, key: &str) -> (r: Option<String>)
    ensures
        match r {
            Some(v) => spec_extract_assign(text@, key@) matches Some(c) && v@ == c,
            None => spec_extract_assign(text@, key@) is None,
        },
{
    let tlen = text.unicode_len();
    let klen = key.unicode_len();
    let mut i: usize = 0;
    loop
        invariant
            i <= tlen,
            tlen == text@.len(),
            klen == key@.len(),
            spec_extract_assign(text@, key@) == extract_assign_from(text@, key@, i as int),
        decreases tlen - i,
    {
        let found = try_assign_at(text, tlen, key, klen, i);
        match found {
            Some(v) => {
                return Some(v);
            },
            None => {
                if i == tlen {
                    return None;
                }
                i = i + 1;
            },
        }
    }
}

/// Is there no `/` at or after position `i` of `t`?
pub open spec fn no_slash_from(t: Seq<char>, i: int) -> bool {
    forall|m: int| i <= m < t.len() ==> t[m] != '/'
}

/// The suffix that the basename pattern captures when its first match starts
/// at or after position `i`.
pub open spec fn basename_from(t: Seq<char>, i: int) -> Option<Seq<char>>
    decreases t.len() - i,
{
    if i < 0 || i >= t.len() {
        None
    } else if no_slash_from(t, i) {
        Some(t.subrange(i, t.len() as int))
    } else {
        basename_from(t, i + 1)
    }
}

/// The nonempty trailing segment of `t` after its last `/`: the first match
/// of a pattern asking for one or more non-slash characters at the text's
/// end. Empty text, or text ending in `/`, has none.
pub open spec fn spec_basename(t: Seq<char>) -> Option<Seq<char>> {
    basename_from(t, 0)
}

proof fn lemma_basename_from(t: Seq<char>, i: int, start: int)
    requires
        0 <= i <= start <= t.len(),
        forall|m: int| start <= m < t.len() ==> t[m] != '/',
        start == 0 || (start - 1 < t.len() && t[start - 1] == '/'),
    ensures
        basename_from(t, i) == if start < t.len() {
            Some(t.subrange(start, t.len() as int))
        } else {
            None::<Seq<char>>
        },
    decreases start - i,
{
    if i < start {
        assert(t[start - 1] == '/');
        assert(!no_slash_from(t, i));
        lemma_basename_from(t, i + 1, start);
    }
}

/// Returns the trailing path segment of `text`: everything after the last
/// `/`, or `None` when that segment is empty or `text` is.
pub fn extract_basename(text: &str) -> (r: Option<String>)
    ensures
        match r {
            Some(v) => spec_basename(text@) matches Some(c) && v@ == c,
            None => spec_basename(text@) is None,
        },
{
    let len = text.unicode_len();
    let mut start: usize = 0;
    let mut k: usize = 0;
    while k < len
        invariant
            start <= k <= len,
            len == text@.len(),
            forall|m: int| start <= m < k ==> text@[m] != '/',
            start == 0 || (start - 1 < len && text@[start - 1] == '/'),
        decreases len - k,
    {
        if text.get_char(k) == '/' {
            start = k + 1;
        }
        k = k + 1;
    }
    proof {
        lemma_basename_from(text@, 0, start as int);
    }
    if start < len {
        let v = text.substring_char(start, len);
        Some(v.to_owned())
    } else {
        None
    }
}

} // verus!
