//! Paths as text: the parts of a path that the tailer and the uploader read.
//!
//! A path is a sequence of characters in which `/` separates the segments.
//! Separators and `.` segments at the end of a path name nothing and are
//! passed over.

use vstd::prelude::*;
use vstd::string::*;

verus! {

/// The separator of path segments.
pub const SEPARATOR: char = '/';

/// The end of `path[..hi]` once trailing separators and `.` segments are
/// passed over.
pub open spec fn tail_end(path: Seq<char>, hi: int) -> int
    decreases hi,
{
    if hi <= 0 || hi > path.len() {
        0
    } else if path[hi - 1] == SEPARATOR {
        tail_end(path, hi - 1)
    } else if path[hi - 1] == '.' && (hi == 1 || path[hi - 2] == SEPARATOR) {
        tail_end(path, hi - 1)
    } else {
        hi
    }
}

/// The index just behind the last `c` in `s[..hi]`, or 0 where there is none.
pub open spec fn after_last(s: Seq<char>, c: char, hi: int) -> int
    decreases hi,
{
    if hi <= 0 || hi > s.len() {
        0
    } else if s[hi - 1] == c {
        hi
    } else {
        after_last(s, c, hi - 1)
    }
}

/// The last segment of `path` that names an entry: none for a path without
/// segments and for one that ends in `..`.
pub open spec fn base_name_spec(path: Seq<char>) -> Option<Seq<char>> {
    let end = tail_end(path, path.len() as int);
    let name = path.subrange(after_last(path, SEPARATOR, end), end);
    if name.len() == 0 || name == seq!['.', '.'] {
        None
    } else {
        Some(name)
    }
}

/// What follows the last dot of the base name: none where the path has no
/// base name, where the name holds no dot, and where its only dot leads it.
pub open spec fn extension_spec(path: Seq<char>) -> Option<Seq<char>> {
    match base_name_spec(path) {
        None => None,
        Some(name) => {
            let start = after_last(name, '.', name.len() as int);
            if start <= 1 {
                None
            } else {
                Some(name.subrange(start, name.len() as int))
            }
        },
    }
}

/// The path up to and including the separator before its last segment: empty
/// for a single segment, none for a path without segments.
pub open spec fn directory_prefix_spec(path: Seq<char>) -> Option<Seq<char>> {
    let end = tail_end(path, path.len() as int);
    if end == 0 {
        None
    } else {
        Some(path.subrange(0, after_last(path, SEPARATOR, end)))
    }
}

/// `name` placed in the directory `dir`.
pub open spec fn join_spec(dir: Seq<char>, name: Seq<char>) -> Seq<char> {
    if dir.len() == 0 || dir.last() == SEPARATOR {
        dir + name
    } else {
        dir.push(SEPARATOR) + name
    }
}

/// `c` with the letters `A` to `Z` turned into `a` to `z`.
pub open spec fn fold_char(c: char) -> char {
    if 'A' <= c && c <= 'Z' {
        ((c as u8) + 32) as char
    } else {
        c
    }
}

/// `s` with every character folded.
pub open spec fn fold(s: Seq<char>) -> Seq<char> {
    s.map_values(|c: char| fold_char(c))
}

/// Two texts are the same but for the case of their ASCII letters.
pub open spec fn same_ignoring_case(a: Seq<char>, b: Seq<char>) -> bool {
    fold(a) == fold(b)
}

proof fn lemma_tail_end_bounds(path: Seq<char>, hi: int)
    requires
        0 <= hi <= path.len(),
    ensures
        0 <= tail_end(path, hi) <= hi,
    decreases hi,
{
    if hi > 0 && (path[hi - 1] == SEPARATOR || (path[hi - 1] == '.' && (hi == 1 || path[hi - 2]
        == SEPARATOR))) {
        lemma_tail_end_bounds(path, hi - 1);
    }
}

proof fn lemma_after_last_bounds(s: Seq<char>, c: char, hi: int)
    requires
        0 <= hi <= s.len(),
    ensures
        0 <= after_last(s, c, hi) <= hi,
    decreases hi,
{
    if hi > 0 && s[hi - 1] != c {
        lemma_after_last_bounds(s, c, hi - 1);
    }
}

/// A base name is not empty, holds no separator, and is neither `.` nor `..`.
pub proof fn lemma_base_name_is_a_segment(path: Seq<char>)
    ensures
        match base_name_spec(path) {
            Some(name) => name.len() > 0 && !name.contains(SEPARATOR) && name != seq!['.']
                && name != seq!['.', '.'],
            None => true,
        },
{
    let end = tail_end(path, path.len() as int);
    lemma_tail_end_bounds(path, path.len() as int);
    lemma_after_last_bounds(path, SEPARATOR, end);
    let start = after_last(path, SEPARATOR, end);
    lemma_after_last_skips(path, SEPARATOR, end);
    let name = path.subrange(start, end);
    if name.len() > 0 {
        assert forall|k: int| 0 <= k < name.len() implies name[k] != SEPARATOR by {
            assert(name[k] == path[start + k]);
        }
        lemma_tail_end_stops(path, path.len() as int);
        if name == seq!['.'] {
            assert(name[0] == '.');
            assert(path[end - 1] == '.');
            assert(start == end - 1);
        }
    }
}

/// Nothing at or behind `after_last` equals `c`; the character before it does.
proof fn lemma_after_last_skips(s: Seq<char>, c: char, hi: int)
    requires
        0 <= hi <= s.len(),
    ensures
        forall|k: int| after_last(s, c, hi) <= k < hi ==> s[k] != c,
        after_last(s, c, hi) > 0 ==> s[after_last(s, c, hi) - 1] == c,
    decreases hi,
{
    if hi > 0 && s[hi - 1] != c {
        lemma_after_last_skips(s, c, hi - 1);
    }
}

/// Where `tail_end` stops, the path ends in a segment other than `.`.
proof fn lemma_tail_end_stops(path: Seq<char>, hi: int)
    requires
        0 <= hi <= path.len(),
    ensures
        ({
            let end = tail_end(path, hi);
            end > 0 ==> path[end - 1] != SEPARATOR && !(path[end - 1] == '.' && (end == 1
                || path[end - 2] == SEPARATOR))
        }),
    decreases hi,
{
    if hi > 0 && (path[hi - 1] == SEPARATOR || (path[hi - 1] == '.' && (hi == 1 || path[hi - 2]
        == SEPARATOR))) {
        lemma_tail_end_stops(path, hi - 1);
    }
}

fn find_tail_end(path: &str, len: usize) -> (end: usize)
    requires
        len == path@.len(),
    ensures
        end == tail_end(path@, len as int),
        end <= len,
{
    let mut end: usize = len;
    loop
        invariant
            end <= len,
            len == path@.len(),
            tail_end(path@, len as int) == tail_end(path@, end as int),
        ensures
            end <= len,
            end == tail_end(path@, len as int),
        decreases end,
    {
        if end == 0 {
            break ;
        }
        let last: char = path.get_char(end - 1);
        if last == SEPARATOR {
            end = end - 1;
        } else if last == '.' && (end == 1 || path.get_char(end - 2) == SEPARATOR) {
            end = end - 1;
        } else {
            break ;
        }
    }
    end
}

fn find_after_last(s: &str, c: char, hi: usize) -> (at: usize)
    requires
        hi <= s@.len(),
    ensures
        at == after_last(s@, c, hi as int),
        at <= hi,
{
    let mut at: usize = hi;
    while at > 0 && s.get_char(at - 1) != c
        invariant
            at <= hi <= s@.len(),
            after_last(s@, c, hi as int) == after_last(s@, c, at as int),
        decreases at,
    {
        at = at - 1;
    }
    at
}

/// The last segment of `path` that names an entry.
pub fn base_name(path: &str) -> (name: Option<String>)
    ensures
        name.is_some() == base_name_spec(path@).is_some(),
        name.is_some() ==> name.unwrap()@ == base_name_spec(path@).unwrap(),
{
    let len: usize = path.unicode_len();
    let end: usize = find_tail_end(path, len);
    let start: usize = find_after_last(path, SEPARATOR, end);
    let name = path.substring_char(start, end);
    if start == end {
        return None;
    }
    if end - start == 2 && name.get_char(0) == '.' && name.get_char(1) == '.' {
        assert(name@ == seq!['.', '.']);
        return None;
    }
    assert(name@ != seq!['.', '.']) by {
        if name@ == seq!['.', '.'] {
            assert(name@.len() == 2);
            assert(name@[0] == '.');
            assert(name@[1] == '.');
        }
    }
    Some(name.to_owned())
}

/// What follows the last dot of the base name of `path`.
pub fn extension(path: &str) -> (ext: Option<String>)
    ensures
        ext.is_some() == extension_spec(path@).is_some(),
        ext.is_some() ==> ext.unwrap()@ == extension_spec(path@).unwrap(),
{
    match base_name(path) {
        None => None,
        Some(name) => {
            let name = name.as_str();
            let len: usize = name.unicode_len();
            let start: usize = find_after_last(name, '.', len);
            if start <= 1 {
                None
            } else {
                Some(name.substring_char(start, len).to_owned())
            }
        },
    }
}

/// The path up to and including the separator before its last segment.
pub fn directory_prefix(path: &str) -> (dir: Option<String>)
    ensures
        dir.is_some() == directory_prefix_spec(path@).is_some(),
        dir.is_some() ==> dir.unwrap()@ == directory_prefix_spec(path@).unwrap(),
{
    let len: usize = path.unicode_len();
    let end: usize = find_tail_end(path, len);
    if end == 0 {
        None
    } else {
        let cut: usize = find_after_last(path, SEPARATOR, end);
        Some(path.substring_char(0, cut).to_owned())
    }
}

/// `name` placed in the directory `dir`.
pub fn join(dir: &str, name: &str) -> (joined: String)
    ensures
        joined@ == join_spec(dir@, name@),
{
    let len: usize = dir.unicode_len();
    let mut joined = dir.to_owned();
    if len > 0 && dir.get_char(len - 1) != SEPARATOR {
        joined.append("/");
        proof {
            reveal_strlit("/");
            assert("/"@ == seq![SEPARATOR]);
            assert(dir@ + seq![SEPARATOR] == dir@.push(SEPARATOR));
        }
    }
    joined.append(name);
    joined
}

/// `c` with the letters `A` to `Z` turned into `a` to `z`.
pub fn fold_letter(c: char) -> (folded: char)
    ensures
        folded == fold_char(c),
{
    if 'A' <= c && c <= 'Z' {
        ((c as u8) + 32) as char
    } else {
        c
    }
}

/// Whether two texts are the same but for the case of their ASCII letters.
pub fn eq_ignore_ascii_case(a: &str, b: &str) -> (same: bool)
    ensures
        same == same_ignoring_case(a@, b@),
{
    let len: usize = a.unicode_len();
    if len != b.unicode_len() {
        assert(fold(a@).len() != fold(b@).len());
        return false;
    }
    let mut at: usize = 0;
    while at < len
        invariant
            at <= len,
            len == a@.len(),
            len == b@.len(),
            forall|k: int| 0 <= k < at ==> fold_char(a@[k]) == fold_char(b@[k]),
        decreases len - at,
    {
        if fold_letter(a.get_char(at)) != fold_letter(b.get_char(at)) {
            assert(fold(a@)[at as int] != fold(b@)[at as int]);
            return false;
        }
        at = at + 1;
    }
    assert(fold(a@) =~= fold(b@));
    true
}

} // verus!
