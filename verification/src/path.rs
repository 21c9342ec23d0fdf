//! Relative paths as text, with `/` between segments.
//!
//! The name of a path is its last segment; separators that end the path are
//! not counted to it. The extension of a path is what follows the last `.`
//! of its name, unless that `.` is the name's first character.

use crate::text::text_of;
use vstd::prelude::*;
use vstd::string::{StrSliceExecFns, StringExecFns};

verus! {

/// Length of `path` without the separators that end it.
pub open spec fn name_end(path: Seq<char>) -> int
    decreases path.len(),
{
    if path.len() > 0 && path.last() == '/' {
        name_end(path.drop_last())
    } else {
        path.len() as int
    }
}

/// `path` without the separators that end it.
pub open spec fn trimmed(path: Seq<char>) -> Seq<char> {
    path.take(name_end(path))
}

/// `i` is where the extension of `path` begins, for a `path` that does not
/// end in a separator: at the last `.` of the name, unless that `.` is the
/// name's first character.
pub open spec fn is_extension_dot(path: Seq<char>, i: int) -> bool {
    &&& 0 < i < path.len()
    &&& path[i] == '.'
    &&& path[i - 1] != '/'
    &&& forall|j: int| i < j < path.len() ==> path[j] != '.' && path[j] != '/'
}

/// Length of `path` without its extension and the dot before it, for a
/// `path` that does not end in a separator.
pub open spec fn stem_len(path: Seq<char>) -> int {
    if exists|i: int| is_extension_dot(path, i) {
        choose|i: int| is_extension_dot(path, i)
    } else {
        path.len() as int
    }
}

/// `path` without the separators that end it and without its extension.
pub open spec fn stem(path: Seq<char>) -> Seq<char> {
    trimmed(path).take(stem_len(trimmed(path)))
}

/// The extension of `path`, without the dot, if it has one.
pub open spec fn extension(path: Seq<char>) -> Option<Seq<char>> {
    if exists|i: int| is_extension_dot(trimmed(path), i) {
        Some(trimmed(path).skip(stem_len(trimmed(path)) + 1))
    } else {
        None
    }
}

/// `path` with its extension, if any, replaced by `ext`, and without the
/// separators that ended it. A path without a name stays as it is.
pub open spec fn with_extension(path: Seq<char>, ext: Seq<char>) -> Seq<char> {
    if name_end(path) == 0 {
        path
    } else {
        stem(path) + seq!['.'] + ext
    }
}

/// The segment `..` stands at `i`.
pub open spec fn is_parent_segment(path: Seq<char>, i: int) -> bool {
    &&& 0 <= i
    &&& i + 2 <= path.len()
    &&& path[i] == '.'
    &&& path[i + 1] == '.'
    &&& (i == 0 || path[i - 1] == '/')
    &&& (i + 2 == path.len() || path[i + 2] == '/')
}

/// `path` names nothing outside the directory that it is relative to: it
/// does not start at the root and has no segment `..`.
pub open spec fn stays_inside(path: Seq<char>) -> bool {
    &&& path.len() > 0 ==> path[0] != '/'
    &&& forall|i: int| !is_parent_segment(path, i)
}

/// What ends a path beyond `name_end` is separators, and none stands right
/// before it.
pub proof fn lemma_name_end(path: Seq<char>)
    ensures
        0 <= name_end(path) <= path.len(),
        forall|j: int| name_end(path) <= j < path.len() ==> path[j] == '/',
        name_end(path) > 0 ==> path[name_end(path) - 1] != '/',
    decreases path.len(),
{
    if path.len() > 0 && path.last() == '/' {
        let rest = path.drop_last();
        lemma_name_end(rest);
        assert forall|j: int| name_end(path) <= j < path.len() implies path[j] == '/' by {
            if j < rest.len() {
                assert(rest[j] == path[j]);
            }
        }
        if name_end(path) > 0 {
            assert(rest[name_end(path) - 1] == path[name_end(path) - 1]);
        }
    }
}

/// A length is `name_end` where only separators follow it and none stands
/// right before it.
pub proof fn lemma_name_end_is(path: Seq<char>, n: int)
    requires
        0 <= n <= path.len(),
        forall|j: int| n <= j < path.len() ==> path[j] == '/',
        n > 0 ==> path[n - 1] != '/',
    ensures
        name_end(path) == n,
    decreases path.len(),
{
    if path.len() > 0 && path.last() == '/' {
        lemma_name_end_is(path.drop_last(), n);
    }
}

/// A path has at most one place where its extension begins.
pub proof fn lemma_extension_dot_unique(path: Seq<char>, i: int, j: int)
    requires
        is_extension_dot(path, i),
        is_extension_dot(path, j),
    ensures
        i == j,
{
}

/// Replacing the extension does not lead outside: a path that stays inside
/// still does with another extension, where the extension has no separator.
pub proof fn lemma_with_extension_stays_inside(path: Seq<char>, ext: Seq<char>)
    requires
        stays_inside(path),
        ext.len() > 0,
        forall|j: int| 0 <= j < ext.len() ==> ext[j] != '/' && ext[j] != '.',
    ensures
        stays_inside(with_extension(path, ext)),
{
    lemma_name_end(path);
    let out = with_extension(path, ext);
    if name_end(path) != 0 {
        let t = trimmed(path);
        let s = stem_len(t);
        assert(0 <= s <= t.len());
        assert(out.len() == s + 1 + ext.len());
        assert(out[s] == '.');
        assert(forall|j: int| 0 <= j < s ==> out[j] == path[j]);
        assert(forall|j: int| s < j < out.len() ==> out[j] == ext[j - s - 1]);
        assert forall|i: int| !is_parent_segment(out, i) by {
            if is_parent_segment(out, i) {
                assert(i + 1 <= s);
                if i + 1 == s {
                    assert(out[i + 2] == ext[0]);
                } else {
                    assert(i + 2 <= s);
                    if i + 2 == s {
                        assert(out[i + 2] == '.');
                    } else {
                        assert(is_parent_segment(path, i));
                    }
                }
            }
        }
        if s == 0 {
            assert(out[0] == '.');
        }
    }
}

/// The characters of `path`.
fn chars_of(path: &str) -> (chars: Vec<char>)
    ensures
        chars@ == path@,
{
    let mut chars: Vec<char> = Vec::new();
    for c in it: path.chars()
        invariant
            it.seq() == path@,
            chars@ == path@.take(it.index() as int),
    {
        assert(path@.take(it.index() + 1) == path@.take(it.index() as int).push(c));
        chars.push(c);
    }
    assert(path@.take(path@.len() as int) == path@);
    chars
}

/// Length of `chars` without the separators that end it.
fn name_end_of(chars: &Vec<char>) -> (end: usize)
    ensures
        end == name_end(chars@),
        end <= chars@.len(),
{
    let mut end: usize = chars.len();
    while end > 0 && chars[end - 1] == '/'
        invariant
            end <= chars@.len(),
            forall|j: int| end <= j < chars@.len() ==> chars@[j] == '/',
        decreases end,
    {
        end = end - 1;
    }
    proof {
        lemma_name_end_is(chars@, end as int);
    }
    end
}

/// Where the extension of the first `end` characters begins.
fn dot_of(chars: &Vec<char>, end: usize) -> (dot: Option<usize>)
    requires
        end <= chars@.len(),
    ensures
        match dot {
            Some(i) => is_extension_dot(chars@.take(end as int), i as int),
            None => forall|i: int| !is_extension_dot(chars@.take(end as int), i),
        },
{
    let ghost name = chars@.take(end as int);
    let mut at: usize = end;
    while at > 0
        invariant
            at <= end <= chars@.len(),
            name == chars@.take(end as int),
            forall|j: int| at <= j < end ==> name[j] != '.' && name[j] != '/',
        decreases at,
    {
        at = at - 1;
        if chars[at] == '/' {
            assert(name[at as int] == '/');
            return None;
        }
        if chars[at] == '.' {
            assert(name[at as int] == '.');
            if at > 0 && chars[at - 1] != '/' {
                assert(name[at - 1] == chars@[at - 1]);
                return Some(at);
            }
            return None;
        }
        assert(name[at as int] == chars@[at as int]);
    }
    None
}

/// Finds where the extension of `path` begins, counted in characters.
pub fn find_extension_dot(path: &str) -> (dot: Option<usize>)
    ensures
        match dot {
            Some(i) => is_extension_dot(trimmed(path@), i as int),
            None => forall|i: int| !is_extension_dot(trimmed(path@), i),
        },
{
    let chars = chars_of(path);
    let end: usize = name_end_of(&chars);
    dot_of(&chars, end)
}

/// The extension of `path`, without the dot.
pub fn extension_of(path: &str) -> (ext: Option<String>)
    ensures
        text_of(ext) == extension(path@),
{
    let chars = chars_of(path);
    let end: usize = name_end_of(&chars);
    match dot_of(&chars, end) {
        Some(dot) => {
            proof {
                let t = trimmed(path@);
                lemma_extension_dot_unique(t, dot as int, stem_len(t));
                assert(path@.subrange(dot + 1, end as int) == t.skip(dot + 1));
            }
            Some(String::from_str(path.substring_char(dot + 1, end)))
        },
        None => None,
    }
}

/// `path` with its extension, if any, replaced by `ext`.
pub fn replace_extension(path: &str, ext: &str) -> (out: String)
    ensures
        out@ == with_extension(path@, ext@),
{
    let chars = chars_of(path);
    let end: usize = name_end_of(&chars);
    if end == 0 {
        return String::from_str(path);
    }
    let cut: usize = match dot_of(&chars, end) {
        Some(dot) => {
            proof {
                lemma_extension_dot_unique(trimmed(path@), dot as int, stem_len(trimmed(path@)));
            }
            dot
        },
        None => end,
    };
    let mut out = String::from_str(path.substring_char(0, cut));
    out.append(".");
    out.append(ext);
    proof {
        reveal_strlit(".");
        assert("."@ == seq!['.']);
        assert(path@.subrange(0, cut as int) == stem(path@));
    }
    out
}

/// Whether `path` names nothing outside the directory that it is relative
/// to.
pub fn stays_inside_of(path: &str) -> (inside: bool)
    ensures
        inside == stays_inside(path@),
{
    let chars = chars_of(path);
    let len: usize = chars.len();
    if len > 0 && chars[0] == '/' {
        return false;
    }
    let mut at: usize = 0;
    while at < len
        invariant
            at <= len == chars@.len(),
            chars@ == path@,
            forall|i: int| 0 <= i < at ==> !is_parent_segment(path@, i),
        decreases len - at,
    {
        if len - at >= 2 && chars[at] == '.' && chars[at + 1] == '.' && (at == 0 || chars[at - 1]
            == '/') && (len - at == 2 || chars[at + 2] == '/') {
            assert(is_parent_segment(path@, at as int));
            return false;
        }
        at = at + 1;
    }
    true
}

} // verus!
