//! The front matter block of a Markdown source.
//!
//! A source holds front matter where it reads: three hyphens, one or more
//! newlines, the metadata, one or more newlines, three hyphens, one or more
//! newlines, and then the body up to the end of the source. Neither line of
//! hyphens has to start a line of its own, and the first need not start the
//! source. Where a source can be read like this in several ways, one reading
//! is the front matter: the one that starts earliest and, after that, makes
//! first the opening run of newlines, then the metadata, then each later run
//! of newlines as long as it can be.

use crate::text::{lemma_boundary_after_ascii, lemma_boundary_before_ascii};
use vstd::prelude::*;
use vstd::string::StringSliceAdditionalSpecFns;
use vstd::utf8::{encode_utf8_valid_utf8, is_char_boundary_start_end_of_seq};

verus! {

/// The byte `-`.
pub const HYPHEN: u8 = 45;

/// The byte that ends a line.
pub const NEWLINE: u8 = 10;

/// The length of the shortest source with front matter: two rules, each
/// followed by a newline, and one more newline between them.
pub const SHORTEST: usize = 9;

/// Where the parts of one reading of a source lie, as byte offsets.
#[derive(Clone, Copy, Debug, PartialEq, Eq, Structural)]
pub struct Span {
    /// Start of the opening three hyphens.
    pub open: usize,
    /// Start of the metadata, after the opening run of newlines.
    pub meta_start: usize,
    /// End of the metadata, where the second run of newlines starts.
    pub meta_end: usize,
    /// Start of the closing three hyphens.
    pub close: usize,
    /// Start of the body, after the last run of newlines.
    pub body_start: usize,
}

/// Three hyphens stand at `at`.
pub open spec fn rule_at(s: Seq<u8>, at: int) -> bool {
    &&& 0 <= at
    &&& at + 3 <= s.len()
    &&& s[at] == HYPHEN
    &&& s[at + 1] == HYPHEN
    &&& s[at + 2] == HYPHEN
}

/// Every byte from `from` up to `to` is a newline.
pub open spec fn newlines(s: Seq<u8>, from: int, to: int) -> bool {
    forall|k: int| from <= k < to ==> s[k] == NEWLINE
}

/// `m` is a reading of `s` as front matter followed by a body.
pub open spec fn is_reading(s: Seq<u8>, m: Span) -> bool {
    &&& rule_at(s, m.open as int)
    &&& m.open + 3 < m.meta_start
    &&& newlines(s, m.open + 3, m.meta_start as int)
    &&& m.meta_start <= m.meta_end < m.close
    &&& newlines(s, m.meta_end as int, m.close as int)
    &&& rule_at(s, m.close as int)
    &&& m.close + 3 < m.body_start <= s.len()
    &&& newlines(s, m.close + 3, m.body_start as int)
}

/// `a` is chosen before `b`, or is `b`: it starts earlier or, from the same
/// start, has the first part in which the two differ longer.
pub open spec fn preferred(a: Span, b: Span) -> bool {
    ||| a.open < b.open
    ||| a.open == b.open && a.meta_start > b.meta_start
    ||| a.open == b.open && a.meta_start == b.meta_start && a.meta_end > b.meta_end
    ||| a.open == b.open && a.meta_start == b.meta_start && a.meta_end == b.meta_end && a.close
        > b.close
    ||| a.open == b.open && a.meta_start == b.meta_start && a.meta_end == b.meta_end && a.close
        == b.close && a.body_start >= b.body_start
}

/// `s` can be read as front matter followed by a body.
pub open spec fn has_front_matter(s: Seq<u8>) -> bool {
    exists|m: Span| is_reading(s, m)
}

/// `m` is the front matter of `s`: the reading chosen before all others.
pub open spec fn is_front_matter(s: Seq<u8>, m: Span) -> bool {
    &&& is_reading(s, m)
    &&& forall|o: Span| is_reading(s, o) ==> preferred(m, o)
}

/// The front matter of `s`, if it has one.
pub open spec fn front_matter(s: Seq<u8>) -> Option<Span> {
    if exists|m: Span| is_front_matter(s, m) {
        Some(choose|m: Span| is_front_matter(s, m))
    } else {
        None
    }
}

/// The metadata that `m` cuts out of `s`.
pub open spec fn metadata_of(s: Seq<u8>, m: Span) -> Seq<u8> {
    s.subrange(m.meta_start as int, m.meta_end as int)
}

/// The body that `m` cuts out of `s`.
pub open spec fn body_of(s: Seq<u8>, m: Span) -> Seq<u8> {
    s.subrange(m.body_start as int, s.len() as int)
}

/// A source has at most one front matter.
pub proof fn lemma_front_matter_unique(s: Seq<u8>, a: Span, b: Span)
    requires
        is_front_matter(s, a),
        is_front_matter(s, b),
    ensures
        a == b,
{
    assert(preferred(a, b));
    assert(preferred(b, a));
}

/// Three hyphens and a newline stand at `at`: a reading can start here.
pub open spec fn opens_at(s: Seq<u8>, at: int) -> bool {
    &&& rule_at(s, at)
    &&& at + 3 < s.len()
    &&& s[at + 3] == NEWLINE
}

/// Three hyphens stand at `at` between two newlines: the metadata of a
/// reading can end before them.
pub open spec fn closes_at(s: Seq<u8>, at: int) -> bool {
    &&& 1 <= at
    &&& s[at - 1] == NEWLINE
    &&& opens_at(s, at)
}

/// Every reading starts and ends its metadata at such places, at least five
/// bytes apart.
pub proof fn lemma_reading_bounds(s: Seq<u8>, m: Span)
    requires
        is_reading(s, m),
    ensures
        opens_at(s, m.open as int),
        closes_at(s, m.close as int),
        m.open + 5 <= m.close,
{
    assert(s[m.open + 3] == NEWLINE);
    assert(s[m.close - 1] == NEWLINE);
    assert(s[m.close + 3] == NEWLINE);
}

/// A source has no reading where no place to start and place to end the
/// metadata lie five bytes apart.
pub proof fn lemma_no_reading(s: Seq<u8>)
    requires
        forall|i: int, d: int| opens_at(s, i) && closes_at(s, d) ==> d < i + 5,
    ensures
        !has_front_matter(s),
{
    assert forall|m: Span| !is_reading(s, m) by {
        if is_reading(s, m) {
            lemma_reading_bounds(s, m);
        }
    }
}

fn has_rule(s: &[u8], at: usize) -> (found: bool)
    requires
        at + 3 <= s@.len(),
    ensures
        found == rule_at(s@, at as int),
{
    s[at] == HYPHEN && s[at + 1] == HYPHEN && s[at + 2] == HYPHEN
}

fn can_open(s: &[u8], at: usize) -> (found: bool)
    requires
        at <= s@.len(),
    ensures
        found == opens_at(s@, at as int),
{
    s.len() - at > 3 && has_rule(s, at) && s[at + 3] == NEWLINE
}

fn can_close(s: &[u8], at: usize) -> (found: bool)
    requires
        at <= s@.len(),
    ensures
        found == closes_at(s@, at as int),
{
    at >= 1 && s[at - 1] == NEWLINE && can_open(s, at)
}

/// The end of the run of newlines that starts at `from`.
fn skip_newlines(s: &[u8], from: usize) -> (to: usize)
    requires
        from <= s@.len(),
    ensures
        from <= to <= s@.len(),
        newlines(s@, from as int, to as int),
        to < s@.len() ==> s@[to as int] != NEWLINE,
{
    let mut to: usize = from;
    while to < s.len() && s[to] == NEWLINE
        invariant
            from <= to <= s@.len(),
            newlines(s@, from as int, to as int),
        decreases s@.len() - to,
    {
        to = to + 1;
    }
    to
}

/// The last place where metadata can end.
fn last_close(s: &[u8]) -> (found: Option<usize>)
    ensures
        match found {
            Some(at) => closes_at(s@, at as int) && forall|d: int| closes_at(s@, d) ==> d <= at,
            None => forall|d: int| !closes_at(s@, d),
        },
{
    let mut at: usize = s.len();
    while at > 0
        invariant
            at <= s@.len(),
            forall|d: int| closes_at(s@, d) ==> d < at,
        decreases at,
    {
        at = at - 1;
        if can_close(s, at) {
            return Some(at);
        }
    }
    None
}

/// The first place at or before `limit` where a reading can start.
fn first_open(s: &[u8], limit: usize) -> (found: Option<usize>)
    requires
        limit < s@.len(),
        limit < usize::MAX,
    ensures
        match found {
            Some(at) => at <= limit && opens_at(s@, at as int) && forall|i: int|
                opens_at(s@, i) ==> at <= i,
            None => forall|i: int| opens_at(s@, i) ==> limit < i,
        },
{
    let mut at: usize = 0;
    while at <= limit
        invariant
            at <= limit + 1,
            limit < s@.len(),
            limit < usize::MAX,
            forall|i: int| opens_at(s@, i) ==> at <= i,
        decreases limit + 1 - at,
    {
        if can_open(s, at) {
            return Some(at);
        }
        at = at + 1;
    }
    None
}

/// Finds the front matter of `s`.
pub fn find_front_matter(s: &[u8]) -> (found: Option<Span>)
    ensures
        match found {
            Some(m) => is_front_matter(s@, m),
            None => !has_front_matter(s@),
        },
        found == front_matter(s@),
{
    if s.len() < SHORTEST {
        proof {
            lemma_no_reading(s@);
        }
        return None;
    }
    let close: usize = match last_close(s) {
        Some(close) => close,
        None => {
            proof {
                lemma_no_reading(s@);
            }
            return None;
        },
    };
    if close < 5 {
        proof {
            lemma_no_reading(s@);
        }
        return None;
    }
    let open: usize = match first_open(s, close - 5) {
        Some(open) => open,
        None => {
            proof {
                lemma_no_reading(s@);
            }
            return None;
        },
    };
    let run_end: usize = skip_newlines(s, open + 3);
    let meta_end: usize = close - 1;
    let meta_start: usize = if run_end < meta_end {
        run_end
    } else {
        meta_end
    };
    let body_start: usize = skip_newlines(s, close + 3);
    let m = Span { open, meta_start, meta_end, close, body_start };
    proof {
        assert(is_reading(s@, m));
        assert forall|o: Span| is_reading(s@, o) implies preferred(m, o) by {
            lemma_reading_bounds(s@, o);
            if o.open == open {
                if o.meta_start > run_end {
                    assert(s@[run_end as int] == NEWLINE);
                }
                if o.meta_start == meta_start && o.meta_end == meta_end && o.close == close {
                    if o.body_start > body_start {
                        assert(s@[body_start as int] == NEWLINE);
                    }
                }
            }
        }
        assert(is_front_matter(s@, m));
        lemma_front_matter_unique(s@, m, choose|b: Span| is_front_matter(s@, b));
    }
    Some(m)
}

/// Cuts the metadata and the body out of a Markdown source.
pub fn split_front_matter(text: &str) -> (parts: Option<(&str, &str)>)
    ensures
        match front_matter(text.spec_bytes()) {
            Some(m) => parts matches Some((metadata, body)) && metadata.spec_bytes()
                == metadata_of(text.spec_bytes(), m) && body.spec_bytes() == body_of(
                text.spec_bytes(),
                m,
            ),
            None => parts is None,
        },
{
    let ghost s = text.spec_bytes();
    let m = match find_front_matter(text.as_bytes()) {
        Some(m) => m,
        None => {
            return None;
        },
    };
    proof {
        encode_utf8_valid_utf8(text@);
        lemma_boundary_after_ascii(s, m.body_start - 1);
    }
    let (head, body) = text.split_at(m.body_start);
    proof {
        encode_utf8_valid_utf8(head@);
        lemma_boundary_before_ascii(head.spec_bytes(), m.meta_end as int);
    }
    let (head, _) = head.split_at(m.meta_end);
    proof {
        encode_utf8_valid_utf8(head@);
        if m.meta_start < m.meta_end {
            lemma_boundary_after_ascii(head.spec_bytes(), m.meta_start - 1);
        } else {
            is_char_boundary_start_end_of_seq(head.spec_bytes());
        }
    }
    let (_, metadata) = head.split_at(m.meta_start);
    Some((metadata, body))
}

} // verus!
