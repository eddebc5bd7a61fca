//! Small verified helpers over text.

use vstd::prelude::*;
use vstd::string::{StrSliceExecFns, StringExecFns};

verus! {

/// The characters of `s`, in order.
pub fn chars_of(s: &str) -> (out: Vec<char>)
    ensures
        out@ == s@,
{
    let mut out: Vec<char> = Vec::new();
    for c in it: s.chars()
        invariant
            it.seq() == s@,
            out@ == s@.take(it.index() as int),
    {
        out.push(c);
    }
    out
}

/// Whether two texts hold the same characters.
pub fn text_eq(a: &str, b: &str) -> (same: bool)
    ensures
        same == (a@ == b@),
{
    let x = chars_of(a);
    let y = chars_of(b);
    if x.len() != y.len() {
        return false;
    }
    let mut i: usize = 0;
    while i < x.len()
        invariant
            x@ == a@,
            y@ == b@,
            x.len() == y.len(),
            i <= x.len(),
            x@.subrange(0, i as int) == y@.subrange(0, i as int),
        decreases x.len() - i,
    {
        if x[i] != y[i] {
            return false;
        }
        i += 1;
    }
    assert(x@ == x@.subrange(0, i as int));
    assert(y@ == y@.subrange(0, i as int));
    true
}

/// `needle` stands in `hay` at position `at`.
pub open spec fn occurs_at(hay: Seq<char>, needle: Seq<char>, at: int) -> bool {
    &&& 0 <= at
    &&& at + needle.len() <= hay.len()
    &&& hay.subrange(at, at + needle.len()) == needle
}

/// `needle` stands somewhere in `hay`.
pub open spec fn has_substring(hay: Seq<char>, needle: Seq<char>) -> bool {
    exists|at: int| occurs_at(hay, needle, at)
}

/// `text` ends with `suffix`.
pub open spec fn has_suffix(text: Seq<char>, suffix: Seq<char>) -> bool {
    occurs_at(text, suffix, text.len() - suffix.len())
}

/// `text` with every trailing repetition of `suffix` taken off. An empty
/// suffix takes nothing off.
pub open spec fn without_trailing(text: Seq<char>, suffix: Seq<char>) -> Seq<char>
    decreases text.len(),
{
    if suffix.len() > 0 && has_suffix(text, suffix) {
        without_trailing(text.subrange(0, text.len() - suffix.len()), suffix)
    } else {
        text
    }
}

/// Whether `needle` stands in `hay` at position `at`.
fn matches_at(hay: &Vec<char>, needle: &Vec<char>, at: usize) -> (found: bool)
    requires
        at + needle.len() <= hay.len(),
    ensures
        found == occurs_at(hay@, needle@, at as int),
{
    let mut i: usize = 0;
    while i < needle.len()
        invariant
            at + needle.len() <= hay.len(),
            i <= needle.len(),
            hay@.subrange(at as int, at + i) == needle@.subrange(0, i as int),
        decreases needle.len() - i,
    {
        if hay[at + i] != needle[i] {
            assert(hay@.subrange(at as int, at + needle.len())[i as int] == hay@[at + i]);
            return false;
        }
        assert(hay@.subrange(at as int, at + i + 1) == hay@.subrange(at as int, at + i).push(
            hay@[at + i],
        ));
        assert(needle@.subrange(0, i + 1) == needle@.subrange(0, i as int).push(needle@[i as int]));
        i += 1;
    }
    assert(needle@.subrange(0, i as int) == needle@);
    true
}

/// Whether `needle` stands somewhere in `hay`. The empty text stands in
/// every text.
pub fn contains_text(hay: &str, needle: &str) -> (found: bool)
    ensures
        found == has_substring(hay@, needle@),
{
    let h = chars_of(hay);
    let n = chars_of(needle);
    if n.len() > h.len() {
        return false;
    }
    let last: usize = h.len() - n.len();
    let mut at: usize = 0;
    while at < last
        invariant
            h@ == hay@,
            n@ == needle@,
            n.len() <= h.len(),
            last == h.len() - n.len(),
            at <= last,
            forall|k: int| 0 <= k < at ==> !occurs_at(h@, n@, k),
        decreases last - at,
    {
        if matches_at(&h, &n, at) {
            return true;
        }
        at += 1;
    }
    matches_at(&h, &n, last)
}

/// `text` with every trailing repetition of `suffix` taken off.
pub fn strip_trailing(text: &str, suffix: &str) -> (rest: String)
    ensures
        rest@ == without_trailing(text@, suffix@),
{
    let t = chars_of(text);
    let s = chars_of(suffix);
    let mut end: usize = t.len();
    assert(t@.subrange(0, end as int) == t@);
    if s.len() > 0 {
        while end >= s.len() && matches_at(&t, &s, end - s.len())
            invariant
                t@ == text@,
                s@ == suffix@,
                s.len() > 0,
                end <= t.len(),
                without_trailing(t@.subrange(0, end as int), s@) == without_trailing(t@, s@),
            decreases end,
        {
            proof {
                let head = t@.subrange(0, end as int);
                assert(head.subrange(end - s.len(), end as int) == t@.subrange(
                    end - s.len(),
                    end as int,
                ));
                assert(has_suffix(head, s@));
                assert(head.subrange(0, end - s.len()) == t@.subrange(0, end - s.len()));
            }
            end -= s.len();
        }
        proof {
            let head = t@.subrange(0, end as int);
            if end >= s.len() {
                assert(head.subrange(end - s.len(), end as int) == t@.subrange(
                    end - s.len(),
                    end as int,
                ));
            }
            assert(!has_suffix(head, s@));
        }
    }
    String::from_str(text.substring_char(0, end))
}

} // verus!
