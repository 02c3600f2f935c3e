//! Character-sequence helpers: a line of text is handled as its sequence of
//! `char`s, so that positions count characters, never bytes.

use vstd::prelude::*;

verus! {

/// `needle` lies in `hay` at character position `at`.
pub open spec fn occurs_at(hay: Seq<char>, needle: Seq<char>, at: int) -> bool {
    &&& 0 <= at
    &&& at + needle.len() <= hay.len()
    &&& hay.subrange(at, at + needle.len()) == needle
}

/// `needle` lies somewhere in `hay` as a contiguous run. The empty sequence
/// lies in every sequence.
pub open spec fn occurs_in(hay: Seq<char>, needle: Seq<char>) -> bool {
    exists|at: int| occurs_at(hay, needle, at)
}

/// `at` is the position of the first `c` in `text`.
pub open spec fn is_first(text: Seq<char>, c: char, at: int) -> bool {
    &&& 0 <= at < text.len()
    &&& text[at] == c
    &&& forall|j: int| 0 <= j < at ==> text[j] != c
}

/// A sequence has at most one first position of a character.
pub proof fn first_is_unique(text: Seq<char>, c: char, a: int, b: int)
    requires
        is_first(text, c, a),
        is_first(text, c, b),
    ensures
        a == b,
{
}

/// The characters of `text`, in order.
pub fn to_chars(text: &str) -> (out: Vec<char>)
    ensures
        out@ == text@,
{
    let mut out: Vec<char> = Vec::new();
    for c in it: text.chars()
        invariant
            out@ == it.seq().take(it.index()),
            it.seq() == text@,
    {
        out.push(c);
    }
    out
}

/// Whether `needle` lies in `hay` at position `at`, compared character by
/// character.
fn matches_at(hay: &[char], needle: &[char], at: usize) -> (hit: bool)
    requires
        at + needle@.len() <= hay@.len(),
    ensures
        hit == occurs_at(hay@, needle@, at as int),
{
    let width: usize = needle.len();
    let mut k: usize = 0;
    while k < width
        invariant
            k <= width == needle@.len(),
            at + width <= hay.len() == hay@.len(),
            forall|j: int| 0 <= j < k ==> hay@[at + j] == needle@[j],
        decreases width - k,
    {
        if hay[at + k] != needle[k] {
            return false;
        }
        k += 1;
    }
    assert(hay@.subrange(at as int, at + needle@.len()) =~= needle@);
    true
}

/// Case-sensitive search for `needle` in `hay`.
pub fn contains_chars(hay: &[char], needle: &[char]) -> (found: bool)
    ensures
        found == occurs_in(hay@, needle@),
{
    if needle.len() > hay.len() {
        return false;
    }
    let last: usize = hay.len() - needle.len();
    let mut at: usize = 0;
    loop
        invariant
            last == hay@.len() - needle@.len(),
            at <= last,
            forall|p: int| 0 <= p < at ==> !occurs_at(hay@, needle@, p),
        decreases last - at,
    {
        if matches_at(hay, needle, at) {
            return true;
        }
        if at == last {
            return false;
        }
        at += 1;
    }
}

/// The position of the first `c` in `text`, if there is one.
pub fn find_char(text: &[char], c: char) -> (found: Option<usize>)
    ensures
        match found {
            Some(at) => is_first(text@, c, at as int),
            None => !text@.contains(c),
        },
{
    let mut at: usize = 0;
    while at < text.len()
        invariant
            at <= text@.len(),
            forall|j: int| 0 <= j < at ==> text@[j] != c,
        decreases text@.len() - at,
    {
        if text[at] == c {
            return Some(at);
        }
        at += 1;
    }
    None
}

} // verus!
