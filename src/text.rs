//! Character-level searching and splicing on document text.

use vstd::prelude::*;
use vstd::string::*;

verus! {

/// Whether `needle` occurs in `hay` starting at position `i`.
pub open spec fn occurs_at(hay: Seq<char>, needle: Seq<char>, i: int) -> bool {
    0 <= i && i + needle.len() <= hay.len() && hay.subrange(i, i + needle.len()) == needle
}

/// The first position at or after `from` where `needle` occurs in `hay`.
pub open spec fn first_from(hay: Seq<char>, needle: Seq<char>, from: int) -> Option<int>
    decreases hay.len() + 1 - from,
{
    if from < 0 || from + needle.len() > hay.len() {
        None
    } else if occurs_at(hay, needle, from) {
        Some(from)
    } else {
        first_from(hay, needle, from + 1)
    }
}

/// A first occurrence lies within the text.
pub proof fn lemma_first_from_bounded(hay: Seq<char>, needle: Seq<char>, from: int)
    ensures
        first_from(hay, needle, from) matches Some(p) ==> 0 <= p && p + needle.len() <= hay.len(),
    decreases hay.len() + 1 - from,
{
    if !(from < 0 || from + needle.len() > hay.len()) && !occurs_at(hay, needle, from) {
        lemma_first_from_bounded(hay, needle, from + 1);
    }
}

/// The end of the line holding position `i`: the first newline at or after
/// `i`, or the end of the text.
pub open spec fn line_end(s: Seq<char>, i: int) -> int
    decreases s.len() - i,
{
    if i < 0 || i >= s.len() {
        s.len() as int
    } else if s[i] == '\n' {
        i
    } else {
        line_end(s, i + 1)
    }
}

/// The position of the newline that, counting from `from`, has `n` other
/// newlines before it.
pub open spec fn nth_break(s: Seq<char>, from: int, n: nat) -> Option<int>
    decreases s.len() - from,
{
    if from < 0 || from >= s.len() {
        None
    } else if s[from] == '\n' {
        if n == 0 {
            Some(from)
        } else {
            nth_break(s, from + 1, (n - 1) as nat)
        }
    } else {
        nth_break(s, from + 1, n)
    }
}

/// `note` inserted into `src` before position `at`.
pub open spec fn splice(src: Seq<char>, at: int, note: Seq<char>) -> Seq<char> {
    src.take(at) + note + src.skip(at)
}

/// The characters of a text.
pub fn chars_of(s: &str) -> (r: Vec<char>)
    ensures
        r@ == s@,
{
    let n = s.unicode_len();
    let mut r: Vec<char> = Vec::new();
    let mut i: usize = 0;
    while i < n
        invariant
            n == s@.len(),
            i <= n,
            r@ == s@.take(i as int),
        decreases n - i,
    {
        r.push(s.get_char(i));
        i += 1;
        assert(r@ =~= s@.take(i as int));
    }
    assert(r@ =~= s@);
    r
}

/// Whether `needle` occurs in `hay` at position `i`.
fn occurs(hay: &Vec<char>, needle: &Vec<char>, i: usize) -> (r: bool)
    ensures
        r == occurs_at(hay@, needle@, i as int),
{
    if i > hay.len() || needle.len() > hay.len() - i {
        return false;
    }
    let mut j: usize = 0;
    while j < needle.len()
        invariant
            i + needle.len() <= hay.len(),
            j <= needle.len(),
            hay@.subrange(i as int, i + j) =~= needle@.take(j as int),
        decreases needle.len() - j,
    {
        if hay[i + j] != needle[j] {
            assert(hay@.subrange(i as int, i + needle.len())[j as int] != needle@[j as int]);
            return false;
        }
        j += 1;
        assert(hay@.subrange(i as int, i + j) =~= needle@.take(j as int));
    }
    assert(needle@.take(j as int) =~= needle@);
    true
}

/// The first position where `needle` occurs in `hay`.
pub fn find(hay: &Vec<char>, needle: &Vec<char>) -> (r: Option<usize>)
    ensures
        match r {
            Some(i) => first_from(hay@, needle@, 0) == Some(i as int),
            None => first_from(hay@, needle@, 0) is None,
        },
{
    if needle.len() > hay.len() {
        return None;
    }
    let last = hay.len() - needle.len();
    let mut i: usize = 0;
    loop
        invariant
            i <= last,
            last + needle@.len() == hay@.len(),
            first_from(hay@, needle@, 0) == first_from(hay@, needle@, i as int),
        decreases last - i,
    {
        if occurs(hay, needle, i) {
            return Some(i);
        }
        if i == last {
            assert(first_from(hay@, needle@, i + 1) is None);
            return None;
        }
        i += 1;
    }
}

/// The end of the line holding position `i`.
pub fn find_line_end(s: &Vec<char>, i: usize) -> (r: usize)
    ensures
        r as int == line_end(s@, i as int),
{
    let mut k: usize = i;
    while k < s.len()
        invariant
            i <= k,
            line_end(s@, i as int) == line_end(s@, k as int),
        decreases s.len() - k,
    {
        if s[k] == '\n' {
            return k;
        }
        k += 1;
    }
    s.len()
}

/// The position of the newline preceded by `n` other newlines.
pub fn find_nth_break(s: &Vec<char>, n: usize) -> (r: Option<usize>)
    ensures
        match r {
            Some(p) => nth_break(s@, 0, n as nat) == Some(p as int),
            None => nth_break(s@, 0, n as nat) is None,
        },
{
    let mut k: usize = 0;
    let mut left: usize = n;
    while k < s.len()
        invariant
            nth_break(s@, 0, n as nat) == nth_break(s@, k as int, left as nat),
        decreases s.len() - k,
    {
        if s[k] == '\n' {
            if left == 0 {
                return Some(k);
            }
            left -= 1;
        }
        k += 1;
    }
    None
}

/// Inserts `note` into `src` before the character at position `at`.
pub fn splice_at(src: &str, at: usize, note: &str) -> (r: String)
    requires
        at <= src@.len(),
    ensures
        r@ == splice(src@, at as int, note@),
{
    let n = src.unicode_len();
    let mut r = String::from_str(src.substring_char(0, at));
    r.append(note);
    r.append(src.substring_char(at, n));
    assert(src@.subrange(0, at as int) =~= src@.take(at as int));
    assert(src@.subrange(at as int, n as int) =~= src@.skip(at as int));
    r
}

} // verus!
