//! Small string tools shared by the other modules: comparing, lowering,
//! searching and building strings character by character.

use vstd::prelude::*;
use vstd::string::*;

verus! {

/// `String::push` of the standard library: appends one character at the end
/// and leaves the rest of the string as it was.
pub assume_specification[ String::push ](s: &mut String, c: char)
    ensures
        final(s)@ == old(s)@.push(c),
;

/// `String::pop` of the standard library: removes the last character and
/// returns it, or returns `None` and changes nothing on an empty string.
pub assume_specification[ String::pop ](s: &mut String) -> (r: Option<char>)
    ensures
        old(s)@.len() == 0 ==> r is None && final(s)@ == old(s)@,
        old(s)@.len() > 0 ==> r == Some(old(s)@.last()) && final(s)@ == old(s)@.drop_last(),
;

/// Equality of two string slices in the standard library: true exactly when
/// both hold the same characters in the same order.
pub assume_specification[ <str as PartialEq>::eq ](a: &str, b: &str) -> (r: bool)
    ensures
        r == (a@ == b@),
;

/// The lower-case form of an ASCII capital letter; every other character is
/// left alone.
pub open spec fn ascii_lower_char(c: char) -> char {
    if 'A' <= c && c <= 'Z' {
        ((c as u8) + 32) as char
    } else {
        c
    }
}

/// A text with each ASCII capital letter replaced by its lower-case form.
pub open spec fn ascii_lower(s: Seq<char>) -> Seq<char> {
    s.map_values(|c: char| ascii_lower_char(c))
}

/// Whether `needle` occurs in `hay` starting at position `at`.
pub open spec fn occurs_at(hay: Seq<char>, needle: Seq<char>, at: int) -> bool {
    &&& 0 <= at
    &&& at + needle.len() <= hay.len()
    &&& hay.subrange(at, at + needle.len()) == needle
}

/// Whether `needle` occurs somewhere in `hay` as a contiguous run.
pub open spec fn is_substring(hay: Seq<char>, needle: Seq<char>) -> bool {
    exists|at: int| occurs_at(hay, needle, at)
}

pub fn to_ascii_lower_char(c: char) -> (r: char)
    ensures
        r == ascii_lower_char(c),
{
    if 'A' <= c && c <= 'Z' {
        ((c as u8) + 32) as char
    } else {
        c
    }
}

/// The characters of `s`, in order.
pub fn chars_of(s: &str) -> (v: Vec<char>)
    ensures
        v@ == s@,
{
    let mut v: Vec<char> = Vec::new();
    for c in it: s.chars()
        invariant
            v@ == it.seq().take(it.index()),
            it.seq() == s@,
    {
        v.push(c);
    }
    v
}

/// The characters of `s` with ASCII capitals lowered.
pub fn ascii_lower_chars(s: &str) -> (v: Vec<char>)
    ensures
        v@ == ascii_lower(s@),
{
    let mut v: Vec<char> = Vec::new();
    for c in it: s.chars()
        invariant
            v@ == ascii_lower(it.seq().take(it.index())),
            it.seq() == s@,
    {
        proof {
            let done = it.seq().take(it.index());
            let next = it.seq().take(it.index() + 1);
            assert(next == done.push(c));
            assert(ascii_lower(next) =~= ascii_lower(done).push(ascii_lower_char(c)));
        }
        v.push(to_ascii_lower_char(c));
    }
    proof {
        assert(s@.take(s@.len() as int) == s@);
    }
    v
}

/// Whether `needle` matches `hay` at position `at`.
fn matches_at(hay: &Vec<char>, needle: &Vec<char>, at: usize) -> (r: bool)
    requires
        at + needle.len() <= hay.len(),
    ensures
        r == occurs_at(hay@, needle@, at as int),
{
    let mut j: usize = 0;
    while j < needle.len()
        invariant
            j <= needle.len(),
            at + needle.len() <= hay.len(),
            forall|k: int| 0 <= k < j ==> hay@[at + k] == needle@[k],
        decreases needle.len() - j,
    {
        if hay[at + j] != needle[j] {
            proof {
                let window = hay@.subrange(at as int, at + needle.len());
                assert(window[j as int] == hay@[at + j]);
            }
            return false;
        }
        j += 1;
    }
    proof {
        assert(hay@.subrange(at as int, at + needle.len()) =~= needle@);
    }
    true
}

/// Substring search: whether `needle` occurs in `hay`. The empty text occurs
/// in every text.
pub fn contains_chars(hay: &Vec<char>, needle: &Vec<char>) -> (r: bool)
    ensures
        r == is_substring(hay@, needle@),
{
    if needle.len() > hay.len() {
        return false;
    }
    let last: usize = hay.len() - needle.len();
    let mut at: usize = 0;
    loop
        invariant
            last == hay.len() - needle.len(),
            at <= last,
            forall|k: int| 0 <= k < at ==> !occurs_at(hay@, needle@, k),
        decreases last - at,
    {
        if matches_at(hay, needle, at) {
            return true;
        }
        if at == last {
            return false;
        }
        at += 1;
    }
}

} // verus!
