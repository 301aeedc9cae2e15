//! Comparisons on text, stated over the characters of the strings.
use vstd::prelude::*;

verus! {

/// `needle` occurs in `hay` as a contiguous run of characters.
pub open spec fn occurs_in(needle: Seq<char>, hay: Seq<char>) -> bool {
    exists|i: int| 0 <= i <= hay.len() - needle.len() && #[trigger] hay.subrange(i, i + needle.len()) == needle
}

/// A text that stands at position `i` of `hay` occurs in it.
pub proof fn occurs_at(needle: Seq<char>, hay: Seq<char>, i: int)
    requires
        0 <= i,
        i + needle.len() <= hay.len(),
        hay.subrange(i, i + needle.len()) == needle,
    ensures
        occurs_in(needle, hay),
{
}

/// Every text occurs in itself.
pub proof fn occurs_in_itself(s: Seq<char>)
    ensures
        occurs_in(s, s),
{
    assert(s.subrange(0, s.len() as int) =~= s);
    occurs_at(s, s, 0);
}

/// A text that occurs in `b` occurs in every text that holds `b`.
pub proof fn occurs_in_larger(needle: Seq<char>, a: Seq<char>, b: Seq<char>, c: Seq<char>)
    requires
        occurs_in(needle, b),
    ensures
        occurs_in(needle, a + b + c),
{
    let i = choose|i: int| 0 <= i <= b.len() - needle.len() && #[trigger] b.subrange(i, i + needle.len()) == needle;
    let hay = a + b + c;
    assert(hay.subrange(a.len() + i, a.len() + i + needle.len()) =~= needle);
    occurs_at(needle, hay, a.len() + i);
}

/// Whether two strings hold the same characters.
pub fn text_eq(a: &str, b: &str) -> (r: bool)
    ensures
        r == (a@ == b@),
{
    let x = a.to_owned();
    let y = b.to_owned();
    x == y
}

/// Whether `needle` occurs in `hay` (the empty text occurs in every text).
pub fn contains_text(hay: &str, needle: &str) -> (r: bool)
    ensures
        r == occurs_in(needle@, hay@),
{
    let hl = hay.unicode_len();
    let nl = needle.unicode_len();
    if nl > hl {
        return false;
    }
    let last = hl - nl;
    let mut i: usize = 0;
    loop
        invariant
            hl == hay@.len(),
            nl == needle@.len(),
            last == hl - nl,
            i <= last,
            forall|j: int| 0 <= j < i ==> #[trigger] hay@.subrange(j, j + nl) != needle@,
        decreases last - i,
    {
        let part = hay.substring_char(i, i + nl);
        if text_eq(part, needle) {
            return true;
        }
        if i == last {
            return false;
        }
        i = i + 1;
    }
}

} // verus!
