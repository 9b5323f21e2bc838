//! Text helpers shared by the parsers of this crate.

use vstd::prelude::*;

verus! {

/// `needle` stands in `hay` at position `at`.
pub open spec fn occurs_at(hay: Seq<char>, needle: Seq<char>, at: int) -> bool {
    &&& 0 <= at
    &&& at + needle.len() <= hay.len()
    &&& hay.subrange(at, at + needle.len()) == needle
}

/// `needle` stands somewhere in `hay`.
pub open spec fn contains_text(hay: Seq<char>, needle: Seq<char>) -> bool {
    exists|at: int| occurs_at(hay, needle, at)
}

/// The characters of `s`, in order.
pub fn chars_of(s: &str) -> (v: Vec<char>)
    ensures
        v@ == s@,
{
    let mut v: Vec<char> = Vec::new();
    for c in it: s.chars()
        invariant
            v@ == it.seq().take(it.index() as int),
    {
        v.push(c);
    }
    v
}

/// Whether `needle` stands in `hay` at position `at`.
pub fn matches_at(hay: &Vec<char>, needle: &Vec<char>, at: usize) -> (b: bool)
    ensures
        b == occurs_at(hay@, needle@, at as int),
{
    if at > hay.len() || needle.len() > hay.len() - at {
        return false;
    }
    let mut j: usize = 0;
    while j < needle.len()
        invariant
            j <= needle.len(),
            at + needle.len() <= hay.len(),
            forall|k: int| 0 <= k < j ==> hay@[at + k] == needle@[k],
        decreases needle.len() - j,
    {
        if hay[at + j] != needle[j] {
            assert(hay@.subrange(at as int, at + needle.len())[j as int] == hay@[at + j]);
            return false;
        }
        j += 1;
    }
    assert(hay@.subrange(at as int, at + needle.len()) =~= needle@);
    true
}

/// Whether `needle` stands somewhere in `hay`.
pub fn contains_chars(hay: &Vec<char>, needle: &Vec<char>) -> (b: bool)
    ensures
        b == contains_text(hay@, needle@),
{
    if needle.len() > hay.len() {
        return false;
    }
    let last: usize = hay.len() - needle.len();
    let mut i: usize = 0;
    while i < last
        invariant
            i <= last,
            last + needle.len() == hay.len(),
            forall|k: int| 0 <= k < i ==> !occurs_at(hay@, needle@, k),
        decreases last - i,
    {
        if matches_at(hay, needle, i) {
            return true;
        }
        i += 1;
    }
    matches_at(hay, needle, last)
}

/// Whether the text `needle` stands somewhere in the characters `hay`.
pub fn contains_str(hay: &Vec<char>, needle: &str) -> (b: bool)
    ensures
        b == contains_text(hay@, needle@),
{
    let n = chars_of(needle);
    contains_chars(hay, &n)
}

/// `text` with every occurrence of `mark` replaced by `value`, reading from
/// the left; occurrences do not overlap. An empty mark replaces nothing.
pub open spec fn filled(text: Seq<char>, mark: Seq<char>, value: Seq<char>) -> Seq<char>
    decreases text.len(),
{
    if mark.len() == 0 || text.len() < mark.len() {
        text
    } else if text.subrange(0, mark.len() as int) == mark {
        value + filled(text.subrange(mark.len() as int, text.len() as int), mark, value)
    } else {
        seq![text[0]] + filled(text.subrange(1, text.len() as int), mark, value)
    }
}

/// One step of `filled` on the rest of a text that begins at `i`.
proof fn lemma_filled_step(text: Seq<char>, mark: Seq<char>, value: Seq<char>, i: int)
    requires
        mark.len() > 0,
        0 <= i,
        i + mark.len() <= text.len(),
    ensures
        occurs_at(text, mark, i) ==> filled(text.subrange(i, text.len() as int), mark, value)
            == value + filled(text.subrange(i + mark.len(), text.len() as int), mark, value),
        !occurs_at(text, mark, i) ==> filled(text.subrange(i, text.len() as int), mark, value)
            == seq![text[i]] + filled(text.subrange(i + 1, text.len() as int), mark, value),
{
    let rest = text.subrange(i, text.len() as int);
    assert(rest.subrange(0, mark.len() as int) =~= text.subrange(i, i + mark.len()));
    assert(rest.subrange(mark.len() as int, rest.len() as int) =~= text.subrange(
        i + mark.len(),
        text.len() as int,
    ));
    assert(rest.subrange(1, rest.len() as int) =~= text.subrange(i + 1, text.len() as int));
    assert(rest[0] == text[i]);
}

/// Replaces every occurrence of `mark` in `text` by `value`.
pub fn fill(text: &str, mark: &str, value: &str) -> (out: String)
    ensures
        out@ == filled(text@, mark@, value@),
{
    let chars = chars_of(text);
    let wanted = chars_of(mark);
    let n = chars.len();
    let m = wanted.len();
    if m == 0 || n < m {
        return String::from_str(text);
    }
    let mut out = String::new();
    let mut start: usize = 0;
    let mut i: usize = 0;
    assert(text@.subrange(0, n as int) =~= text@);
    assert(out@ + text@.subrange(0, 0) =~= Seq::<char>::empty());
    while i <= n - m
        invariant
            0 < m <= n,
            n == text@.len(),
            m == mark@.len(),
            chars@ == text@,
            wanted@ == mark@,
            start <= i <= n,
            out@ + text@.subrange(start as int, i as int) + filled(
                text@.subrange(i as int, n as int),
                mark@,
                value@,
            ) == filled(text@, mark@, value@),
        decreases n - i,
    {
        proof {
            lemma_filled_step(text@, mark@, value@, i as int);
        }
        let ghost before = out@;
        let ghost segment = text@.subrange(start as int, i as int);
        let ghost rest = filled(text@.subrange(i as int, n as int), mark@, value@);
        if matches_at(&chars, &wanted, i) {
            out.append(text.substring_char(start, i));
            out.append(value);
            i += m;
            start = i;
            proof {
                let tail = filled(text@.subrange(i as int, n as int), mark@, value@);
                assert(rest == value@ + tail);
                assert(text@.subrange(start as int, i as int) =~= Seq::<char>::empty());
                assert(out@ + text@.subrange(start as int, i as int) + tail =~= before + segment
                    + (value@ + tail));
            }
        } else {
            proof {
                let tail = filled(text@.subrange(i + 1, n as int), mark@, value@);
                assert(rest == seq![text@[i as int]] + tail);
                assert(text@.subrange(start as int, i + 1) =~= segment + seq![text@[i as int]]);
                assert(before + text@.subrange(start as int, i + 1) + tail =~= before + segment
                    + (seq![text@[i as int]] + tail));
            }
            i += 1;
        }
    }
    proof {
        let tail = text@.subrange(i as int, n as int);
        assert(filled(tail, mark@, value@) == tail);
        assert(text@.subrange(start as int, n as int) =~= text@.subrange(start as int, i as int)
            + tail);
    }
    out.append(text.substring_char(start, n));
    out
}

} // verus!
