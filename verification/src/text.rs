//! Character-level string helpers shared by the rest of the library.
//!
//! Everything here works on the `Seq<char>` view of `str`/`String`; the
//! executable helpers are proved against the spec functions they are named
//! after.

use vstd::prelude::*;
use vstd::string::*;

verus! {

/// Whether `needle` occurs in `hay` as a contiguous run of characters.
pub open spec fn seq_contains(hay: Seq<char>, needle: Seq<char>) -> bool {
    exists|i: int| 0 <= i <= hay.len() - needle.len() && #[trigger] hay.subrange(i, i + needle.len()) == needle
}

/// Whether `prefix` is the start of `s`.
pub open spec fn seq_starts_with(s: Seq<char>, prefix: Seq<char>) -> bool {
    prefix.len() <= s.len() && s.subrange(0, prefix.len() as int) == prefix
}

/// Whether the character `c` occurs in `s`.
pub open spec fn has_char(s: Seq<char>, c: char) -> bool {
    exists|i: int| 0 <= i < s.len() && s[i] == c
}

/// `s` without every leading `c` (`str::trim_start_matches` with a char).
pub open spec fn trim_leading(s: Seq<char>, c: char) -> Seq<char>
    decreases s.len(),
{
    if s.len() > 0 && s[0] == c {
        trim_leading(s.drop_first(), c)
    } else {
        s
    }
}

/// `s` without every trailing `c` (`str::trim_end_matches` with a char).
pub open spec fn trim_trailing(s: Seq<char>, c: char) -> Seq<char>
    decreases s.len(),
{
    if s.len() > 0 && s.last() == c {
        trim_trailing(s.drop_last(), c)
    } else {
        s
    }
}

/// `s` with every `from` replaced by the text `to` (`str::replace` with a char pattern).
pub open spec fn replace_char(s: Seq<char>, from: char, to: Seq<char>) -> Seq<char>
    decreases s.len(),
{
    if s.len() == 0 {
        s
    } else {
        let head = if s[0] == from {
            to
        } else {
            seq![s[0]]
        };
        head + replace_char(s.drop_first(), from, to)
    }
}

/// Unicode `White_Space`, the property `char::is_whitespace` tests.
pub open spec fn is_white_space(c: char) -> bool {
    let n = c as u32;
    ||| 0x09 <= n <= 0x0D
    ||| n == 0x20
    ||| n == 0x85
    ||| n == 0xA0
    ||| n == 0x1680
    ||| 0x2000 <= n <= 0x200A
    ||| n == 0x2028
    ||| n == 0x2029
    ||| n == 0x202F
    ||| n == 0x205F
    ||| n == 0x3000
}

/// Index of the first character of `s` that is not white space (`s.len()` if none).
pub open spec fn first_non_space(s: Seq<char>) -> int
    decreases s.len(),
{
    if s.len() > 0 && is_white_space(s[0]) {
        1 + first_non_space(s.drop_first())
    } else {
        0
    }
}

/// One past the last character of `s` that is not white space (`0` if none).
pub open spec fn end_non_space(s: Seq<char>) -> int
    decreases s.len(),
{
    if s.len() > 0 && is_white_space(s.last()) {
        end_non_space(s.drop_last())
    } else {
        s.len() as int
    }
}

/// `str::trim`: `s` without leading and trailing white space.
pub open spec fn trim_space(s: Seq<char>) -> Seq<char> {
    let start = first_non_space(s);
    if start == s.len() {
        Seq::empty()
    } else {
        s.subrange(start, end_non_space(s))
    }
}

/// Whether `s` holds nothing but white space (so that `s.trim()` is empty).
pub open spec fn is_blank(s: Seq<char>) -> bool {
    forall|i: int| 0 <= i < s.len() ==> is_white_space(#[trigger] s[i])
}

pub proof fn lemma_first_non_space_bounds(s: Seq<char>)
    ensures
        0 <= first_non_space(s) <= s.len(),
        forall|i: int| 0 <= i < first_non_space(s) ==> is_white_space(#[trigger] s[i]),
        first_non_space(s) < s.len() ==> !is_white_space(s[first_non_space(s)]),
    decreases s.len(),
{
    if s.len() > 0 && is_white_space(s[0]) {
        lemma_first_non_space_bounds(s.drop_first());
        assert forall|i: int| 0 <= i < first_non_space(s) implies is_white_space(#[trigger] s[i]) by {
            if i > 0 {
                assert(s[i] == s.drop_first()[i - 1]);
            }
        }
    }
}

pub proof fn lemma_end_non_space_bounds(s: Seq<char>)
    ensures
        0 <= end_non_space(s) <= s.len(),
        forall|i: int| end_non_space(s) <= i < s.len() ==> is_white_space(#[trigger] s[i]),
        end_non_space(s) > 0 ==> !is_white_space(s[end_non_space(s) - 1]),
    decreases s.len(),
{
    if s.len() > 0 && is_white_space(s.last()) {
        lemma_end_non_space_bounds(s.drop_last());
        assert forall|i: int| end_non_space(s) <= i < s.len() implies is_white_space(#[trigger] s[i]) by {
            if i < s.len() - 1 {
                assert(s[i] == s.drop_last()[i]);
            }
        }
    }
}

/// Text without any white space is its own trim.
pub proof fn lemma_trim_space_of_solid(s: Seq<char>)
    requires
        forall|i: int| 0 <= i < s.len() ==> !is_white_space(#[trigger] s[i]),
    ensures
        trim_space(s) == s,
{
    if s.len() > 0 {
        assert(first_non_space(s) == 0);
        assert(end_non_space(s) == s.len());
        assert(s.subrange(0, s.len() as int) =~= s);
    }
}

/// `char::is_whitespace`: membership in Unicode `White_Space`.
pub fn is_whitespace(c: char) -> (r: bool)
    ensures
        r == is_white_space(c),
{
    let n = c as u32;
    (0x09 <= n && n <= 0x0D) || n == 0x20 || n == 0x85 || n == 0xA0 || n == 0x1680
        || (0x2000 <= n && n <= 0x200A) || n == 0x2028 || n == 0x2029 || n == 0x202F
        || n == 0x205F || n == 0x3000
}

/// `trim_space(s)` is empty exactly when `s` is blank.
pub proof fn lemma_trim_space_empty(s: Seq<char>)
    ensures
        (trim_space(s).len() == 0) == is_blank(s),
        !is_blank(s) ==> trim_space(s).len() > 0 && trim_space(s)[0] == s[first_non_space(s)],
{
    lemma_first_non_space_bounds(s);
    lemma_end_non_space_bounds(s);
    let start = first_non_space(s);
    let end = end_non_space(s);
    if start < s.len() {
        assert(!is_white_space(s[start]));
        // the last non-space character lies at or after the first one
        if end <= start {
            assert(is_white_space(s[start]));
        }
        assert(!is_blank(s));
    } else {
        assert forall|i: int| 0 <= i < s.len() implies is_white_space(#[trigger] s[i]) by {}
    }
}

/// `str::trim`.
pub fn trim_str(s: &str) -> (out: String)
    ensures
        out@ == trim_space(s@),
{
    let cs = chars_of(s);
    let ghost v = cs@;
    proof {
        lemma_first_non_space_bounds(v);
        lemma_end_non_space_bounds(v);
    }
    let mut start: usize = 0;
    assert(v.skip(0) =~= v);
    while start < cs.len() && is_whitespace(cs[start])
        invariant
            v == cs@,
            start <= cs.len(),
            first_non_space(v) == start + first_non_space(v.skip(start as int)),
        decreases cs.len() - start,
    {
        assert(v.skip(start as int).drop_first() =~= v.skip(start + 1));
        start += 1;
    }
    if start == cs.len() {
        assert(v.skip(start as int).len() == 0);
        return String::new();
    }
    let mut end: usize = cs.len();
    assert(v.subrange(0, end as int) =~= v);
    while end > 0 && is_whitespace(cs[end - 1])
        invariant
            v == cs@,
            end <= cs.len(),
            end_non_space(v) == end_non_space(v.subrange(0, end as int)),
        decreases end,
    {
        assert(v.subrange(0, end as int).drop_last() =~= v.subrange(0, end - 1));
        end -= 1;
    }
    assert(end_non_space(v.subrange(0, end as int)) == end);
    assert(first_non_space(v) == start);
    string_from_range(&cs, start, end)
}

/// `String::push`: appends one character.
#[verifier::external_body]
pub(crate) fn push_char(s: &mut String, c: char)
    ensures
        final(s)@ == old(s)@.push(c),
{
    s.push(c);
}

/// The characters of `s`, in order.
pub fn chars_of(s: &str) -> (out: Vec<char>)
    ensures
        out@ == s@,
{
    let mut out: Vec<char> = Vec::new();
    for c in it: s.chars()
        invariant
            out@ == it.seq().take(it.index() as int),
    {
        out.push(c);
    }
    proof {
        assert(out@ =~= s@);
    }
    out
}

/// The string made of `cs[from..to]`.
pub fn string_from_range(cs: &Vec<char>, from: usize, to: usize) -> (out: String)
    requires
        from <= to <= cs.len(),
    ensures
        out@ == cs@.subrange(from as int, to as int),
{
    let mut out = String::new();
    let mut i = from;
    while i < to
        invariant
            from <= i <= to <= cs.len(),
            out@ == cs@.subrange(from as int, i as int),
        decreases to - i,
    {
        push_char(&mut out, cs[i]);
        assert(cs@.subrange(from as int, i + 1) =~= cs@.subrange(from as int, i as int).push(cs@[i as int]));
        i += 1;
    }
    out
}

/// Whether `cs[at..]` starts with `needle`.
pub fn matches_at(cs: &Vec<char>, at: usize, needle: &Vec<char>) -> (r: bool)
    requires
        at <= cs.len(),
    ensures
        r == (at + needle.len() <= cs.len() && cs@.subrange(at as int, at + needle.len()) == needle@),
{
    if needle.len() > cs.len() - at {
        return false;
    }
    let mut j: usize = 0;
    while j < needle.len()
        invariant
            at + needle.len() <= cs.len(),
            j <= needle.len(),
            forall|k: int| 0 <= k < j ==> cs@[at + k] == needle@[k],
        decreases needle.len() - j,
    {
        if cs[at + j] != needle[j] {
            assert(cs@.subrange(at as int, at + needle.len())[j as int] != needle@[j as int]);
            return false;
        }
        j += 1;
    }
    assert(cs@.subrange(at as int, at + needle.len()) =~= needle@);
    true
}

/// `str::contains` with a string pattern.
pub fn str_contains(hay: &str, needle: &str) -> (r: bool)
    ensures
        r == seq_contains(hay@, needle@),
{
    let h = chars_of(hay);
    let n = chars_of(needle);
    if n.len() > h.len() {
        return false;
    }
    let last = h.len() - n.len();
    let mut i: usize = 0;
    loop
        invariant
            last == h.len() - n.len(),
            n.len() <= h.len(),
            i <= last,
            h@ == hay@,
            n@ == needle@,
            forall|k: int| 0 <= k < i ==> #[trigger] h@.subrange(k, k + n@.len()) != n@,
        ensures
            forall|k: int| 0 <= k <= last ==> #[trigger] h@.subrange(k, k + n@.len()) != n@,
        decreases last - i,
    {
        if matches_at(&h, i, &n) {
            assert(h@.subrange(i as int, i + n@.len()) == n@);
            return true;
        }
        if i == last {
            break;
        }
        i += 1;
    }
    false
}

/// `==` on string slices.
pub fn str_eq(a: &str, b: &str) -> (r: bool)
    ensures
        r == (a@ == b@),
{
    let x = chars_of(a);
    let y = chars_of(b);
    if x.len() != y.len() {
        return false;
    }
    let r = matches_at(&x, 0, &y);
    assert(x@.subrange(0, y@.len() as int) =~= x@);
    r
}

/// Whether the char vector starts with the given characters.
pub fn starts_with_chars(cs: &Vec<char>, prefix: &Vec<char>) -> (r: bool)
    ensures
        r == seq_starts_with(cs@, prefix@),
{
    matches_at(cs, 0, prefix)
}

/// `str::trim_start_matches` with a char pattern.
pub fn trim_start_char(s: &str, c: char) -> (out: String)
    ensures
        out@ == trim_leading(s@, c),
{
    let cs = chars_of(s);
    let mut i: usize = 0;
    assert(cs@.skip(0) =~= cs@);
    while i < cs.len() && cs[i] == c
        invariant
            i <= cs.len(),
            cs@ == s@,
            trim_leading(s@, c) == trim_leading(cs@.skip(i as int), c),
        decreases cs.len() - i,
    {
        assert(cs@.skip(i as int).drop_first() =~= cs@.skip(i + 1));
        i += 1;
    }
    assert(trim_leading(cs@.skip(i as int), c) == cs@.skip(i as int));
    let out = string_from_range(&cs, i, cs.len());
    assert(cs@.subrange(i as int, cs@.len() as int) =~= cs@.skip(i as int));
    out
}

/// `str::replace` of a char by a string.
pub fn replace_char_with(s: &str, from: char, to: &str) -> (out: String)
    ensures
        out@ == replace_char(s@, from, to@),
{
    let cs = chars_of(s);
    let mut out = String::new();
    let mut i: usize = 0;
    assert(cs@.skip(0) =~= cs@);
    assert(out@ + replace_char(cs@.skip(0), from, to@) =~= replace_char(s@, from, to@));
    while i < cs.len()
        invariant
            i <= cs.len(),
            cs@ == s@,
            out@ + replace_char(cs@.skip(i as int), from, to@) == replace_char(s@, from, to@),
        decreases cs.len() - i,
    {
        let ghost rest = cs@.skip(i as int);
        assert(rest.drop_first() =~= cs@.skip(i + 1));
        if cs[i] == from {
            out.append(to);
        } else {
            push_char(&mut out, cs[i]);
        }
        proof {
            let head = if rest[0] == from { to@ } else { seq![rest[0]] };
            assert(replace_char(rest, from, to@) == head + replace_char(rest.drop_first(), from, to@));
        }
        i += 1;
    }
    assert(cs@.skip(cs@.len() as int) =~= Seq::<char>::empty());
    assert(out@ + Seq::<char>::empty() =~= out@);
    out
}

} // verus!
