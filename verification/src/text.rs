//! Text operations that the report of a search is built from.

use vstd::prelude::*;

verus! {

/// Whether `c` is white space: the code points that Unicode gives the
/// property `White_Space`.
pub open spec fn is_whitespace(c: char) -> bool {
    let u = c as u32;
    ||| 0x09 <= u <= 0x0D
    ||| u == 0x20
    ||| u == 0x85
    ||| u == 0xA0
    ||| u == 0x1680
    ||| 0x2000 <= u <= 0x200A
    ||| u == 0x2028
    ||| u == 0x2029
    ||| u == 0x202F
    ||| u == 0x205F
    ||| u == 0x3000
}

/// `s` without the white space it starts with.
pub open spec fn trimmed_start(s: Seq<char>) -> Seq<char>
    decreases s.len(),
{
    if s.len() > 0 && is_whitespace(s.first()) {
        trimmed_start(s.drop_first())
    } else {
        s
    }
}

/// `s` without the white space it ends with.
pub open spec fn trimmed_end(s: Seq<char>) -> Seq<char>
    decreases s.len(),
{
    if s.len() > 0 && is_whitespace(s.last()) {
        trimmed_end(s.drop_last())
    } else {
        s
    }
}

/// `s` without the white space at either end.
pub open spec fn trimmed(s: Seq<char>) -> Seq<char> {
    trimmed_end(trimmed_start(s))
}

/// Whether `s` starts with `\\?\`, the marker that Windows puts before an
/// extended-length path.
pub open spec fn has_verbatim_prefix(s: Seq<char>) -> bool {
    &&& s.len() >= 4
    &&& s[0] == '\\'
    &&& s[1] == '\\'
    &&& s[2] == '?'
    &&& s[3] == '\\'
}

/// `s` without the extended-length markers it starts with, however many.
pub open spec fn without_verbatim_prefix(s: Seq<char>) -> Seq<char>
    decreases s.len(),
{
    if has_verbatim_prefix(s) {
        without_verbatim_prefix(s.skip(4))
    } else {
        s
    }
}

/// A run of white space at the front of `s` is all that `trimmed_start` removes.
pub proof fn lemma_trimmed_start(s: Seq<char>, k: int)
    requires
        0 <= k <= s.len(),
        forall|i: int| 0 <= i < k ==> is_whitespace(s[i]),
        k < s.len() ==> !is_whitespace(s[k]),
    ensures
        trimmed_start(s) == s.skip(k),
    decreases k,
{
    if k == 0 {
        assert(s.skip(0) =~= s);
    } else {
        lemma_trimmed_start(s.drop_first(), k - 1);
        assert(s.drop_first().skip(k - 1) =~= s.skip(k));
    }
}

/// A run of white space at the back of `s` is all that `trimmed_end` removes.
pub proof fn lemma_trimmed_end(s: Seq<char>, k: int)
    requires
        0 <= k <= s.len(),
        forall|i: int| k <= i < s.len() ==> is_whitespace(s[i]),
        0 < k ==> !is_whitespace(s[k - 1]),
    ensures
        trimmed_end(s) == s.take(k),
    decreases s.len() - k,
{
    if k == s.len() {
        assert(s.take(k) =~= s);
    } else {
        lemma_trimmed_end(s.drop_last(), k);
        assert(s.drop_last().take(k) =~= s.take(k));
    }
}

/// What `trimmed_start` leaves does not start with white space.
proof fn lemma_trimmed_start_first(s: Seq<char>)
    ensures
        trimmed_start(s).len() > 0 ==> !is_whitespace(trimmed_start(s).first()),
    decreases s.len(),
{
    if s.len() > 0 && is_whitespace(s.first()) {
        lemma_trimmed_start_first(s.drop_first());
    }
}

/// What `trimmed_end` leaves does not end with white space, and starts as
/// the text did.
proof fn lemma_trimmed_end_last(s: Seq<char>)
    ensures
        trimmed_end(s).len() <= s.len(),
        trimmed_end(s).len() > 0 ==> !is_whitespace(trimmed_end(s).last()) && trimmed_end(
            s,
        ).first() == s.first(),
    decreases s.len(),
{
    if s.len() > 0 && is_whitespace(s.last()) {
        lemma_trimmed_end_last(s.drop_last());
    }
}

/// Trimmed text neither starts nor ends with white space.
pub proof fn lemma_trimmed_ends(s: Seq<char>)
    ensures
        trimmed(s).len() > 0 ==> !is_whitespace(trimmed(s).first()) && !is_whitespace(
            trimmed(s).last(),
        ),
{
    lemma_trimmed_start_first(s);
    lemma_trimmed_end_last(trimmed_start(s));
}

/// Tells whether `c` is white space.
pub fn char_is_whitespace(c: char) -> (b: bool)
    ensures
        b == is_whitespace(c),
{
    let u: u32 = c as u32;
    (0x09 <= u && u <= 0x0D) || u == 0x20 || u == 0x85 || u == 0xA0 || u == 0x1680 || (0x2000 <= u
        && u <= 0x200A) || u == 0x2028 || u == 0x2029 || u == 0x202F || u == 0x205F || u == 0x3000
}

/// The slice of `s` between its first and its last character that is not
/// white space; empty where `s` holds nothing else.
pub fn trim<'a>(s: &'a str) -> (t: &'a str)
    ensures
        t@ == trimmed(s@),
{
    let len: usize = s.unicode_len();
    let mut first: usize = 0;
    let mut end: usize = 0;
    let mut seen: usize = 0;
    for c in it: s.chars()
        invariant
            it.seq() == s@,
            len == s@.len(),
            seen == it.index(),
            end <= seen,
            end == 0 ==> first == 0,
            end > 0 ==> first < end && !is_whitespace(s@[first as int]) && !is_whitespace(
                s@[end - 1],
            ),
            forall|i: int| 0 <= i < seen && !(first <= i < end) ==> is_whitespace(s@[i]),
    {
        if !char_is_whitespace(c) {
            if end == 0 {
                first = seen;
            }
            end = seen + 1;
        }
        seen = seen + 1;
    }
    proof {
        if end == 0 {
            lemma_trimmed_start(s@, s@.len() as int);
            assert(s@.skip(s@.len() as int) =~= s@.subrange(0, 0));
        } else {
            lemma_trimmed_start(s@, first as int);
            let rest = s@.skip(first as int);
            lemma_trimmed_end(rest, end - first);
            assert(rest.take(end - first) =~= s@.subrange(first as int, end as int));
        }
    }
    s.substring_char(first, end)
}

/// The slice of `s` behind the extended-length markers it starts with.
pub fn strip_verbatim_prefix<'a>(s: &'a str) -> (t: &'a str)
    ensures
        t@ == without_verbatim_prefix(s@),
{
    let len: usize = s.unicode_len();
    let mut from: usize = 0;
    assert(s@.skip(0) =~= s@);
    while len - from >= 4 && s.get_char(from) == '\\' && s.get_char(from + 1) == '\\'
        && s.get_char(from + 2) == '?' && s.get_char(from + 3) == '\\'
        invariant
            len == s@.len(),
            from <= len,
            without_verbatim_prefix(s@) == without_verbatim_prefix(s@.skip(from as int)),
        decreases len - from,
    {
        assert(s@.skip(from as int).skip(4) =~= s@.skip(from + 4));
        from = from + 4;
    }
    proof {
        assert(s@.skip(from as int) =~= s@.subrange(from as int, len as int));
    }
    s.substring_char(from, len)
}

/// `==` on string slices, which is `<str as PartialEq>::eq`.
///
/// Trusted: two slices are equal where they hold the same characters.
pub assume_specification[ <str as PartialEq>::eq ](a: &str, b: &str) -> (same: bool)
    ensures
        same == (a@ == b@),
;

} // verus!
