//! Character-level string predicates and scanners used by the prefix
//! command path: literal-prefix testing, whitespace classification and
//! first-token extraction.

use vstd::prelude::*;

verus! {

/// `p` is a literal (character-for-character) prefix of `t`.
pub open spec fn is_prefix_of(p: Seq<char>, t: Seq<char>) -> bool {
    p.len() <= t.len() && t.subrange(0, p.len() as int) == p
}

/// The Unicode `White_Space` code points, the characters on which a
/// message remainder is cut into tokens.
pub open spec fn is_whitespace_char(c: char) -> bool {
    let u = c as u32;
    (0x9 <= u && u <= 0xD) || u == 0x20 || u == 0x85 || u == 0xA0 || u == 0x1680 || (0x2000 <= u
        && u <= 0x200A) || u == 0x2028 || u == 0x2029 || u == 0x202F || u == 0x205F || u == 0x3000
}

/// Every character of `s` is whitespace; holds vacuously of the empty text.
pub open spec fn all_whitespace(s: Seq<char>) -> bool {
    forall|k: int| 0 <= k < s.len() ==> is_whitespace_char(#[trigger] s[k])
}

/// The half-open range `[i, j)` carries the first whitespace-delimited
/// token of `s`: only whitespace stands before it, no whitespace inside
/// it, it is not empty, and it ends at whitespace or at the end.
pub open spec fn token_span(s: Seq<char>, i: int, j: int) -> bool {
    &&& 0 <= i < j <= s.len()
    &&& forall|k: int| 0 <= k < i ==> is_whitespace_char(#[trigger] s[k])
    &&& forall|k: int| i <= k < j ==> !is_whitespace_char(#[trigger] s[k])
    &&& (j == s.len() || is_whitespace_char(s[j]))
}

/// `t` is the first whitespace-delimited token of `s`.
pub open spec fn first_token_is(s: Seq<char>, t: Seq<char>) -> bool {
    exists|i: int, j: int| token_span(s, i, j) && t == s.subrange(i, j)
}

/// A text has at most one first token: any two spans describing it coincide.
pub proof fn lemma_token_span_unique(s: Seq<char>, i1: int, j1: int, i2: int, j2: int)
    requires
        token_span(s, i1, j1),
        token_span(s, i2, j2),
    ensures
        i1 == i2,
        j1 == j2,
{
    if i1 < i2 {
        assert(is_whitespace_char(s[i1]));
        assert(!is_whitespace_char(s[i1]));
    }
    if i2 < i1 {
        assert(is_whitespace_char(s[i2]));
        assert(!is_whitespace_char(s[i2]));
    }
    if j1 < j2 {
        assert(!is_whitespace_char(s[j1]));
        assert(is_whitespace_char(s[j1]));
    }
    if j2 < j1 {
        assert(!is_whitespace_char(s[j2]));
        assert(is_whitespace_char(s[j2]));
    }
}

/// A text with a first token is not all whitespace, and conversely.
pub proof fn lemma_token_or_whitespace(s: Seq<char>, t: Seq<char>)
    requires
        first_token_is(s, t),
    ensures
        !all_whitespace(s),
        t.len() > 0,
{
    let (i, j): (int, int) = choose|i: int, j: int| token_span(s, i, j) && t == s.subrange(i, j);
    assert(!is_whitespace_char(s[i]));
    assert(t[0] == s[i]);
}

/// Whether `c` is a Unicode whitespace character.
pub fn is_whitespace(c: char) -> (b: bool)
    ensures
        b == is_whitespace_char(c),
{
    let u = c as u32;
    (0x9 <= u && u <= 0xD) || u == 0x20 || u == 0x85 || u == 0xA0 || u == 0x1680 || (0x2000 <= u
        && u <= 0x200A) || u == 0x2028 || u == 0x2029 || u == 0x202F || u == 0x205F || u == 0x3000
}

/// Whether `text` starts with `prefix`, compared character by character.
pub fn starts_with(text: &str, prefix: &str) -> (b: bool)
    ensures
        b == is_prefix_of(prefix@, text@),
{
    let text_len = text.unicode_len();
    let prefix_len = prefix.unicode_len();
    if prefix_len > text_len {
        assert(!is_prefix_of(prefix@, text@));
        return false;
    }
    let mut i: usize = 0;
    while i < prefix_len
        invariant
            i <= prefix_len,
            prefix_len <= text_len,
            prefix_len == prefix@.len(),
            text_len == text@.len(),
            forall|k: int| 0 <= k < i ==> text@[k] == prefix@[k],
        decreases prefix_len - i,
    {
        if text.get_char(i) != prefix.get_char(i) {
            assert(text@[i as int] != prefix@[i as int]);
            assert(!is_prefix_of(prefix@, text@)) by {
                if is_prefix_of(prefix@, text@) {
                    assert(text@.subrange(0, prefix@.len() as int)[i as int] == text@[i as int]);
                }
            }
            return false;
        }
        i = i + 1;
    }
    assert(text@.subrange(0, prefix@.len() as int) =~= prefix@);
    true
}

/// Whether two texts hold exactly the same characters. Trigger and
/// canonical-name matching go through this: exact and case-sensitive.
pub fn text_eq(a: &str, b: &str) -> (r: bool)
    ensures
        r == (a@ == b@),
{
    let a_len = a.unicode_len();
    let b_len = b.unicode_len();
    if a_len != b_len {
        return false;
    }
    let same = starts_with(a, b);
    proof {
        assert(a@.subrange(0, b@.len() as int) =~= a@);
    }
    same
}

/// The first whitespace-delimited token of `text`, or `None` when the
/// text is empty or all whitespace.
pub fn first_token(text: &str) -> (r: Option<String>)
    ensures
        match r {
            Some(t) => first_token_is(text@, t@),
            None => all_whitespace(text@),
        },
{
    let len = text.unicode_len();
    let mut i: usize = 0;
    while i < len && is_whitespace(text.get_char(i))
        invariant
            i <= len,
            len == text@.len(),
            forall|k: int| 0 <= k < i ==> is_whitespace_char(#[trigger] text@[k]),
        decreases len - i,
    {
        i = i + 1;
    }
    if i == len {
        return None;
    }
    let mut j: usize = i;
    while j < len && !is_whitespace(text.get_char(j))
        invariant
            i <= j <= len,
            len == text@.len(),
            i < len,
            !is_whitespace_char(text@[i as int]),
            forall|k: int| i <= k < j ==> !is_whitespace_char(#[trigger] text@[k]),
        decreases len - j,
    {
        j = j + 1;
    }
    let tok = text.substring_char(i, j);
    proof {
        assert(token_span(text@, i as int, j as int));
    }
    Some(tok.to_owned())
}

} // verus!
