//! Text primitives of the classifier: case folding, substring search and
//! string comparison, stated over sequences of characters.
use vstd::prelude::*;

verus! {

/// The case-folded form of a string, as `str::to_lowercase` computes it.
pub uninterp spec fn lower_of(s: Seq<char>) -> Seq<char>;

/// Relies on str::to_lowercase: the result depends on the characters alone.
#[verifier::external_body]
pub fn to_lowercase(s: &str) -> (r: String)
    ensures
        r@ == lower_of(s@),
{
    s.to_lowercase()
}

/// `needle` occurs in `hay` starting at position `i`.
pub open spec fn is_substring_at(hay: Seq<char>, needle: Seq<char>, i: int) -> bool {
    0 <= i && i + needle.len() <= hay.len() && hay.subrange(i, i + needle.len()) == needle
}

/// `needle` occurs somewhere in `hay` (anywhere for the empty needle).
pub open spec fn contains_substring(hay: Seq<char>, needle: Seq<char>) -> bool {
    exists|i: int| is_substring_at(hay, needle, i)
}

/// Case-insensitive term match: the folded term occurs in the folded text.
pub open spec fn spec_text_matches(text: Seq<char>, term: Seq<char>) -> bool {
    contains_substring(lower_of(text), term)
}

/// Whether the characters of `hay` starting at `start` begin with `needle`.
fn matches_at(hay: &str, hay_len: usize, needle: &str, needle_len: usize, start: usize) -> (r:
    bool)
    requires
        hay_len == hay@.len(),
        needle_len == needle@.len(),
        start + needle_len <= hay_len,
    ensures
        r == is_substring_at(hay@, needle@, start as int),
{
    let mut j: usize = 0;
    while j < needle_len
        invariant
            0 <= j <= needle_len,
            hay_len == hay@.len(),
            needle_len == needle@.len(),
            start + needle_len <= hay_len,
            forall|k: int| 0 <= k < j ==> hay@[start + k] == needle@[k],
        decreases needle_len - j,
    {
        if hay.get_char(start + j) != needle.get_char(j) {
            assert(hay@.subrange(start as int, start + needle@.len())[j as int] != needle@[j as int]);
            return false;
        }
        j = j + 1;
    }
    assert(hay@.subrange(start as int, start + needle@.len()) =~= needle@);
    true
}

/// Substring search: whether `needle` occurs anywhere in `hay`.
pub fn contains_str(hay: &str, needle: &str) -> (found: bool)
    ensures
        found == contains_substring(hay@, needle@),
{
    let hay_len = hay.unicode_len();
    let needle_len = needle.unicode_len();
    if needle_len > hay_len {
        assert(forall|i: int| !is_substring_at(hay@, needle@, i));
        return false;
    }
    if needle_len == 0 {
        assert(is_substring_at(hay@, needle@, 0)) by {
            assert(hay@.subrange(0, 0) =~= needle@);
        }
        return true;
    }
    let mut start: usize = 0;
    while start <= hay_len - needle_len
        invariant
            hay_len == hay@.len(),
            needle_len == needle@.len(),
            0 < needle_len <= hay_len,
            0 <= start <= hay_len - needle_len + 1,
            forall|i: int| 0 <= i < start ==> !is_substring_at(hay@, needle@, i),
        decreases hay_len - start,
    {
        if matches_at(hay, hay_len, needle, needle_len, start) {
            return true;
        }
        start = start + 1;
    }
    assert(forall|i: int| !is_substring_at(hay@, needle@, i));
    false
}

/// `s` with every non-overlapping occurrence of `pattern` replaced by
/// `replacement`, scanning left to right — what `str::replace` computes.
pub open spec fn spec_replace_all(
    s: Seq<char>,
    pattern: Seq<char>,
    replacement: Seq<char>,
) -> Seq<char>
    decreases s.len() when pattern.len() > 0
{
    if s.len() == 0 {
        Seq::empty()
    } else if is_substring_at(s, pattern, 0) {
        replacement + spec_replace_all(s.skip(pattern.len() as int), pattern, replacement)
    } else {
        seq![s[0]] + spec_replace_all(s.drop_first(), pattern, replacement)
    }
}

/// Replace every occurrence of a pattern, as `spec_replace_all` says.
pub fn replace_all(s: &str, pattern: &str, replacement: &str) -> (replaced: String)
    requires
        pattern@.len() > 0,
    ensures
        replaced@ == spec_replace_all(s@, pattern@, replacement@),
{
    let s_len = s.unicode_len();
    let pattern_len = pattern.unicode_len();
    let mut replaced = String::new();
    let mut i: usize = 0;
    proof {
        assert(s@.skip(0) =~= s@);
        assert(replaced@ + spec_replace_all(s@, pattern@, replacement@) =~= spec_replace_all(
            s@,
            pattern@,
            replacement@,
        ));
    }
    while i < s_len
        invariant
            0 <= i <= s_len,
            s_len == s@.len(),
            pattern_len == pattern@.len(),
            pattern_len > 0,
            replaced@ + spec_replace_all(s@.skip(i as int), pattern@, replacement@)
                == spec_replace_all(s@, pattern@, replacement@),
        decreases s_len - i,
    {
        let ghost rest = s@.skip(i as int);
        if pattern_len <= s_len - i && matches_at(s, s_len, pattern, pattern_len, i) {
            proof {
                assert(rest.subrange(0, pattern@.len() as int) =~= s@.subrange(
                    i as int,
                    i + pattern@.len(),
                ));
                assert(is_substring_at(rest, pattern@, 0));
                assert(rest.skip(pattern@.len() as int) =~= s@.skip(i + pattern@.len()));
            }
            replaced.append(replacement);
            proof {
                assert(replaced@ + spec_replace_all(
                    s@.skip(i + pattern@.len()),
                    pattern@,
                    replacement@,
                ) =~= spec_replace_all(s@, pattern@, replacement@));
            }
            i = i + pattern_len;
        } else {
            proof {
                if i + pattern@.len() <= s@.len() && is_substring_at(rest, pattern@, 0) {
                    assert(s@.subrange(i as int, i + pattern@.len()) =~= rest.subrange(
                        0,
                        pattern@.len() as int,
                    ));
                    assert(is_substring_at(s@, pattern@, i as int));
                }
                assert(rest[0] == s@[i as int]);
                assert(rest.drop_first() =~= s@.skip(i as int + 1));
            }
            let piece = s.substring_char(i, i + 1);
            proof {
                assert(piece@ =~= seq![s@[i as int]]);
            }
            replaced.append(piece);
            proof {
                assert(replaced@ + spec_replace_all(
                    s@.skip(i as int + 1),
                    pattern@,
                    replacement@,
                ) =~= spec_replace_all(s@, pattern@, replacement@));
            }
            i = i + 1;
        }
    }
    proof {
        assert(s@.skip(i as int) =~= Seq::<char>::empty());
    }
    replaced
}

/// Character-wise string equality, stated over the views.
pub fn str_eq(a: &str, b: &str) -> (r: bool)
    ensures
        r == (a@ == b@),
{
    let a_len = a.unicode_len();
    let b_len = b.unicode_len();
    if a_len != b_len {
        return false;
    }
    let mut i: usize = 0;
    while i < a_len
        invariant
            0 <= i <= a_len,
            a_len == a@.len(),
            a_len == b@.len(),
            forall|k: int| 0 <= k < i ==> a@[k] == b@[k],
        decreases a_len - i,
    {
        if a.get_char(i) != b.get_char(i) {
            return false;
        }
        i = i + 1;
    }
    assert(a@ =~= b@);
    true
}

/// Whether some string in `haystacks` equals `x`, by character comparison.
pub fn vec_contains_string(haystacks: &Vec<String>, x: &str) -> (r: bool)
    ensures
        r == haystacks.deep_view().contains(x@),
{
    let mut i: usize = 0;
    while i < haystacks.len()
        invariant
            0 <= i <= haystacks@.len(),
            forall|k: int| 0 <= k < i ==> haystacks.deep_view()[k] != x@,
        decreases haystacks@.len() - i,
    {
        if str_eq(haystacks[i].as_str(), x) {
            assert(haystacks.deep_view()[i as int] == x@);
            return true;
        }
        i = i + 1;
    }
    assert(forall|k: int|
        0 <= k < haystacks.deep_view().len() ==> haystacks.deep_view()[k] != x@);
    false
}

} // verus!
