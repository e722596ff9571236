//! Channel keyword parsing. A keyword list is a single string of tokens
//! separated by spaces; a token that opens with a quote (or an escaping
//! backslash) runs to the next quote or backslash, so that quoted keywords may
//! contain spaces. Quotes and backslashes are stripped from the parsed
//! keywords.
use vstd::prelude::*;

verus! {

/// A character that delimits a quoted token.
pub open spec fn is_quote_delim(c: char) -> bool {
    c == '"' || c == '\\'
}

/// The first position `j` at or after `from` holding a quote delimiter, if the
/// scan reaches one before a line break or the end of the string.
pub open spec fn find_close(s: Seq<char>, from: int) -> Option<int>
    decreases s.len() - from when 0 <= from
{
    if from >= s.len() {
        None
    } else if is_quote_delim(s[from]) {
        Some(from)
    } else if s[from] == '\n' {
        None
    } else {
        find_close(s, from + 1)
    }
}

/// Where the quoted token that opens at `i` closes: the first delimiter at
/// least two places on, provided no line break intervenes.
pub open spec fn quote_end(s: Seq<char>, i: int) -> Option<int> {
    if i + 2 <= s.len() && s[i + 1] != '\n' {
        find_close(s, i + 2)
    } else {
        None
    }
}

/// The end of the unquoted token that starts at `i`: the first space at or
/// after `i`, or the end of the string.
pub open spec fn run_end(s: Seq<char>, i: int) -> int
    decreases s.len() - i when 0 <= i
{
    if i >= s.len() || s[i] == ' ' {
        i
    } else {
        run_end(s, i + 1)
    }
}

proof fn lemma_find_close_bounds(s: Seq<char>, from: int)
    requires
        0 <= from,
        find_close(s, from) is Some,
    ensures
        from <= find_close(s, from).unwrap() < s.len(),
    decreases s.len() - from,
{
    if from < s.len() && !is_quote_delim(s[from]) && s[from] != '\n' {
        lemma_find_close_bounds(s, from + 1);
    }
}

proof fn lemma_run_end_bounds(s: Seq<char>, i: int)
    requires
        0 <= i <= s.len(),
    ensures
        i <= run_end(s, i) <= s.len(),
        i < s.len() && s[i] != ' ' ==> i < run_end(s, i),
    decreases s.len() - i,
{
    if i < s.len() && s[i] != ' ' {
        lemma_run_end_bounds(s, i + 1);
    }
}

/// The raw tokens of `s` from position `i` on: spaces are skipped; a token
/// opening with a delimiter runs through its closing delimiter when one
/// follows; any other token is a maximal space-free run.
pub open spec fn raw_tokens(s: Seq<char>, i: int) -> Seq<Seq<char>>
    decreases s.len() - i when 0 <= i via raw_tokens_decreases
{
    if i >= s.len() {
        Seq::empty()
    } else if s[i] == ' ' {
        raw_tokens(s, i + 1)
    } else if is_quote_delim(s[i]) && quote_end(s, i) is Some {
        let j = quote_end(s, i).unwrap();
        seq![s.subrange(i, j + 1)] + raw_tokens(s, j + 1)
    } else {
        let e = run_end(s, i);
        seq![s.subrange(i, e)] + raw_tokens(s, e)
    }
}

#[via_fn]
proof fn raw_tokens_decreases(s: Seq<char>, i: int) {
    if 0 <= i < s.len() && s[i] != ' ' {
        if is_quote_delim(s[i]) && quote_end(s, i) is Some {
            lemma_find_close_bounds(s, i + 2);
        } else {
            lemma_run_end_bounds(s, i);
        }
    }
}

/// A token with its quote delimiters stripped out.
pub open spec fn strip_delims(s: Seq<char>) -> Seq<char>
    decreases s.len(),
{
    if s.len() == 0 {
        Seq::empty()
    } else if is_quote_delim(s[0]) {
        strip_delims(s.drop_first())
    } else {
        seq![s[0]] + strip_delims(s.drop_first())
    }
}

/// The parsed keywords of a keyword string: its raw tokens, each stripped of
/// quote delimiters.
pub open spec fn spec_keywords(s: Seq<char>) -> Seq<Seq<char>> {
    raw_tokens(s, 0).map_values(|t: Seq<char>| strip_delims(t))
}

proof fn lemma_strip_delims_push(s: Seq<char>, c: char)
    ensures
        strip_delims(s.push(c)) == if is_quote_delim(c) {
            strip_delims(s)
        } else {
            strip_delims(s).push(c)
        },
    decreases s.len(),
{
    reveal_with_fuel(strip_delims, 2);
    if s.len() == 0 {
        assert(s.push(c)[0] == c);
        assert(s.push(c).drop_first() =~= Seq::<char>::empty());
        if !is_quote_delim(c) {
            assert(strip_delims(s.push(c)) =~= strip_delims(s).push(c));
        } else {
            assert(strip_delims(s.push(c)) =~= strip_delims(s));
        }
    } else {
        assert(s.push(c)[0] == s[0]);
        assert(s.push(c).drop_first() =~= s.drop_first().push(c));
        lemma_strip_delims_push(s.drop_first(), c);
        if is_quote_delim(s[0]) {
            assert(strip_delims(s.push(c)) == strip_delims(s.drop_first().push(c)));
        } else {
            assert(strip_delims(s.push(c)) == seq![s[0]] + strip_delims(s.drop_first().push(c)));
            if !is_quote_delim(c) {
                assert(seq![s[0]] + strip_delims(s.drop_first()).push(c) =~= (seq![s[0]]
                    + strip_delims(s.drop_first())).push(c));
            }
        }
    }
}

/// Remove quote delimiters from one raw token.
pub fn sanitize_keyword(keyword: &str) -> (clean: String)
    ensures
        clean@ == strip_delims(keyword@),
{
    let len = keyword.unicode_len();
    let mut clean = String::new();
    let mut i: usize = 0;
    while i < len
        invariant
            0 <= i <= len,
            len == keyword@.len(),
            clean@ == strip_delims(keyword@.subrange(0, i as int)),
        decreases len - i,
    {
        let c = keyword.get_char(i);
        proof {
            lemma_strip_delims_push(keyword@.subrange(0, i as int), keyword@[i as int]);
            assert(keyword@.subrange(0, i as int).push(keyword@[i as int]) =~= keyword@.subrange(
                0,
                i as int + 1,
            ));
        }
        if !(c == '"' || c == '\\') {
            let piece = keyword.substring_char(i, i + 1);
            clean.append(piece);
            assert(clean@ =~= strip_delims(keyword@.subrange(0, i as int)).push(keyword@[i as int]));
        }
        i = i + 1;
    }
    assert(keyword@.subrange(0, len as int) =~= keyword@);
    clean
}

/// Where the quoted token opening at `i` closes, scanned as `quote_end` says.
fn find_quote_end(s: &str, len: usize, i: usize) -> (close: Option<usize>)
    requires
        len == s@.len(),
        i < len,
    ensures
        match close {
            Some(j) => quote_end(s@, i as int) == Some(j as int) && i + 2 <= j + 1 <= len,
            None => quote_end(s@, i as int) is None,
        },
{
    if len - i < 2 {
        return None;
    }
    if s.get_char(i + 1) == '\n' {
        return None;
    }
    let mut j: usize = i + 2;
    while j < len
        invariant
            len == s@.len(),
            i + 2 <= j <= len,
            s@[i + 1] != '\n',
            find_close(s@, i + 2) == find_close(s@, j as int),
        decreases len - j,
    {
        let c = s.get_char(j);
        if c == '"' || c == '\\' {
            assert(is_quote_delim(s@[j as int]));
            assert(find_close(s@, j as int) == Some(j as int));
            return Some(j);
        }
        if c == '\n' {
            assert(find_close(s@, j as int) is None);
            return None;
        }
        assert(find_close(s@, j as int) == find_close(s@, j + 1 as int));
        j = j + 1;
    }
    assert(find_close(s@, j as int) is None);
    None
}

/// The end of the unquoted token starting at `i`, scanned as `run_end` says.
fn find_run_end(s: &str, len: usize, i: usize) -> (e: usize)
    requires
        len == s@.len(),
        i < len,
        s@[i as int] != ' ',
    ensures
        e == run_end(s@, i as int),
        i < e <= len,
{
    let mut e: usize = i;
    while e < len
        invariant
            len == s@.len(),
            i <= e <= len,
            run_end(s@, i as int) == run_end(s@, e as int),
            e > i || s@[i as int] != ' ',
        decreases len - e,
    {
        if s.get_char(e) == ' ' {
            proof {
                lemma_run_end_bounds(s@, i as int);
            }
            return e;
        }
        e = e + 1;
    }
    proof {
        lemma_run_end_bounds(s@, i as int);
    }
    e
}

/// Parse a channel's keyword string into its keywords: space-separated tokens,
/// quoted tokens kept whole, delimiters stripped.
pub fn parse_keywords(keyword_str: &str) -> (keywords: Vec<String>)
    ensures
        keywords.deep_view() == spec_keywords(keyword_str@),
{
    let len = keyword_str.unicode_len();
    let mut keywords: Vec<String> = Vec::new();
    let mut i: usize = 0;
    while i < len
        invariant
            0 <= i <= len,
            len == keyword_str@.len(),
            keywords.deep_view() + raw_tokens(keyword_str@, i as int).map_values(
                |t: Seq<char>| strip_delims(t),
            ) == spec_keywords(keyword_str@),
        decreases len - i,
    {
        let ghost tokens_before = raw_tokens(keyword_str@, i as int);
        let c = keyword_str.get_char(i);
        if c == ' ' {
            i = i + 1;
        } else if c == '"' || c == '\\' {
            match find_quote_end(keyword_str, len, i) {
                Some(j) => {
                    let token = keyword_str.substring_char(i, j + 1);
                    keywords.push(sanitize_keyword(token));
                    proof {
                        assert(tokens_before =~= seq![keyword_str@.subrange(i as int, j + 1)]
                            + raw_tokens(keyword_str@, j + 1));
                        assert(keywords.deep_view() + raw_tokens(
                            keyword_str@,
                            j + 1,
                        ).map_values(|t: Seq<char>| strip_delims(t)) =~= spec_keywords(
                            keyword_str@,
                        ));
                    }
                    i = j + 1;
                },
                None => {
                    let e = find_run_end(keyword_str, len, i);
                    let token = keyword_str.substring_char(i, e);
                    keywords.push(sanitize_keyword(token));
                    proof {
                        assert(tokens_before =~= seq![keyword_str@.subrange(i as int, e as int)]
                            + raw_tokens(keyword_str@, e as int));
                        assert(keywords.deep_view() + raw_tokens(
                            keyword_str@,
                            e as int,
                        ).map_values(|t: Seq<char>| strip_delims(t)) =~= spec_keywords(
                            keyword_str@,
                        ));
                    }
                    i = e;
                },
            }
        } else {
            let e = find_run_end(keyword_str, len, i);
            let token = keyword_str.substring_char(i, e);
            keywords.push(sanitize_keyword(token));
            proof {
                assert(tokens_before =~= seq![keyword_str@.subrange(i as int, e as int)]
                    + raw_tokens(keyword_str@, e as int));
                assert(keywords.deep_view() + raw_tokens(keyword_str@, e as int).map_values(
                    |t: Seq<char>| strip_delims(t),
                ) =~= spec_keywords(keyword_str@));
            }
            i = e;
        }
    }
    proof {
        assert(keywords.deep_view() =~= spec_keywords(keyword_str@));
    }
    keywords
}

} // verus!
