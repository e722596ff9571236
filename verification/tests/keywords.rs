use channel_crawler::keyword_utils::{parse_keywords, sanitize_keyword};
use channel_crawler::text::replace_all;

#[test]
fn parse_whitespace_seperated_keyswords() {
    let keywords = parse_keywords("keyword1 keyword2 keyword3");
    assert_eq!(keywords.len(), 3);
}

#[test]
fn parse_consider_quote_signed_keyswords() {
    let keywords = parse_keywords("keyword \"keyword keyword1\" keyword2");
    assert_eq!(keywords.len(), 3);
}

#[test]
fn parse_keeps_quoted_phrases_whole() {
    let keywords = parse_keywords("keyword \"keyword keyword1\" keyword2");
    assert_eq!(keywords[0], "keyword");
    assert_eq!(keywords[1], "keyword keyword1");
    assert_eq!(keywords[2], "keyword2");
}

#[test]
fn parse_empty_keyword_string() {
    let keywords = parse_keywords("");
    assert_eq!(keywords.len(), 0);
}

#[test]
fn parse_spaces_only() {
    let keywords = parse_keywords("   ");
    assert_eq!(keywords.len(), 0);
}

#[test]
fn parse_unclosed_quote_falls_back_to_plain_token() {
    let keywords = parse_keywords("\"sailing boat");
    assert_eq!(keywords.len(), 2);
    assert_eq!(keywords[0], "sailing");
    assert_eq!(keywords[1], "boat");
}

#[test]
fn sanitize_strips_quotes_and_backslashes() {
    assert_eq!(sanitize_keyword("\"sail\\ing\""), "sailing");
    assert_eq!(sanitize_keyword("plain"), "plain");
}

#[test]
fn replace_all_folds_tag_prefixes() {
    let xml = "<yt:videoId>a</yt:videoId><media:group></media:group>";
    let folded = replace_all(&replace_all(xml, "yt:", "yt"), "media:", "media");
    assert_eq!(folded, "<ytvideoId>a</ytvideoId><mediagroup></mediagroup>");
}

#[test]
fn replace_all_agrees_with_std() {
    for (s, pat, rep) in [
        ("aaa", "aa", "b"),
        ("hello world", "o", "0"),
        ("nothing here", "xyz", "!"),
        ("ababab", "ab", ""),
        ("", "a", "b"),
    ] {
        assert_eq!(replace_all(s, pat, rep), s.replace(pat, rep), "case {:?}", (s, pat, rep));
    }
}

#[test]
fn backslashes_delimit_quoted_tokens_too() {
    let keywords = parse_keywords("\\a b\\ c");
    assert_eq!(keywords.len(), 2);
    assert_eq!(keywords[0], "a b");
    assert_eq!(keywords[1], "c");
}

#[test]
fn keywords_may_hold_non_ascii_characters() {
    let keywords = parse_keywords("segeln \u{26f5} regatta");
    assert_eq!(keywords.len(), 3);
    assert_eq!(keywords[1], "\u{26f5}");
}
