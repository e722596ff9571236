use channel_crawler::db::get_db_name;
use channel_crawler::numbers::parse_i64;

#[test]
fn parses_plain_decimals() {
    assert_eq!(parse_i64("42"), Some(42));
    assert_eq!(parse_i64("0"), Some(0));
    assert_eq!(parse_i64("007"), Some(7));
}

#[test]
fn parses_signed_decimals() {
    assert_eq!(parse_i64("-7"), Some(-7));
    assert_eq!(parse_i64("+10"), Some(10));
}

#[test]
fn rejects_empty_and_sign_only() {
    assert_eq!(parse_i64(""), None);
    assert_eq!(parse_i64("-"), None);
    assert_eq!(parse_i64("+"), None);
}

#[test]
fn rejects_stray_characters() {
    assert_eq!(parse_i64("4x"), None);
    assert_eq!(parse_i64(" 42"), None);
    assert_eq!(parse_i64("4 2"), None);
    assert_eq!(parse_i64("12.5"), None);
}

#[test]
fn handles_the_edges_of_the_range() {
    assert_eq!(parse_i64("9223372036854775807"), Some(i64::MAX));
    assert_eq!(parse_i64("9223372036854775808"), None);
    assert_eq!(parse_i64("-9223372036854775808"), Some(i64::MIN));
    assert_eq!(parse_i64("-9223372036854775809"), None);
    assert_eq!(parse_i64("99999999999999999999999"), None);
}

#[test]
fn parse_agrees_with_std() {
    for s in ["42", "-7", "+10", "", "-", "4x", "9223372036854775807", "9223372036854775808",
        "-9223372036854775808", "00012"]
    {
        assert_eq!(parse_i64(s), s.parse::<i64>().ok(), "input {:?}", s);
    }
}

#[test]
fn db_name_by_environment() {
    assert_eq!(get_db_name("development"), "sailing-channels-dev");
    assert_eq!(get_db_name("production"), "sailing-channels");
    assert_eq!(get_db_name(""), "sailing-channels");
}
