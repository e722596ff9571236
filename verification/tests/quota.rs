use channel_crawler::apikeys::{select_key, ApiKey};
use channel_crawler::errors::CrawlError;

fn key(name: &str, used: i32, day: i32) -> ApiKey {
    ApiKey { key: name.to_string(), used_quota: used, daily_quota: 10000, pdt_day: day }
}

#[test]
fn record_usage_increments_on_same_day() {
    let mut k = key("alpha", 41, 20240101);
    k.record_usage(20240101);
    assert_eq!(k.used_quota, 42);
    assert_eq!(k.pdt_day, 20240101);
    assert_eq!(k.key, "alpha");
    assert_eq!(k.daily_quota, 10000);
}

#[test]
fn record_usage_resets_to_one_on_a_later_day() {
    let mut k = key("alpha", 9999, 20240101);
    k.record_usage(20240102);
    assert_eq!(k.used_quota, 1);
    assert_eq!(k.pdt_day, 20240102);
}

#[test]
fn record_usage_increments_on_an_earlier_day() {
    let mut k = key("alpha", 5, 20240105);
    k.record_usage(20240104);
    assert_eq!(k.used_quota, 6);
    assert_eq!(k.pdt_day, 20240105);
}

#[test]
fn usage_sequence_after_reset_counts_calls() {
    let mut k = key("alpha", 7777, 20240101);
    k.record_usage(20240102);
    k.record_usage(20240102);
    k.record_usage(20240102);
    assert_eq!(k.used_quota, 3);
}

#[test]
fn select_key_picks_least_used() {
    let keys = vec![key("a", 5, 0), key("b", 2, 0), key("c", 9, 0), key("d", 2, 0)];
    let picked = select_key(&keys).unwrap();
    assert_eq!(keys[picked].used_quota, 2);
    assert_eq!(picked, 1);
}

#[test]
fn select_key_fails_on_empty_pool() {
    let keys: Vec<ApiKey> = Vec::new();
    assert!(matches!(select_key(&keys), Err(CrawlError::NoKeysConfigured)));
}
