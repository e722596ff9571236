use channel_crawler::apikeys::{record_usage_now, ApiKey};
use channel_crawler::clock::now_and_today;

#[test]
fn the_clock_yields_a_plausible_moment() {
    let (now, today) = now_and_today();
    // after 2020-01-01 and before year 9999
    assert!(now > 1_577_836_800);
    assert!(now < 253_402_300_800);
    assert!((1..=12).contains(&today.month));
    assert!((1..=31).contains(&today.day));
    assert!(today.day_key > 20200101);
    assert_eq!(
        today.day_key as i64,
        today.year as i64 * 10000 + today.month as i64 * 100 + today.day as i64
    );
    assert!((today.epoch_millis / 1000 - now).abs() < 60);
}

#[test]
fn live_usage_event_resets_a_stale_key() {
    let mut key = ApiKey {
        key: "alpha".to_string(),
        used_quota: 5000,
        daily_quota: 10000,
        pdt_day: 20200101,
    };
    let today = record_usage_now(&mut key);
    assert!(today > 20200101);
    assert_eq!(key.used_quota, 1);
    assert_eq!(key.pdt_day, today);
}

#[test]
fn live_usage_event_charges_a_current_key() {
    let mut fresh = ApiKey {
        key: "alpha".to_string(),
        used_quota: 0,
        daily_quota: 10000,
        pdt_day: 0,
    };
    let today = record_usage_now(&mut fresh);
    // A second event on the same day increments instead of resetting.
    let mut again = ApiKey { pdt_day: today, ..fresh };
    let second = record_usage_now(&mut again);
    assert_eq!(second, today);
    assert_eq!(again.used_quota, 2);
}
