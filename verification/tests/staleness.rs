use channel_crawler::staleness::{
    refresh_threshold, should_update_video, ONE_DAY_IN_SECONDS, ONE_HOUR_IN_SECONDS,
    ONE_WEEK_IN_SECONDS,
};

const NOW: i64 = 1_700_000_000;

#[test]
fn threshold_tiers() {
    assert_eq!(refresh_threshold(0), 3 * ONE_HOUR_IN_SECONDS);
    assert_eq!(refresh_threshold(ONE_WEEK_IN_SECONDS - 1), 3 * ONE_HOUR_IN_SECONDS);
    assert_eq!(refresh_threshold(ONE_WEEK_IN_SECONDS), ONE_DAY_IN_SECONDS);
    assert_eq!(refresh_threshold(4 * ONE_WEEK_IN_SECONDS - 1), ONE_DAY_IN_SECONDS);
    assert_eq!(refresh_threshold(4 * ONE_WEEK_IN_SECONDS), ONE_WEEK_IN_SECONDS);
    assert_eq!(refresh_threshold(24 * ONE_WEEK_IN_SECONDS - 1), ONE_WEEK_IN_SECONDS);
    assert_eq!(refresh_threshold(24 * ONE_WEEK_IN_SECONDS), 4 * ONE_WEEK_IN_SECONDS);
}

#[test]
fn threshold_grows_with_age() {
    let mut last = refresh_threshold(0);
    for weeks in 0..30 {
        let t = refresh_threshold(weeks * ONE_WEEK_IN_SECONDS);
        assert!(t >= last);
        last = t;
    }
}

#[test]
fn unknown_video_is_always_refreshed() {
    assert!(should_update_video(None, NOW - 2 * ONE_DAY_IN_SECONDS, NOW));
}

#[test]
fn fresh_video_checked_again_after_an_hour_is_not_due() {
    let published = NOW - 2 * ONE_DAY_IN_SECONDS;
    assert!(!should_update_video(Some(NOW - ONE_HOUR_IN_SECONDS), published, NOW));
}

#[test]
fn fresh_video_not_updated_for_two_days_is_due() {
    let published = NOW - 2 * ONE_DAY_IN_SECONDS;
    assert!(should_update_video(Some(NOW - 2 * ONE_DAY_IN_SECONDS), published, NOW));
}

#[test]
fn old_video_updated_yesterday_is_not_due() {
    let published = NOW - 30 * ONE_WEEK_IN_SECONDS;
    assert!(!should_update_video(Some(NOW - ONE_DAY_IN_SECONDS), published, NOW));
}

#[test]
fn old_video_untouched_for_five_weeks_is_due() {
    let published = NOW - 30 * ONE_WEEK_IN_SECONDS;
    assert!(should_update_video(Some(NOW - 5 * ONE_WEEK_IN_SECONDS), published, NOW));
}
