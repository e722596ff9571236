//! Graduated staleness policy: decides whether a video is due for a re-fetch,
//! given when it was published and when its record was last updated. Fresher
//! items are re-checked more eagerly than old ones.
use vstd::prelude::*;

verus! {

pub const ONE_HOUR_IN_SECONDS: i64 = 3600;

pub const ONE_DAY_IN_SECONDS: i64 = 86400;

pub const ONE_WEEK_IN_SECONDS: i64 = 604800;

/// Timestamps are seconds since the epoch; this bound keeps every difference
/// of two of them inside `i64`.
pub const TIMESTAMP_BOUND: i64 = 0x2000_0000_0000_0000;

pub open spec fn abs_diff(a: int, b: int) -> int {
    if a >= b {
        a - b
    } else {
        b - a
    }
}

/// The re-fetch threshold for an item of the given age (seconds since it was
/// published): three hours in the first week, then a day, then a week after
/// four weeks, then four weeks after twenty-four weeks.
pub open spec fn spec_refresh_threshold(age_seconds: int) -> int {
    if age_seconds >= 24 * (ONE_WEEK_IN_SECONDS as int) {
        4 * (ONE_WEEK_IN_SECONDS as int)
    } else if age_seconds >= 4 * (ONE_WEEK_IN_SECONDS as int) {
        ONE_WEEK_IN_SECONDS as int
    } else if age_seconds >= ONE_WEEK_IN_SECONDS as int {
        ONE_DAY_IN_SECONDS as int
    } else {
        3 * (ONE_HOUR_IN_SECONDS as int)
    }
}

/// A video with no prior record is always refreshed; otherwise it is refreshed
/// exactly when the time since its record was last updated has reached the
/// threshold that its age selects.
pub open spec fn spec_should_update_video(
    last_updated: Option<i64>,
    published_at: i64,
    now: i64,
) -> bool {
    match last_updated {
        None => true,
        Some(updated_at) => abs_diff(now as int, updated_at as int) >= spec_refresh_threshold(
            abs_diff(now as int, published_at as int),
        ),
    }
}

/// Select the staleness threshold for an item of the given age.
pub fn refresh_threshold(age_seconds: i64) -> (threshold: i64)
    ensures
        threshold == spec_refresh_threshold(age_seconds as int),
{
    let mut threshold: i64 = 3 * ONE_HOUR_IN_SECONDS;

    if age_seconds >= ONE_WEEK_IN_SECONDS {
        threshold = ONE_DAY_IN_SECONDS;
    }

    if age_seconds >= 4 * ONE_WEEK_IN_SECONDS {
        threshold = ONE_WEEK_IN_SECONDS;
    }

    if age_seconds >= 24 * ONE_WEEK_IN_SECONDS {
        threshold = 4 * ONE_WEEK_IN_SECONDS;
    }

    threshold
}

/// Decide whether a video is due for a re-fetch. `last_updated` is the
/// timestamp stored with its existing record, if any; `published_at` is when
/// the video was published; `now` is the current time.
pub fn should_update_video(last_updated: Option<i64>, published_at: i64, now: i64) -> (due: bool)
    requires
        -TIMESTAMP_BOUND <= published_at <= TIMESTAMP_BOUND,
        -TIMESTAMP_BOUND <= now <= TIMESTAMP_BOUND,
        last_updated is Some ==> -TIMESTAMP_BOUND <= last_updated.unwrap() <= TIMESTAMP_BOUND,
    ensures
        due == spec_should_update_video(last_updated, published_at, now),
{
    match last_updated {
        None => true,
        Some(updated_at) => {
            let age_seconds: i64 = if now >= published_at {
                now - published_at
            } else {
                published_at - now
            };
            let threshold = refresh_threshold(age_seconds);
            let updated_diff: i64 = if now >= updated_at {
                now - updated_at
            } else {
                updated_at - now
            };
            updated_diff >= threshold
        },
    }
}

/// Of two videos whose records were last updated at the same time, the more
/// recently published one never gets the larger threshold: the policy re-checks
/// newer items at least as eagerly as older ones. Stated for videos published
/// no later than `now`; an item whose publish timestamp lies in the future
/// falls outside the policy's intent.
pub proof fn lemma_refresh_threshold_monotonic(published_1: int, published_2: int, now: int)
    requires
        published_1 <= published_2 <= now,
    ensures
        spec_refresh_threshold(now - published_2) <= spec_refresh_threshold(now - published_1),
{
}

/// With equal last-updated timestamps, whenever the older of two videos is due
/// for a refresh under the policy, the more recently published one is due as
/// well: the policy re-checks newer items at least as eagerly.
pub proof fn lemma_staleness_monotonic(
    last_updated: i64,
    published_1: i64,
    published_2: i64,
    now: i64,
)
    requires
        published_1 <= published_2 <= now,
        spec_should_update_video(Some(last_updated), published_1, now),
    ensures
        spec_should_update_video(Some(last_updated), published_2, now),
{
    lemma_refresh_threshold_monotonic(published_1 as int, published_2 as int, now as int);
}

} // verus!
