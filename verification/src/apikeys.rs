//! Quota-key management: every metered call selects the least-consumed
//! credential, and each usage event either charges the key or — on the first
//! usage of a new quota day — resets it to a single charge.
use vstd::prelude::*;

use crate::clock::current_pacific_day;
use crate::errors::CrawlError;

verus! {

/// One API credential with its daily usage counter. `pdt_day` is the calendar
/// day (as the integer YYYYMMDD, in the platform's quota-reset timezone) on
/// which the counter was last reset.
pub struct ApiKey {
    pub key: String,
    pub used_quota: i32,
    pub daily_quota: i32,
    pub pdt_day: i32,
}

/// The usage counter after one usage event: 1 if the event falls on a day
/// strictly after the last reset day (atomic reset-and-charge), else one more
/// than before.
pub open spec fn spec_used_after(used_quota: int, last_reset_day: int, today: int) -> int {
    if today > last_reset_day {
        1
    } else {
        used_quota + 1
    }
}

/// The last-reset day after one usage event.
pub open spec fn spec_day_after(last_reset_day: int, today: int) -> int {
    if today > last_reset_day {
        today
    } else {
        last_reset_day
    }
}

impl ApiKey {
    /// Record one usage event that falls on the day `today`. The key string
    /// and the quota ceiling never change; the counter resets to 1 exactly
    /// when `today` lies strictly after the stored reset day, and is
    /// incremented by 1 otherwise.
    pub fn record_usage(&mut self, today: i32)
        requires
            old(self).used_quota < i32::MAX,
        ensures
            final(self).used_quota == spec_used_after(
                old(self).used_quota as int,
                old(self).pdt_day as int,
                today as int,
            ),
            final(self).pdt_day == spec_day_after(old(self).pdt_day as int, today as int),
            final(self).key == old(self).key,
            final(self).daily_quota == old(self).daily_quota,
    {
        if today > self.pdt_day {
            self.used_quota = 1;
            self.pdt_day = today;
        } else {
            self.used_quota = self.used_quota + 1;
        }
    }
}

/// Record one usage event against the wall clock: the current day in the
/// platform's quota-reset timezone decides between reset-and-charge and a
/// plain charge. The day the event fell on is returned, so that the caller can
/// write the same atomic update to the backing store.
pub fn record_usage_now(key: &mut ApiKey) -> (today: i32)
    requires
        old(key).used_quota < i32::MAX,
    ensures
        final(key).used_quota == spec_used_after(
            old(key).used_quota as int,
            old(key).pdt_day as int,
            today as int,
        ),
        final(key).pdt_day == spec_day_after(old(key).pdt_day as int, today as int),
        final(key).key == old(key).key,
        final(key).daily_quota == old(key).daily_quota,
{
    let today = current_pacific_day();
    key.record_usage(today);
    today
}

/// The usage counter after a whole sequence of usage events, each tagged with
/// the day it falls on.
pub open spec fn spec_used_after_calls(
    used_quota: int,
    last_reset_day: int,
    days: Seq<int>,
) -> int
    decreases days.len(),
{
    if days.len() == 0 {
        used_quota
    } else {
        spec_used_after_calls(
            spec_used_after(used_quota, last_reset_day, days[0]),
            spec_day_after(last_reset_day, days[0]),
            days.drop_first(),
        )
    }
}

/// Quota reset law: however many usage events precede it, the first event on a
/// day strictly after the stored reset day sets the counter to 1, and every
/// further event on that same day adds exactly 1 — so after `n` events on one
/// new day the counter reads exactly `n`.
pub proof fn lemma_quota_reset(used_quota: int, last_reset_day: int, days: Seq<int>, d: int)
    requires
        days.len() > 0,
        last_reset_day < d,
        forall|i: int| 0 <= i < days.len() ==> days[i] == d,
    ensures
        spec_used_after_calls(used_quota, last_reset_day, days) == days.len(),
{
    let rest = days.drop_first();
    assert(days[0] == d);
    assert(spec_used_after(used_quota, last_reset_day, days[0]) == 1);
    assert(spec_day_after(last_reset_day, days[0]) == d);
    assert forall|i: int| 0 <= i < rest.len() implies rest[i] == d by {
        assert(rest[i] == days[i + 1]);
    }
    lemma_same_day_charges(1, d, rest, d);
}

/// On a day no later than the stored reset day, each usage event adds exactly
/// 1 to the counter: `n` events add `n`.
pub proof fn lemma_same_day_charges(used_quota: int, last_reset_day: int, days: Seq<int>, d: int)
    requires
        d <= last_reset_day,
        forall|i: int| 0 <= i < days.len() ==> days[i] == d,
    ensures
        spec_used_after_calls(used_quota, last_reset_day, days) == used_quota + days.len(),
    decreases days.len(),
{
    if days.len() > 0 {
        let rest = days.drop_first();
        assert(days[0] == d);
        assert(spec_used_after(used_quota, last_reset_day, days[0]) == used_quota + 1);
        assert forall|i: int| 0 <= i < rest.len() implies rest[i] == d by {
            assert(rest[i] == days[i + 1]);
        }
        lemma_same_day_charges(used_quota + 1, last_reset_day, rest, d);
    }
}

/// Select the credential with the numerically smallest usage counter; ties are
/// broken in favour of the earliest key. Fails exactly when the pool is empty.
pub fn select_key(keys: &Vec<ApiKey>) -> (selected: Result<usize, CrawlError>)
    ensures
        match selected {
            Ok(i) => i < keys@.len() && forall|j: int|
                0 <= j < keys@.len() ==> #[trigger] keys@[j].used_quota >= keys@[i as int].used_quota,
            Err(e) => e == CrawlError::NoKeysConfigured && keys@.len() == 0,
        },
{
    if keys.len() == 0 {
        return Err(CrawlError::NoKeysConfigured);
    }
    let mut best: usize = 0;
    let mut idx: usize = 1;
    while idx < keys.len()
        invariant
            best < idx <= keys@.len(),
            forall|j: int|
                0 <= j < idx ==> #[trigger] keys@[j].used_quota >= keys@[best as int].used_quota,
        decreases keys@.len() - idx,
    {
        if keys[idx].used_quota < keys[best].used_quota {
            best = idx;
        }
        idx = idx + 1;
    }
    Ok(best)
}

} // verus!
