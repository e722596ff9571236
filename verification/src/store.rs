//! Time-series snapshots and the upsert semantics they are stored under: one
//! row per channel and calendar day, replaced — never duplicated — when the
//! same key is written again, so that replaying a scrape outcome leaves the
//! store unchanged.
use vstd::prelude::*;

use crate::text::str_eq;

verus! {

/// The key of one time-series row: a channel and the integer YYYYMMDD day.
pub struct SnapshotKey {
    pub channel: String,
    pub date_key: i32,
}

/// A daily view-count snapshot of one channel.
pub struct ViewSnapshot {
    pub year: i32,
    pub month: u32,
    pub day: u32,
    pub date_millis: i64,
    pub views: i64,
}

/// A daily subscriber-count snapshot of one channel.
pub struct SubscriberSnapshot {
    pub year: i32,
    pub month: u32,
    pub day: u32,
    pub date_millis: i64,
    pub subscribers: i64,
}

/// Two keys name the same row exactly when their channels read the same and
/// their days coincide.
pub open spec fn same_key(a: SnapshotKey, b: SnapshotKey) -> bool {
    a.channel@ == b.channel@ && a.date_key == b.date_key
}

/// Rows after an upsert: the first row under the same key is replaced, and a
/// new row is appended only when no row carries the key yet.
pub open spec fn spec_upsert<V>(rows: Seq<(SnapshotKey, V)>, key: SnapshotKey, value: V) -> Seq<
    (SnapshotKey, V),
>
    decreases rows.len(),
{
    if rows.len() == 0 {
        seq![(key, value)]
    } else if same_key(rows[0].0, key) {
        seq![(key, value)] + rows.drop_first()
    } else {
        seq![rows[0]] + spec_upsert(rows.drop_first(), key, value)
    }
}

/// Idempotent upsert: writing the same key and value twice leaves exactly the
/// rows that writing it once leaves — in particular, no second row for one
/// channel-and-day key ever appears.
pub proof fn lemma_upsert_idempotent<V>(rows: Seq<(SnapshotKey, V)>, key: SnapshotKey, value: V)
    ensures
        spec_upsert(spec_upsert(rows, key, value), key, value) == spec_upsert(rows, key, value),
    decreases rows.len(),
{
    let once = spec_upsert(rows, key, value);
    if rows.len() == 0 {
        assert(once == seq![(key, value)]);
        assert(same_key(once[0].0, key));
        assert(spec_upsert(once, key, value) =~= once);
    } else if same_key(rows[0].0, key) {
        assert(once == seq![(key, value)] + rows.drop_first());
        assert(same_key(once[0].0, key));
        assert(once.drop_first() =~= rows.drop_first());
        assert(spec_upsert(once, key, value) =~= once);
    } else {
        assert(once == seq![rows[0]] + spec_upsert(rows.drop_first(), key, value));
        assert(once[0] == rows[0]);
        assert(once.drop_first() =~= spec_upsert(rows.drop_first(), key, value));
        lemma_upsert_idempotent(rows.drop_first(), key, value);
        assert(spec_upsert(once, key, value) =~= once);
    }
}

proof fn lemma_upsert_hit<V>(rows: Seq<(SnapshotKey, V)>, key: SnapshotKey, value: V, i: int)
    requires
        0 <= i < rows.len(),
        same_key(rows[i].0, key),
        forall|j: int| 0 <= j < i ==> !same_key(#[trigger] rows[j].0, key),
    ensures
        spec_upsert(rows, key, value) == rows.update(i, (key, value)),
    decreases rows.len(),
{
    if i == 0 {
        assert(spec_upsert(rows, key, value) =~= rows.update(0, (key, value)));
    } else {
        assert(!same_key(rows[0].0, key));
        let rest = rows.drop_first();
        assert(same_key(rest[i - 1].0, key));
        assert(forall|j: int| 0 <= j < i - 1 ==> !same_key(#[trigger] rest[j].0, key)) by {
            assert(forall|j: int|
                0 <= j < i - 1 ==> rest[j] == #[trigger] rows[j + 1]);
        }
        lemma_upsert_hit(rest, key, value, i - 1);
        assert(spec_upsert(rows, key, value) =~= rows.update(i, (key, value)));
    }
}

proof fn lemma_upsert_miss<V>(rows: Seq<(SnapshotKey, V)>, key: SnapshotKey, value: V)
    requires
        forall|j: int| 0 <= j < rows.len() ==> !same_key(#[trigger] rows[j].0, key),
    ensures
        spec_upsert(rows, key, value) == rows.push((key, value)),
    decreases rows.len(),
{
    if rows.len() == 0 {
        assert(spec_upsert(rows, key, value) =~= rows.push((key, value)));
    } else {
        let rest = rows.drop_first();
        assert(forall|j: int| 0 <= j < rest.len() ==> rest[j] == #[trigger] rows[j + 1]);
        lemma_upsert_miss(rest, key, value);
        assert(spec_upsert(rows, key, value) =~= rows.push((key, value)));
    }
}

/// An in-memory image of one time-series collection: rows of key and snapshot,
/// written only through `upsert`.
pub struct SnapshotStore<V> {
    pub rows: Vec<(SnapshotKey, V)>,
}

impl<V> SnapshotStore<V> {
    /// An empty store.
    pub fn new() -> (store: SnapshotStore<V>)
        ensures
            store.rows@ == Seq::<(SnapshotKey, V)>::empty(),
    {
        SnapshotStore { rows: Vec::new() }
    }

    /// Write one snapshot under its channel-and-day key: the row under that
    /// key is replaced if it exists, and appended otherwise.
    pub fn upsert(&mut self, key: SnapshotKey, value: V)
        ensures
            final(self).rows@ == spec_upsert(old(self).rows@, key, value),
    {
        let mut i: usize = 0;
        while i < self.rows.len()
            invariant
                0 <= i <= self.rows@.len(),
                self.rows@ == old(self).rows@,
                forall|j: int| 0 <= j < i ==> !same_key(#[trigger] self.rows@[j].0, key),
            decreases self.rows@.len() - i,
        {
            let row_matches = str_eq(self.rows[i].0.channel.as_str(), key.channel.as_str())
                && self.rows[i].0.date_key == key.date_key;
            if row_matches {
                proof {
                    lemma_upsert_hit(self.rows@, key, value, i as int);
                }
                self.rows.set(i, (key, value));
                return ;
            }
            i = i + 1;
        }
        proof {
            lemma_upsert_miss(self.rows@, key, value);
        }
        self.rows.push((key, value));
    }
}

} // verus!
