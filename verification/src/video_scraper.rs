//! The item worker's decision pipeline: given a channel's feed entries and the
//! lookup of already-known videos, decide which videos are due for a refresh
//! under the staleness policy; and given one refreshed video's full details,
//! decide whether to delete it (no longer public) or what document to upsert.
//! Fetching the feed and the details, and writing the documents, are the
//! embedding program's work.
use vstd::prelude::*;

use crate::clock::{parse_rfc3339_epoch_seconds, rfc3339_epoch_seconds};
use crate::errors::CrawlError;
use crate::numbers::{parse_i64, spec_parse_i64};
use crate::staleness::{should_update_video, spec_should_update_video, TIMESTAMP_BOUND};
use crate::text::str_eq;
use crate::youtube_video_details::YouTubeVideoItem;
use crate::youtube_video_feed_response::Entry;

verus! {

/// The persisted video document, exactly as a video's details build it.
pub struct VideoRecord {
    pub id: String,
    pub title: String,
    pub description: String,
    pub published_at: i64,
    pub updated_at: i64,
    pub views: i64,
    pub likes: i64,
    pub comments: i64,
    pub channel: String,
    pub tags: Option<Vec<String>>,
    pub default_language: Option<String>,
}

/// The video-id-to-last-updated lookup, as pairs of views.
pub open spec fn lookup_view(rows: Seq<(String, i64)>) -> Seq<(Seq<char>, i64)> {
    rows.map_values(|row: (String, i64)| (row.0@, row.1))
}

/// The last-updated timestamp stored for a video id, if any: the first row
/// under that id decides.
pub open spec fn spec_lookup(rows: Seq<(Seq<char>, i64)>, id: Seq<char>) -> Option<i64>
    decreases rows.len(),
{
    if rows.len() == 0 {
        None
    } else if rows[0].0 == id {
        Some(rows[0].1)
    } else {
        spec_lookup(rows.drop_first(), id)
    }
}

proof fn lemma_lookup_is_member(rows: Seq<(Seq<char>, i64)>, id: Seq<char>)
    requires
        spec_lookup(rows, id) is Some,
    ensures
        exists|k: int|
            0 <= k < rows.len() && #[trigger] rows[k].1 == spec_lookup(rows, id).unwrap(),
    decreases rows.len(),
{
    if rows.len() > 0 && rows[0].0 != id {
        lemma_lookup_is_member(rows.drop_first(), id);
        let k = choose|k: int|
            0 <= k < rows.drop_first().len() && #[trigger] rows.drop_first()[k].1 == spec_lookup(
                rows.drop_first(),
                id,
            ).unwrap();
        assert(rows[k + 1].1 == spec_lookup(rows, id).unwrap());
    }
}

/// Look a video id up, as `spec_lookup` says.
pub fn lookup_updated(rows: &Vec<(String, i64)>, video_id: &str) -> (updated: Option<i64>)
    ensures
        updated == spec_lookup(lookup_view(rows@), video_id@),
{
    let ghost all = lookup_view(rows@);
    proof {
        assert(all.skip(0) =~= all);
    }
    let mut i: usize = 0;
    while i < rows.len()
        invariant
            0 <= i <= rows@.len(),
            all == lookup_view(rows@),
            spec_lookup(all, video_id@) == spec_lookup(all.skip(i as int), video_id@),
        decreases rows@.len() - i,
    {
        proof {
            assert(all.skip(i as int)[0] == (rows@[i as int].0@, rows@[i as int].1));
            assert(all.skip(i as int).drop_first() =~= all.skip(i as int + 1));
        }
        if str_eq(rows[i].0.as_str(), video_id) {
            return Some(rows[i].1);
        }
        i = i + 1;
    }
    proof {
        assert(all.skip(i as int) =~= Seq::<(Seq<char>, i64)>::empty());
    }
    None
}

/// Whether a feed entry is due for a refresh: its publish timestamp (which is
/// assumed to parse) and the stored last-updated timestamp, under the
/// graduated staleness policy.
pub open spec fn spec_entry_due(entry: Entry, rows: Seq<(Seq<char>, i64)>, now: i64) -> bool {
    spec_should_update_video(
        spec_lookup(rows, entry.video_id@),
        rfc3339_epoch_seconds(entry.published@).unwrap(),
        now,
    )
}

/// The latest publish timestamp among entries, floored at zero — what the
/// channel's last-upload field is set to.
pub open spec fn spec_max_published(entries: Seq<Entry>) -> int
    decreases entries.len(),
{
    if entries.len() == 0 {
        0
    } else {
        let rest = spec_max_published(entries.drop_last());
        let published = rfc3339_epoch_seconds(entries.last().published@).unwrap() as int;
        if published > rest {
            published
        } else {
            rest
        }
    }
}

/// One video selected for a refresh: its id and its parsed publish timestamp.
pub struct DueVideo {
    pub video_id: String,
    pub published_at: i64,
}

/// What one pass over a channel's feed decides: the videos due for a refresh,
/// the latest upload timestamp seen among them, and — when an entry's publish
/// date does not parse — the index at which the pass gave up.
pub struct VideoRefreshPlan {
    pub due: Vec<DueVideo>,
    pub max_last_upload: i64,
    pub failed_entry: Option<usize>,
}

/// Decide which feed entries are due for a refresh. Entries are walked in feed
/// order; an entry whose publish date does not parse stops the pass there
/// (everything decided before it stands). An entry is due exactly when the
/// staleness policy says it is, given the stored last-updated timestamp.
pub fn plan_video_refresh(
    entries: &Vec<Entry>,
    updated_rows: &Vec<(String, i64)>,
    now: i64,
) -> (plan: VideoRefreshPlan)
    requires
        -TIMESTAMP_BOUND <= now <= TIMESTAMP_BOUND,
        forall|k: int|
            0 <= k < updated_rows@.len() ==> -TIMESTAMP_BOUND <= (
            #[trigger] updated_rows@[k]).1 <= TIMESTAMP_BOUND,
    ensures
        ({
            let rows = lookup_view(updated_rows@);
            let scanned = match plan.failed_entry {
                Some(b) => b as int,
                None => entries@.len() as int,
            };
            let due = entries@.take(scanned).filter(|e: Entry| spec_entry_due(e, rows, now));
            &&& (match plan.failed_entry {
                Some(b) => b < entries@.len() && rfc3339_epoch_seconds(
                    entries@[b as int].published@,
                ) is None && forall|j: int|
                    0 <= j < b ==> rfc3339_epoch_seconds(
                        #[trigger] entries@[j].published@,
                    ) is Some,
                None => forall|j: int|
                    0 <= j < entries@.len() ==> rfc3339_epoch_seconds(
                        #[trigger] entries@[j].published@,
                    ) is Some,
            })
            &&& plan.due@.len() == due.len()
            &&& (forall|k: int|
                0 <= k < due.len() ==> {
                    let selected = #[trigger] plan.due@[k];
                    &&& selected.video_id == due[k].video_id
                    &&& selected.published_at == rfc3339_epoch_seconds(due[k].published@).unwrap()
                })
            &&& plan.max_last_upload == spec_max_published(due)
        }),
{
    let ghost rows = lookup_view(updated_rows@);
    let mut due: Vec<DueVideo> = Vec::new();
    let mut max_last_upload: i64 = 0;
    let mut i: usize = 0;
    let ghost due_of = |e: Entry| spec_entry_due(e, rows, now);
    while i < entries.len()
        invariant
            0 <= i <= entries@.len(),
            rows == lookup_view(updated_rows@),
            -TIMESTAMP_BOUND <= now <= TIMESTAMP_BOUND,
            forall|k: int|
                0 <= k < updated_rows@.len() ==> -TIMESTAMP_BOUND <= (
                #[trigger] updated_rows@[k]).1 <= TIMESTAMP_BOUND,
            due_of == (|e: Entry| spec_entry_due(e, rows, now)),
            forall|j: int|
                0 <= j < i ==> rfc3339_epoch_seconds(#[trigger] entries@[j].published@) is Some,
            due@.len() == entries@.take(i as int).filter(due_of).len(),
            forall|k: int|
                0 <= k < entries@.take(i as int).filter(due_of).len() ==> {
                    let selected = #[trigger] due@[k];
                    let e = entries@.take(i as int).filter(due_of)[k];
                    &&& selected.video_id == e.video_id
                    &&& selected.published_at == rfc3339_epoch_seconds(e.published@).unwrap()
                },
            max_last_upload == spec_max_published(entries@.take(i as int).filter(due_of)),
        decreases entries@.len() - i,
    {
        let entry = &entries[i];
        let ghost prefix = entries@.take(i as int);
        proof {
            reveal(Seq::filter);
            assert(entries@.take(i as int + 1).drop_last() =~= prefix);
            assert(entries@.take(i as int + 1).last() == entries@[i as int]);
        }
        let published = match parse_rfc3339_epoch_seconds(entry.published.as_str()) {
            Some(t) => t,
            None => {
                return VideoRefreshPlan { due, max_last_upload, failed_entry: Some(i) };
            },
        };
        let updated = lookup_updated(updated_rows, entry.video_id.as_str());
        proof {
            if updated is Some {
                lemma_lookup_is_member(rows, entry.video_id@);
            }
        }
        if should_update_video(updated, published, now) {
            if published > max_last_upload {
                max_last_upload = published;
            }
            due.push(DueVideo { video_id: entry.video_id.clone(), published_at: published });
            proof {
                let extended = entries@.take(i as int + 1).filter(due_of);
                assert(extended =~= prefix.filter(due_of).push(entries@[i as int]));
                assert(extended.drop_last() =~= prefix.filter(due_of));
                assert(extended.last() == entries@[i as int]);
            }
        } else {
            proof {
                assert(entries@.take(i as int + 1).filter(due_of) =~= prefix.filter(due_of));
            }
        }
        i = i + 1;
    }
    proof {
        assert(entries@.take(i as int) =~= entries@);
    }
    VideoRefreshPlan { due, max_last_upload, failed_entry: None }
}

/// What a refreshed video's full details decide: a video that is no longer
/// public loses its record; a public one gets its document upserted.
pub enum VideoDetailsAction {
    Delete,
    Upsert(VideoRecord),
}

/// A count field of the details, parsed defensively: a malformed count reads
/// as zero.
pub open spec fn spec_count(s: Seq<char>) -> int {
    match spec_parse_i64(s) {
        Some(v) => v as int,
        None => 0,
    }
}

fn parse_count(s: &str) -> (count: i64)
    ensures
        count == spec_count(s@),
{
    match parse_i64(s) {
        Some(v) => v,
        None => 0,
    }
}

/// Build the document for one refreshed video, as `video_details_action` says,
/// or decide to delete it: a video whose privacy status is not `public` is
/// removed; otherwise its document carries the details' fields, its counts
/// parsed defensively, and `now` as the update time. A publish date that does
/// not parse is a malformed payload.
pub fn video_details_action(item: YouTubeVideoItem, now: i64) -> (action: Result<
    VideoDetailsAction,
    CrawlError,
>)
    ensures
        ({
            let public = item.status.privacy_status@ == "public"@;
            let published_ok = rfc3339_epoch_seconds(item.snippet.published_at@) is Some;
            &&& (!public ==> action == Ok::<VideoDetailsAction, CrawlError>(
                VideoDetailsAction::Delete,
            ))
            &&& (public && !published_ok ==> action == Err::<VideoDetailsAction, CrawlError>(
                CrawlError::ParseError,
            ))
            &&& (public && published_ok ==> (action matches Ok(VideoDetailsAction::Upsert(record))
                && {
                &&& record.id == item.id
                &&& record.title == item.snippet.title
                &&& record.description == item.snippet.description
                &&& record.published_at == rfc3339_epoch_seconds(
                    item.snippet.published_at@,
                ).unwrap()
                &&& record.updated_at == now
                &&& record.views == spec_count(item.statistics.view_count@)
                &&& record.likes == spec_count(item.statistics.like_count@)
                &&& record.comments == spec_count(item.statistics.comment_count@)
                &&& record.channel == item.snippet.channel_id
                &&& record.tags == item.snippet.tags
                &&& record.default_language == item.snippet.default_language
            }))
        }),
{
    if !str_eq(item.status.privacy_status.as_str(), "public") {
        return Ok(VideoDetailsAction::Delete);
    }

    let published_at = match parse_rfc3339_epoch_seconds(item.snippet.published_at.as_str()) {
        Some(t) => t,
        None => {
            return Err(CrawlError::ParseError);
        },
    };

    let views = parse_count(item.statistics.view_count.as_str());
    let likes = parse_count(item.statistics.like_count.as_str());
    let comments = parse_count(item.statistics.comment_count.as_str());

    Ok(
        VideoDetailsAction::Upsert(
            VideoRecord {
                id: item.id,
                title: item.snippet.title,
                description: item.snippet.description,
                published_at,
                updated_at: now,
                views,
                likes,
                comments,
                channel: item.snippet.channel_id,
                tags: item.snippet.tags,
                default_language: item.snippet.default_language,
            },
        ),
    )
}

} // verus!
