use channel_crawler::errors::CrawlError;
use channel_crawler::store::{SnapshotKey, SnapshotStore, ViewSnapshot};
use channel_crawler::video_scraper::{
    lookup_updated, plan_video_refresh, video_details_action, VideoDetailsAction,
};
use channel_crawler::youtube_video_details as vd;
use channel_crawler::youtube_video_feed_response::{
    Entry, MediaCommunity, MediaGroup, MediaStatistics,
};

const DAY: i64 = 86400;
const PUBLISHED: i64 = 1_704_067_200;

fn entry(video_id: &str, published: &str, views: i64) -> Entry {
    Entry {
        video_id: video_id.to_string(),
        title: format!("video {}", video_id),
        published: published.to_string(),
        updated: published.to_string(),
        group: MediaGroup {
            title: format!("video {}", video_id),
            description: "a description".to_string(),
            community: MediaCommunity { statistics: MediaStatistics { views } },
        },
    }
}

#[test]
fn unknown_video_is_due() {
    let now = PUBLISHED + 2 * DAY;
    let entries = vec![entry("v1", "2024-01-01T00:00:00Z", 7)];
    let plan = plan_video_refresh(&entries, &Vec::new(), now);
    assert_eq!(plan.failed_entry, None);
    assert_eq!(plan.due.len(), 1);
    assert_eq!(plan.due[0].video_id, "v1");
    assert_eq!(plan.due[0].published_at, PUBLISHED);
    assert_eq!(plan.max_last_upload, PUBLISHED);
}

#[test]
fn recently_updated_video_is_skipped() {
    let now = PUBLISHED + 2 * DAY;
    let entries = vec![entry("v1", "2024-01-01T00:00:00Z", 7)];
    let rows = vec![("v1".to_string(), now - 3600)];
    let plan = plan_video_refresh(&entries, &rows, now);
    assert_eq!(plan.due.len(), 0);
    assert_eq!(plan.max_last_upload, 0);
    assert_eq!(plan.failed_entry, None);
}

#[test]
fn stale_video_is_due_again() {
    let now = PUBLISHED + 2 * DAY;
    let entries = vec![entry("v1", "2024-01-01T00:00:00Z", 7)];
    let rows = vec![("v1".to_string(), now - 2 * DAY)];
    let plan = plan_video_refresh(&entries, &rows, now);
    assert_eq!(plan.due.len(), 1);
}

#[test]
fn malformed_publish_date_stops_the_pass() {
    let now = PUBLISHED + 2 * DAY;
    let entries = vec![
        entry("v1", "2024-01-01T00:00:00Z", 7),
        entry("v2", "not a date", 8),
        entry("v3", "2024-01-02T03:04:05Z", 9),
    ];
    let plan = plan_video_refresh(&entries, &Vec::new(), now);
    assert_eq!(plan.failed_entry, Some(1));
    assert_eq!(plan.due.len(), 1);
    assert_eq!(plan.due[0].video_id, "v1");
}

#[test]
fn max_last_upload_tracks_the_latest_due_entry() {
    let now = PUBLISHED + 30 * DAY;
    let entries = vec![
        entry("v1", "2024-01-01T00:00:00Z", 7),
        entry("v2", "2024-01-02T03:04:05Z", 8),
    ];
    let plan = plan_video_refresh(&entries, &Vec::new(), now);
    assert_eq!(plan.due.len(), 2);
    assert_eq!(plan.max_last_upload, 1_704_164_645);
}

#[test]
fn lookup_finds_first_matching_row() {
    let rows = vec![("a".to_string(), 1i64), ("b".to_string(), 2), ("a".to_string(), 3)];
    assert_eq!(lookup_updated(&rows, "a"), Some(1));
    assert_eq!(lookup_updated(&rows, "b"), Some(2));
    assert_eq!(lookup_updated(&rows, "c"), None);
}

fn video_item(privacy: &str, published_at: &str) -> vd::YouTubeVideoItem {
    vd::YouTubeVideoItem {
        kind: "youtube#video".to_string(),
        etag: "e".to_string(),
        id: "v9".to_string(),
        snippet: vd::Snippet {
            published_at: published_at.to_string(),
            channel_id: "UC9".to_string(),
            title: "a title".to_string(),
            description: "a description".to_string(),
            tags: Some(vec!["sailing".to_string(), "ocean".to_string()]),
            default_language: Some("en".to_string()),
        },
        status: vd::Status {
            upload_status: "processed".to_string(),
            privacy_status: privacy.to_string(),
            license: "youtube".to_string(),
            embeddable: true,
            public_stats_viewable: true,
            made_for_kids: false,
        },
        statistics: vd::Statistics {
            view_count: "100".to_string(),
            like_count: "10".to_string(),
            favorite_count: "0".to_string(),
            comment_count: "3".to_string(),
        },
    }
}

#[test]
fn public_video_details_build_the_document() {
    let now = PUBLISHED + 10;
    let action = video_details_action(video_item("public", "2024-01-01T00:00:00Z"), now).unwrap();
    match action {
        VideoDetailsAction::Upsert(record) => {
            assert_eq!(record.id, "v9");
            assert_eq!(record.title, "a title");
            assert_eq!(record.description, "a description");
            assert_eq!(record.published_at, PUBLISHED);
            assert_eq!(record.updated_at, now);
            assert_eq!(record.views, 100);
            assert_eq!(record.likes, 10);
            assert_eq!(record.comments, 3);
            assert_eq!(record.channel, "UC9");
            assert_eq!(record.tags, Some(vec!["sailing".to_string(), "ocean".to_string()]));
            assert_eq!(record.default_language.as_deref(), Some("en"));
        }
        VideoDetailsAction::Delete => panic!("expected an upsert"),
    }
}

#[test]
fn private_video_is_deleted() {
    let action = video_details_action(video_item("private", "2024-01-01T00:00:00Z"), 0).unwrap();
    assert!(matches!(action, VideoDetailsAction::Delete));
}

#[test]
fn malformed_video_publish_date_is_a_parse_error() {
    let result = video_details_action(video_item("public", "soon"), 0);
    assert!(matches!(result, Err(CrawlError::ParseError)));
}

#[test]
fn malformed_video_counts_read_as_zero() {
    let mut item = video_item("public", "2024-01-01T00:00:00Z");
    item.statistics.view_count = "n/a".to_string();
    let action = video_details_action(item, 0).unwrap();
    match action {
        VideoDetailsAction::Upsert(record) => assert_eq!(record.views, 0),
        VideoDetailsAction::Delete => panic!("expected an upsert"),
    }
}

fn snapshot(views: i64) -> ViewSnapshot {
    ViewSnapshot { year: 2024, month: 1, day: 3, date_millis: 1_704_240_000_000, views }
}

fn key(channel: &str, date_key: i32) -> SnapshotKey {
    SnapshotKey { channel: channel.to_string(), date_key }
}

#[test]
fn replaying_the_same_snapshot_writes_no_duplicate_row() {
    let mut store: SnapshotStore<ViewSnapshot> = SnapshotStore::new();
    store.upsert(key("UC123", 20240103), snapshot(10));
    store.upsert(key("UC123", 20240103), snapshot(10));
    assert_eq!(store.rows.len(), 1);
    assert_eq!(store.rows[0].1.views, 10);
}

#[test]
fn same_day_upsert_replaces_the_value() {
    let mut store: SnapshotStore<ViewSnapshot> = SnapshotStore::new();
    store.upsert(key("UC123", 20240103), snapshot(10));
    store.upsert(key("UC123", 20240103), snapshot(12));
    assert_eq!(store.rows.len(), 1);
    assert_eq!(store.rows[0].1.views, 12);
}

#[test]
fn different_days_keep_their_own_rows() {
    let mut store: SnapshotStore<ViewSnapshot> = SnapshotStore::new();
    store.upsert(key("UC123", 20240103), snapshot(10));
    store.upsert(key("UC123", 20240104), snapshot(11));
    store.upsert(key("UC456", 20240103), snapshot(12));
    assert_eq!(store.rows.len(), 3);
}
