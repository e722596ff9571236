//! The video-details payload of the platform API: snippet, status and count
//! statistics for one video.
use vstd::prelude::*;

verus! {

#[derive(Debug, Clone, PartialEq)]
pub struct YouTubeVideoDetails {
    pub kind: String,
    pub etag: String,
    pub items: Vec<YouTubeVideoItem>,
    pub page_info: PageInfo,
}

#[derive(Debug, Clone, PartialEq)]
pub struct YouTubeVideoItem {
    pub kind: String,
    pub etag: String,
    pub id: String,
    pub snippet: Snippet,
    pub status: Status,
    pub statistics: Statistics,
}

#[derive(Debug, Clone, PartialEq)]
pub struct Snippet {
    pub published_at: String,
    pub channel_id: String,
    pub title: String,
    pub description: String,
    pub tags: Option<Vec<String>>,
    pub default_language: Option<String>,
}

#[derive(Debug, Clone, PartialEq)]
pub struct Status {
    pub upload_status: String,
    pub privacy_status: String,
    pub license: String,
    pub embeddable: bool,
    pub public_stats_viewable: bool,
    pub made_for_kids: bool,
}

#[derive(Debug, Clone, PartialEq)]
pub struct Statistics {
    pub view_count: String,
    pub like_count: String,
    pub favorite_count: String,
    pub comment_count: String,
}

#[derive(Debug, Clone, PartialEq)]
pub struct PageInfo {
    pub total_results: i64,
    pub results_per_page: i64,
}

} // verus!
