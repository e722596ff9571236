//! A channel's syndication video feed: the entries the item scraper walks to
//! decide which videos are due for a refresh.
use vstd::prelude::*;

verus! {

#[derive(Debug, Clone, PartialEq)]
pub struct YoutubeVideoFeedResponse {
    pub entries: Vec<Entry>,
}

#[derive(Debug, Clone, PartialEq)]
pub struct Entry {
    pub video_id: String,
    pub title: String,
    pub published: String,
    pub updated: String,
    pub group: MediaGroup,
}

#[derive(Debug, Clone, PartialEq)]
pub struct MediaGroup {
    pub title: String,
    pub description: String,
    pub community: MediaCommunity,
}

#[derive(Debug, Clone, PartialEq)]
pub struct MediaCommunity {
    pub statistics: MediaStatistics,
}

#[derive(Debug, Clone, PartialEq)]
pub struct MediaStatistics {
    pub views: i64,
}

} // verus!
