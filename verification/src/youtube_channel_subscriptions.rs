//! One page of a channel's subscription list: the discovery crawler walks the
//! subscription graph through these snippets, keeping only channel-type
//! resources.
use vstd::prelude::*;

verus! {

#[derive(Debug, Clone, PartialEq)]
pub struct YoutubeChannelSubscriptions {
    pub kind: String,
    pub etag: String,
    pub page_info: PageInfo,
    pub items: Vec<Item>,
    pub next_page_token: Option<String>,
}

#[derive(Debug, Clone, PartialEq)]
pub struct PageInfo {
    pub total_results: i64,
    pub results_per_page: i64,
}

#[derive(Debug, Clone, PartialEq)]
pub struct Item {
    pub kind: String,
    pub etag: String,
    pub id: String,
    pub snippet: YouTubeChannelSubscriptionSnippet,
}

#[derive(Debug, Clone, PartialEq)]
pub struct YouTubeChannelSubscriptionSnippet {
    pub published_at: String,
    pub title: String,
    pub description: String,
    pub resource_id: ResourceId,
    pub channel_id: String,
    pub thumbnails: Thumbnails,
}

#[derive(Debug, Clone, PartialEq)]
pub struct ResourceId {
    pub kind: String,
    pub channel_id: String,
}

#[derive(Debug, Clone, PartialEq)]
pub struct Thumbnails {
    pub default: Default,
    pub medium: Medium,
    pub high: High,
}

#[derive(Debug, Clone, PartialEq)]
pub struct Default {
    pub url: String,
}

#[derive(Debug, Clone, PartialEq)]
pub struct Medium {
    pub url: String,
}

#[derive(Debug, Clone, PartialEq)]
pub struct High {
    pub url: String,
}

} // verus!
