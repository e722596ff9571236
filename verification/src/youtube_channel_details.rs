//! The channel-details payload of the platform API: snippet, statistics and
//! branding settings for one channel. Counts arrive as strings and are parsed
//! defensively downstream.
use vstd::prelude::*;

verus! {

#[derive(Debug, Clone, PartialEq)]
pub struct YouTubeChannelDetails {
    pub kind: String,
    pub etag: String,
    pub page_info: PageInfo,
    pub items: Option<Vec<YoutubeStatisticsItem>>,
}

#[derive(Debug, Clone, PartialEq)]
pub struct PageInfo {
    pub total_results: i64,
    pub results_per_page: i64,
}

#[derive(Debug, Clone, PartialEq)]
pub struct YoutubeStatisticsItem {
    pub kind: Option<String>,
    pub etag: String,
    pub id: String,
    pub snippet: Snippet,
    pub statistics: Statistics,
    pub branding_settings: BrandingSettings,
}

#[derive(Debug, Clone, PartialEq)]
pub struct Snippet {
    pub title: String,
    pub description: Option<String>,
    pub custom_url: Option<String>,
    pub published_at: String,
    pub thumbnails: Thumbnails,
    pub localized: Localized,
    pub country: Option<String>,
}

#[derive(Debug, Clone, PartialEq)]
pub struct Thumbnails {
    pub default: Default,
    pub medium: Medium,
    pub high: High,
}

#[derive(Debug, Clone, PartialEq)]
pub struct Default {
    pub url: String,
    pub width: i64,
    pub height: i64,
}

#[derive(Debug, Clone, PartialEq)]
pub struct Medium {
    pub url: String,
    pub width: i64,
    pub height: i64,
}

#[derive(Debug, Clone, PartialEq)]
pub struct High {
    pub url: String,
    pub width: i64,
    pub height: i64,
}

#[derive(Debug, Clone, PartialEq)]
pub struct Localized {
    pub title: String,
    pub description: Option<String>,
}

#[derive(Debug, Clone, PartialEq)]
pub struct Statistics {
    pub view_count: String,
    pub subscriber_count: Option<String>,
    pub hidden_subscriber_count: bool,
    pub video_count: String,
}

#[derive(Debug, Clone, PartialEq)]
pub struct BrandingSettings {
    pub channel: Channel,
    pub image: Option<Image>,
}

#[derive(Debug, Clone, PartialEq)]
pub struct Channel {
    pub title: String,
    pub description: Option<String>,
    pub keywords: Option<String>,
    pub tracking_analytics_account_id: Option<String>,
    pub moderate_comments: Option<bool>,
    pub unsubscribed_trailer: Option<String>,
    pub country: Option<String>,
}

#[derive(Debug, Clone, PartialEq)]
pub struct Image {
    pub banner_external_url: String,
}

} // verus!
