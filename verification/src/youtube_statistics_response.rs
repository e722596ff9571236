//! The statistics-list payload of the platform API, in the shape the endpoint
//! returns when every optional field is present.
use vstd::prelude::*;

verus! {

#[derive(Debug, Clone, PartialEq)]
pub struct YoutubeStatisticsResponse {
    pub kind: String,
    pub etag: String,
    pub page_info: PageInfo,
    pub items: Vec<YoutubeStatisticsItem>,
}

#[derive(Debug, Clone, PartialEq)]
pub struct PageInfo {
    pub total_results: i64,
    pub results_per_page: i64,
}

#[derive(Debug, Clone, PartialEq)]
pub struct YoutubeStatisticsItem {
    pub kind: String,
    pub etag: String,
    pub id: String,
    pub snippet: Snippet,
    pub statistics: Statistics,
    pub branding_settings: BrandingSettings,
}

#[derive(Debug, Clone, PartialEq)]
pub struct Snippet {
    pub title: String,
    pub description: String,
    pub custom_url: String,
    pub published_at: String,
    pub thumbnails: Thumbnails,
    pub localized: Localized,
    pub country: String,
}

#[derive(Debug, Clone, PartialEq)]
pub struct Thumbnails {
    pub default: Default,
    pub medium: Medium,
    pub high: High,
}

#[derive(Debug, Clone, PartialEq)]
pub struct Default {
    pub url: String,
    pub width: i64,
    pub height: i64,
}

#[derive(Debug, Clone, PartialEq)]
pub struct Medium {
    pub url: String,
    pub width: i64,
    pub height: i64,
}

#[derive(Debug, Clone, PartialEq)]
pub struct High {
    pub url: String,
    pub width: i64,
    pub height: i64,
}

#[derive(Debug, Clone, PartialEq)]
pub struct Localized {
    pub title: String,
    pub description: String,
}

#[derive(Debug, Clone, PartialEq)]
pub struct Statistics {
    pub view_count: String,
    pub subscriber_count: Option<String>,
    pub hidden_subscriber_count: bool,
    pub video_count: String,
}

#[derive(Debug, Clone, PartialEq)]
pub struct BrandingSettings {
    pub channel: Channel,
    pub image: Image,
}

#[derive(Debug, Clone, PartialEq)]
pub struct Channel {
    pub title: String,
    pub description: String,
    pub keywords: String,
    pub tracking_analytics_account_id: String,
    pub moderate_comments: bool,
    pub unsubscribed_trailer: String,
    pub country: String,
}

#[derive(Debug, Clone, PartialEq)]
pub struct Image {
    pub banner_external_url: String,
}

} // verus!
