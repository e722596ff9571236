//! Core logic of a channel-metadata crawl-and-scrape pipeline: API-key quota
//! rotation, staleness-based refresh decisions, keyword-based relevance
//! classification, and the per-item decisions of the crawlers and scrapers.
pub mod apikeys;
pub mod channel_scraper;
pub mod clock;
pub mod config;
pub mod crawler;
pub mod db;
pub mod detect_language_service;
pub mod errors;
pub mod keyword_utils;
pub mod numbers;
pub mod sailing_terms;
pub mod staleness;
pub mod store;
pub mod text;
pub mod video_scraper;
pub mod youtube_channel_details;
pub mod youtube_service;
pub mod youtube_channel_subscriptions;
pub mod youtube_statistics_response;
pub mod youtube_video_details;
pub mod youtube_video_feed_response;
