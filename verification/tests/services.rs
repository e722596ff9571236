use channel_crawler::detect_language_service::{
    Data, DetectLanguageResponse, DetectLanguageService, Detection,
};
use channel_crawler::errors::CrawlError;
use channel_crawler::youtube_channel_details as d;
use channel_crawler::youtube_channel_subscriptions as subs;
use channel_crawler::youtube_service::{filter_channel_subscriptions, first_statistics_item};

fn response(detections: Vec<Detection>) -> DetectLanguageResponse {
    DetectLanguageResponse { data: Data { detections } }
}

#[test]
fn detect_language_service_keeps_its_keys() {
    let svc = DetectLanguageService::new(vec!["k1".to_string(), "k2".to_string()]);
    assert_eq!(svc.api_keys.len(), 2);
}

#[test]
fn get_api_key_returns_a_configured_key() {
    let svc = DetectLanguageService::new(vec!["only".to_string()]);
    assert_eq!(svc.get_api_key(), "only");
}

#[test]
fn reliable_detection_is_lowercased() {
    let svc = DetectLanguageService::new(vec!["k".to_string()]);
    let r = response(vec![Detection { language: "EN".to_string(), is_reliable: true }]);
    assert_eq!(svc.select_detected_language(&r).as_deref(), Some("en"));
}

#[test]
fn unreliable_detection_is_dropped() {
    let svc = DetectLanguageService::new(vec!["k".to_string()]);
    let r = response(vec![Detection { language: "EN".to_string(), is_reliable: false }]);
    assert_eq!(svc.select_detected_language(&r), None);
}

#[test]
fn empty_detection_list_yields_nothing() {
    let svc = DetectLanguageService::new(vec!["k".to_string()]);
    assert_eq!(svc.select_detected_language(&response(Vec::new())), None);
}

fn stats_item(id: &str) -> d::YoutubeStatisticsItem {
    d::YoutubeStatisticsItem {
        kind: None,
        etag: "e".to_string(),
        id: id.to_string(),
        snippet: d::Snippet {
            title: "t".to_string(),
            description: None,
            custom_url: None,
            published_at: "2021-06-01T00:00:00Z".to_string(),
            thumbnails: d::Thumbnails {
                default: d::Default { url: "u".to_string(), width: 1, height: 1 },
                medium: d::Medium { url: "u".to_string(), width: 1, height: 1 },
                high: d::High { url: "u".to_string(), width: 1, height: 1 },
            },
            localized: d::Localized { title: "t".to_string(), description: None },
            country: None,
        },
        statistics: d::Statistics {
            view_count: "1".to_string(),
            subscriber_count: None,
            hidden_subscriber_count: false,
            video_count: "0".to_string(),
        },
        branding_settings: d::BrandingSettings {
            channel: d::Channel {
                title: "t".to_string(),
                description: None,
                keywords: None,
                tracking_analytics_account_id: None,
                moderate_comments: None,
                unsubscribed_trailer: None,
                country: None,
            },
            image: None,
        },
    }
}

#[test]
fn first_item_of_a_response_is_selected() {
    let items = Some(vec![stats_item("one"), stats_item("two")]);
    let selected = first_statistics_item(items).unwrap();
    assert_eq!(selected.id, "one");
}

#[test]
fn missing_items_mean_not_found() {
    assert!(matches!(first_statistics_item(None), Err(CrawlError::NotFound)));
    assert!(matches!(first_statistics_item(Some(Vec::new())), Err(CrawlError::NotFound)));
}

fn sub_item(kind: &str, channel_id: &str) -> subs::Item {
    subs::Item {
        kind: "youtube#subscription".to_string(),
        etag: "e".to_string(),
        id: channel_id.to_string(),
        snippet: subs::YouTubeChannelSubscriptionSnippet {
            published_at: "2021-06-01T00:00:00Z".to_string(),
            title: "t".to_string(),
            description: "d".to_string(),
            resource_id: subs::ResourceId {
                kind: kind.to_string(),
                channel_id: channel_id.to_string(),
            },
            channel_id: "subscriber".to_string(),
            thumbnails: subs::Thumbnails {
                default: subs::Default { url: "u".to_string() },
                medium: subs::Medium { url: "u".to_string() },
                high: subs::High { url: "u".to_string() },
            },
        },
    }
}

#[test]
fn only_channel_type_subscriptions_are_kept() {
    let items = vec![
        sub_item("youtube#channel", "a"),
        sub_item("youtube#playlist", "b"),
        sub_item("youtube#channel", "c"),
    ];
    let snippets = filter_channel_subscriptions(items);
    assert_eq!(snippets.len(), 2);
    assert_eq!(snippets[0].resource_id.channel_id, "a");
    assert_eq!(snippets[1].resource_id.channel_id, "c");
}
