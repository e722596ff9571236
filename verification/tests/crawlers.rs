use channel_crawler::crawler::{
    additional_channel_commands, discovery_command, is_channel_newly_discovered,
    new_video_commands, should_crawl, update_channel_commands, update_crawl_cutoffs,
    AdditionalChannelEntry,
};
use channel_crawler::sailing_terms::SailingTermsService;
use channel_crawler::youtube_channel_subscriptions as subs;

const NOW: i64 = 1_700_000_000;
const DAY: i64 = 86400;
const WEEK: i64 = 604800;

fn service(terms: &[&str], blacklist: &[&str]) -> SailingTermsService {
    SailingTermsService::new(
        terms.iter().map(|t| t.to_string()).collect(),
        blacklist.iter().map(|t| t.to_string()).collect(),
        Vec::new(),
    )
}

fn snippet(channel_id: &str, title: &str, description: &str) -> subs::YouTubeChannelSubscriptionSnippet {
    subs::YouTubeChannelSubscriptionSnippet {
        published_at: "2021-06-01T00:00:00Z".to_string(),
        title: title.to_string(),
        description: description.to_string(),
        resource_id: subs::ResourceId {
            kind: "youtube#channel".to_string(),
            channel_id: channel_id.to_string(),
        },
        channel_id: "subscriber".to_string(),
        thumbnails: subs::Thumbnails {
            default: subs::Default { url: "u".to_string() },
            medium: subs::Medium { url: "u".to_string() },
            high: subs::High { url: "u".to_string() },
        },
    }
}

#[test]
fn additional_entries_keep_their_own_override_flag() {
    let entries = vec![
        AdditionalChannelEntry { channel_id: "a".to_string(), ignore_sailing_terms: true },
        AdditionalChannelEntry { channel_id: "b".to_string(), ignore_sailing_terms: false },
    ];
    let commands = additional_channel_commands(entries);
    assert_eq!(commands.len(), 2);
    assert_eq!(commands[0].channel_id, "a");
    assert!(commands[0].ignore_sailing_terms);
    assert_eq!(commands[1].channel_id, "b");
    assert!(!commands[1].ignore_sailing_terms);
}

#[test]
fn update_commands_never_override_the_filter() {
    let commands = update_channel_commands(vec!["a".to_string(), "b".to_string()]);
    assert_eq!(commands.len(), 2);
    assert_eq!(commands[0].channel_id, "a");
    assert!(!commands[0].ignore_sailing_terms);
    assert!(!commands[1].ignore_sailing_terms);
}

#[test]
fn new_video_commands_cover_every_channel() {
    let commands = new_video_commands(vec!["a".to_string(), "b".to_string(), "c".to_string()]);
    assert_eq!(commands.len(), 3);
    assert_eq!(commands[2].channel_id, "c");
}

#[test]
fn discovery_is_due_after_a_day() {
    assert!(should_crawl(None, NOW));
    assert!(should_crawl(Some(NOW - DAY), NOW));
    assert!(should_crawl(Some(NOW - DAY - 1), NOW));
    assert!(!should_crawl(Some(NOW - DAY + 1), NOW));
    assert!(!should_crawl(Some(NOW), NOW));
}

#[test]
fn newly_discovered_means_nowhere_known() {
    assert!(is_channel_newly_discovered(false, false));
    assert!(!is_channel_newly_discovered(true, false));
    assert!(!is_channel_newly_discovered(false, true));
    assert!(!is_channel_newly_discovered(true, true));
}

#[test]
fn update_cutoffs_are_a_day_and_a_year_back() {
    let (last_crawl_before, last_upload_after) = update_crawl_cutoffs(NOW);
    assert_eq!(last_crawl_before, NOW - DAY);
    assert_eq!(last_upload_after, NOW - 52 * WEEK);
}

#[test]
fn discovery_emits_a_command_for_a_new_matching_channel() {
    let mut svc = service(&["sailing"], &[]);
    let cmd = discovery_command(&mut svc, &snippet("UCnew", "Sailing daily", ""), false, false);
    let cmd = cmd.expect("expected a command");
    assert_eq!(cmd.channel_id, "UCnew");
    assert!(!cmd.ignore_sailing_terms);
}

#[test]
fn discovery_skips_known_channels() {
    let mut svc = service(&["sailing"], &[]);
    assert!(discovery_command(&mut svc, &snippet("UCk", "Sailing daily", ""), true, false).is_none());
    assert!(discovery_command(&mut svc, &snippet("UCk", "Sailing daily", ""), false, true).is_none());
}

#[test]
fn discovery_skips_and_caches_non_matching_channels() {
    let mut svc = service(&["sailing"], &[]);
    assert!(discovery_command(&mut svc, &snippet("UCx", "Cooking Tonight", ""), false, false)
        .is_none());
    assert!(!svc.is_not_listed_as_non_sailing_channel("UCx"));
}

#[test]
fn discovery_skips_blacklisted_channels() {
    let mut svc = service(&["sailing"], &["UCbad"]);
    assert!(discovery_command(&mut svc, &snippet("UCbad", "Sailing daily", ""), false, false)
        .is_none());
}
