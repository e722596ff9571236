//! The channel worker's decision pipeline: given one channel's fetched
//! details, classify it, and decide whether to cascade-delete it, skip it, or
//! persist a channel record together with its daily view and subscriber
//! snapshots. Fetching and persisting are the embedding program's work; every
//! decision and every constructed document is verified here.
use vstd::prelude::*;

use crate::clock::{parse_rfc3339_epoch_seconds, rfc3339_epoch_seconds, DayStamp};
use crate::errors::CrawlError;
use crate::keyword_utils::{parse_keywords, spec_keywords};
use crate::numbers::{parse_i64, spec_parse_i64};
use crate::sailing_terms::{spec_is_relevant, spec_records_negative, SailingTermsService};
use crate::store::{SnapshotKey, SubscriberSnapshot, ViewSnapshot};
use crate::text::{lower_of, str_eq, to_lowercase};
use crate::youtube_channel_details::YoutubeStatisticsItem;

verus! {

/// The persisted channel document, exactly as the scrape outcome builds it.
pub struct ChannelRecord {
    pub id: String,
    pub title: String,
    pub description: String,
    pub published_at: i64,
    pub thumbnail: String,
    pub subscribers: i64,
    pub views: i64,
    pub subscribers_hidden: bool,
    pub last_crawl: i64,
    pub country: Option<String>,
    pub keywords: Option<Vec<String>>,
    pub language: Option<String>,
}

/// What one channel-scrape decides: cascade-delete a blacklisted channel, skip
/// an irrelevant or viewless one, give up on a malformed payload, or persist
/// the record with its two daily snapshots.
pub enum ChannelScrapePlan {
    Delete,
    Skip,
    Fail(CrawlError),
    Persist {
        channel: ChannelRecord,
        view_key: SnapshotKey,
        view: ViewSnapshot,
        subscriber_key: SnapshotKey,
        subscriber: SubscriberSnapshot,
    },
}

/// The channel description, with a missing one reading as empty.
pub open spec fn spec_description(details: &YoutubeStatisticsItem) -> Seq<char> {
    match details.snippet.description {
        Some(d) => d@,
        None => Seq::empty(),
    }
}

/// The view count, parsed defensively: a malformed count reads as zero.
pub open spec fn spec_view_count(details: &YoutubeStatisticsItem) -> int {
    match spec_parse_i64(details.statistics.view_count@) {
        Some(v) => v as int,
        None => 0,
    }
}

/// Whether the subscriber count, when present, parses; a hidden (absent) count
/// is in order and reads as zero.
pub open spec fn spec_subscribers_parse_ok(details: &YoutubeStatisticsItem) -> bool {
    match details.statistics.subscriber_count {
        Some(s) => spec_parse_i64(s@) is Some,
        None => true,
    }
}

pub open spec fn spec_subscriber_count(details: &YoutubeStatisticsItem) -> int {
    match details.statistics.subscriber_count {
        Some(s) => spec_parse_i64(s@).unwrap() as int,
        None => 0,
    }
}

/// The raw keyword string of the branding settings, with a missing one reading
/// as empty.
pub open spec fn spec_keywords_source(details: &YoutubeStatisticsItem) -> Seq<char> {
    match details.branding_settings.channel.keywords {
        Some(k) => k@,
        None => Seq::empty(),
    }
}

/// A supported two-letter language code: one the downstream consumers render.
pub open spec fn spec_is_supported_language(code: Seq<char>) -> bool {
    ||| code == "da"@
    ||| code == "nl"@
    ||| code == "en"@
    ||| code == "fi"@
    ||| code == "fr"@
    ||| code == "de"@
    ||| code == "hu"@
    ||| code == "it"@
    ||| code == "nb"@
    ||| code == "pt"@
    ||| code == "ro"@
    ||| code == "ru"@
    ||| code == "es"@
    ||| code == "sv"@
    ||| code == "tr"@
}

/// The language, three-letter code and reliability flag that natural-language
/// detection assigns to a text; it depends on the characters alone.
pub uninterp spec fn lang_of(text: Seq<char>) -> Option<(Seq<char>, bool)>;

/// Relies on whatlang::detect with Info::lang, Lang::code and Info::is_reliable:
/// the detection depends on the text alone, and every language code whatlang
/// assigns is three letters long.
#[verifier::external_body]
fn detect_natural_language(text: &str) -> (detection: Option<(String, bool)>)
    ensures
        match detection {
            Some(d) => lang_of(text@) == Some((d.0@, d.1)) && d.0@.len() == 3,
            None => lang_of(text@) is None,
        },
{
    whatlang::detect(text).map(|info| (info.lang().code().to_string(), info.is_reliable()))
}

/// The detected language stored with a channel: only computed when none was
/// detected before and the description is non-empty, and only kept when the
/// detection is reliable and its two-letter prefix is a supported code.
pub open spec fn spec_channel_language(already_detected: bool, text: Seq<char>) -> Option<
    Seq<char>,
> {
    if already_detected || text.len() == 0 {
        None
    } else {
        match lang_of(text) {
            Some(d) => if d.1 && d.0.len() >= 2 && spec_is_supported_language(d.0.subrange(0, 2)) {
                Some(d.0.subrange(0, 2))
            } else {
                None
            },
            None => None,
        }
    }
}

/// Whether a two-letter code is one of the supported languages.
fn is_supported_language(code: &str) -> (supported: bool)
    ensures
        supported == spec_is_supported_language(code@),
{
    str_eq(code, "da") || str_eq(code, "nl") || str_eq(code, "en") || str_eq(code, "fi")
        || str_eq(code, "fr") || str_eq(code, "de") || str_eq(code, "hu") || str_eq(code, "it")
        || str_eq(code, "nb") || str_eq(code, "pt") || str_eq(code, "ro") || str_eq(code, "ru")
        || str_eq(code, "es") || str_eq(code, "sv") || str_eq(code, "tr")
}

/// Detect the language to store with a channel, as `spec_channel_language`
/// says.
pub fn detect_channel_language(language_already_detected: bool, text: &str) -> (lang: Option<
    String,
>)
    ensures
        match lang {
            Some(code) => spec_channel_language(language_already_detected, text@) == Some(code@),
            None => spec_channel_language(language_already_detected, text@) is None,
        },
{
    if language_already_detected || text.is_empty() {
        return None;
    }
    match detect_natural_language(text) {
        Some(detection) => {
            let (code, reliable) = detection;
            if reliable {
                let prefix = code.as_str().substring_char(0, 2);
                if is_supported_language(prefix) {
                    return Some(prefix.to_owned());
                }
            }
            None
        },
        None => None,
    }
}

/// Decide one channel scrape. The classifier records its negative-cache entry
/// as `has_sailing_term` says; the plan is: delete a blacklisted channel;
/// skip one that is not relevant or has no lifetime views; fail on a
/// subscriber count or publish date that does not parse; otherwise persist
/// the record and the two daily snapshots keyed by channel and day.
pub fn plan_channel_scrape(
    service: &mut SailingTermsService,
    channel_id: &str,
    details: &YoutubeStatisticsItem,
    ignore_sailing_terms: bool,
    language_already_detected: bool,
    now: i64,
    today: &DayStamp,
) -> (plan: ChannelScrapePlan)
    ensures
        final(service).sailing_terms == old(service).sailing_terms,
        final(service).blacklisted_channel_ids == old(service).blacklisted_channel_ids,
        final(service).non_sailing_channel_ids.deep_view() == if spec_records_negative(
            old(service).sailing_terms.deep_view(),
            details.snippet.title@,
            spec_description(details),
            ignore_sailing_terms,
        ) {
            old(service).non_sailing_channel_ids.deep_view().push(channel_id@)
        } else {
            old(service).non_sailing_channel_ids.deep_view()
        },
        ({
            let blacklisted = old(service).blacklisted_channel_ids.deep_view().contains(
                channel_id@,
            );
            let relevant = spec_is_relevant(
                old(service).sailing_terms.deep_view(),
                old(service).blacklisted_channel_ids.deep_view(),
                channel_id@,
                details.snippet.title@,
                spec_description(details),
                ignore_sailing_terms,
            );
            let views = spec_view_count(details);
            let subscribers_ok = spec_subscribers_parse_ok(details);
            let published_ok = rfc3339_epoch_seconds(details.snippet.published_at@) is Some;
            &&& (plan is Delete <==> blacklisted)
            &&& (!blacklisted ==> (plan is Skip <==> !relevant || views == 0))
            &&& (!blacklisted && relevant && views != 0 && !subscribers_ok ==> plan
                == ChannelScrapePlan::Fail(CrawlError::ParseError))
            &&& (!blacklisted && relevant && views != 0 && subscribers_ok && !published_ok
                ==> plan == ChannelScrapePlan::Fail(CrawlError::ParseError))
            &&& (!blacklisted && relevant && views != 0 && subscribers_ok && published_ok ==> (
            plan matches ChannelScrapePlan::Persist {
                channel,
                view_key,
                view,
                subscriber_key,
                subscriber,
            } && {
                &&& channel.id@ == channel_id@
                &&& channel.title == details.snippet.title
                &&& channel.description@ == spec_description(details)
                &&& channel.published_at == rfc3339_epoch_seconds(
                    details.snippet.published_at@,
                ).unwrap()
                &&& channel.thumbnail == details.snippet.thumbnails.default.url
                &&& channel.subscribers == spec_subscriber_count(details)
                &&& channel.views == views
                &&& channel.subscribers_hidden == details.statistics.hidden_subscriber_count
                &&& channel.last_crawl == now
                &&& (match details.snippet.country {
                    Some(c) => channel.country matches Some(lowered) && lowered@ == lower_of(c@),
                    None => channel.country is None,
                })
                &&& (match channel.keywords {
                    Some(ks) => spec_keywords(spec_keywords_source(details)).len() > 0
                        && ks.deep_view() == spec_keywords(spec_keywords_source(details)),
                    None => spec_keywords(spec_keywords_source(details)).len() == 0,
                })
                &&& (match channel.language {
                    Some(code) => spec_channel_language(
                        language_already_detected,
                        spec_description(details),
                    ) == Some(code@),
                    None => spec_channel_language(
                        language_already_detected,
                        spec_description(details),
                    ) is None,
                })
                &&& view_key.channel@ == channel_id@ && view_key.date_key == today.day_key
                &&& view.year == today.year && view.month == today.month && view.day == today.day
                &&& view.date_millis == today.epoch_millis && view.views == views
                &&& subscriber_key.channel@ == channel_id@ && subscriber_key.date_key
                    == today.day_key
                &&& subscriber.year == today.year && subscriber.month == today.month
                    && subscriber.day == today.day
                &&& subscriber.date_millis == today.epoch_millis && subscriber.subscribers
                    == spec_subscriber_count(details)
            }))
        }),
{
    let description = match &details.snippet.description {
        Some(d) => d.clone(),
        None => String::new(),
    };

    let sailing_term_result = service.has_sailing_term(
        channel_id,
        details.snippet.title.as_str(),
        description.as_str(),
        ignore_sailing_terms,
    );

    if sailing_term_result.is_blacklisted {
        return ChannelScrapePlan::Delete;
    }

    let view_count: i64 = match parse_i64(details.statistics.view_count.as_str()) {
        Some(v) => v,
        None => 0,
    };

    if !sailing_term_result.has_sailing_term || view_count == 0 {
        return ChannelScrapePlan::Skip;
    }

    let subscriber_count: i64 = match &details.statistics.subscriber_count {
        Some(s) => match parse_i64(s.as_str()) {
            Some(v) => v,
            None => {
                return ChannelScrapePlan::Fail(CrawlError::ParseError);
            },
        },
        None => 0,
    };

    let published_at: i64 = match parse_rfc3339_epoch_seconds(
        details.snippet.published_at.as_str(),
    ) {
        Some(t) => t,
        None => {
            return ChannelScrapePlan::Fail(CrawlError::ParseError);
        },
    };

    let country: Option<String> = match &details.snippet.country {
        Some(c) => Some(to_lowercase(c.as_str())),
        None => None,
    };

    let keyword_source = match &details.branding_settings.channel.keywords {
        Some(k) => k.clone(),
        None => String::new(),
    };
    let parsed_keywords = parse_keywords(keyword_source.as_str());
    let keywords: Option<Vec<String>> = if parsed_keywords.len() > 0 {
        Some(parsed_keywords)
    } else {
        None
    };

    let language = detect_channel_language(language_already_detected, description.as_str());

    let channel = ChannelRecord {
        id: channel_id.to_owned(),
        title: details.snippet.title.clone(),
        description,
        published_at,
        thumbnail: details.snippet.thumbnails.default.url.clone(),
        subscribers: subscriber_count,
        views: view_count,
        subscribers_hidden: details.statistics.hidden_subscriber_count,
        last_crawl: now,
        country,
        keywords,
        language,
    };

    ChannelScrapePlan::Persist {
        channel,
        view_key: SnapshotKey { channel: channel_id.to_owned(), date_key: today.day_key },
        view: ViewSnapshot {
            year: today.year,
            month: today.month,
            day: today.day,
            date_millis: today.epoch_millis,
            views: view_count,
        },
        subscriber_key: SnapshotKey { channel: channel_id.to_owned(), date_key: today.day_key },
        subscriber: SubscriberSnapshot {
            year: today.year,
            month: today.month,
            day: today.day,
            date_millis: today.epoch_millis,
            subscribers: subscriber_count,
        },
    }
}

} // verus!
