//! The crawlers' per-cycle decisions: which candidates become commands on the
//! work queues, and when the discovery sweep is due. The loops themselves —
//! sleeping, querying the store, sending — belong to the embedding program;
//! everything they decide is verified here.
use vstd::prelude::*;

use crate::sailing_terms::{spec_is_relevant, spec_records_negative, SailingTermsService};
use crate::staleness::{ONE_DAY_IN_SECONDS, ONE_WEEK_IN_SECONDS, TIMESTAMP_BOUND};
use crate::youtube_channel_subscriptions::YouTubeChannelSubscriptionSnippet;

verus! {

/// An order to scrape one channel, with the curator's override flag.
pub struct CrawlChannelCommand {
    pub channel_id: String,
    pub ignore_sailing_terms: bool,
}

/// An order to refresh one channel's videos.
pub struct CrawlVideosCommand {
    pub channel_id: String,
}

/// One row of the operator-curated allow list.
pub struct AdditionalChannelEntry {
    pub channel_id: String,
    pub ignore_sailing_terms: bool,
}

/// The commands the supplemental crawler emits: one per allow-list entry,
/// carrying the entry's own override flag.
pub fn additional_channel_commands(entries: Vec<AdditionalChannelEntry>) -> (commands: Vec<
    CrawlChannelCommand,
>)
    ensures
        commands@.len() == entries@.len(),
        forall|k: int|
            0 <= k < entries@.len() ==> (#[trigger] commands@[k]).channel_id == entries@[k].channel_id
                && commands@[k].ignore_sailing_terms == entries@[k].ignore_sailing_terms,
{
    let ghost all = entries@;
    let mut entries = entries;
    let mut commands: Vec<CrawlChannelCommand> = Vec::new();
    while entries.len() > 0
        invariant
            all == commands@.map_values(
                |c: CrawlChannelCommand|
                    AdditionalChannelEntry {
                        channel_id: c.channel_id,
                        ignore_sailing_terms: c.ignore_sailing_terms,
                    },
            ) + entries@,
        decreases entries@.len(),
    {
        let entry = entries.remove(0);
        commands.push(
            CrawlChannelCommand {
                channel_id: entry.channel_id,
                ignore_sailing_terms: entry.ignore_sailing_terms,
            },
        );
        proof {
            assert(all =~= commands@.map_values(
                |c: CrawlChannelCommand|
                    AdditionalChannelEntry {
                        channel_id: c.channel_id,
                        ignore_sailing_terms: c.ignore_sailing_terms,
                    },
            ) + entries@);
        }
    }
    proof {
        assert(all =~= commands@.map_values(
            |c: CrawlChannelCommand|
                AdditionalChannelEntry {
                    channel_id: c.channel_id,
                    ignore_sailing_terms: c.ignore_sailing_terms,
                },
        ));
    }
    commands
}

/// The commands the update crawler emits: one per known channel id, never
/// overriding the relevance filter.
pub fn update_channel_commands(channel_ids: Vec<String>) -> (commands: Vec<CrawlChannelCommand>)
    ensures
        commands@.len() == channel_ids@.len(),
        forall|k: int|
            0 <= k < channel_ids@.len() ==> (#[trigger] commands@[k]).channel_id == channel_ids@[k]
                && !commands@[k].ignore_sailing_terms,
{
    let ghost all = channel_ids@;
    let mut channel_ids = channel_ids;
    let mut commands: Vec<CrawlChannelCommand> = Vec::new();
    while channel_ids.len() > 0
        invariant
            all == commands@.map_values(|c: CrawlChannelCommand| c.channel_id) + channel_ids@,
            forall|k: int| 0 <= k < commands@.len() ==> !(#[trigger] commands@[k]).ignore_sailing_terms,
        decreases channel_ids@.len(),
    {
        let channel_id = channel_ids.remove(0);
        commands.push(CrawlChannelCommand { channel_id, ignore_sailing_terms: false });
        proof {
            assert(all =~= commands@.map_values(|c: CrawlChannelCommand| c.channel_id)
                + channel_ids@);
        }
    }
    proof {
        assert(all =~= commands@.map_values(|c: CrawlChannelCommand| c.channel_id));
    }
    commands
}

/// The commands the new-item crawler emits: one video refresh per known
/// channel id.
pub fn new_video_commands(channel_ids: Vec<String>) -> (commands: Vec<CrawlVideosCommand>)
    ensures
        commands@.len() == channel_ids@.len(),
        forall|k: int|
            0 <= k < channel_ids@.len() ==> (#[trigger] commands@[k]).channel_id == channel_ids@[k],
{
    let ghost all = channel_ids@;
    let mut channel_ids = channel_ids;
    let mut commands: Vec<CrawlVideosCommand> = Vec::new();
    while channel_ids.len() > 0
        invariant
            all == commands@.map_values(|c: CrawlVideosCommand| c.channel_id) + channel_ids@,
        decreases channel_ids@.len(),
    {
        let channel_id = channel_ids.remove(0);
        commands.push(CrawlVideosCommand { channel_id });
        proof {
            assert(all =~= commands@.map_values(|c: CrawlVideosCommand| c.channel_id)
                + channel_ids@);
        }
    }
    proof {
        assert(all =~= commands@.map_values(|c: CrawlVideosCommand| c.channel_id));
    }
    commands
}

/// Whether a discovery sweep is due: at least a day has passed since the last
/// recorded sweep, and a missing watermark counts as long past due.
pub fn should_crawl(last_discovery_crawl: Option<i64>, now: i64) -> (due: bool)
    requires
        -TIMESTAMP_BOUND <= now <= TIMESTAMP_BOUND,
        last_discovery_crawl is Some ==> -TIMESTAMP_BOUND <= last_discovery_crawl.unwrap()
            <= TIMESTAMP_BOUND,
    ensures
        due == match last_discovery_crawl {
            None => true,
            Some(last) => now - last >= ONE_DAY_IN_SECONDS as int,
        },
{
    match last_discovery_crawl {
        None => true,
        Some(last) => now - last >= ONE_DAY_IN_SECONDS,
    }
}

/// A subscribed channel is newly discovered when it is neither already known
/// nor on the operator's allow list.
pub fn is_channel_newly_discovered(channel_exists: bool, additional_exists: bool) -> (newly: bool)
    ensures
        newly == (!channel_exists && !additional_exists),
{
    !channel_exists && !additional_exists
}

/// The cutoffs the update crawler queries with: channels last crawled more
/// than a day ago, among those that uploaded within the last 52 weeks.
pub fn update_crawl_cutoffs(now: i64) -> (cutoffs: (i64, i64))
    requires
        -TIMESTAMP_BOUND <= now <= TIMESTAMP_BOUND,
    ensures
        cutoffs.0 == now - ONE_DAY_IN_SECONDS as int,
        cutoffs.1 == now - 52 * (ONE_WEEK_IN_SECONDS as int),
{
    (now - ONE_DAY_IN_SECONDS, now - 52 * ONE_WEEK_IN_SECONDS)
}

/// Decide one subscribed channel during a discovery sweep: classify it (which
/// may record a negative-cache entry), and emit a crawl command exactly when
/// the channel is newly discovered, is not negatively cached afterwards, and
/// matched a term.
pub fn discovery_command(
    service: &mut SailingTermsService,
    snippet: &YouTubeChannelSubscriptionSnippet,
    channel_exists: bool,
    additional_exists: bool,
) -> (command: Option<CrawlChannelCommand>)
    ensures
        final(service).sailing_terms == old(service).sailing_terms,
        final(service).blacklisted_channel_ids == old(service).blacklisted_channel_ids,
        final(service).non_sailing_channel_ids.deep_view() == if spec_records_negative(
            old(service).sailing_terms.deep_view(),
            snippet.title@,
            snippet.description@,
            false,
        ) {
            old(service).non_sailing_channel_ids.deep_view().push(snippet.resource_id.channel_id@)
        } else {
            old(service).non_sailing_channel_ids.deep_view()
        },
        ({
            let relevant = spec_is_relevant(
                old(service).sailing_terms.deep_view(),
                old(service).blacklisted_channel_ids.deep_view(),
                snippet.resource_id.channel_id@,
                snippet.title@,
                snippet.description@,
                false,
            );
            let cached = final(service).non_sailing_channel_ids.deep_view().contains(
                snippet.resource_id.channel_id@,
            );
            let emit = !channel_exists && !additional_exists && !cached && relevant;
            match command {
                Some(cmd) => emit && cmd.channel_id@ == snippet.resource_id.channel_id@
                    && !cmd.ignore_sailing_terms,
                None => !emit,
            }
        }),
{
    let sub_channel_id = &snippet.resource_id.channel_id;

    let sailing_terms_result = service.has_sailing_term(
        sub_channel_id.as_str(),
        snippet.title.as_str(),
        snippet.description.as_str(),
        false,
    );

    let is_newly_discovered = is_channel_newly_discovered(channel_exists, additional_exists);
    let is_not_non_sailing_channel = service.is_not_listed_as_non_sailing_channel(
        sub_channel_id.as_str(),
    );

    if is_newly_discovered && is_not_non_sailing_channel && sailing_terms_result.has_sailing_term {
        Some(
            CrawlChannelCommand {
                channel_id: sub_channel_id.clone(),
                ignore_sailing_terms: false,
            },
        )
    } else {
        None
    }
}

} // verus!
