//! The typed client's decisions: which item a channel-details response yields,
//! and which subscription items a page contributes. The HTTP calls, the
//! pagination loop's awaiting, and the key handling around them belong to the
//! embedding program.
use vstd::prelude::*;

use crate::errors::CrawlError;
use crate::text::str_eq;
use crate::youtube_channel_details::YoutubeStatisticsItem;
use crate::youtube_channel_subscriptions::{Item, YouTubeChannelSubscriptionSnippet};

verus! {

/// The item a channel-details response settles on: its first one. A response
/// with no items means the channel is absent upstream.
pub fn first_statistics_item(items: Option<Vec<YoutubeStatisticsItem>>) -> (selected: Result<
    YoutubeStatisticsItem,
    CrawlError,
>)
    ensures
        match selected {
            Ok(item) => items matches Some(list) && list@.len() > 0 && item == list@[0],
            Err(e) => e == CrawlError::NotFound && match items {
                Some(list) => list@.len() == 0,
                None => true,
            },
        },
{
    match items {
        Some(mut list) => {
            if list.len() > 0 {
                Ok(list.remove(0))
            } else {
                Err(CrawlError::NotFound)
            }
        },
        None => Err(CrawlError::NotFound),
    }
}

/// Whether a subscription item points at a channel-type resource.
pub open spec fn spec_is_channel_item(item: Item) -> bool {
    item.snippet.resource_id.kind@ == "youtube#channel"@
}

/// The snippets one subscription page contributes: those of its channel-type
/// items, in page order.
pub fn filter_channel_subscriptions(items: Vec<Item>) -> (snippets: Vec<
    YouTubeChannelSubscriptionSnippet,
>)
    ensures
        snippets@ == items@.filter(|item: Item| spec_is_channel_item(item)).map_values(
            |item: Item| item.snippet,
        ),
{
    let ghost all = items@;
    let ghost keep = |item: Item| spec_is_channel_item(item);
    let mut items = items;
    let mut snippets: Vec<YouTubeChannelSubscriptionSnippet> = Vec::new();
    let ghost mut seen: Seq<Item> = Seq::empty();
    proof {
        assert(seen.filter(keep) =~= Seq::<Item>::empty());
        assert(snippets@ =~= seen.filter(keep).map_values(|item: Item| item.snippet));
        assert(all =~= seen + items@);
    }
    while items.len() > 0
        invariant
            keep == (|item: Item| spec_is_channel_item(item)),
            all == seen + items@,
            snippets@ == seen.filter(keep).map_values(|item: Item| item.snippet),
        decreases items@.len(),
    {
        let ghost seen_before = seen;
        let item = items.remove(0);
        let is_channel = str_eq(item.snippet.resource_id.kind.as_str(), "youtube#channel");
        proof {
            seen = seen.push(item);
            reveal(Seq::filter);
            assert(seen.drop_last() =~= seen_before);
            assert(seen.last() == item);
            assert(all =~= seen + items@);
        }
        if is_channel {
            snippets.push(item.snippet);
            proof {
                assert(seen.filter(keep) =~= seen_before.filter(keep).push(seen.last()));
                assert(snippets@ =~= seen.filter(keep).map_values(|it: Item| it.snippet));
            }
        } else {
            proof {
                assert(seen.filter(keep) =~= seen_before.filter(keep));
            }
        }
    }
    proof {
        assert(seen =~= all);
    }
    snippets
}

} // verus!
