//! Relevance classification: whether a channel's text matches the curated term
//! list, with a blacklist override and a negative-result cache. The term list,
//! the blacklist and the cache are loaded once per worker lifetime; the cache
//! records channels already classified as not relevant, so that discovery need
//! not re-run classification for them.
use vstd::prelude::*;

use crate::text::{contains_str, lower_of, spec_text_matches, to_lowercase, vec_contains_string};

verus! {

/// The outcome of one classification.
pub struct SailingTermResult {
    pub has_sailing_term: bool,
    pub is_blacklisted: bool,
}

/// Some configured term occurs, case-insensitively, in the title or the
/// description.
pub open spec fn spec_term_match(
    terms: Seq<Seq<char>>,
    title: Seq<char>,
    description: Seq<char>,
) -> bool {
    exists|k: int|
        0 <= k < terms.len() && (spec_text_matches(title, terms[k]) || spec_text_matches(
            description,
            terms[k],
        ))
}

/// Whether the channel is classified as relevant: the blacklist overrides
/// everything; otherwise a curator's override (`ignore_filter`) or a term
/// match decides.
pub open spec fn spec_is_relevant(
    terms: Seq<Seq<char>>,
    blacklist: Seq<Seq<char>>,
    channel_id: Seq<char>,
    title: Seq<char>,
    description: Seq<char>,
    ignore_filter: bool,
) -> bool {
    !blacklist.contains(channel_id) && (ignore_filter || spec_term_match(
        terms,
        title,
        description,
    ))
}

/// A negative-cache entry is recorded exactly when no term matched and no
/// curator's override was given — whether or not the channel is blacklisted.
pub open spec fn spec_records_negative(
    terms: Seq<Seq<char>>,
    title: Seq<char>,
    description: Seq<char>,
    ignore_filter: bool,
) -> bool {
    !spec_term_match(terms, title, description) && !ignore_filter
}

/// Blacklist precedence: a blacklisted channel is never classified as
/// relevant, whatever the text and whatever the override flag say.
pub proof fn lemma_blacklist_precedence(
    terms: Seq<Seq<char>>,
    blacklist: Seq<Seq<char>>,
    channel_id: Seq<char>,
    title: Seq<char>,
    description: Seq<char>,
    ignore_filter: bool,
)
    requires
        blacklist.contains(channel_id),
    ensures
        !spec_is_relevant(terms, blacklist, channel_id, title, description, ignore_filter),
{
}

/// The classifier: the configured term list, the blacklist, and the negative
/// cache of channels already found not relevant.
pub struct SailingTermsService {
    pub sailing_terms: Vec<String>,
    pub blacklisted_channel_ids: Vec<String>,
    pub non_sailing_channel_ids: Vec<String>,
}

impl SailingTermsService {
    /// A classifier over the given term list, blacklist and negative cache.
    pub fn new(
        sailing_terms: Vec<String>,
        blacklisted_channel_ids: Vec<String>,
        non_sailing_channel_ids: Vec<String>,
    ) -> (service: SailingTermsService)
        ensures
            service.sailing_terms == sailing_terms,
            service.blacklisted_channel_ids == blacklisted_channel_ids,
            service.non_sailing_channel_ids == non_sailing_channel_ids,
    {
        SailingTermsService { sailing_terms, blacklisted_channel_ids, non_sailing_channel_ids }
    }

    /// The channel has not been negatively cached: discovery may still
    /// consider it.
    pub fn is_not_listed_as_non_sailing_channel(&self, channel_id: &str) -> (fresh: bool)
        ensures
            fresh == !self.non_sailing_channel_ids.deep_view().contains(channel_id@),
    {
        !vec_contains_string(&self.non_sailing_channel_ids, channel_id)
    }

    /// Classify one channel. The result says whether its text matches a term
    /// (or a curator's override forces relevance) and whether the blacklist
    /// overrides that; when no term matched and no override was given, the
    /// channel is added to the negative cache.
    pub fn has_sailing_term(
        &mut self,
        channel_id: &str,
        channel_title: &str,
        channel_description: &str,
        ignore_sailing_terms: bool,
    ) -> (result: SailingTermResult)
        ensures
            result.is_blacklisted == old(self).blacklisted_channel_ids.deep_view().contains(
                channel_id@,
            ),
            result.has_sailing_term == spec_is_relevant(
                old(self).sailing_terms.deep_view(),
                old(self).blacklisted_channel_ids.deep_view(),
                channel_id@,
                channel_title@,
                channel_description@,
                ignore_sailing_terms,
            ),
            final(self).sailing_terms == old(self).sailing_terms,
            final(self).blacklisted_channel_ids == old(self).blacklisted_channel_ids,
            final(self).non_sailing_channel_ids.deep_view() == if spec_records_negative(
                old(self).sailing_terms.deep_view(),
                channel_title@,
                channel_description@,
                ignore_sailing_terms,
            ) {
                old(self).non_sailing_channel_ids.deep_view().push(channel_id@)
            } else {
                old(self).non_sailing_channel_ids.deep_view()
            },
    {
        let mut has_sailing_term = false;
        let mut is_blacklisted = false;

        let title_lower = to_lowercase(channel_title);
        let description_lower = to_lowercase(channel_description);

        let mut k: usize = 0;
        while k < self.sailing_terms.len() && !has_sailing_term
            invariant
                0 <= k <= self.sailing_terms@.len(),
                title_lower@ == lower_of(channel_title@),
                description_lower@ == lower_of(channel_description@),
                !has_sailing_term ==> forall|j: int|
                    0 <= j < k ==> !(#[trigger] spec_text_matches(
                        channel_title@,
                        self.sailing_terms.deep_view()[j],
                    ) || spec_text_matches(
                        channel_description@,
                        self.sailing_terms.deep_view()[j],
                    )),
                has_sailing_term ==> spec_term_match(
                    self.sailing_terms.deep_view(),
                    channel_title@,
                    channel_description@,
                ),
            decreases (if has_sailing_term { 0int } else { 1int }), self.sailing_terms@.len() - k,
        {
            let term = &self.sailing_terms[k];
            assert(term@ == self.sailing_terms.deep_view()[k as int]);
            let in_title = contains_str(title_lower.as_str(), term.as_str());
            let in_description = contains_str(description_lower.as_str(), term.as_str());
            if in_title || in_description {
                has_sailing_term = true;
                assert(spec_text_matches(channel_title@, self.sailing_terms.deep_view()[k as int])
                    || spec_text_matches(
                    channel_description@,
                    self.sailing_terms.deep_view()[k as int],
                ));
            } else {
                assert(!spec_text_matches(
                    channel_title@,
                    self.sailing_terms.deep_view()[k as int],
                ));
                assert(!spec_text_matches(
                    channel_description@,
                    self.sailing_terms.deep_view()[k as int],
                ));
                k = k + 1;
            }
        }

        let ghost term_match = spec_term_match(
            self.sailing_terms.deep_view(),
            channel_title@,
            channel_description@,
        );
        proof {
            if !has_sailing_term {
                assert(forall|j: int|
                    0 <= j < self.sailing_terms.deep_view().len() ==> !(
                    #[trigger] spec_text_matches(
                        channel_title@,
                        self.sailing_terms.deep_view()[j],
                    ) || spec_text_matches(
                        channel_description@,
                        self.sailing_terms.deep_view()[j],
                    )));
            }
            assert(has_sailing_term == term_match);
        }

        if !has_sailing_term && !ignore_sailing_terms {
            let mut cached_id = String::new();
            cached_id.append(channel_id);
            self.non_sailing_channel_ids.push(cached_id);
        }

        if ignore_sailing_terms {
            has_sailing_term = true;
        }

        if vec_contains_string(&self.blacklisted_channel_ids, channel_id) {
            has_sailing_term = false;
            is_blacklisted = true;
        }

        SailingTermResult { has_sailing_term, is_blacklisted }
    }
}

} // verus!
