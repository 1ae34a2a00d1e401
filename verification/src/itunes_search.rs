//! The catalog's answer to a search.
use vstd::prelude::*;
use crate::channel_core::ChannelCore;
use crate::itunes_channel::{core_views, cores_of, record_keys, summaries, ItunesChannel};
use crate::itunes_lookup::{add_summaries, summary_actions};
use crate::request::{add_pair, pair_texts, HttpGet, HttpGetView};
use crate::state::{action_views, StateAction, StateActionView};
use crate::text::{decimal_text, decimal_usize, texts};

verus! {

/// What a search found, with the query that was searched for.
#[derive(Debug)]
pub struct ItunesSearch {
    pub results: Vec<ItunesChannel>,
    pub search_query: String,
}

/// The most channels that a search is asked for.
pub const SEARCH_LIMIT: usize = 200;

/// The records that name a feed.
pub open spec fn with_feed(records: Seq<ItunesChannel>) -> Seq<ItunesChannel> {
    records.filter(|record: ItunesChannel| record.rss@.len() > 0)
}

impl ItunesSearch {
    /// The pairs of the query string of a search.
    pub open spec fn query_pairs(
        country: Seq<char>,
        explicit: bool,
        count: usize,
        query: Seq<char>,
    ) -> Seq<(Seq<char>, Seq<char>)> {
        seq![
            ("term"@, query),
            ("country"@, country),
            (
                "count"@,
                decimal_text(
                    if count < SEARCH_LIMIT {
                        count as int
                    } else {
                        SEARCH_LIMIT as int
                    },
                ),
            ),
            ("media"@, "podcast"@),
            ("explicit"@, if explicit {
                "Yes"@
            } else {
                "No"@
            }),
        ]
    }

    /// The request for the podcasts that match `query` in the catalog of
    /// `country`, `count` of them and 200 at most.
    pub fn request(country: &str, explicit: bool, count: usize, query: &str) -> (request: HttpGet)
        ensures
            request@ == (HttpGetView {
                query: Self::query_pairs(country@, explicit, count, query@),
                ..HttpGetView::plain("https://itunes.apple.com/search"@)
            }),
    {
        let asked: usize = if count < SEARCH_LIMIT {
            count
        } else {
            SEARCH_LIMIT
        };
        let mut pairs: Vec<(String, String)> = Vec::new();
        assert(pair_texts(pairs@) =~= Seq::empty());
        add_pair(&mut pairs, "term", query.to_owned());
        add_pair(&mut pairs, "country", country.to_owned());
        add_pair(&mut pairs, "count", decimal_usize(asked));
        add_pair(&mut pairs, "media", String::from_str("podcast"));
        add_pair(
            &mut pairs,
            "explicit",
            String::from_str(
                if explicit {
                    "Yes"
                } else {
                    "No"
                },
            ),
        );
        assert(pair_texts(pairs@) =~= Self::query_pairs(country@, explicit, count, query@));
        let mut request = HttpGet::plain(String::from_str("https://itunes.apple.com/search"));
        request.query = pairs;
        request
    }

    /// What is kept of the catalog's answer to the search for `query`: the
    /// channels that name a feed, in their order, under that query.
    pub fn accept(answer: ItunesSearch, query: &str) -> (kept: ItunesSearch)
        ensures
            kept.results@ == with_feed(answer.results@),
            kept.search_query@ == query@,
    {
        let ghost all = answer.results@;
        let mut results: Vec<ItunesChannel> = Vec::new();
        assert(with_feed(all.take(0)) =~= results@) by {
            assert(all.take(0) =~= Seq::empty());
        }
        for record in it: answer.results.into_iter()
            invariant
                it.seq() == all,
                results@ == with_feed(all.take(it.index() as int)),
        {
            proof {
                let done = it.index() as int;
                assert(all.take(done + 1).drop_last() =~= all.take(done));
                assert(all.take(done + 1).last() == record);
                reveal(Seq::filter);
            }
            if !record.rss.as_str().is_empty() {
                results.push(record);
            }
        }
        assert(all.take(all.len() as int) =~= all);
        ItunesSearch { results, search_query: query.to_owned() }
    }

    /// What the search writes into the store: the keys of the channels as
    /// the results of the search for its query, then the summary of each
    /// channel.
    pub open spec fn actions(&self) -> Seq<StateActionView> {
        seq![
            StateActionView::SetSearchFeed {
                query: self.search_query@,
                results: Ok(record_keys(self.results@)),
            },
        ] + summary_actions(self.results@)
    }

    /// The keys of the channels found, in their order.
    pub fn results(&self) -> (keys: Vec<String>)
        ensures
            texts(keys@) == record_keys(self.results@),
    {
        let mut keys: Vec<String> = Vec::new();
        let mut i: usize = 0;
        while i < self.results.len()
            invariant
                i <= self.results@.len(),
                keys@.len() == i,
                forall|j: int| 0 <= j < i ==> (#[trigger] keys@[j])@ == self.results@[j].key(),
            decreases self.results@.len() - i,
        {
            keys.push(crate::text::decimal_i64(self.results[i].pk));
            i += 1;
        }
        assert(texts(keys@) =~= record_keys(self.results@));
        keys
    }

    /// The summaries of the channels found, in their order.
    pub fn cores(&self) -> (cores: Vec<ChannelCore>)
        ensures
            core_views(cores@) == summaries(self.results@),
    {
        cores_of(&self.results)
    }

    /// What the search writes into the store: the keys of the channels as
    /// the results of the search for its query, then the summary of each
    /// channel.
    pub fn to_actions(&self) -> (actions: Vec<StateAction>)
        ensures
            action_views(actions@) == self.actions(),
    {
        let mut actions: Vec<StateAction> = Vec::new();
        actions.push(
            StateAction::SetSearchFeed {
                query: self.search_query.clone(),
                results: Ok(self.results()),
            },
        );
        assert(action_views(actions@) =~= seq![
            StateActionView::SetSearchFeed {
                query: self.search_query@,
                results: Ok(record_keys(self.results@)),
            },
        ]);
        add_summaries(&mut actions, &self.results);
        actions
    }
}

} // verus!
