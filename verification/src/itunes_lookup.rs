//! The catalog's answer to a lookup.
use vstd::prelude::*;
use crate::channel_core::{ChannelCore, ChannelCoreView};
use crate::itunes_channel::{core_views, cores_of, summaries, ItunesChannel};
use crate::request::{add_pair, HttpGet, HttpGetView};
use crate::state::{action_views, StateAction, StateActionView};
use crate::state_error::StateErrorView;
use crate::text::{decimal_isize, decimal_text};

verus! {

/// What a lookup found.
#[derive(Debug)]
pub struct ItunesLookup {
    pub results: Vec<ItunesChannel>,
}

/// What a list of records writes into the store: the summary of each.
pub open spec fn summary_actions(records: Seq<ItunesChannel>) -> Seq<StateActionView> {
    records.map_values(
        |record: ItunesChannel|
            StateActionView::SetChannelCore(
                record.key(),
                Ok::<ChannelCoreView, StateErrorView>(record.summary()),
            ),
    )
}

/// Adds to `actions` the write of the summary of each of `records`.
pub(crate) fn add_summaries(actions: &mut Vec<StateAction>, records: &Vec<ItunesChannel>)
    ensures
        action_views(final(actions)@) == action_views(old(actions)@) + summary_actions(records@),
{
    let ghost head = action_views(actions@);
    let mut i: usize = 0;
    while i < records.len()
        invariant
            i <= records@.len(),
            action_views(actions@) == head + summary_actions(records@.take(i as int)),
        decreases records@.len() - i,
    {
        let ghost before = action_views(actions@);
        actions.push(records[i].to_channel_core().build());
        assert(action_views(actions@) =~= before.push(
            StateActionView::SetChannelCore(
                records@[i as int].key(),
                Ok::<ChannelCoreView, StateErrorView>(records@[i as int].summary()),
            ),
        ));
        assert(summary_actions(records@.take(i + 1)) =~= summary_actions(
            records@.take(i as int),
        ).push(
            StateActionView::SetChannelCore(
                records@[i as int].key(),
                Ok::<ChannelCoreView, StateErrorView>(records@[i as int].summary()),
            ),
        ));
        i += 1;
    }
    assert(records@.take(records@.len() as int) =~= records@);
}

impl ItunesLookup {
    /// The request for the channel with the id `id`.
    pub fn request(id: isize) -> (request: HttpGet)
        ensures
            request@ == (HttpGetView {
                query: seq![("id"@, decimal_text(id as int))],
                ..HttpGetView::plain("https://itunes.apple.com/lookup"@)
            }),
    {
        let mut request = HttpGet::plain(String::from_str("https://itunes.apple.com/lookup"));
        let mut query: Vec<(String, String)> = Vec::new();
        add_pair(&mut query, "id", decimal_isize(id));
        assert(crate::request::pair_texts(query@) =~= seq![("id"@, decimal_text(id as int))]);
        request.query = query;
        request
    }

    /// The summaries of the channels found, in their order.
    pub fn cores(&self) -> (cores: Vec<ChannelCore>)
        ensures
            core_views(cores@) == summaries(self.results@),
    {
        cores_of(&self.results)
    }

    /// What the lookup writes into the store: the summary of each channel.
    pub fn to_actions(&self) -> (actions: Vec<StateAction>)
        ensures
            action_views(actions@) == summary_actions(self.results@),
    {
        let mut actions: Vec<StateAction> = Vec::new();
        assert(action_views(actions@) =~= Seq::empty());
        add_summaries(&mut actions, &self.results);
        actions
    }
}

} // verus!
