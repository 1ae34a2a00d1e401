//! A channel as the catalog's search and lookup describe it.
use vstd::prelude::*;
use crate::channel_core::{ChannelCore, ChannelCoreView};
use crate::text::{decimal_i64, decimal_text};

verus! {

/// One channel of a search or a lookup. A field that the catalog left out
/// is empty, or zero.
#[derive(Debug)]
pub struct ItunesChannel {
    pub pk: i64,
    pub title: String,
    pub author: String,
    pub image_600: String,
    pub rss: String,
}

impl ItunesChannel {
    /// The key of the channel: its id in decimal.
    pub open spec fn key(&self) -> Seq<char> {
        decimal_text(self.pk as int)
    }

    /// The summary that the record stands for.
    pub open spec fn summary(&self) -> ChannelCoreView {
        ChannelCoreView {
            pk: self.key(),
            title: self.title@,
            author: self.author@,
            image_200: None,
            image_600: Some(self.image_600@),
            image_rss: None,
            rss: Some(self.rss@),
        }
    }

    /// The summary that the record stands for: key, title, author, the 600
    /// pixel image and the feed.
    pub fn to_channel_core(&self) -> (core: ChannelCore)
        ensures
            core@ == self.summary(),
    {
        ChannelCore::default().with_pk(decimal_i64(self.pk)).with_title(
            self.title.clone(),
        ).with_author(self.author.clone()).with_image_600(self.image_600.clone()).with_rss(
            self.rss.clone(),
        )
    }
}

/// The summaries that a list of records stands for.
pub open spec fn summaries(records: Seq<ItunesChannel>) -> Seq<ChannelCoreView> {
    records.map_values(|record: ItunesChannel| record.summary())
}

/// The keys of a list of records.
pub open spec fn record_keys(records: Seq<ItunesChannel>) -> Seq<Seq<char>> {
    records.map_values(|record: ItunesChannel| record.key())
}

/// The mathematical values of a list of summaries.
pub open spec fn core_views(cores: Seq<ChannelCore>) -> Seq<ChannelCoreView> {
    cores.map_values(|core: ChannelCore| core@)
}

/// The summaries that the records stand for, in their order.
pub(crate) fn cores_of(records: &Vec<ItunesChannel>) -> (cores: Vec<ChannelCore>)
    ensures
        core_views(cores@) == summaries(records@),
{
    let mut cores: Vec<ChannelCore> = Vec::new();
    let mut i: usize = 0;
    while i < records.len()
        invariant
            i <= records@.len(),
            cores@.len() == i,
            forall|j: int| 0 <= j < i ==> (#[trigger] cores@[j])@ == records@[j].summary(),
        decreases records@.len() - i,
    {
        cores.push(records[i].to_channel_core());
        i += 1;
    }
    assert(core_views(cores@) =~= summaries(records@));
    cores
}

} // verus!
