//! The catalog's chart.
use vstd::prelude::*;
use crate::channel_core::{ChannelCore, ChannelCoreView};
use crate::itunes_channel::core_views;
use crate::request::{HttpGet, HttpGetView};
use crate::state::{action_views, StateAction, StateActionView};
use crate::state_error::StateErrorView;
use crate::text::{decimal_text, decimal_usize, texts};

verus! {

/// One channel of the chart.
#[derive(Debug)]
pub struct ItunesChartItem {
    pub pk: String,
    pub title: String,
    pub author: String,
    /// Actually 200x200, whatever the catalog calls the field.
    pub image_200: String,
}

impl ItunesChartItem {
    /// The summary that the item stands for.
    pub open spec fn summary(&self) -> ChannelCoreView {
        ChannelCoreView {
            pk: self.pk@,
            title: self.title@,
            author: self.author@,
            image_200: Some(self.image_200@),
            image_600: None,
            image_rss: None,
            rss: None,
        }
    }

    /// The summary that the item stands for: key, title, author and the
    /// 200 pixel image.
    pub fn to_channel_core(&self) -> (core: ChannelCore)
        ensures
            core@ == self.summary(),
    {
        ChannelCore::default().with_pk(self.pk.clone()).with_title(self.title.clone()).with_author(
            self.author.clone(),
        ).with_image_200(self.image_200.clone())
    }
}

/// The items of the chart.
#[derive(Debug)]
pub struct ItunesChartFeed {
    pub results: Vec<ItunesChartItem>,
}

/// The chart as the catalog sends it.
#[derive(Debug)]
pub struct ItunesChart {
    pub feed: ItunesChartFeed,
}

/// The most channels that the chart is asked for.
pub const CHART_LIMIT: usize = 100;

impl ItunesChart {
    /// The path of the chart of `count` channels, 100 at most, for
    /// `country`.
    pub open spec fn path(country: Seq<char>, explicit: bool, count: usize) -> Seq<char> {
        "/api/v1/"@ + country + "/podcasts/top-podcasts/all/"@ + decimal_text(
            if count < CHART_LIMIT {
                count as int
            } else {
                CHART_LIMIT as int
            },
        ) + "/"@ + (if explicit {
            "explicit"@
        } else {
            "non-explicit"@
        }) + ".json"@
    }

    /// The request for the chart of `count` channels, 100 at most, for
    /// `country`.
    pub fn request(country: &str, explicit: bool, count: usize) -> (request: HttpGet)
        ensures
            request@ == (HttpGetView {
                path: Some(Self::path(country@, explicit, count)),
                ..HttpGetView::plain("https://rss.itunes.apple.com/"@)
            }),
    {
        let asked: usize = if count < CHART_LIMIT {
            count
        } else {
            CHART_LIMIT
        };
        let path = String::from_str("/api/v1/").concat(country).concat(
            "/podcasts/top-podcasts/all/",
        ).concat(decimal_usize(asked).as_str()).concat("/").concat(
            if explicit {
                "explicit"
            } else {
                "non-explicit"
            },
        ).concat(".json");
        let mut request = HttpGet::plain(String::from_str("https://rss.itunes.apple.com/"));
        request.path = Some(path);
        request
    }

    /// The keys of the chart's channels, in the chart's order.
    pub open spec fn keys(&self) -> Seq<Seq<char>> {
        self.feed.results@.map_values(|item: ItunesChartItem| item.pk@)
    }

    /// The summaries of the chart's channels, in the chart's order.
    pub open spec fn summaries(&self) -> Seq<ChannelCoreView> {
        self.feed.results@.map_values(|item: ItunesChartItem| item.summary())
    }

    /// What the chart writes into the store: the chart as the results of
    /// the empty search, then the summary of each channel.
    pub open spec fn actions(&self) -> Seq<StateActionView> {
        seq![
            StateActionView::SetSearchFeed { query: Seq::empty(), results: Ok(self.keys()) },
        ] + item_actions(self.feed.results@)
    }

    /// The keys of the chart's channels, in the chart's order.
    pub fn results(&self) -> (keys: Vec<String>)
        ensures
            texts(keys@) == self.keys(),
    {
        let mut keys: Vec<String> = Vec::new();
        let mut i: usize = 0;
        while i < self.feed.results.len()
            invariant
                i <= self.feed.results@.len(),
                keys@.len() == i,
                forall|j: int| 0 <= j < i ==> (#[trigger] keys@[j])@ == self.feed.results@[j].pk@,
            decreases self.feed.results@.len() - i,
        {
            keys.push(self.feed.results[i].pk.clone());
            i += 1;
        }
        assert(texts(keys@) =~= self.keys());
        keys
    }

    /// The summaries of the chart's channels, in the chart's order.
    pub fn cores(&self) -> (cores: Vec<ChannelCore>)
        ensures
            core_views(cores@) == self.summaries(),
    {
        let mut cores: Vec<ChannelCore> = Vec::new();
        let mut i: usize = 0;
        while i < self.feed.results.len()
            invariant
                i <= self.feed.results@.len(),
                cores@.len() == i,
                forall|j: int|
                    0 <= j < i ==> (#[trigger] cores@[j])@ == self.feed.results@[j].summary(),
            decreases self.feed.results@.len() - i,
        {
            cores.push(self.feed.results[i].to_channel_core());
            i += 1;
        }
        assert(core_views(cores@) =~= self.summaries());
        cores
    }

    /// What the chart writes into the store: the chart as the results of
    /// the empty search, then the summary of each channel.
    pub fn to_actions(&self) -> (actions: Vec<StateAction>)
        ensures
            action_views(actions@) == self.actions(),
    {
        let mut actions: Vec<StateAction> = Vec::new();
        actions.push(StateAction::SetSearchFeed { query: String::new(), results: Ok(self.results()) });
        let ghost head = action_views(actions@);
        assert(head =~= seq![
            StateActionView::SetSearchFeed { query: Seq::empty(), results: Ok(self.keys()) },
        ]);
        let ghost items = self.feed.results@;
        let mut i: usize = 0;
        while i < self.feed.results.len()
            invariant
                i <= items.len(),
                items == self.feed.results@,
                action_views(actions@) == head + item_actions(items.take(i as int)),
            decreases items.len() - i,
        {
            let ghost before = action_views(actions@);
            let ghost written = StateActionView::SetChannelCore(
                items[i as int].pk@,
                Ok::<ChannelCoreView, StateErrorView>(items[i as int].summary()),
            );
            actions.push(self.feed.results[i].to_channel_core().build());
            assert(action_views(actions@) =~= before.push(written));
            assert(item_actions(items.take(i + 1)) =~= item_actions(items.take(i as int)).push(
                written,
            ));
            i += 1;
        }
        assert(items.take(items.len() as int) =~= items);
        actions
    }
}

/// What a list of chart items writes into the store: the summary of each.
pub open spec fn item_actions(items: Seq<ItunesChartItem>) -> Seq<StateActionView> {
    items.map_values(
        |item: ItunesChartItem|
            StateActionView::SetChannelCore(
                item.pk@,
                Ok::<ChannelCoreView, StateErrorView>(item.summary()),
            ),
    )
}

} // verus!
