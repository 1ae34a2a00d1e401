//! What a worker does with a query: what it asks of the network, and what
//! the answer writes into the store and puts into the queue.
use vstd::prelude::*;
use std::sync::Arc;
use crate::image::{Image, ImageView};
use crate::itunes_channel::ItunesChannel;
use crate::itunes_chart::{ItunesChart, ItunesChartItem};
use crate::itunes_lookup::ItunesLookup;
use crate::itunes_search::ItunesSearch;
use crate::loader::query_views;
use crate::query::{Query, QueryView};
use crate::request::{add_pair, pair_texts, HttpGet, HttpGetView};
use crate::rss::Rss;
use crate::state::{action_views, State, StateAction, StateActionView, StateView};
use crate::state_error::{StateError, StateErrorView};
use crate::text::{decimal_text, opt_text, parse_isize, written_isize};

verus! {

/// The number of channels that the chart is asked for.
pub const CHART_COUNT: usize = 100;

/// The number of channels that a search is asked for.
pub const SEARCH_COUNT: usize = 50;

/// What a worker does first with a query.
#[derive(Debug)]
pub enum Plan {
    /// Send this request.
    Fetch(HttpGet),
    /// Send nothing: the query cannot be asked. These actions say so to
    /// the store.
    Refuse(Vec<StateAction>),
}

/// The mathematical value of a [`Plan`].
pub enum PlanView {
    Fetch(HttpGetView),
    Refuse(Seq<StateActionView>),
}

impl View for Plan {
    type V = PlanView;

    open spec fn view(&self) -> PlanView {
        match *self {
            Plan::Fetch(request) => PlanView::Fetch(request@),
            Plan::Refuse(actions) => PlanView::Refuse(action_views(actions@)),
        }
    }
}

/// What the network answered to the request for an image.
#[derive(Debug)]
pub enum ImageReply {
    /// The image has not changed since it was last fetched.
    NotModified,
    /// The image, with what the headers of the answer say of it, and its
    /// bytes or the reason why they could not be read.
    Fresh {
        mime: Option<String>,
        etag: Option<String>,
        last_modified: Option<String>,
        body: Result<Vec<u8>, StateError>,
    },
}

/// What the network answered to a request, read as the kind of answer that
/// the query calls for.
#[derive(Debug)]
pub enum Reply {
    Chart(Result<ItunesChart, StateError>),
    Search(Result<ItunesSearch, StateError>),
    Lookup(Result<ItunesLookup, StateError>),
    Feed(Result<Rss, StateError>),
    Image(Result<ImageReply, StateError>),
}

/// What a finished fetch brings about.
#[derive(Debug)]
pub struct Outcome {
    /// What is written into the store, as one batch.
    pub actions: Vec<StateAction>,
    /// The queries that follow, in the order in which they are queued.
    pub next: Vec<Query>,
}

/// The mathematical value of an [`Outcome`].
pub struct OutcomeView {
    pub actions: Seq<StateActionView>,
    pub next: Seq<QueryView>,
}

impl View for Outcome {
    type V = OutcomeView;

    open spec fn view(&self) -> OutcomeView {
        OutcomeView { actions: action_views(self.actions@), next: query_views(self.next@) }
    }
}

/// The text that says that `pk` is no id of the catalog.
pub open spec fn not_an_id(pk: Seq<char>) -> Seq<char> {
    pk + " is not an iTunes id (integer)"@
}

/// The writes that put `error` into both slots of the channel `pk`.
pub open spec fn channel_failed(pk: Seq<char>, error: StateErrorView) -> Seq<StateActionView> {
    seq![
        StateActionView::SetChannelCore(pk, Err(error)),
        StateActionView::SetChannelDetail(pk, Err(error)),
    ]
}

/// The headers that ask for an image only if it has changed: the etag and
/// the date of the copy at hand, as far as they are known.
pub open spec fn revalidation(etag: Option<Seq<char>>, last_modified: Option<Seq<char>>) -> Seq<
    (Seq<char>, Seq<char>),
> {
    (match etag {
        Some(etag) => seq![("if-none-match"@, etag)],
        None => Seq::empty(),
    }) + (match last_modified {
        Some(date) => seq![("if-modified-since"@, date)],
        None => Seq::empty(),
    })
}

/// What a worker does first with `query`, given the settings of `state`.
pub open spec fn planned(state: StateView, query: QueryView) -> PlanView {
    match query {
        QueryView::ItunesChart => PlanView::Fetch(
            HttpGetView {
                path: Some(ItunesChart::path(state.country, state.allow_explicit, CHART_COUNT)),
                ..HttpGetView::plain("https://rss.itunes.apple.com/"@)
            },
        ),
        QueryView::ItunesSearch { query } => PlanView::Fetch(
            HttpGetView {
                query: ItunesSearch::query_pairs(
                    state.country,
                    state.allow_explicit,
                    SEARCH_COUNT,
                    query,
                ),
                ..HttpGetView::plain("https://itunes.apple.com/search"@)
            },
        ),
        QueryView::ItunesLookup { pk } => match written_isize(pk) {
            Some(id) => PlanView::Fetch(
                HttpGetView {
                    query: seq![("id"@, decimal_text(id as int))],
                    ..HttpGetView::plain("https://itunes.apple.com/lookup"@)
                },
            ),
            None => PlanView::Refuse(channel_failed(pk, StateErrorView::IoError(not_an_id(pk)))),
        },
        QueryView::Rss { url, .. } => PlanView::Fetch(HttpGetView::plain(url)),
        QueryView::Image { image, .. } => PlanView::Fetch(
            HttpGetView {
                headers: revalidation(image.etag, image.last_modified),
                ..HttpGetView::plain(image.pk)
            },
        ),
    }
}

/// The writes that put `error` into both slots of the channel `pk`.
fn fail_channel(pk: &str, error: StateError) -> (actions: Vec<StateAction>)
    ensures
        action_views(actions@) == channel_failed(pk@, error@),
{
    let mut actions: Vec<StateAction> = Vec::new();
    actions.push(StateAction::SetChannelCore(pk.to_owned(), Err(error.clone())));
    actions.push(StateAction::SetChannelDetail(pk.to_owned(), Err(error)));
    assert(action_views(actions@) =~= channel_failed(pk@, error@));
    actions
}

/// What a worker does first with `query`: the request that it sends, made
/// with the country and the explicit-content setting of `state`; or, for a
/// lookup whose key is no integer, the writes that put the error into the
/// channel's slots.
pub fn plan_query(state: &State, query: &Query) -> (plan: Plan)
    ensures
        plan@ == planned(state@, query@),
{
    match query {
        Query::ItunesChart => Plan::Fetch(
            ItunesChart::request(state.country(), state.allow_explicit(), CHART_COUNT),
        ),
        Query::ItunesSearch { query } => Plan::Fetch(
            ItunesSearch::request(
                state.country(),
                state.allow_explicit(),
                SEARCH_COUNT,
                query.as_str(),
            ),
        ),
        Query::ItunesLookup { pk } => match parse_isize(pk.as_str()) {
            Some(id) => Plan::Fetch(ItunesLookup::request(id)),
            None => {
                let reason = pk.clone().concat(" is not an iTunes id (integer)");
                Plan::Refuse(fail_channel(pk.as_str(), StateError::IoError(reason)))
            },
        },
        Query::Rss { url, .. } => Plan::Fetch(Rss::request(url.as_str())),
        Query::Image { image, .. } => {
            let mut headers: Vec<(String, String)> = Vec::new();
            assert(pair_texts(headers@) =~= Seq::empty());
            match &image.etag {
                Some(etag) => {
                    add_pair(&mut headers, "if-none-match", etag.clone());
                },
                None => {},
            }
            match &image.last_modified {
                Some(date) => {
                    add_pair(&mut headers, "if-modified-since", date.clone());
                },
                None => {},
            }
            assert(pair_texts(headers@) =~= revalidation(image@.etag, image@.last_modified));
            let mut request = HttpGet::plain(image.pk.clone());
            request.headers = headers;
            Plan::Fetch(request)
        },
    }
}

/// The query for the image at `url` that is not loaded yet, on behalf of
/// the query `origin`.
pub open spec fn image_query(url: Seq<char>, origin: Option<usize>) -> QueryView {
    QueryView::Image { image: ImageView::bare(url), associated_query: origin }
}

/// The queries for the images of the chart's channels.
pub open spec fn chart_images(items: Seq<ItunesChartItem>, request_idx: usize) -> Seq<QueryView> {
    items.map_values(|item: ItunesChartItem| image_query(item.image_200@, Some(request_idx)))
}

/// The queries for the images of the channels that a search found.
pub open spec fn search_images(records: Seq<ItunesChannel>, request_idx: usize) -> Seq<
    QueryView,
> {
    records.map_values(|record: ItunesChannel| image_query(record.image_600@, Some(request_idx)))
}

/// The queries for the feeds of the channels that a lookup found.
pub open spec fn feeds(records: Seq<ItunesChannel>) -> Seq<QueryView> {
    records.map_values(|record: ItunesChannel| QueryView::Rss { pk: record.key(), url: record.rss@ })
}

/// What the answer to the request for the chart brings about. The chart
/// writes itself into the store, and the image of each of its channels is
/// asked for on behalf of the query; a failure becomes the result of the
/// empty search.
pub open spec fn chart_outcome(request_idx: usize, reply: Result<ItunesChart, StateError>) -> OutcomeView {
    match reply {
        Ok(chart) => OutcomeView {
            actions: chart.actions(),
            next: chart_images(chart.feed.results@, request_idx),
        },
        Err(error) => OutcomeView {
            actions: seq![
                StateActionView::SetSearchFeed { query: Seq::empty(), results: Err(error@) },
            ],
            next: Seq::empty(),
        },
    }
}

/// What the answer to a search for `query` brings about. The channels
/// found write themselves into the store, and the image of each is asked
/// for on behalf of the query; a failure becomes the result of the search.
pub open spec fn search_outcome(
    query: Seq<char>,
    request_idx: usize,
    reply: Result<ItunesSearch, StateError>,
) -> OutcomeView {
    match reply {
        Ok(found) => OutcomeView {
            actions: found.actions(),
            next: search_images(found.results@, request_idx),
        },
        Err(error) => OutcomeView {
            actions: seq![StateActionView::SetSearchFeed { query, results: Err(error@) }],
            next: Seq::empty(),
        },
    }
}

/// What the answer to the lookup of the channel `pk` brings about. The
/// channels found write their summaries into the store, and the feed of
/// each is asked for; a failure goes into both slots of the channel.
pub open spec fn lookup_outcome(pk: Seq<char>, reply: Result<ItunesLookup, StateError>) -> OutcomeView {
    match reply {
        Ok(lookup) => OutcomeView {
            actions: crate::itunes_lookup::summary_actions(lookup.results@),
            next: feeds(lookup.results@),
        },
        Err(error) => OutcomeView { actions: channel_failed(pk, error@), next: Seq::empty() },
    }
}

/// What the feed of the channel `pk` brings about. The feed writes the
/// channel's summary, its details and its episodes into the store, and the
/// channel's image is asked for, on behalf of no query; a failure goes
/// into both slots of the channel.
pub open spec fn feed_outcome(pk: Seq<char>, reply: Result<Rss, StateError>) -> OutcomeView {
    match reply {
        Ok(feed) => OutcomeView {
            actions: feed.channel.actions(),
            next: seq![image_query(feed.channel.image(), None)],
        },
        Err(error) => OutcomeView { actions: channel_failed(pk, error@), next: Seq::empty() },
    }
}

/// `text`, or the empty text where there is none.
pub open spec fn or_empty(text: Option<Seq<char>>) -> Seq<char> {
    match text {
        Some(text) => text,
        None => Seq::empty(),
    }
}

/// The image at `pk` as an answer delivers it. A media type that the
/// answer does not tell is written as `*/*`; an etag or a date that it does
/// not tell is empty.
pub open spec fn delivered(
    pk: Seq<char>,
    mime: Option<Seq<char>>,
    etag: Option<Seq<char>>,
    last_modified: Option<Seq<char>>,
    bytes: Seq<u8>,
) -> ImageView {
    ImageView {
        pk,
        mimetype: Some(
            match mime {
                Some(mime) => mime,
                None => "*/*"@,
            },
        ),
        etag: Some(or_empty(etag)),
        last_modified: Some(or_empty(last_modified)),
        data: Some(bytes),
    }
}

/// What the answer to the request for the image at `pk` brings about. An
/// image that has not changed writes nothing; a fresh one is written into
/// the store, and so is the reason why it could not be had. No query
/// follows.
pub open spec fn image_outcome(pk: Seq<char>, reply: Result<ImageReply, StateError>) -> OutcomeView {
    OutcomeView {
        actions: match reply {
            Ok(ImageReply::NotModified) => Seq::empty(),
            Ok(ImageReply::Fresh { mime, etag, last_modified, body }) => match body {
                Ok(bytes) => seq![
                    StateActionView::SetImage(
                        pk,
                        Ok(
                            delivered(
                                pk,
                                opt_text(mime),
                                opt_text(etag),
                                opt_text(last_modified),
                                bytes@,
                            ),
                        ),
                    ),
                ],
                Err(error) => seq![StateActionView::SetImage(pk, Err(error@))],
            },
            Err(error) => seq![StateActionView::SetImage(pk, Err(error@))],
        },
        next: Seq::empty(),
    }
}

/// What the answer `reply` to the request for `query` brings about, where
/// it is the kind of answer that the query calls for.
pub open spec fn outcome_of(query: QueryView, request_idx: usize, reply: Reply) -> Option<
    OutcomeView,
> {
    match (query, reply) {
        (QueryView::ItunesChart, Reply::Chart(reply)) => Some(chart_outcome(request_idx, reply)),
        (QueryView::ItunesSearch { query }, Reply::Search(reply)) => Some(
            search_outcome(query, request_idx, reply),
        ),
        (QueryView::ItunesLookup { pk }, Reply::Lookup(reply)) => Some(lookup_outcome(pk, reply)),
        (QueryView::Rss { pk, .. }, Reply::Feed(reply)) => Some(feed_outcome(pk, reply)),
        (QueryView::Image { image, .. }, Reply::Image(reply)) => Some(
            image_outcome(image.pk, reply),
        ),
        _ => None,
    }
}

/// One action and no query.
fn only(action: StateAction) -> (outcome: Outcome)
    ensures
        outcome@ == (OutcomeView { actions: seq![action@], next: Seq::empty() }),
{
    let mut actions: Vec<StateAction> = Vec::new();
    actions.push(action);
    let outcome = Outcome { actions, next: Vec::new() };
    assert(outcome@.actions =~= seq![action@]);
    assert(outcome@.next =~= Seq::empty());
    outcome
}

/// The query for the image at `url` that is not loaded yet.
fn ask_image(url: &str, origin: Option<usize>) -> (query: Query)
    ensures
        query@ == image_query(url@, origin),
{
    Query::Image { image: Arc::new(Image::new(url)), associated_query: origin }
}

/// What the answer to the request for the chart brings about.
pub fn chart_done(request_idx: usize, reply: Result<ItunesChart, StateError>) -> (outcome: Outcome)
    ensures
        outcome@ == chart_outcome(request_idx, reply),
{
    match reply {
        Ok(chart) => {
            let actions = chart.to_actions();
            let mut next: Vec<Query> = Vec::new();
            let mut i: usize = 0;
            while i < chart.feed.results.len()
                invariant
                    i <= chart.feed.results@.len(),
                    next@.len() == i,
                    forall|j: int|
                        0 <= j < i ==> (#[trigger] next@[j])@ == image_query(
                            chart.feed.results@[j].image_200@,
                            Some(request_idx),
                        ),
                decreases chart.feed.results@.len() - i,
            {
                next.push(ask_image(chart.feed.results[i].image_200.as_str(), Some(request_idx)));
                i += 1;
            }
            assert(query_views(next@) =~= chart_images(chart.feed.results@, request_idx));
            Outcome { actions, next }
        },
        Err(error) => only(StateAction::SetSearchFeed { query: String::new(), results: Err(error) }),
    }
}

/// What the answer to a search for `query` brings about.
pub fn search_done(query: &str, request_idx: usize, reply: Result<ItunesSearch, StateError>) -> (outcome:
    Outcome)
    ensures
        outcome@ == search_outcome(query@, request_idx, reply),
{
    match reply {
        Ok(found) => {
            let actions = found.to_actions();
            let mut next: Vec<Query> = Vec::new();
            let mut i: usize = 0;
            while i < found.results.len()
                invariant
                    i <= found.results@.len(),
                    next@.len() == i,
                    forall|j: int|
                        0 <= j < i ==> (#[trigger] next@[j])@ == image_query(
                            found.results@[j].image_600@,
                            Some(request_idx),
                        ),
                decreases found.results@.len() - i,
            {
                next.push(ask_image(found.results[i].image_600.as_str(), Some(request_idx)));
                i += 1;
            }
            assert(query_views(next@) =~= search_images(found.results@, request_idx));
            Outcome { actions, next }
        },
        Err(error) => only(
            StateAction::SetSearchFeed { query: query.to_owned(), results: Err(error) },
        ),
    }
}

/// What the answer to the lookup of the channel `pk` brings about.
pub fn lookup_done(pk: &str, reply: Result<ItunesLookup, StateError>) -> (outcome: Outcome)
    ensures
        outcome@ == lookup_outcome(pk@, reply),
{
    match reply {
        Ok(lookup) => {
            let actions = lookup.to_actions();
            let mut next: Vec<Query> = Vec::new();
            let mut i: usize = 0;
            while i < lookup.results.len()
                invariant
                    i <= lookup.results@.len(),
                    next@.len() == i,
                    forall|j: int|
                        0 <= j < i ==> (#[trigger] next@[j])@ == (QueryView::Rss {
                            pk: lookup.results@[j].key(),
                            url: lookup.results@[j].rss@,
                        }),
                decreases lookup.results@.len() - i,
            {
                let record = &lookup.results[i];
                next.push(Query::Rss { pk: crate::text::decimal_i64(record.pk), url: record.rss.clone() });
                i += 1;
            }
            assert(query_views(next@) =~= feeds(lookup.results@));
            Outcome { actions, next }
        },
        Err(error) => {
            let outcome = Outcome { actions: fail_channel(pk, error), next: Vec::new() };
            assert(outcome@.next =~= Seq::empty());
            outcome
        },
    }
}

/// What the feed of the channel `pk` brings about.
pub fn feed_done(pk: &str, reply: Result<Rss, StateError>) -> (outcome: Outcome)
    ensures
        outcome@ == feed_outcome(pk@, reply),
{
    match reply {
        Ok(feed) => {
            let actions = feed.channel.to_actions();
            let mut next: Vec<Query> = Vec::new();
            next.push(ask_image(feed.channel.image_rss().as_str(), None));
            assert(query_views(next@) =~= seq![image_query(feed.channel.image(), None)]);
            Outcome { actions, next }
        },
        Err(error) => {
            let outcome = Outcome { actions: fail_channel(pk, error), next: Vec::new() };
            assert(outcome@.next =~= Seq::empty());
            outcome
        },
    }
}

/// `text`, or the empty text where there is none.
fn text_or_empty(text: Option<String>) -> (r: String)
    ensures
        r@ == or_empty(opt_text(text)),
{
    match text {
        Some(text) => text,
        None => String::new(),
    }
}

/// What the answer to the request for `image` brings about.
pub fn image_done(image: &Image, reply: Result<ImageReply, StateError>) -> (outcome: Outcome)
    ensures
        outcome@ == image_outcome(image@.pk, reply),
{
    match reply {
        Ok(ImageReply::NotModified) => {
            let outcome = Outcome { actions: Vec::new(), next: Vec::new() };
            assert(outcome@.actions =~= Seq::empty());
            assert(outcome@.next =~= Seq::empty());
            outcome
        },
        Ok(ImageReply::Fresh { mime, etag, last_modified, body }) => match body {
            Ok(bytes) => {
                let mimetype = match mime {
                    Some(mime) => mime,
                    None => String::from_str("*/*"),
                };
                only(
                    StateAction::SetImage(
                        image.pk.clone(),
                        Ok(
                            Image {
                                pk: image.pk.clone(),
                                mimetype: Some(mimetype),
                                etag: Some(text_or_empty(etag)),
                                last_modified: Some(text_or_empty(last_modified)),
                                data: Some(bytes),
                            },
                        ),
                    ),
                )
            },
            Err(error) => only(StateAction::SetImage(image.pk.clone(), Err(error))),
        },
        Err(error) => only(StateAction::SetImage(image.pk.clone(), Err(error))),
    }
}

/// What the answer `reply` to the request for `query` brings about, the
/// query having been queued as number `request_idx`. `None` says that the
/// answer is not of the kind that the query calls for.
pub fn handle_reply(query: &Query, request_idx: usize, reply: Reply) -> (outcome: Option<Outcome>)
    ensures
        outcome is Some == outcome_of(query@, request_idx, reply) is Some,
        outcome matches Some(done) ==> Some(done@) == outcome_of(query@, request_idx, reply),
{
    match query {
        Query::ItunesChart => match reply {
            Reply::Chart(reply) => Some(chart_done(request_idx, reply)),
            _ => None,
        },
        Query::ItunesSearch { query } => match reply {
            Reply::Search(reply) => Some(search_done(query.as_str(), request_idx, reply)),
            _ => None,
        },
        Query::ItunesLookup { pk } => match reply {
            Reply::Lookup(reply) => Some(lookup_done(pk.as_str(), reply)),
            _ => None,
        },
        Query::Rss { pk, .. } => match reply {
            Reply::Feed(reply) => Some(feed_done(pk.as_str(), reply)),
            _ => None,
        },
        Query::Image { image, .. } => match reply {
            Reply::Image(reply) => Some(image_done(&**image, reply)),
            _ => None,
        },
    }
}

} // verus!
