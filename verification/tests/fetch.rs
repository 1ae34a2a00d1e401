use pyrocast::fetch::{
    chart_done, feed_done, image_done, lookup_done, search_done, CHART_COUNT, SEARCH_COUNT,
};
use pyrocast::{
    handle_reply, plan_query, Image, ImageReply, ItunesChannel, ItunesChart, ItunesChartFeed,
    ItunesChartItem, ItunesLookup, ItunesSearch, Outcome, Plan, Query, Reply, Rss, RssChannel,
    RssEnclosure, RssEpisode, RssImageLink, State, StateAction, StateError,
};
use std::sync::Arc;

fn record(pk: i64, rss: &str) -> ItunesChannel {
    ItunesChannel {
        pk,
        title: format!("Channel {}", pk),
        author: String::new(),
        image_600: format!("http://img/{}", pk),
        rss: String::from(rss),
    }
}

fn feed() -> Rss {
    Rss {
        channel: RssChannel {
            title: String::from("Title"),
            description: None,
            fallback_description: String::new(),
            link: String::new(),
            author: String::new(),
            image_rss: None,
            image_rss_fallback: Some(RssImageLink { url: String::from("http://img/feed") }),
            episodes: vec![RssEpisode {
                pk: Some(String::from("e1")),
                title: None,
                fallback_title: String::new(),
                url: String::new(),
                date: String::new(),
                description: None,
                fallback_description: String::new(),
                duration: String::new(),
                image: None,
                enclosure: RssEnclosure::default(),
            }],
            pk: String::from("42"),
            self_url: String::from("http://feed"),
        },
    }
}

fn pairs(list: &[(String, String)]) -> Vec<(&str, &str)> {
    list.iter().map(|(name, value)| (name.as_str(), value.as_str())).collect()
}

fn images(next: &[Query]) -> Vec<(String, bool, Option<usize>)> {
    next.iter()
        .map(|query| match query {
            Query::Image { image, associated_query } => {
                (image.pk.clone(), image.loaded(), *associated_query)
            }
            other => panic!("unexpected query {:?}", other),
        })
        .collect()
}

fn request(state: &State, query: &Query) -> pyrocast::HttpGet {
    match plan_query(state, query) {
        Plan::Fetch(request) => request,
        Plan::Refuse(actions) => panic!("refused with {:?}", actions),
    }
}

#[test]
fn the_counts_asked_for() {
    assert_eq!(CHART_COUNT, 100);
    assert_eq!(SEARCH_COUNT, 50);
}

#[test]
fn the_chart_is_planned_with_the_settings_of_the_state() {
    let planned = request(&State::new(), &Query::ItunesChart);
    assert_eq!(planned.url, "https://rss.itunes.apple.com/");
    assert_eq!(
        planned.path.as_deref(),
        Some("/api/v1/CA/podcasts/top-podcasts/all/100/non-explicit.json")
    );

    let state = State::new().apply(vec![
        StateAction::SetCountry(String::from("gb")),
        StateAction::SetAllowExplicit(true),
    ]);
    let planned = request(&state, &Query::ItunesChart);
    assert_eq!(
        planned.path.as_deref(),
        Some("/api/v1/gb/podcasts/top-podcasts/all/100/explicit.json")
    );
}

#[test]
fn a_search_is_planned_with_the_settings_of_the_state() {
    let planned = request(&State::new(), &Query::ItunesSearch { query: String::from("serial") });
    assert_eq!(planned.url, "https://itunes.apple.com/search");
    assert_eq!(
        pairs(&planned.query),
        vec![
            ("term", "serial"),
            ("country", "CA"),
            ("count", "50"),
            ("media", "podcast"),
            ("explicit", "No"),
        ]
    );
}

#[test]
fn a_lookup_needs_an_integer_key() {
    let planned = request(&State::new(), &Query::ItunesLookup { pk: String::from("1570872415") });
    assert_eq!(planned.url, "https://itunes.apple.com/lookup");
    assert_eq!(pairs(&planned.query), vec![("id", "1570872415")]);
    let planned = request(&State::new(), &Query::ItunesLookup { pk: String::from("+007") });
    assert_eq!(pairs(&planned.query), vec![("id", "7")]);

    match plan_query(&State::new(), &Query::ItunesLookup { pk: String::from("http://feed") }) {
        Plan::Refuse(actions) => {
            assert_eq!(actions.len(), 2);
            match (&actions[0], &actions[1]) {
                (
                    StateAction::SetChannelCore(a, Err(StateError::IoError(first))),
                    StateAction::SetChannelDetail(b, Err(StateError::IoError(second))),
                ) => {
                    assert_eq!(a, "http://feed");
                    assert_eq!(b, "http://feed");
                    assert_eq!(first, "http://feed is not an iTunes id (integer)");
                    assert_eq!(second, first);
                }
                other => panic!("unexpected actions {:?}", other),
            }
        }
        Plan::Fetch(request) => panic!("asked for {:?}", request),
    }
    assert!(matches!(
        plan_query(&State::new(), &Query::ItunesLookup { pk: String::new() }),
        Plan::Refuse(_)
    ));
}

#[test]
fn a_feed_is_planned_at_its_address() {
    let planned = request(
        &State::new(),
        &Query::Rss { pk: String::from("42"), url: String::from("http://feed") },
    );
    assert_eq!(planned.url, "http://feed");
    assert_eq!(planned.path, None);
    assert!(planned.query.is_empty() && planned.headers.is_empty());
}

#[test]
fn an_image_is_asked_for_only_if_it_changed() {
    let plain = Query::Image { image: Arc::new(Image::new("http://img")), associated_query: None };
    let planned = request(&State::new(), &plain);
    assert_eq!(planned.url, "http://img");
    assert!(planned.headers.is_empty());

    let mut known = Image::new("http://img");
    known.etag = Some(String::from("\"v1\""));
    known.last_modified = Some(String::from("Wed, 21 Oct 2015 07:28:00 GMT"));
    let planned = request(
        &State::new(),
        &Query::Image { image: Arc::new(known), associated_query: Some(3) },
    );
    assert_eq!(
        pairs(&planned.headers),
        vec![
            ("if-none-match", "\"v1\""),
            ("if-modified-since", "Wed, 21 Oct 2015 07:28:00 GMT"),
        ]
    );

    let mut dated = Image::new("http://img");
    dated.last_modified = Some(String::from("yesterday"));
    let planned = request(
        &State::new(),
        &Query::Image { image: Arc::new(dated), associated_query: None },
    );
    assert_eq!(pairs(&planned.headers), vec![("if-modified-since", "yesterday")]);
}

#[test]
fn the_chart_asks_for_its_images_on_its_own_behalf() {
    let chart = ItunesChart {
        feed: ItunesChartFeed {
            results: vec![
                ItunesChartItem {
                    pk: String::from("1"),
                    title: String::from("One"),
                    author: String::new(),
                    image_200: String::from("http://img/1"),
                },
                ItunesChartItem {
                    pk: String::from("2"),
                    title: String::from("Two"),
                    author: String::new(),
                    image_200: String::from("http://img/2"),
                },
            ],
        },
    };
    let Outcome { actions, next } = chart_done(7, Ok(chart));
    assert_eq!(actions.len(), 3);
    assert!(matches!(&actions[0], StateAction::SetSearchFeed { query, results: Ok(keys) }
        if query.is_empty() && keys.len() == 2));
    assert_eq!(
        images(&next),
        vec![
            (String::from("http://img/1"), false, Some(7)),
            (String::from("http://img/2"), false, Some(7)),
        ]
    );

    let Outcome { actions, next } = chart_done(7, Err(StateError::NetError(String::from("down"))));
    assert!(next.is_empty());
    assert_eq!(actions.len(), 1);
    assert!(matches!(&actions[0], StateAction::SetSearchFeed { query, results: Err(StateError::NetError(why)) }
        if query.is_empty() && why == "down"));
}

#[test]
fn a_search_asks_for_its_images_on_its_own_behalf() {
    let found = ItunesSearch {
        results: vec![record(1, "http://one"), record(2, "http://two")],
        search_query: String::from("numbers"),
    };
    let Outcome { actions, next } = search_done("numbers", 4, Ok(found));
    assert_eq!(actions.len(), 3);
    assert!(matches!(&actions[0], StateAction::SetSearchFeed { query, results: Ok(keys) }
        if query == "numbers" && keys == &vec![String::from("1"), String::from("2")]));
    assert_eq!(
        images(&next),
        vec![
            (String::from("http://img/1"), false, Some(4)),
            (String::from("http://img/2"), false, Some(4)),
        ]
    );

    let Outcome { actions, next } = search_done("numbers", 4, Err(StateError::Loading));
    assert!(next.is_empty());
    assert_eq!(actions.len(), 1);
    assert!(matches!(&actions[0], StateAction::SetSearchFeed { query, results: Err(StateError::Loading) }
        if query == "numbers"));
}

#[test]
fn a_lookup_asks_for_the_feeds_it_found() {
    let lookup = ItunesLookup { results: vec![record(5, "http://five"), record(6, "")] };
    let Outcome { actions, next } = lookup_done("5", Ok(lookup));
    assert_eq!(actions.len(), 2);
    assert!(matches!(&actions[0], StateAction::SetChannelCore(key, Ok(_)) if key == "5"));
    assert_eq!(next.len(), 2);
    assert!(matches!(&next[0], Query::Rss { pk, url } if pk == "5" && url == "http://five"));
    assert!(matches!(&next[1], Query::Rss { pk, url } if pk == "6" && url.is_empty()));

    let Outcome { actions, next } =
        lookup_done("5", Err(StateError::XmlError(String::from("bad"))));
    assert!(next.is_empty());
    assert_eq!(actions.len(), 2);
    assert!(matches!(&actions[0], StateAction::SetChannelCore(key, Err(StateError::XmlError(why)))
        if key == "5" && why == "bad"));
    assert!(matches!(&actions[1], StateAction::SetChannelDetail(key, Err(StateError::XmlError(why)))
        if key == "5" && why == "bad"));
}

#[test]
fn a_feed_asks_for_the_channels_image_on_nobodys_behalf() {
    let Outcome { actions, next } = feed_done("42", Ok(feed()));
    assert_eq!(actions.len(), 3);
    assert!(matches!(&actions[0], StateAction::SetChannelCore(key, Ok(_)) if key == "42"));
    assert!(matches!(&actions[1], StateAction::SetChannelDetail(key, Ok(_)) if key == "42"));
    assert!(matches!(&actions[2], StateAction::SetEpisode(key, Ok(_)) if key == "e1"));
    assert_eq!(images(&next), vec![(String::from("http://img/feed"), false, None)]);

    let Outcome { actions, next } = feed_done("42", Err(StateError::NetError(String::from("x"))));
    assert!(next.is_empty());
    assert!(matches!(&actions[0], StateAction::SetChannelCore(key, Err(StateError::NetError(_))) if key == "42"));
    assert!(matches!(&actions[1], StateAction::SetChannelDetail(key, Err(StateError::NetError(_))) if key == "42"));
    assert_eq!(actions.len(), 2);
}

#[test]
fn an_image_is_written_unless_it_has_not_changed() {
    let asked = Image::new("http://img");
    let Outcome { actions, next } = image_done(&asked, Ok(ImageReply::NotModified));
    assert!(actions.is_empty() && next.is_empty());

    let Outcome { actions, next } = image_done(
        &asked,
        Ok(ImageReply::Fresh {
            mime: Some(String::from("image/png")),
            etag: Some(String::from("\"v2\"")),
            last_modified: None,
            body: Ok(vec![1, 2, 3]),
        }),
    );
    assert!(next.is_empty());
    assert_eq!(actions.len(), 1);
    match &actions[0] {
        StateAction::SetImage(key, Ok(image)) => {
            assert_eq!(key, "http://img");
            assert_eq!(image.pk, "http://img");
            assert_eq!(image.mimetype.as_deref(), Some("image/png"));
            assert_eq!(image.etag.as_deref(), Some("\"v2\""));
            assert_eq!(image.last_modified.as_deref(), Some(""));
            assert_eq!(image.data.as_deref(), Some(&[1u8, 2, 3][..]));
            assert!(image.loaded());
        }
        other => panic!("unexpected action {:?}", other),
    }

    let Outcome { actions, .. } = image_done(
        &asked,
        Ok(ImageReply::Fresh { mime: None, etag: None, last_modified: None, body: Ok(vec![]) }),
    );
    match &actions[0] {
        StateAction::SetImage(_, Ok(image)) => {
            assert_eq!(image.mimetype.as_deref(), Some("*/*"));
            assert_eq!(image.etag.as_deref(), Some(""));
            assert_eq!(image.data.as_deref(), Some(&[][..]));
        }
        other => panic!("unexpected action {:?}", other),
    }

    let Outcome { actions, .. } = image_done(
        &asked,
        Ok(ImageReply::Fresh {
            mime: None,
            etag: None,
            last_modified: None,
            body: Err(StateError::IoError(String::from("cut off"))),
        }),
    );
    assert!(matches!(&actions[0], StateAction::SetImage(key, Err(StateError::IoError(why)))
        if key == "http://img" && why == "cut off"));

    let Outcome { actions, .. } = image_done(&asked, Err(StateError::NetError(String::from("x"))));
    assert!(matches!(&actions[0], StateAction::SetImage(key, Err(StateError::NetError(_))) if key == "http://img"));
}

#[test]
fn a_reply_of_the_wrong_kind_is_not_handled() {
    let lookup = Query::ItunesLookup { pk: String::from("5") };
    assert!(handle_reply(&lookup, 0, Reply::Chart(Err(StateError::Loading))).is_none());
    assert!(handle_reply(&Query::ItunesChart, 0, Reply::Lookup(Err(StateError::Loading))).is_none());
    assert!(handle_reply(&Query::ItunesChart, 0, Reply::Image(Ok(ImageReply::NotModified))).is_none());

    let done = handle_reply(&lookup, 0, Reply::Lookup(Err(StateError::DbError))).unwrap();
    assert_eq!(done.actions.len(), 2);
    let done = handle_reply(&Query::ItunesChart, 2, Reply::Chart(Err(StateError::DbError))).unwrap();
    assert_eq!(done.actions.len(), 1);
    let search = Query::ItunesSearch { query: String::from("q") };
    let done = handle_reply(&search, 2, Reply::Search(Err(StateError::DbError))).unwrap();
    assert!(matches!(&done.actions[0], StateAction::SetSearchFeed { query, .. } if query == "q"));
    let rss = Query::Rss { pk: String::from("42"), url: String::from("u") };
    let done = handle_reply(&rss, 2, Reply::Feed(Ok(feed()))).unwrap();
    assert_eq!(done.next.len(), 1);
    let image = Query::Image { image: Arc::new(Image::new("i")), associated_query: None };
    let done = handle_reply(&image, 2, Reply::Image(Ok(ImageReply::NotModified))).unwrap();
    assert!(done.actions.is_empty());
}

#[test]
fn a_search_from_query_to_snapshot() {
    // The whole round trip of a worker, with the network's answer given.
    let mut loader = pyrocast::Loader::new(1);
    let mut store = pyrocast::CurrentState::new();
    store.update(vec![StateAction::SetSearchQuery(String::from("serial"))]);
    let queued = loader.queue(Query::ItunesSearch { query: String::from("serial") });
    store.update(queued.actions);

    let (query, request_idx) = match loader.worker_next() {
        pyrocast::WorkerStep::Run { query, request_idx } => (query, request_idx),
        other => panic!("unexpected step {:?}", other),
    };
    while store.writer_turn() {}
    assert!(matches!(plan_query(&store.get(), &query), Plan::Fetch(_)));
    let answer = ItunesSearch::accept(
        ItunesSearch { results: vec![record(123, "http://serial")], search_query: String::new() },
        "serial",
    );
    let done = handle_reply(&query, request_idx, Reply::Search(Ok(answer))).unwrap();
    store.update(done.actions);
    let more = loader.queue_all(done.next);
    assert_eq!(more.spawn, 0);

    // The image is next, and its answer is dropped into the store too.
    let (query, request_idx) = match loader.worker_next() {
        pyrocast::WorkerStep::Run { query, request_idx } => (query, request_idx),
        other => panic!("unexpected step {:?}", other),
    };
    assert_eq!(request_idx, 1);
    let reply = Reply::Image(Ok(ImageReply::Fresh {
        mime: Some(String::from("image/jpeg")),
        etag: None,
        last_modified: None,
        body: Ok(vec![9]),
    }));
    store.update(handle_reply(&query, request_idx, reply).unwrap().actions);
    match loader.worker_next() {
        pyrocast::WorkerStep::Exit { actions } => store.update(actions),
        other => panic!("unexpected step {:?}", other),
    }
    while store.writer_turn() {}

    let state = store.get();
    assert_eq!(state.loading(), false);
    let results = state.search_results();
    let results = results.as_ref().as_ref().unwrap();
    assert_eq!(results.len(), 1);
    let slot = results[0].channel_core(&state).unwrap();
    let summary = slot.as_ref().as_ref().unwrap();
    assert_eq!(summary.title(), "Channel 123");
    let image = summary.small_image(&state).unwrap();
    assert_eq!(image.as_ref().as_ref().unwrap().data.as_deref(), Some(&[9u8][..]));
}
