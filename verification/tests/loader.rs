use pyrocast::loader::{Queued, WorkerStep};
use pyrocast::{Image, Loader, Query, StateAction};
use std::sync::Arc;

fn image(url: &str, origin: Option<usize>) -> Query {
    Query::Image {
        image: Arc::new(Image::new(url)),
        associated_query: origin,
    }
}

fn loaded_image(url: &str, origin: Option<usize>) -> Query {
    let mut image = Image::new(url);
    image.data = Some(vec![0]);
    Query::Image {
        image: Arc::new(image),
        associated_query: origin,
    }
}

fn lookup(pk: &str) -> Query {
    Query::ItunesLookup { pk: String::from(pk) }
}

fn search(query: &str) -> Query {
    Query::ItunesSearch { query: String::from(query) }
}

fn feed(pk: &str) -> Query {
    Query::Rss { pk: String::from(pk), url: String::from("http://feed") }
}

fn name(query: &Query) -> String {
    match query {
        Query::ItunesChart => String::from("chart"),
        Query::ItunesSearch { query } => format!("search {}", query),
        Query::ItunesLookup { pk } => format!("lookup {}", pk),
        Query::Rss { pk, .. } => format!("feed {}", pk),
        Query::Image { image, .. } => format!("image {}", image.pk),
    }
}

fn drain(loader: &mut Loader) -> Vec<(String, usize)> {
    let mut served = Vec::new();
    while let Some((query, request_idx)) = loader.pop() {
        served.push((name(&query), request_idx));
    }
    served
}

fn loading_actions(actions: &[StateAction]) -> Vec<bool> {
    actions
        .iter()
        .map(|action| match action {
            StateAction::SetLoading(loading) => *loading,
            other => panic!("unexpected action {:?}", other),
        })
        .collect()
}

#[test]
fn it_works() {
    assert_eq!(2 + 2, 4);
}

#[test]
fn priorities_are_fixed_by_kind() {
    assert_eq!(feed("1").priority(), 3000);
    assert_eq!(lookup("1").priority(), 2000);
    assert_eq!(search("x").priority(), 1001);
    assert_eq!(Query::ItunesChart.priority(), 1000);
    assert_eq!(image("u", None).priority(), 500);
    assert_eq!(image("u", Some(3)).priority(), 500);
    assert_eq!(loaded_image("u", None).priority(), 1);
}

#[test]
fn the_chart_and_searches_are_search_class() {
    assert!(Query::ItunesChart.is_search());
    assert!(search("x").is_search());
    assert!(!lookup("1").is_search());
    assert!(!feed("1").is_search());
    assert!(!image("u", None).is_search());
}

#[test]
fn queries_compare_by_priority() {
    assert!(lookup("1") == lookup("2"));
    assert!(lookup("1") != feed("1"));
    assert!(lookup("1") < feed("1"));
    assert!(search("x") > Query::ItunesChart);
    assert!(image("u", None) > loaded_image("u", None));
    assert!(Query::ItunesChart > image("u", None));
    assert!(lookup("1") <= lookup("2") && lookup("1") >= lookup("2"));
}

#[test]
fn higher_priorities_are_served_first_whatever_the_order_of_arrival() {
    let orders: Vec<Vec<usize>> = vec![
        vec![0, 1, 2],
        vec![0, 2, 1],
        vec![1, 0, 2],
        vec![1, 2, 0],
        vec![2, 0, 1],
        vec![2, 1, 0],
    ];
    for order in orders {
        let mut loader = Loader::new(0);
        for kind in order {
            match kind {
                0 => loader.queue(image("u", None)),
                1 => loader.queue(lookup("7")),
                _ => loader.queue(Query::ItunesChart),
            };
        }
        let served: Vec<String> = drain(&mut loader).into_iter().map(|(name, _)| name).collect();
        assert_eq!(served, vec!["lookup 7", "chart", "image u"]);
    }
}

#[test]
fn equal_priorities_are_served_oldest_first() {
    let mut loader = Loader::new(0);
    loader.queue(lookup("a"));
    loader.queue(image("i1", None));
    loader.queue(lookup("b"));
    loader.queue(feed("f"));
    loader.queue(image("i2", None));
    loader.queue(lookup("c"));
    assert_eq!(loader.waiting(), 6);
    assert_eq!(loader.total_queries(), 6);
    assert_eq!(
        drain(&mut loader),
        vec![
            (String::from("feed f"), 3),
            (String::from("lookup a"), 0),
            (String::from("lookup b"), 2),
            (String::from("lookup c"), 5),
            (String::from("image i1"), 1),
            (String::from("image i2"), 4),
        ]
    );
    assert_eq!(loader.waiting(), 0);
    assert!(loader.pop().is_none());
}

#[test]
fn a_newer_search_makes_older_work_stale() {
    let mut loader = Loader::new(0);
    loader.queue(lookup("first")); // sequence 0
    loader.queue(search("x")); // sequence 1
    loader.queue(image("for x", Some(1)));
    loader.queue(Query::ItunesChart); // sequence 3: the marker
    loader.queue(image("for the chart", Some(3)));
    loader.queue(image("for nobody", None));
    assert_eq!(
        drain(&mut loader),
        vec![
            (String::from("lookup first"), 0),
            (String::from("chart"), 3),
            (String::from("image for the chart"), 4),
            (String::from("image for nobody"), 5),
        ]
    );
}

#[test]
fn a_search_supersedes_the_chart_and_other_searches() {
    let mut loader = Loader::new(0);
    loader.queue(Query::ItunesChart);
    loader.queue(search("a"));
    loader.queue(search("b"));
    assert_eq!(drain(&mut loader), vec![(String::from("search b"), 2)]);

    let mut loader = Loader::new(0);
    loader.queue(search("a"));
    loader.queue(Query::ItunesChart);
    assert_eq!(drain(&mut loader), vec![(String::from("chart"), 1)]);
}

#[test]
fn stale_entries_behind_the_one_served_stay_until_their_turn() {
    let mut loader = Loader::new(0);
    loader.queue(search("a")); // 0, stale after the next
    loader.queue(search("b")); // 1
    loader.queue(image("old", Some(0))); // 2, stale
    loader.queue(feed("f")); // 3
    let (first, _) = loader.pop().unwrap();
    assert_eq!(name(&first), "feed f");
    assert_eq!(loader.waiting(), 3);
    let (second, idx) = loader.pop().unwrap();
    assert_eq!((name(&second), idx), (String::from("search b"), 1));
    assert_eq!(loader.waiting(), 1);
    assert!(loader.pop().is_none());
    assert_eq!(loader.waiting(), 0);
}

#[test]
fn loading_begins_with_the_first_worker_and_ends_with_the_last() {
    let mut loader = Loader::new(1);
    assert_eq!(loader.in_flight(), 0);

    let Queued { spawn, actions } = loader.queue(lookup("1"));
    assert_eq!(spawn, 1);
    assert_eq!(loading_actions(&actions), vec![true]);
    assert_eq!(loader.in_flight(), 1);

    let Queued { spawn, actions } = loader.queue(lookup("2"));
    assert_eq!(spawn, 0);
    assert!(actions.is_empty());
    assert_eq!(loader.in_flight(), 1);

    let mut off = Vec::new();
    let mut ran = Vec::new();
    loop {
        match loader.worker_next() {
            WorkerStep::Run { query, request_idx } => ran.push((name(&query), request_idx)),
            WorkerStep::Exit { actions } => {
                off.extend(loading_actions(&actions));
                break;
            }
        }
    }
    assert_eq!(ran, vec![(String::from("lookup 1"), 0), (String::from("lookup 2"), 1)]);
    assert_eq!(off, vec![false]);
    assert_eq!(loader.in_flight(), 0);
}

#[test]
fn no_more_workers_start_than_may_run() {
    let mut loader = Loader::new(2);
    assert_eq!(loader.queue(lookup("1")).spawn, 1);
    assert_eq!(loader.queue(lookup("2")).spawn, 1);
    let third = loader.queue(lookup("3"));
    assert_eq!(third.spawn, 0);
    assert!(third.actions.is_empty());
    assert_eq!(loader.in_flight(), 2);

    // Only the last worker to end switches loading off.
    for _ in 0..3 {
        assert!(matches!(loader.worker_next(), WorkerStep::Run { .. }));
    }
    match loader.worker_next() {
        WorkerStep::Exit { actions } => assert!(actions.is_empty()),
        other => panic!("unexpected step {:?}", other),
    }
    match loader.worker_next() {
        WorkerStep::Exit { actions } => assert_eq!(loading_actions(&actions), vec![false]),
        other => panic!("unexpected step {:?}", other),
    }
    assert_eq!(loader.in_flight(), 0);
}

#[test]
fn a_scheduler_without_workers_only_queues() {
    let mut loader = Loader::new(0);
    let queued = loader.queue(lookup("1"));
    assert_eq!(queued.spawn, 0);
    assert!(queued.actions.is_empty());
    assert_eq!(loader.in_flight(), 0);
    assert_eq!(loader.waiting(), 1);
}

#[test]
fn follow_ups_are_queued_in_their_order() {
    let mut loader = Loader::new(3);
    let first = loader.queue(Query::ItunesChart);
    assert_eq!(first.spawn, 1);
    assert!(matches!(loader.worker_next(), WorkerStep::Run { request_idx: 0, .. }));

    let queued = loader.queue_all(vec![
        image("a", Some(0)),
        image("b", Some(0)),
        feed("f"),
    ]);
    assert_eq!(queued.spawn, 2);
    assert!(queued.actions.is_empty());
    assert_eq!(loader.in_flight(), 3);
    assert_eq!(
        drain(&mut loader),
        vec![
            (String::from("feed f"), 3),
            (String::from("image a"), 1),
            (String::from("image b"), 2),
        ]
    );

    let mut idle = Loader::new(1);
    let queued = idle.queue_all(vec![lookup("1"), lookup("2")]);
    assert_eq!(queued.spawn, 1);
    assert_eq!(loading_actions(&queued.actions), vec![true]);
    let nothing = idle.queue_all(vec![]);
    assert_eq!(nothing.spawn, 0);
    assert!(nothing.actions.is_empty());
}

#[test]
fn a_loaded_image_is_refreshed_last() {
    let mut loader = Loader::new(0);
    loader.queue(loaded_image("old", None));
    loader.queue(image("new", None));
    let served: Vec<String> = drain(&mut loader).into_iter().map(|(name, _)| name).collect();
    assert_eq!(served, vec!["image new", "image old"]);
}
