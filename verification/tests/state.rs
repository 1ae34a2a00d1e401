use pyrocast::{
    ChannelCore, ChannelDetail, ChannelRef, Episode, EpisodeRef, Image, Playback, PlayerState,
    State, StateAction, StateError,
};

fn summary_of(pk: &str, title: &str) -> ChannelCore {
    ChannelCore::default()
        .with_pk(String::from(pk))
        .with_title(String::from(title))
}

fn searching_for(query: &str, keys: &[&str]) -> State {
    State::new().apply(vec![
        StateAction::SetSearchQuery(String::from(query)),
        StateAction::SetSearchFeed {
            query: String::from(query),
            results: Ok(keys.iter().map(|key| String::from(*key)).collect()),
        },
    ])
}

fn result_keys(state: &State) -> Vec<String> {
    state
        .search_results()
        .as_ref()
        .as_ref()
        .unwrap()
        .iter()
        .map(|handle| handle.pk().to_owned())
        .collect()
}

#[test]
fn scalar_settings_are_set() {
    let state = State::new().apply(vec![
        StateAction::SetCountry(String::from("NL")),
        StateAction::SetAllowExplicit(true),
        StateAction::SetLoading(false),
    ]);
    assert_eq!(state.country(), "NL");
    assert_eq!(state.allow_explicit(), true);
    assert_eq!(state.loading(), false);
}

#[test]
fn the_empty_batch_changes_nothing() {
    let state = searching_for("a", &["1"]).apply(vec![]);
    assert_eq!(state.search_query(), "a");
    assert_eq!(result_keys(&state), vec!["1"]);
}

#[test]
fn apply_leaves_the_snapshot_it_starts_from_alone() {
    let before = searching_for("a", &["1"]);
    let after = before.apply(vec![
        StateAction::SetSearchQuery(String::from("b")),
        StateAction::SetChannelCore(String::from("1"), Ok(summary_of("1", "One"))),
    ]);
    assert_eq!(before.search_query(), "a");
    assert_eq!(result_keys(&before), vec!["1"]);
    assert!(before.core_of("1").is_none());
    assert_eq!(after.search_query(), "b");
}

#[test]
fn a_new_query_resets_the_results() {
    let state = searching_for("a", &["1"]);
    let same = state.apply(vec![StateAction::SetSearchQuery(String::from("a"))]);
    assert_eq!(result_keys(&same), vec!["1"]);

    let other = state.apply(vec![StateAction::SetSearchQuery(String::from("b"))]);
    assert_eq!(other.search_query(), "b");
    assert_eq!(other.search_results().as_ref(), &Err(StateError::Loading));
}

#[test]
fn stale_search_results_are_dropped() {
    let state = State::new().apply(vec![
        StateAction::SetSearchQuery(String::from("A")),
        StateAction::SetSearchQuery(String::from("B")),
        StateAction::SetSearchFeed {
            query: String::from("A"),
            results: Ok(vec![String::from("1")]),
        },
    ]);
    assert_eq!(state.search_query(), "B");
    assert_eq!(state.search_results().as_ref(), &Err(StateError::Loading));

    let answered = state.apply(vec![StateAction::SetSearchFeed {
        query: String::from("B"),
        results: Ok(vec![String::from("2")]),
    }]);
    assert_eq!(result_keys(&answered), vec!["2"]);
}

#[test]
fn a_failed_search_shows_its_error() {
    let state = State::new().apply(vec![StateAction::SetSearchFeed {
        query: String::new(),
        results: Err(StateError::NetError(String::from("timed out"))),
    }]);
    assert_eq!(
        state.search_results().as_ref(),
        &Err(StateError::NetError(String::new()))
    );
    match state.search_results().as_ref() {
        Err(error) => assert_eq!(error.message(), "Network error: timed out"),
        Ok(_) => panic!("results after a failure"),
    }
}

#[test]
fn writes_for_unreferenced_channels_are_dropped() {
    let state = searching_for("a", &["1"]).apply(vec![
        StateAction::SetChannelCore(String::from("2"), Ok(summary_of("2", "Two"))),
        StateAction::SetChannelDetail(
            String::from("2"),
            Ok(ChannelDetail::default().with_pk(String::from("2"))),
        ),
        StateAction::SetChannelCore(String::from("3"), Err(StateError::DbError)),
    ]);
    assert!(state.core_of("2").is_none());
    assert!(state.detail_of("2").is_none());
    assert!(state.core_of("3").is_none());
}

#[test]
fn an_unreferenced_write_leaves_an_entry_as_it_was() {
    let held = searching_for("a", &["1"]).apply(vec![StateAction::SetChannelCore(
        String::from("1"),
        Ok(summary_of("1", "One")),
    )]);
    // A new search no longer refers to channel 1.
    let moved_on = held.apply(vec![
        StateAction::SetSearchQuery(String::from("b")),
        StateAction::SetChannelCore(String::from("1"), Ok(summary_of("1", "Changed"))),
    ]);
    let slot = moved_on.core_of("1").unwrap();
    assert_eq!(slot.as_ref().as_ref().unwrap().title(), "One");
}

#[test]
fn every_kind_of_reference_lets_a_channel_in() {
    let by_search_focus = State::new().apply(vec![
        StateAction::SetSearchFocus(Some(ChannelRef::new(String::from("1")))),
        StateAction::SetChannelCore(String::from("1"), Ok(summary_of("1", "One"))),
    ]);
    assert!(by_search_focus.core_of("1").is_some());
    assert_eq!(by_search_focus.search_focus().unwrap().pk(), "1");
    assert!(by_search_focus.references_channel("1"));
    assert!(!by_search_focus.references_channel("2"));

    let by_home_focus = State::new().apply(vec![
        StateAction::SetHomeFocus(Some(ChannelRef::new(String::from("1")))),
        StateAction::SetChannelDetail(
            String::from("1"),
            Ok(ChannelDetail::default().with_pk(String::from("1"))),
        ),
    ]);
    assert!(by_home_focus.detail_of("1").is_some());
    assert_eq!(by_home_focus.home_focus().unwrap().pk(), "1");

    let by_player = State::new().apply(vec![
        StateAction::SetPlayerState(Some(PlayerState {
            episode_pk: String::from("e"),
            channel_pk: String::from("1"),
            playback: Playback::Playing,
            time: 0,
            duration: 10,
            rate_bits: 1.0f64.to_bits(),
        })),
        StateAction::SetChannelCore(String::from("1"), Ok(summary_of("1", "One"))),
    ]);
    assert!(by_player.core_of("1").is_some());

    let by_nothing = State::new().apply(vec![
        StateAction::SetSearchFocus(Some(ChannelRef::new(String::from("1")))),
        StateAction::SetSearchFocus(None),
        StateAction::SetChannelCore(String::from("1"), Ok(summary_of("1", "One"))),
    ]);
    assert!(by_nothing.core_of("1").is_none());
}

#[test]
fn subscriptions_do_not_count_as_references() {
    let state = State::new().apply(vec![
        StateAction::SetSubscriptions(Ok(vec![ChannelRef::new(String::from("1"))])),
        StateAction::SetChannelCore(String::from("1"), Ok(summary_of("1", "One"))),
    ]);
    assert!(state.core_of("1").is_none());
    let list = state.subscriptions();
    assert_eq!(list.as_ref().as_ref().unwrap()[0].pk(), "1");
}

#[test]
fn a_newer_core_is_backfilled_from_the_older() {
    let old = summary_of("1", "Old")
        .with_author(String::from("Author"))
        .with_image_200(String::from("http://img/200"))
        .with_image_600(String::from("http://img/600"))
        .with_rss(String::from("http://feed"));
    let new = summary_of("1", "New").with_image_600(String::from("http://img/600b"));
    let state = searching_for("a", &["1"])
        .apply(vec![StateAction::SetChannelCore(String::from("1"), Ok(old))])
        .apply(vec![StateAction::SetChannelCore(String::from("1"), Ok(new))]);
    let slot = state.core_of("1").unwrap();
    let kept = slot.as_ref().as_ref().unwrap();
    assert_eq!(kept.title(), "New");
    assert_eq!(kept.author(), "");
    assert_eq!(kept.rss(), Some("http://feed"));
    assert!(state.references_image("http://img/200"));
    assert!(state.references_image("http://img/600b"));
    assert!(!state.references_image("http://img/600"));
}

#[test]
fn backfill_also_works_within_one_batch() {
    let old = summary_of("1", "Old").with_image_rss(String::from("http://img/rss"));
    let new = summary_of("1", "New");
    let state = searching_for("a", &["1"]).apply(vec![
        StateAction::SetChannelCore(String::from("1"), Ok(old)),
        StateAction::SetChannelCore(String::from("1"), Ok(new)),
    ]);
    assert!(state.references_image("http://img/rss"));
    let slot = state.core_of("1").unwrap();
    assert_eq!(slot.as_ref().as_ref().unwrap().title(), "New");
}

#[test]
fn an_error_is_not_backfilled_and_does_not_backfill() {
    let state = searching_for("a", &["1"])
        .apply(vec![StateAction::SetChannelCore(
            String::from("1"),
            Ok(summary_of("1", "Old").with_image_200(String::from("http://img/200"))),
        )])
        .apply(vec![StateAction::SetChannelCore(
            String::from("1"),
            Err(StateError::NetError(String::from("gone"))),
        )]);
    assert!(matches!(
        state.core_of("1").unwrap().as_ref(),
        Err(StateError::NetError(_))
    ));
    assert!(!state.references_image("http://img/200"));

    let again = state.apply(vec![StateAction::SetChannelCore(
        String::from("1"),
        Ok(summary_of("1", "New")),
    )]);
    assert!(!again.references_image("http://img/200"));
}

#[test]
fn images_are_kept_only_where_something_shows_them() {
    let state = searching_for("a", &["1"]).apply(vec![
        StateAction::SetChannelCore(
            String::from("1"),
            Ok(summary_of("1", "One").with_image_600(String::from("http://img/600"))),
        ),
        StateAction::SetImage(String::from("http://img/600"), Ok(Image::new("http://img/600"))),
        StateAction::SetImage(String::from("http://img/other"), Ok(Image::new("http://img/other"))),
    ]);
    assert!(state.image_of("http://img/600").is_some());
    assert!(state.image_of("http://img/other").is_none());
    assert!(state.references_image("http://img/600"));
    assert!(!state.references_image("http://img/other"));
}

#[test]
fn episodes_are_kept_whatever_refers_to_them() {
    let state = State::new().apply(vec![
        Episode::default()
            .with_pk(String::from("e1"))
            .with_title(String::from("Pilot"))
            .with_image(String::from("http://img/e1"))
            .build(),
        StateAction::SetImage(String::from("http://img/e1"), Err(StateError::DbError)),
    ]);
    let slot = state.episode_of("e1").unwrap();
    assert_eq!(slot.as_ref().as_ref().unwrap().title(), "Pilot");
    assert_eq!(
        state.image_of("http://img/e1").unwrap().as_ref(),
        &Err(StateError::DbError)
    );
    assert!(EpisodeRef::new(String::from("e1")).get(&state).is_some());
    assert!(EpisodeRef::new(String::from("e2")).get(&state).is_none());
}

#[test]
fn the_playing_episode_is_looked_up_by_the_player_state() {
    let player = PlayerState {
        episode_pk: String::from("e1"),
        channel_pk: String::from("c1"),
        playback: Playback::Paused,
        time: 5,
        duration: 50,
        rate_bits: 2.0f64.to_bits(),
    };
    let state = State::new().apply(vec![
        Episode::default().with_pk(String::from("e1")).build(),
        StateAction::SetPlayerState(Some(player)),
    ]);
    let slot = state.playing_episode().unwrap();
    assert_eq!(slot.as_ref().as_ref().unwrap().pk(), "e1");
    let shown = state.player_state();
    let shown = shown.as_ref().as_ref().unwrap();
    assert_eq!(shown.time, 5);
    assert_eq!(f64::from_bits(shown.rate_bits), 2.0);

    let stopped = state.apply(vec![StateAction::SetPlayerState(None)]);
    assert!(stopped.playing_episode().is_none());
}

fn with_images(images: Vec<(&str, Result<Image, StateError>)>) -> State {
    let mut actions = vec![
        StateAction::SetSearchFocus(Some(ChannelRef::new(String::from("c")))),
        StateAction::SetChannelCore(
            String::from("c"),
            Ok(summary_of("c", "Channel")
                .with_image_200(String::from("i200"))
                .with_image_600(String::from("i600"))
                .with_image_rss(String::from("irss"))),
        ),
        Episode::default()
            .with_pk(String::from("e"))
            .with_channel(String::from("c"))
            .with_image(String::from("iep"))
            .build(),
    ];
    for (key, image) in images {
        actions.push(StateAction::SetImage(String::from(key), image));
    }
    State::new().apply(actions)
}

fn loaded(key: &str) -> Result<Image, StateError> {
    let mut image = Image::new(key);
    image.data = Some(vec![1, 2, 3]);
    Ok(image)
}

fn shown(slot: Option<std::sync::Arc<Result<Image, StateError>>>) -> Option<Result<String, StateError>> {
    slot.map(|slot| match slot.as_ref() {
        Ok(image) => Ok(image.pk.clone()),
        Err(error) => Err(error.clone()),
    })
}

#[test]
fn the_small_image_prefers_200_then_600() {
    let channel = |state: &State| state.core_of("c").unwrap();
    let small = |state: &State| {
        shown(channel(state).as_ref().as_ref().unwrap().small_image(state))
    };

    assert_eq!(small(&with_images(vec![])), None);
    assert_eq!(
        small(&with_images(vec![("i200", loaded("i200")), ("i600", loaded("i600"))])),
        Some(Ok(String::from("i200")))
    );
    assert_eq!(
        small(&with_images(vec![("i600", loaded("i600"))])),
        Some(Ok(String::from("i600")))
    );
    assert_eq!(
        small(&with_images(vec![("i200", Err(StateError::DbError)), ("i600", loaded("i600"))])),
        Some(Ok(String::from("i600")))
    );
    assert_eq!(
        small(&with_images(vec![
            ("i200", Err(StateError::DbError)),
            ("i600", Err(StateError::Loading))
        ])),
        Some(Err(StateError::Loading))
    );
    assert_eq!(
        small(&with_images(vec![("i200", Err(StateError::DbError))])),
        Some(Err(StateError::DbError))
    );
    assert_eq!(small(&with_images(vec![("irss", loaded("irss"))])), None);
}

#[test]
fn the_big_image_prefers_600_then_the_feeds() {
    let big = |state: &State| {
        shown(state.core_of("c").unwrap().as_ref().as_ref().unwrap().big_image(state))
    };
    assert_eq!(big(&with_images(vec![])), None);
    assert_eq!(
        big(&with_images(vec![("i600", loaded("i600")), ("irss", loaded("irss"))])),
        Some(Ok(String::from("i600")))
    );
    assert_eq!(
        big(&with_images(vec![("i600", Err(StateError::DbError)), ("irss", loaded("irss"))])),
        Some(Ok(String::from("irss")))
    );
    assert_eq!(
        big(&with_images(vec![("i600", Err(StateError::DbError))])),
        Some(Err(StateError::DbError))
    );
    assert_eq!(big(&with_images(vec![("i200", loaded("i200"))])), None);
}

#[test]
fn an_episode_shows_its_own_image_or_its_channels() {
    let image = |state: &State| {
        shown(state.episode_of("e").unwrap().as_ref().as_ref().unwrap().image(state))
    };
    assert_eq!(image(&with_images(vec![])), None);
    assert_eq!(
        image(&with_images(vec![("iep", loaded("iep")), ("i600", loaded("i600"))])),
        Some(Ok(String::from("iep")))
    );
    assert_eq!(
        image(&with_images(vec![("iep", Err(StateError::DbError)), ("i600", loaded("i600"))])),
        Some(Ok(String::from("i600")))
    );
    assert_eq!(
        image(&with_images(vec![("irss", loaded("irss"))])),
        Some(Ok(String::from("irss")))
    );
    assert_eq!(
        image(&with_images(vec![("iep", Err(StateError::DbError))])),
        Some(Err(StateError::DbError))
    );
}

#[test]
fn an_episode_names_its_channel() {
    let episode = Episode::default()
        .with_pk(String::from("e"))
        .with_channel(String::from("c"))
        .with_title(String::from("t"))
        .with_url(String::from("u"))
        .with_date(String::from("d"))
        .with_description(String::from("x"))
        .with_duration(String::from("1:00"))
        .with_audio(String::from("a"));
    assert_eq!(episode.channel().pk(), "c");
    assert_eq!(episode.pk(), "e");
    assert_eq!(episode.title(), "t");
    assert_eq!(episode.url(), "u");
    assert_eq!(episode.date(), "d");
    assert_eq!(episode.description(), "x");
    assert_eq!(episode.duration(), "1:00");
    assert_eq!(episode.audio(), "a");
    let copy = episode.clone();
    assert_eq!(copy.channel(), episode.channel());
}

#[test]
fn details_list_their_episodes_in_order() {
    let detail = ChannelDetail::default()
        .with_pk(String::from("c"))
        .with_description(String::from("about"))
        .with_link(String::from("http://c"))
        .with_episodes(&[String::from("e2"), String::from("e1")]);
    assert_eq!(detail.pk(), "c");
    assert_eq!(detail.description(), "about");
    assert_eq!(detail.link(), "http://c");
    let keys: Vec<&str> = detail.episodes().iter().map(EpisodeRef::pk).collect();
    assert_eq!(keys, vec!["e2", "e1"]);
    assert_eq!(detail.clone().episodes(), detail.episodes());

    let state = State::new().apply(vec![
        StateAction::SetHomeFocus(Some(ChannelRef::new(String::from("c")))),
        summary_of("c", "Channel").build(),
        detail.build(),
    ]);
    let slot = state.detail_of("c").unwrap();
    let held = slot.as_ref().as_ref().unwrap();
    assert_eq!(held.channel_core(&state).unwrap().as_ref().as_ref().unwrap().title(), "Channel");
    let summary = state.core_of("c").unwrap();
    let summary = summary.as_ref().as_ref().unwrap();
    assert_eq!(summary.details(&state).unwrap().as_ref().as_ref().unwrap().link(), "http://c");
}

#[test]
fn build_writes_under_the_entitys_own_key() {
    match summary_of("k", "t").build() {
        StateAction::SetChannelCore(key, Ok(core)) => {
            assert_eq!(key, "k");
            assert_eq!(core.pk(), "k");
        }
        other => panic!("unexpected action {:?}", other),
    }
    match ChannelDetail::default().with_pk(String::from("k")).build() {
        StateAction::SetChannelDetail(key, Ok(_)) => assert_eq!(key, "k"),
        other => panic!("unexpected action {:?}", other),
    }
    match Episode::default().with_pk(String::from("k")).build() {
        StateAction::SetEpisode(key, Ok(_)) => assert_eq!(key, "k"),
        other => panic!("unexpected action {:?}", other),
    }
}

#[test]
fn errors_say_what_failed() {
    assert_eq!(StateError::Loading.message(), "Loading...");
    assert_eq!(StateError::DbError.message(), "Database error...");
    assert_eq!(
        StateError::UrlParseError(String::from("empty host")).message(),
        "Could not parse URL: empty host"
    );
    assert_eq!(
        StateError::NetError(String::from("404")).message(),
        "Network error: 404"
    );
    assert_eq!(
        StateError::IoError(String::from("broken pipe")).message(),
        "IO Error: broken pipe"
    );
    assert_eq!(
        StateError::XmlError(String::from("unexpected end")).message(),
        "Xml Error: unexpected end"
    );
}

#[test]
fn errors_compare_by_variant() {
    assert_eq!(StateError::default(), StateError::Loading);
    assert_eq!(
        StateError::NetError(String::from("a")),
        StateError::NetError(String::from("b"))
    );
    assert_ne!(
        StateError::NetError(String::from("a")),
        StateError::IoError(String::from("a"))
    );
    assert_ne!(StateError::Loading, StateError::DbError);
    let copy = StateError::XmlError(String::from("x")).clone();
    assert_eq!(copy.message(), "Xml Error: x");
}

#[test]
fn an_image_is_loaded_once_it_has_bytes() {
    let mut image = Image::new("http://img");
    assert_eq!(image.pk, "http://img");
    assert!(image.mimetype.is_none() && image.etag.is_none() && image.last_modified.is_none());
    assert_eq!(image.loaded(), false);
    assert_eq!(image.summary(), "Image {pk: http://img, loaded: false}");
    image.data = Some(vec![]);
    assert_eq!(image.loaded(), true);
    assert_eq!(image.summary(), "Image {pk: http://img, loaded: true}");
}

#[test]
fn images_compare_by_key_and_etag() {
    let mut a = Image::new("k");
    let mut b = Image::new("k");
    assert!(a == b);
    b.data = Some(vec![1]);
    b.mimetype = Some(String::from("image/png"));
    assert!(a == b);
    b.etag = Some(String::from("v1"));
    assert!(a != b);
    a.etag = Some(String::from("v1"));
    assert!(a == b);
    assert!(a != Image::new("other"));
}

#[test]
fn playback_is_active_unless_stopped() {
    assert_eq!(Playback::Stopped.active(), false);
    assert_eq!(Playback::Buffering.active(), true);
    assert_eq!(Playback::Paused.active(), true);
    assert_eq!(Playback::Playing.active(), true);
}

#[test]
fn handles_compare_by_key() {
    assert_eq!(ChannelRef::new(String::from("a")), ChannelRef::new(String::from("a")));
    assert_ne!(ChannelRef::new(String::from("a")), ChannelRef::new(String::from("b")));
    assert_eq!(EpisodeRef::new(String::from("a")), EpisodeRef::new(String::from("a")));
    assert_ne!(EpisodeRef::new(String::from("a")), EpisodeRef::new(String::from("b")));
}

#[test]
fn a_later_write_replaces_the_slot() {
    let state = searching_for("a", &["1", "2"]).apply(vec![
        StateAction::SetChannelCore(String::from("1"), Ok(summary_of("1", "One"))),
        StateAction::SetChannelCore(String::from("2"), Ok(summary_of("2", "Two"))),
        StateAction::SetChannelCore(String::from("1"), Ok(summary_of("1", "Uno"))),
    ]);
    assert_eq!(state.core_of("1").unwrap().as_ref().as_ref().unwrap().title(), "Uno");
    assert_eq!(state.core_of("2").unwrap().as_ref().as_ref().unwrap().title(), "Two");
    assert_eq!(State::default().country(), "CA");
}
