use pyrocast::{ChannelRef, CurrentState, Episode, Image, State, StateAction, StateError};

fn wait_for_update(store: &mut CurrentState) {
    while !store.try_next() {
        store.writer_turn();
    }
}

#[test]
fn smoke() {
    let mut current_state = CurrentState::new();

    assert_eq!(current_state.get().search_query(), "");
    assert_eq!(current_state.try_next(), false);

    current_state.update(vec![StateAction::SetSearchQuery(String::from(
        "This American Life",
    ))]);
    assert_eq!(current_state.get().search_query(), "");

    wait_for_update(&mut current_state);
    assert_eq!(current_state.get().search_query(), "This American Life");
    assert_eq!(
        current_state.get().search_results().as_ref(),
        &Err(StateError::Loading)
    );

    let first = current_state
        .get()
        .new_channel_core()
        .with_pk(String::from("tal"))
        .with_title(String::from("This American Life"))
        .build();
    let second = current_state
        .get()
        .new_channel_core()
        .with_pk(String::from("invalid"))
        .with_title(String::from("Not present"))
        .build();
    current_state.update(vec![
        StateAction::SetSearchFeed {
            query: String::from("This American Life"),
            results: Ok(vec![String::from("tal")]),
        },
        first,
        second,
    ]);
    wait_for_update(&mut current_state);

    let state = current_state.get();
    let search = state.search_results();
    let search = Result::as_ref(&search).unwrap();
    let core = search.get(0).unwrap().channel_core(&state);
    let core = core.as_deref();
    assert_eq!(
        core.unwrap().as_ref().unwrap().title(),
        "This American Life"
    );
    assert!(current_state.get().core_of("invalid").is_none());
}

#[test]
fn end_to_end_search_for_serial() {
    let mut store = CurrentState::new();
    store.update(vec![StateAction::SetSearchQuery(String::from("Serial"))]);
    wait_for_update(&mut store);
    assert_eq!(store.get().search_results().as_ref(), &Err(StateError::Loading));

    let core = store
        .get()
        .new_channel_core()
        .with_pk(String::from("123"))
        .with_title(String::from("Serial"));
    store.update(vec![
        StateAction::SetSearchFeed {
            query: String::from("Serial"),
            results: Ok(vec![String::from("123")]),
        },
        StateAction::SetChannelCore(String::from("123"), Ok(core)),
    ]);
    wait_for_update(&mut store);

    let state = store.get();
    let results = state.search_results();
    let results = results.as_ref().as_ref().unwrap();
    assert_eq!(results.len(), 1);
    assert_eq!(results[0].pk(), "123");
    let slot = results[0].channel_core(&state).unwrap();
    assert_eq!(slot.as_ref().as_ref().unwrap().title(), "Serial");
}

#[test]
fn a_new_store_holds_the_initial_state() {
    let mut store = CurrentState::new();
    let state = store.get();
    assert_eq!(state.country(), "CA");
    assert_eq!(state.allow_explicit(), false);
    assert_eq!(state.search_query(), "");
    assert!(state.search_focus().is_none());
    assert!(state.home_focus().is_none());
    assert_eq!(state.loading(), true);
    assert_eq!(state.search_results().as_ref(), &Err(StateError::Loading));
    assert_eq!(state.subscriptions().as_ref(), &Err(StateError::Loading));
    assert!(state.player_state().is_none());
    assert!(state.playing_episode().is_none());
    assert_eq!(store.try_next(), false);
}

#[test]
fn a_batch_is_not_seen_before_the_writer_turns() {
    let mut store = CurrentState::new();
    store.update(vec![
        StateAction::SetCountry(String::from("DE")),
        StateAction::SetAllowExplicit(true),
    ]);
    let before = store.get();
    assert_eq!(before.country(), "CA");
    assert_eq!(before.allow_explicit(), false);

    assert_eq!(store.writer_turn(), true);
    let after = store.get();
    assert_eq!(after.country(), "DE");
    assert_eq!(after.allow_explicit(), true);

    // The snapshot taken earlier has not changed.
    assert_eq!(before.country(), "CA");
    assert_eq!(before.allow_explicit(), false);
}

#[test]
fn batches_are_applied_in_the_order_of_arrival() {
    let mut store = CurrentState::new();
    store.update(vec![StateAction::SetCountry(String::from("DE"))]);
    store.update(vec![StateAction::SetCountry(String::from("FR"))]);
    store.update(vec![StateAction::SetCountry(String::from("IT"))]);

    assert_eq!(store.writer_turn(), true);
    assert_eq!(store.get().country(), "DE");
    assert_eq!(store.writer_turn(), true);
    assert_eq!(store.get().country(), "FR");
    assert_eq!(store.writer_turn(), true);
    assert_eq!(store.get().country(), "IT");
    assert_eq!(store.writer_turn(), false);
    assert_eq!(store.get().country(), "IT");
}

#[test]
fn the_signal_is_raised_once_for_a_burst() {
    let mut store = CurrentState::new();
    store.update(vec![StateAction::SetLoading(false)]);
    store.update(vec![StateAction::SetLoading(true)]);

    // No signal while batches wait.
    assert_eq!(store.writer_turn(), true);
    assert_eq!(store.try_next(), false);
    assert_eq!(store.writer_turn(), true);
    assert_eq!(store.try_next(), false);

    // Idle turns raise the one signal; raising it again changes nothing.
    assert_eq!(store.writer_turn(), false);
    assert_eq!(store.writer_turn(), false);
    assert_eq!(store.try_next(), true);
    assert_eq!(store.try_next(), false);
}

#[test]
fn writer_step_applies_a_batch_as_a_whole() {
    let state = State::new();
    let step = pyrocast::writer_step(
        &state,
        pyrocast::Inbox::Batch(vec![
            StateAction::SetSearchQuery(String::from("a")),
            StateAction::SetSearchFeed {
                query: String::from("a"),
                results: Ok(vec![String::from("1"), String::from("2")]),
            },
        ]),
    );
    match step {
        pyrocast::WriterStep::Publish(next) => {
            assert_eq!(next.search_query(), "a");
            let results = next.search_results();
            let keys: Vec<&str> = results
                .as_ref()
                .as_ref()
                .unwrap()
                .iter()
                .map(ChannelRef::pk)
                .collect();
            assert_eq!(keys, vec!["1", "2"]);
        }
        other => panic!("unexpected step {:?}", other),
    }
    assert!(matches!(
        pyrocast::writer_step(&state, pyrocast::Inbox::Empty),
        pyrocast::WriterStep::Notify
    ));
    assert!(matches!(
        pyrocast::writer_step(&state, pyrocast::Inbox::Closed),
        pyrocast::WriterStep::Stop
    ));
}

#[test]
fn handles_resolve_against_the_snapshot_they_are_given() {
    let mut store = CurrentState::new();
    let handle = store.get().channel_ref(String::from("7"));
    store.update(vec![
        StateAction::SetSearchFocus(Some(handle.clone())),
        StateAction::SetChannelCore(
            String::from("7"),
            Ok(State::new().new_channel_core().with_pk(String::from("7")).with_title(String::from("Old"))),
        ),
    ]);
    store.writer_turn();
    let old = store.get();
    store.update(vec![StateAction::SetChannelCore(
        String::from("7"),
        Ok(State::new().new_channel_core().with_pk(String::from("7")).with_title(String::from("New"))),
    )]);
    store.writer_turn();
    let new = store.get();

    let in_old = handle.channel_core(&old).unwrap();
    let in_new = handle.channel_core(&new).unwrap();
    assert_eq!(in_old.as_ref().as_ref().unwrap().title(), "Old");
    assert_eq!(in_new.as_ref().as_ref().unwrap().title(), "New");
    assert!(handle.details(&new).is_none());
}

#[test]
fn episodes_and_images_go_through_the_store() {
    let mut store = CurrentState::new();
    let episode = Episode::default()
        .with_pk(String::from("e1"))
        .with_channel(String::from("c1"))
        .with_image(String::from("http://img/e1"));
    store.update(vec![
        episode.build(),
        StateAction::SetImage(String::from("http://img/e1"), Ok(Image::new("http://img/e1"))),
    ]);
    store.writer_turn();
    let state = store.get();
    assert!(state.episode_of("e1").is_some());
    assert!(state.image_of("http://img/e1").is_some());
}
