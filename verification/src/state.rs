//! Snapshots of the store, and the actions that change them.
use vstd::prelude::*;
use std::sync::Arc;
use crate::channel_core::{ChannelCore, ChannelCoreView};
use crate::channel_detail::{ChannelDetail, ChannelDetailView};
use crate::channel_ref::{channel_keys, ChannelRef};
use crate::episode::{Episode, EpisodeView};
use crate::image::{Image, ImageView};
use crate::player_state::{PlayerState, PlayerStateView};
use crate::state_error::{StateError, StateErrorView};
use crate::table::{share, slot_view, Slot, Table};
use crate::text::texts;

verus! {

/// One change to the store.
#[derive(Debug)]
pub enum StateAction {
    SetCountry(String),
    SetAllowExplicit(bool),
    /// A new query empties the search results. The query that is already
    /// set changes nothing.
    SetSearchQuery(String),
    SetSearchFocus(Option<ChannelRef>),
    /// The results of the search for `query`. They are dropped unless
    /// `query` still is the query of the store.
    SetSearchFeed { query: String, results: Result<Vec<String>, StateError> },
    SetHomeFocus(Option<ChannelRef>),
    /// Dropped unless something refers to the channel.
    SetChannelCore(String, Result<ChannelCore, StateError>),
    /// Dropped unless something refers to the channel.
    SetChannelDetail(String, Result<ChannelDetail, StateError>),
    SetEpisode(String, Result<Episode, StateError>),
    /// Dropped unless a channel or an episode of the store shows the image.
    SetImage(String, Result<Image, StateError>),
    SetLoading(bool),
    SetPlayerState(Option<PlayerState>),
    SetSubscriptions(Result<Vec<ChannelRef>, StateError>),
}

/// The mathematical value of a [`StateAction`].
pub enum StateActionView {
    SetCountry(Seq<char>),
    SetAllowExplicit(bool),
    SetSearchQuery(Seq<char>),
    SetSearchFocus(Option<Seq<char>>),
    SetSearchFeed { query: Seq<char>, results: Result<Seq<Seq<char>>, StateErrorView> },
    SetHomeFocus(Option<Seq<char>>),
    SetChannelCore(Seq<char>, Result<ChannelCoreView, StateErrorView>),
    SetChannelDetail(Seq<char>, Result<ChannelDetailView, StateErrorView>),
    SetEpisode(Seq<char>, Result<EpisodeView, StateErrorView>),
    SetImage(Seq<char>, Result<ImageView, StateErrorView>),
    SetLoading(bool),
    SetPlayerState(Option<PlayerStateView>),
    SetSubscriptions(Result<Seq<Seq<char>>, StateErrorView>),
}

/// The key of a handle that may be missing.
pub open spec fn focus_view(focus: &Option<ChannelRef>) -> Option<Seq<char>> {
    match *focus {
        Some(handle) => Some(handle@),
        None => None,
    }
}

/// The keys of a list of handles, or the reason why there is no list.
pub open spec fn refs_view(list: &Result<Vec<ChannelRef>, StateError>) -> Result<
    Seq<Seq<char>>,
    StateErrorView,
> {
    match *list {
        Ok(refs) => Ok(channel_keys(refs@)),
        Err(error) => Err(error@),
    }
}

/// A list of keys, or the reason why there is no list.
pub open spec fn keys_view(list: &Result<Vec<String>, StateError>) -> Result<
    Seq<Seq<char>>,
    StateErrorView,
> {
    match *list {
        Ok(keys) => Ok(texts(keys@)),
        Err(error) => Err(error@),
    }
}

/// The player's status, where there is a player.
pub open spec fn player_view(player: &Option<PlayerState>) -> Option<PlayerStateView> {
    match *player {
        Some(status) => Some(status@),
        None => None,
    }
}

impl View for StateAction {
    type V = StateActionView;

    open spec fn view(&self) -> StateActionView {
        match *self {
            StateAction::SetCountry(country) => StateActionView::SetCountry(country@),
            StateAction::SetAllowExplicit(allow) => StateActionView::SetAllowExplicit(allow),
            StateAction::SetSearchQuery(query) => StateActionView::SetSearchQuery(query@),
            StateAction::SetSearchFocus(focus) => StateActionView::SetSearchFocus(
                focus_view(&focus),
            ),
            StateAction::SetSearchFeed { query, results } => StateActionView::SetSearchFeed {
                query: query@,
                results: keys_view(&results),
            },
            StateAction::SetHomeFocus(focus) => StateActionView::SetHomeFocus(focus_view(&focus)),
            StateAction::SetChannelCore(pk, core) => StateActionView::SetChannelCore(
                pk@,
                slot_view(&core),
            ),
            StateAction::SetChannelDetail(pk, detail) => StateActionView::SetChannelDetail(
                pk@,
                slot_view(&detail),
            ),
            StateAction::SetEpisode(pk, episode) => StateActionView::SetEpisode(
                pk@,
                slot_view(&episode),
            ),
            StateAction::SetImage(pk, image) => StateActionView::SetImage(pk@, slot_view(&image)),
            StateAction::SetLoading(loading) => StateActionView::SetLoading(loading),
            StateAction::SetPlayerState(player) => StateActionView::SetPlayerState(
                player_view(&player),
            ),
            StateAction::SetSubscriptions(list) => StateActionView::SetSubscriptions(
                refs_view(&list),
            ),
        }
    }
}

/// The mathematical values of a batch of actions, in the batch's order.
pub open spec fn action_views(actions: Seq<StateAction>) -> Seq<StateActionView> {
    actions.map_values(|action: StateAction| action@)
}

/// Whether the slot holds a channel summary that shows the image at `url`.
pub open spec fn core_shows(slot: Result<ChannelCoreView, StateErrorView>, url: Seq<char>) -> bool {
    match slot {
        Ok(core) => core.references_image(url),
        Err(_) => false,
    }
}

/// Whether the slot holds an episode that shows the image at `url`.
pub open spec fn episode_shows(slot: Result<EpisodeView, StateErrorView>, url: Seq<char>) -> bool {
    match slot {
        Ok(episode) => episode.references_image(url),
        Err(_) => false,
    }
}

/// The mathematical value of a [`State`]: the settings, the search, the
/// four maps from keys to slots, and what the player and the database last
/// reported.
pub struct StateView {
    pub country: Seq<char>,
    pub allow_explicit: bool,
    pub search_query: Seq<char>,
    pub search_focus: Option<Seq<char>>,
    pub home_focus: Option<Seq<char>>,
    pub search_results: Result<Seq<Seq<char>>, StateErrorView>,
    pub channel_core: Map<Seq<char>, Result<ChannelCoreView, StateErrorView>>,
    pub channel_detail: Map<Seq<char>, Result<ChannelDetailView, StateErrorView>>,
    pub episodes: Map<Seq<char>, Result<EpisodeView, StateErrorView>>,
    pub images: Map<Seq<char>, Result<ImageView, StateErrorView>>,
    pub player_state: Option<PlayerStateView>,
    pub subscriptions: Result<Seq<Seq<char>>, StateErrorView>,
    pub loading: bool,
}

impl StateView {
    /// The state of a store to which nothing has been written yet.
    pub open spec fn initial() -> StateView {
        StateView {
            country: "CA"@,
            allow_explicit: false,
            search_query: Seq::empty(),
            search_focus: None,
            home_focus: None,
            search_results: Err(StateErrorView::Loading),
            channel_core: Map::empty(),
            channel_detail: Map::empty(),
            episodes: Map::empty(),
            images: Map::empty(),
            player_state: None,
            subscriptions: Err(StateErrorView::Loading),
            loading: true,
        }
    }

    /// Whether something refers to the channel `key`: the search results,
    /// the focus of the search or of the home view, or the player.
    pub open spec fn references_channel(self, key: Seq<char>) -> bool {
        ||| self.search_focus == Some(key)
        ||| self.home_focus == Some(key)
        ||| match self.search_results {
            Ok(keys) => keys.contains(key),
            Err(_) => false,
        }
        ||| match self.player_state {
            Some(player) => player.channel_pk == key,
            None => false,
        }
    }

    /// Whether a channel summary or an episode of the state shows the image
    /// at `url`.
    pub open spec fn references_image(self, url: Seq<char>) -> bool {
        ||| (exists|key: Seq<char>|
            self.channel_core.contains_key(key) && core_shows(#[trigger] self.channel_core[key], url))
        ||| (exists|key: Seq<char>|
            self.episodes.contains_key(key) && episode_shows(#[trigger] self.episodes[key], url))
    }

    /// What is written for a new summary of the channel `key`: an error as
    /// it is, a summary with each URL that it lacks taken from the summary
    /// that the state already holds.
    pub open spec fn merged_core(
        self,
        key: Seq<char>,
        core: Result<ChannelCoreView, StateErrorView>,
    ) -> Result<ChannelCoreView, StateErrorView> {
        match core {
            Ok(new) => if self.channel_core.contains_key(key) {
                match self.channel_core[key] {
                    Ok(previous) => Ok(new.backfilled(previous)),
                    Err(_) => Ok(new),
                }
            } else {
                Ok(new)
            },
            Err(error) => Err(error),
        }
    }

    /// The state after one action.
    pub open spec fn step(self, action: StateActionView) -> StateView {
        match action {
            StateActionView::SetCountry(country) => StateView { country, ..self },
            StateActionView::SetAllowExplicit(allow_explicit) => StateView {
                allow_explicit,
                ..self
            },
            StateActionView::SetSearchQuery(query) => if self.search_query != query {
                StateView {
                    search_query: query,
                    search_results: Err(StateErrorView::Loading),
                    ..self
                }
            } else {
                self
            },
            StateActionView::SetSearchFocus(search_focus) => StateView { search_focus, ..self },
            StateActionView::SetSearchFeed { query, results } => if self.search_query == query {
                StateView { search_results: results, ..self }
            } else {
                self
            },
            StateActionView::SetHomeFocus(home_focus) => StateView { home_focus, ..self },
            StateActionView::SetChannelCore(key, core) => if self.references_channel(key) {
                StateView {
                    channel_core: self.channel_core.insert(key, self.merged_core(key, core)),
                    ..self
                }
            } else {
                self
            },
            StateActionView::SetChannelDetail(key, detail) => if self.references_channel(key) {
                StateView { channel_detail: self.channel_detail.insert(key, detail), ..self }
            } else {
                self
            },
            StateActionView::SetEpisode(key, episode) => StateView {
                episodes: self.episodes.insert(key, episode),
                ..self
            },
            StateActionView::SetImage(key, image) => if self.references_image(key) {
                StateView { images: self.images.insert(key, image), ..self }
            } else {
                self
            },
            StateActionView::SetLoading(loading) => StateView { loading, ..self },
            StateActionView::SetPlayerState(player_state) => StateView { player_state, ..self },
            StateActionView::SetSubscriptions(subscriptions) => StateView {
                subscriptions,
                ..self
            },
        }
    }

    /// The state after a batch of actions, applied one after the other.
    pub open spec fn run(self, actions: Seq<StateActionView>) -> StateView
        decreases actions.len(),
    {
        if actions.len() == 0 {
            self
        } else {
            self.run(actions.drop_last()).step(actions.last())
        }
    }
}

impl StateView {
    /// A write for a channel that nothing refers to changes nothing, be it
    /// of the summary or of the details; so does the write of an image that
    /// no channel summary and no episode of the state shows.
    pub proof fn lemma_unreferenced_writes_are_dropped(
        self,
        key: Seq<char>,
        core: Result<ChannelCoreView, StateErrorView>,
        detail: Result<ChannelDetailView, StateErrorView>,
        image: Result<ImageView, StateErrorView>,
    )
        ensures
            !self.references_channel(key) ==> self.step(StateActionView::SetChannelCore(key, core))
                == self,
            !self.references_channel(key) ==> self.step(
                StateActionView::SetChannelDetail(key, detail),
            ) == self,
            !self.references_image(key) ==> self.step(StateActionView::SetImage(key, image))
                == self,
    {
    }

    /// A write to one of the four maps leaves every other key of that map,
    /// and the three other maps, as they were.
    pub proof fn lemma_writes_touch_one_key(self, action: StateActionView, other: Seq<char>)
        ensures
            match action {
                StateActionView::SetChannelCore(key, _) => {
                    &&& self.step(action) == (StateView {
                        channel_core: self.step(action).channel_core,
                        ..self
                    })
                    &&& other != key ==> self.step(action).channel_core.contains_key(other)
                        == self.channel_core.contains_key(other)
                    &&& other != key ==> self.step(action).channel_core[other]
                        == self.channel_core[other]
                },
                StateActionView::SetChannelDetail(key, _) => {
                    &&& self.step(action) == (StateView {
                        channel_detail: self.step(action).channel_detail,
                        ..self
                    })
                    &&& other != key ==> self.step(action).channel_detail.contains_key(other)
                        == self.channel_detail.contains_key(other)
                    &&& other != key ==> self.step(action).channel_detail[other]
                        == self.channel_detail[other]
                },
                StateActionView::SetEpisode(key, _) => {
                    &&& self.step(action) == (StateView {
                        episodes: self.step(action).episodes,
                        ..self
                    })
                    &&& other != key ==> self.step(action).episodes.contains_key(other)
                        == self.episodes.contains_key(other)
                    &&& other != key ==> self.step(action).episodes[other] == self.episodes[other]
                },
                StateActionView::SetImage(key, _) => {
                    &&& self.step(action) == (StateView {
                        images: self.step(action).images,
                        ..self
                    })
                    &&& other != key ==> self.step(action).images.contains_key(other)
                        == self.images.contains_key(other)
                    &&& other != key ==> self.step(action).images[other] == self.images[other]
                },
                _ => {
                    &&& self.step(action).channel_core == self.channel_core
                    &&& self.step(action).channel_detail == self.channel_detail
                    &&& self.step(action).episodes == self.episodes
                    &&& self.step(action).images == self.images
                },
            },
    {
    }

    /// No action takes a key out of one of the four maps.
    pub proof fn lemma_slots_stay(self, action: StateActionView, key: Seq<char>)
        ensures
            self.channel_core.contains_key(key) ==> self.step(action).channel_core.contains_key(
                key,
            ),
            self.channel_detail.contains_key(key) ==> self.step(
                action,
            ).channel_detail.contains_key(key),
            self.episodes.contains_key(key) ==> self.step(action).episodes.contains_key(key),
            self.images.contains_key(key) ==> self.step(action).images.contains_key(key),
    {
    }

    /// A new summary of a channel that something refers to never loses a
    /// URL: where the state holds a summary of the channel, the summary
    /// written has each of the four URLs that the new one brings, and for
    /// each that the new one lacks the URL that the state held.
    pub proof fn lemma_core_write_keeps_urls(
        self,
        key: Seq<char>,
        previous: ChannelCoreView,
        new: ChannelCoreView,
    )
        requires
            self.references_channel(key),
            self.channel_core.contains_key(key),
            self.channel_core[key] == Ok::<ChannelCoreView, StateErrorView>(previous),
        ensures
            self.step(StateActionView::SetChannelCore(key, Ok(new))).channel_core[key] == Ok::<
                ChannelCoreView,
                StateErrorView,
            >(new.backfilled(previous)),
            new.backfilled(previous).image_200 == if new.image_200 is Some {
                new.image_200
            } else {
                previous.image_200
            },
            new.backfilled(previous).image_600 == if new.image_600 is Some {
                new.image_600
            } else {
                previous.image_600
            },
            new.backfilled(previous).image_rss == if new.image_rss is Some {
                new.image_rss
            } else {
                previous.image_rss
            },
            new.backfilled(previous).rss == if new.rss is Some {
                new.rss
            } else {
                previous.rss
            },
            new.backfilled(previous).pk == new.pk,
            new.backfilled(previous).title == new.title,
            new.backfilled(previous).author == new.author,
    {
    }

    /// Two summaries of a channel that something refers to, written one
    /// after the other: the channel's slot then holds the second, with each
    /// URL that the second lacks and the first had taken from the first.
    pub proof fn lemma_backfill(self, key: Seq<char>, old: ChannelCoreView, new: ChannelCoreView)
        requires
            self.references_channel(key),
        ensures
            ({
                let after = self.step(StateActionView::SetChannelCore(key, Ok(old))).step(
                    StateActionView::SetChannelCore(key, Ok(new)),
                );
                &&& after.channel_core.contains_key(key)
                &&& after.channel_core[key] matches Ok(kept)
                &&& kept.pk == new.pk && kept.title == new.title && kept.author == new.author
                &&& new.image_200 is Some ==> kept.image_200 == new.image_200
                &&& new.image_600 is Some ==> kept.image_600 == new.image_600
                &&& new.image_rss is Some ==> kept.image_rss == new.image_rss
                &&& new.rss is Some ==> kept.rss == new.rss
                &&& new.image_200 is None && old.image_200 is Some ==> kept.image_200
                    == old.image_200
                &&& new.image_600 is None && old.image_600 is Some ==> kept.image_600
                    == old.image_600
                &&& new.image_rss is None && old.image_rss is Some ==> kept.image_rss
                    == old.image_rss
                &&& new.rss is None && old.rss is Some ==> kept.rss == old.rss
            }),
    {
        let first = self.step(StateActionView::SetChannelCore(key, Ok(old)));
        assert(first.references_channel(key));
        assert(first.channel_core.contains_key(key));
    }

    /// A new query empties the search results; the query that is already
    /// set changes nothing.
    pub proof fn lemma_new_query_resets_results(self, query: Seq<char>)
        ensures
            self.step(StateActionView::SetSearchQuery(query)).search_query == query,
            query != self.search_query ==> self.step(
                StateActionView::SetSearchQuery(query),
            ).search_results == Err::<Seq<Seq<char>>, StateErrorView>(StateErrorView::Loading),
            query == self.search_query ==> self.step(StateActionView::SetSearchQuery(query))
                == self,
    {
    }

    /// Search results for another query than the one that is set change
    /// nothing; those for the query that is set become the results.
    pub proof fn lemma_stale_feed_is_dropped(
        self,
        query: Seq<char>,
        results: Result<Seq<Seq<char>>, StateErrorView>,
    )
        ensures
            query != self.search_query ==> self.step(
                StateActionView::SetSearchFeed { query, results },
            ) == self,
            query == self.search_query ==> self.step(
                StateActionView::SetSearchFeed { query, results },
            ) == (StateView { search_results: results, ..self }),
    {
    }

    /// After a query and then another one, results that arrive for the
    /// first are dropped: the search still waits for the second query's.
    pub proof fn lemma_superseded_search(
        self,
        first: Seq<char>,
        second: Seq<char>,
        results: Result<Seq<Seq<char>>, StateErrorView>,
    )
        requires
            first != second,
        ensures
            self.step(StateActionView::SetSearchQuery(first)).step(
                StateActionView::SetSearchQuery(second),
            ).step(StateActionView::SetSearchFeed { query: first, results }).search_results
                == Err::<Seq<Seq<char>>, StateErrorView>(StateErrorView::Loading),
            self.step(StateActionView::SetSearchQuery(first)).step(
                StateActionView::SetSearchQuery(second),
            ).step(StateActionView::SetSearchFeed { query: first, results }).search_query
                == second,
    {
    }

    /// Applying two batches one after the other is applying the one batch
    /// that holds the actions of both.
    pub proof fn lemma_run_concat(self, first: Seq<StateActionView>, second: Seq<StateActionView>)
        ensures
            self.run(first + second) == self.run(first).run(second),
        decreases second.len(),
    {
        if second.len() == 0 {
            assert(first + second =~= first);
        } else {
            self.lemma_run_concat(first, second.drop_last());
            assert((first + second).drop_last() =~= first + second.drop_last());
            assert((first + second).last() == second.last());
        }
    }
}

/// Everything that is needed to render the user interface, at one moment.
///
/// A snapshot never changes. [`State::apply`] builds the next one, which
/// shares with this one every map that the batch did not write to.
#[derive(Debug)]
pub struct State {
    country: String,
    allow_explicit: bool,
    search_query: String,
    search_focus: Option<ChannelRef>,
    home_focus: Option<ChannelRef>,
    search_results: Arc<Result<Vec<ChannelRef>, StateError>>,
    channel_core: Arc<Table<ChannelCore>>,
    channel_detail: Arc<Table<ChannelDetail>>,
    episodes: Arc<Table<Episode>>,
    images: Arc<Table<Image>>,
    player_state: Arc<Option<PlayerState>>,
    subscriptions: Arc<Result<Vec<ChannelRef>, StateError>>,
    loading: bool,
}

impl View for State {
    type V = StateView;

    closed spec fn view(&self) -> StateView {
        StateView {
            country: self.country@,
            allow_explicit: self.allow_explicit,
            search_query: self.search_query@,
            search_focus: focus_view(&self.search_focus),
            home_focus: focus_view(&self.home_focus),
            search_results: refs_view(&*self.search_results),
            channel_core: self.channel_core@,
            channel_detail: self.channel_detail@,
            episodes: self.episodes@,
            images: self.images@,
            player_state: player_view(&*self.player_state),
            subscriptions: refs_view(&*self.subscriptions),
            loading: self.loading,
        }
    }
}

/// The slot of `key` in `table`, shared with the table.
fn lookup<T: View>(table: &Table<T>, key: &str) -> (found: Option<Slot<T>>)
    ensures
        found is Some == table@.contains_key(key@),
        found matches Some(slot) ==> slot_view(&*slot) == table@[key@],
{
    match table.get(key) {
        Some(slot) => Some(share(slot)),
        None => None,
    }
}

/// Whether one of `refs` has the key `key`.
fn lists(refs: &Vec<ChannelRef>, key: &str) -> (r: bool)
    ensures
        r == channel_keys(refs@).contains(key@),
{
    let mut i: usize = 0;
    while i < refs.len()
        invariant
            i <= refs@.len(),
            forall|j: int| 0 <= j < i ==> channel_keys(refs@)[j] != key@,
        decreases refs@.len() - i,
    {
        if *refs[i].pk() == *key {
            assert(channel_keys(refs@)[i as int] == key@);
            return true;
        }
        i += 1;
    }
    false
}

/// Whether `focus` is a handle on the channel `key`.
fn focused(focus: &Option<ChannelRef>, key: &str) -> (r: bool)
    ensures
        r == (focus_view(focus) == Some(key@)),
{
    match focus {
        Some(handle) => *handle.pk() == *key,
        None => false,
    }
}

/// Whether a channel summary of `cores` shows the image at `url`.
fn cores_show(cores: &Table<ChannelCore>, url: &str) -> (r: bool)
    ensures
        r == exists|key: Seq<char>|
            cores@.contains_key(key) && core_shows(#[trigger] cores@[key], url@),
{
    let n: usize = cores.len();
    let mut i: usize = 0;
    while i < n
        invariant
            i <= n,
            n == cores.keys().len(),
            cores.well_formed(),
            forall|j: int| 0 <= j < i ==> !core_shows(#[trigger] cores.slots()[j], url@),
        decreases n - i,
    {
        let shows = match &**cores.slot_at(i) {
            Ok(core) => core.references_image(url),
            Err(_) => false,
        };
        if shows {
            proof {
                cores.lemma_entry(i as int);
            }
            return true;
        }
        i += 1;
    }
    false
}

/// Whether an episode of `episodes` shows the image at `url`.
fn episodes_show(episodes: &Table<Episode>, url: &str) -> (r: bool)
    ensures
        r == exists|key: Seq<char>|
            episodes@.contains_key(key) && episode_shows(#[trigger] episodes@[key], url@),
{
    let n: usize = episodes.len();
    let mut i: usize = 0;
    while i < n
        invariant
            i <= n,
            n == episodes.keys().len(),
            episodes.well_formed(),
            forall|j: int| 0 <= j < i ==> !episode_shows(#[trigger] episodes.slots()[j], url@),
        decreases n - i,
    {
        let shows = match &**episodes.slot_at(i) {
            Ok(episode) => episode.references_image(url),
            Err(_) => false,
        };
        if shows {
            proof {
                episodes.lemma_entry(i as int);
            }
            return true;
        }
        i += 1;
    }
    false
}

/// Handles on the channels with the keys `keys`, in their order.
fn handles(keys: Vec<String>) -> (refs: Vec<ChannelRef>)
    ensures
        channel_keys(refs@) == texts(keys@),
{
    let ghost all = keys@;
    let mut refs: Vec<ChannelRef> = Vec::new();
    for key in it: keys.into_iter()
        invariant
            it.seq() == all,
            refs@.len() == it.index(),
            forall|j: int| 0 <= j < refs@.len() ==> (#[trigger] refs@[j])@ == all[j]@,
    {
        refs.push(ChannelRef::new(key));
    }
    assert(channel_keys(refs@) =~= texts(all));
    refs
}

impl State {
    /// The country whose catalog is searched.
    pub fn country(&self) -> (country: &str)
        ensures
            country@ == self@.country,
    {
        self.country.as_str()
    }

    /// Whether explicit content is let through.
    pub fn allow_explicit(&self) -> (allow: bool)
        ensures
            allow == self@.allow_explicit,
    {
        self.allow_explicit
    }

    /// What the user searches for.
    pub fn search_query(&self) -> (query: &str)
        ensures
            query@ == self@.search_query,
    {
        self.search_query.as_str()
    }

    /// The channel that the search view shows in detail.
    pub fn search_focus(&self) -> (focus: Option<&ChannelRef>)
        ensures
            focus is Some == self@.search_focus is Some,
            focus matches Some(handle) ==> Some(handle@) == self@.search_focus,
    {
        self.search_focus.as_ref()
    }

    /// The channels that the search found, or why there are none yet.
    pub fn search_results(&self) -> (results: Arc<Result<Vec<ChannelRef>, StateError>>)
        ensures
            refs_view(&*results) == self@.search_results,
    {
        share(&self.search_results)
    }

    /// The channel that the home view shows in detail.
    pub fn home_focus(&self) -> (focus: Option<&ChannelRef>)
        ensures
            focus is Some == self@.home_focus is Some,
            focus matches Some(handle) ==> Some(handle@) == self@.home_focus,
    {
        self.home_focus.as_ref()
    }

    /// Whether a fetch is under way.
    pub fn loading(&self) -> (loading: bool)
        ensures
            loading == self@.loading,
    {
        self.loading
    }

    /// An empty channel summary, to be filled in and built.
    pub fn new_channel_core(&self) -> (core: ChannelCore)
        ensures
            core@ == ChannelCoreView::empty(),
    {
        ChannelCore::default()
    }

    /// Empty channel details, to be filled in and built.
    pub fn new_channel_detail(&self) -> (detail: ChannelDetail)
        ensures
            detail@ == ChannelDetailView::empty(),
    {
        ChannelDetail::default()
    }

    /// An empty episode, to be filled in and built.
    pub fn new_episode(&self) -> (episode: Episode)
        ensures
            episode@ == EpisodeView::empty(),
    {
        Episode::default()
    }

    /// What the player last reported.
    pub fn player_state(&self) -> (player: Arc<Option<PlayerState>>)
        ensures
            player_view(&*player) == self@.player_state,
    {
        share(&self.player_state)
    }

    /// A handle on the channel with the key `pk`.
    pub fn channel_ref(&self, pk: String) -> (handle: ChannelRef)
        ensures
            handle@ == pk@,
    {
        ChannelRef::new(pk)
    }

    /// The channels that the user subscribes to, or why there are none yet.
    pub fn subscriptions(&self) -> (list: Arc<Result<Vec<ChannelRef>, StateError>>)
        ensures
            refs_view(&*list) == self@.subscriptions,
    {
        share(&self.subscriptions)
    }

    /// The slot of the episode that plays, where something plays and the
    /// episode has a slot.
    pub fn playing_episode(&self) -> (found: Option<Slot<Episode>>)
        ensures
            found is Some == (self@.player_state matches Some(player)
                && self@.episodes.contains_key(player.episode_pk)),
            found matches Some(slot) ==> slot_view(&*slot)
                == self@.episodes[self@.player_state->0.episode_pk],
    {
        match &*self.player_state {
            Some(player) => lookup(&*self.episodes, player.episode_pk.as_str()),
            None => None,
        }
    }

    /// The slot of the summary of the channel `key`.
    pub fn core_of(&self, key: &str) -> (found: Option<Slot<ChannelCore>>)
        ensures
            found is Some == self@.channel_core.contains_key(key@),
            found matches Some(slot) ==> slot_view(&*slot) == self@.channel_core[key@],
    {
        lookup(&*self.channel_core, key)
    }

    /// The slot of the details of the channel `key`.
    pub fn detail_of(&self, key: &str) -> (found: Option<Slot<ChannelDetail>>)
        ensures
            found is Some == self@.channel_detail.contains_key(key@),
            found matches Some(slot) ==> slot_view(&*slot) == self@.channel_detail[key@],
    {
        lookup(&*self.channel_detail, key)
    }

    /// The slot of the episode `key`.
    pub fn episode_of(&self, key: &str) -> (found: Option<Slot<Episode>>)
        ensures
            found is Some == self@.episodes.contains_key(key@),
            found matches Some(slot) ==> slot_view(&*slot) == self@.episodes[key@],
    {
        lookup(&*self.episodes, key)
    }

    /// The slot of the image at the URL `key`.
    pub fn image_of(&self, key: &str) -> (found: Option<Slot<Image>>)
        ensures
            found is Some == self@.images.contains_key(key@),
            found matches Some(slot) ==> slot_view(&*slot) == self@.images[key@],
    {
        lookup(&*self.images, key)
    }

    /// Whether something refers to the channel `channel`: the search
    /// results, the focus of the search or of the home view, or the player.
    pub fn references_channel(&self, channel: &str) -> (r: bool)
        ensures
            r == self@.references_channel(channel@),
    {
        let in_results = match &*self.search_results {
            Ok(refs) => lists(refs, channel),
            Err(_) => false,
        };
        let plays = match &*self.player_state {
            Some(player) => *player.channel_pk.as_str() == *channel,
            None => false,
        };
        focused(&self.search_focus, channel) || focused(&self.home_focus, channel) || in_results
            || plays
    }

    /// Whether a channel summary or an episode of the state shows the image
    /// at the URL `image`.
    pub fn references_image(&self, image: &str) -> (r: bool)
        ensures
            r == self@.references_image(image@),
    {
        let by_channel = cores_show(&*self.channel_core, image);
        let by_episode = episodes_show(&*self.episodes, image);
        assert(self@.channel_core == (*self.channel_core)@);
        assert(self@.episodes == (*self.episodes)@);
        by_channel || by_episode
    }

    /// The state of a store to which nothing has been written yet.
    pub fn new() -> (state: State)
        ensures
            state@ == StateView::initial(),
    {
        State {
            country: String::from_str("CA"),
            allow_explicit: false,
            search_query: String::new(),
            search_focus: None,
            home_focus: None,
            search_results: Arc::new(Err(StateError::Loading)),
            channel_core: Arc::new(Table::new()),
            channel_detail: Arc::new(Table::new()),
            episodes: Arc::new(Table::new()),
            images: Arc::new(Table::new()),
            player_state: Arc::new(None),
            subscriptions: Arc::new(Err(StateError::Loading)),
            loading: true,
        }
    }

    /// The state after the batch `actions`, applied one after the other to
    /// a copy of this state. Each action sees what the ones before it in the
    /// batch have written.
    pub fn apply(&self, actions: Vec<StateAction>) -> (next: State)
        ensures
            next@ == self@.run(action_views(actions@)),
    {
        let ghost all = actions@;
        let mut draft = Draft {
            base: self.clone(),
            channel_core: None,
            channel_detail: None,
            episodes: None,
            images: None,
        };
        for action in it: actions.into_iter()
            invariant
                it.seq() == all,
                draft@ == self@.run(action_views(all.take(it.index() as int))),
        {
            proof {
                let done = it.index() as int;
                assert(all.take(done + 1).drop_last() =~= all.take(done));
                assert(action_views(all.take(done + 1)).drop_last() =~= action_views(
                    all.take(done),
                ));
                assert(action_views(all.take(done + 1)).last() == action@);
            }
            draft.step(action);
        }
        assert(all.take(all.len() as int) =~= all);
        draft.finish()
    }
}

impl Clone for State {
    /// A second snapshot over the same maps and lists.
    fn clone(&self) -> (copy: Self)
        ensures
            copy@ == self@,
    {
        State {
            country: self.country.clone(),
            allow_explicit: self.allow_explicit,
            search_query: self.search_query.clone(),
            search_focus: self.search_focus.clone(),
            home_focus: self.home_focus.clone(),
            search_results: share(&self.search_results),
            channel_core: share(&self.channel_core),
            channel_detail: share(&self.channel_detail),
            episodes: share(&self.episodes),
            images: share(&self.images),
            player_state: share(&self.player_state),
            subscriptions: share(&self.subscriptions),
            loading: self.loading,
        }
    }
}

impl Default for State {
    fn default() -> (state: Self)
        ensures
            state@ == StateView::initial(),
    {
        State::new()
    }
}

/// The map that a batch works on: its own copy once it has written to the
/// map, the snapshot's until then.
spec fn working<T: View>(shared: &Arc<Table<T>>, own: &Option<Table<T>>) -> Map<
    Seq<char>,
    Result<T::V, StateErrorView>,
> {
    match *own {
        Some(table) => table@,
        None => shared@,
    }
}

/// The table that a batch reads.
fn reading<'a, T: View>(shared: &'a Arc<Table<T>>, own: &'a Option<Table<T>>) -> (table: &'a Table<
    T,
>)
    ensures
        table@ == working(shared, own),
{
    match own {
        Some(table) => table,
        None => &**shared,
    }
}

/// Puts `slot` under `key` in the batch's own copy of the table, which is
/// made at the first write.
fn writing<T: View>(shared: &Arc<Table<T>>, own: &mut Option<Table<T>>, key: String, slot: Slot<T>)
    ensures
        working(shared, final(own)) == working(shared, old(own)).insert(key@, slot_view(&*slot)),
{
    let mut table = match own.take() {
        Some(table) => table,
        None => (**shared).clone(),
    };
    table.insert(key, slot);
    *own = Some(table);
}

/// A snapshot in the making: the scalar fields as the batch has set them so
/// far, and the batch's own copy of each map that it has written to.
struct Draft {
    base: State,
    channel_core: Option<Table<ChannelCore>>,
    channel_detail: Option<Table<ChannelDetail>>,
    episodes: Option<Table<Episode>>,
    images: Option<Table<Image>>,
}

impl View for Draft {
    type V = StateView;

    closed spec fn view(&self) -> StateView {
        StateView {
            channel_core: working(&self.base.channel_core, &self.channel_core),
            channel_detail: working(&self.base.channel_detail, &self.channel_detail),
            episodes: working(&self.base.episodes, &self.episodes),
            images: working(&self.base.images, &self.images),
            ..self.base@
        }
    }
}

impl Draft {
    /// Applies one action.
    fn step(&mut self, action: StateAction)
        ensures
            final(self)@ == old(self)@.step(action@),
    {
        match action {
            StateAction::SetCountry(country) => {
                self.base.country = country;
            },
            StateAction::SetAllowExplicit(allow_explicit) => {
                self.base.allow_explicit = allow_explicit;
            },
            StateAction::SetSearchQuery(query) => {
                if !(*self.base.search_query.as_str() == *query.as_str()) {
                    self.base.search_query = query;
                    self.base.search_results = Arc::new(Err(StateError::Loading));
                }
            },
            StateAction::SetSearchFocus(focus) => {
                self.base.search_focus = focus;
            },
            StateAction::SetSearchFeed { query, results } => {
                if *self.base.search_query.as_str() == *query.as_str() {
                    let found = match results {
                        Ok(keys) => Ok(handles(keys)),
                        Err(error) => Err(error),
                    };
                    self.base.search_results = Arc::new(found);
                }
            },
            StateAction::SetHomeFocus(focus) => {
                self.base.home_focus = focus;
            },
            StateAction::SetChannelCore(pk, core) => {
                if self.base.references_channel(pk.as_str()) {
                    let merged = match core {
                        Ok(mut new) => {
                            let table = reading(&self.base.channel_core, &self.channel_core);
                            match table.get(pk.as_str()) {
                                Some(slot) => match &**slot {
                                    Ok(previous) => {
                                        new.update(previous);
                                    },
                                    Err(_) => {},
                                },
                                None => {},
                            }
                            Ok(new)
                        },
                        Err(error) => Err(error),
                    };
                    writing(&self.base.channel_core, &mut self.channel_core, pk, Arc::new(merged));
                }
            },
            StateAction::SetChannelDetail(pk, detail) => {
                if self.base.references_channel(pk.as_str()) {
                    writing(
                        &self.base.channel_detail,
                        &mut self.channel_detail,
                        pk,
                        Arc::new(detail),
                    );
                }
            },
            StateAction::SetEpisode(pk, episode) => {
                writing(&self.base.episodes, &mut self.episodes, pk, Arc::new(episode));
            },
            StateAction::SetImage(pk, image) => {
                let shown = cores_show(
                    reading(&self.base.channel_core, &self.channel_core),
                    pk.as_str(),
                ) || episodes_show(reading(&self.base.episodes, &self.episodes), pk.as_str());
                if shown {
                    writing(&self.base.images, &mut self.images, pk, Arc::new(image));
                }
            },
            StateAction::SetLoading(loading) => {
                self.base.loading = loading;
            },
            StateAction::SetPlayerState(player) => {
                self.base.player_state = Arc::new(player);
            },
            StateAction::SetSubscriptions(list) => {
                self.base.subscriptions = Arc::new(list);
            },
        }
    }

    /// The finished snapshot.
    fn finish(self) -> (next: State)
        ensures
            next@ == self@,
    {
        let mut next = self.base;
        match self.channel_core {
            Some(table) => {
                next.channel_core = Arc::new(table);
            },
            None => {},
        }
        match self.channel_detail {
            Some(table) => {
                next.channel_detail = Arc::new(table);
            },
            None => {},
        }
        match self.episodes {
            Some(table) => {
                next.episodes = Arc::new(table);
            },
            None => {},
        }
        match self.images {
            Some(table) => {
                next.images = Arc::new(table);
            },
            None => {},
        }
        next
    }
}

} // verus!
