//! What the user asks for, and what the store, the scheduler and the
//! player are told because of it.
use vstd::prelude::*;
use crate::channel_ref::ChannelRef;
use crate::episode_ref::EpisodeRef;
use crate::fetch::image_query;
use crate::image::Image;
use crate::loader::query_views;
use crate::player_action::{PlayerAction, PlayerActionView};
use crate::query::{Query, QueryView};
use crate::state::{action_views, focus_view, State, StateAction, StateActionView, StateView};
use std::sync::Arc;

verus! {

/// One wish of the user.
#[derive(Debug)]
pub enum Intent {
    /// Show this channel in detail, or none.
    SetSearchDetail(Option<ChannelRef>),
    /// Search for this text; the empty text asks for the chart.
    SetSearchQuery(String),
    /// Play this episode.
    HandlePlay(EpisodeRef),
    HandleSkipBack,
    HandleSkipForward,
    HandlePause,
    HandleUnpause,
    /// Go to this time, in milliseconds.
    HandleSeek(u64),
    /// Play at this speed, given as the bit pattern of a 64-bit IEEE 754
    /// number.
    HandleRateChange(u64),
}

/// The mathematical value of an [`Intent`].
pub enum IntentView {
    SetSearchDetail(Option<Seq<char>>),
    SetSearchQuery(Seq<char>),
    HandlePlay(Seq<char>),
    HandleSkipBack,
    HandleSkipForward,
    HandlePause,
    HandleUnpause,
    HandleSeek(u64),
    HandleRateChange(u64),
}

impl View for Intent {
    type V = IntentView;

    open spec fn view(&self) -> IntentView {
        match *self {
            Intent::SetSearchDetail(focus) => IntentView::SetSearchDetail(focus_view(&focus)),
            Intent::SetSearchQuery(query) => IntentView::SetSearchQuery(query@),
            Intent::HandlePlay(episode) => IntentView::HandlePlay(episode@),
            Intent::HandleSkipBack => IntentView::HandleSkipBack,
            Intent::HandleSkipForward => IntentView::HandleSkipForward,
            Intent::HandlePause => IntentView::HandlePause,
            Intent::HandleUnpause => IntentView::HandleUnpause,
            Intent::HandleSeek(time) => IntentView::HandleSeek(time),
            Intent::HandleRateChange(rate_bits) => IntentView::HandleRateChange(rate_bits),
        }
    }
}

/// What is done about a wish.
#[derive(Debug)]
pub struct Response {
    /// What is written into the store, as one batch.
    pub actions: Vec<StateAction>,
    /// The queries that are queued, in this order.
    pub queries: Vec<Query>,
    /// What the player is told, where it is told something.
    pub player: Option<PlayerAction>,
}

/// The mathematical value of a [`Response`].
pub struct ResponseView {
    pub actions: Seq<StateActionView>,
    pub queries: Seq<QueryView>,
    pub player: Option<PlayerActionView>,
}

impl View for Response {
    type V = ResponseView;

    open spec fn view(&self) -> ResponseView {
        ResponseView {
            actions: action_views(self.actions@),
            queries: query_views(self.queries@),
            player: match self.player {
                Some(order) => Some(order@),
                None => None,
            },
        }
    }
}

/// How far back a skip goes, in milliseconds.
pub const SKIP_BACK: u64 = 15000;

/// How far forward a skip goes, in milliseconds.
pub const SKIP_FORWARD: u64 = 30000;

impl ResponseView {
    /// Nothing is done.
    pub open spec fn nothing() -> ResponseView {
        ResponseView { actions: Seq::empty(), queries: Seq::empty(), player: None }
    }

    /// The player is told `order`, and nothing else is done.
    pub open spec fn tell(order: PlayerActionView) -> ResponseView {
        ResponseView { player: Some(order), ..ResponseView::nothing() }
    }
}

/// Where the player is, in milliseconds: at zero where nothing plays.
pub open spec fn position(state: StateView) -> u64 {
    match state.player_state {
        Some(player) => player.time,
        None => 0,
    }
}

/// The time that a skip back from `time` goes to: 15 seconds earlier, or
/// the start.
pub open spec fn skipped_back(time: u64) -> u64 {
    if SKIP_BACK <= time <= i64::MAX {
        (time - SKIP_BACK) as u64
    } else {
        0
    }
}

/// What is done about the wish to play the episode `key`. Where the state
/// holds the episode, the player is told to play its audio; and the image
/// that is shown for it is asked for, where the state knows of one that is
/// not loaded. Else nothing is done.
pub open spec fn play(state: StateView, key: Seq<char>) -> ResponseView {
    if state.episodes.contains_key(key) {
        match state.episodes[key] {
            Ok(episode) => ResponseView {
                actions: Seq::empty(),
                queries: match episode.shown_image(state) {
                    Some(Ok(image)) => if image.loaded() {
                        Seq::empty()
                    } else {
                        seq![image_query(image.pk, None)]
                    },
                    _ => Seq::empty(),
                },
                player: Some(
                    PlayerActionView::PlayRemote {
                        episode_pk: episode.pk,
                        channel_pk: episode.channel,
                        uri: episode.audio,
                    },
                ),
            },
            Err(_) => ResponseView::nothing(),
        }
    } else {
        ResponseView::nothing()
    }
}

/// What is done about a wish, in the state `state`.
pub open spec fn response(state: StateView, intent: IntentView) -> ResponseView {
    match intent {
        IntentView::SetSearchDetail(focus) => ResponseView {
            actions: seq![StateActionView::SetSearchFocus(focus)],
            queries: match focus {
                Some(key) => seq![QueryView::ItunesLookup { pk: key }],
                None => Seq::empty(),
            },
            player: None,
        },
        IntentView::SetSearchQuery(query) => ResponseView {
            actions: seq![StateActionView::SetSearchQuery(query)],
            queries: if query.len() == 0 {
                seq![QueryView::ItunesChart]
            } else {
                seq![QueryView::ItunesSearch { query }]
            },
            player: None,
        },
        IntentView::HandlePlay(key) => play(state, key),
        IntentView::HandleSkipBack => ResponseView::tell(
            PlayerActionView::SetTime(skipped_back(position(state))),
        ),
        IntentView::HandleSkipForward => ResponseView::tell(
            PlayerActionView::SetTime((position(state) + SKIP_FORWARD) as u64),
        ),
        IntentView::HandlePause => ResponseView::tell(PlayerActionView::Pause),
        IntentView::HandleUnpause => ResponseView::tell(PlayerActionView::Unpause),
        IntentView::HandleSeek(time) => ResponseView::tell(PlayerActionView::SetTime(time)),
        IntentView::HandleRateChange(rate_bits) => ResponseView::tell(
            PlayerActionView::SetRate(rate_bits),
        ),
    }
}

/// The player is told `order`, and nothing else is done.
fn tell(order: PlayerAction) -> (done: Response)
    ensures
        done@ == ResponseView::tell(order@),
{
    let done = Response { actions: Vec::new(), queries: Vec::new(), player: Some(order) };
    assert(done@.actions =~= Seq::empty());
    assert(done@.queries =~= Seq::empty());
    done
}

/// Nothing is done.
fn nothing() -> (done: Response)
    ensures
        done@ == ResponseView::nothing(),
{
    let done = Response { actions: Vec::new(), queries: Vec::new(), player: None };
    assert(done@.actions =~= Seq::empty());
    assert(done@.queries =~= Seq::empty());
    done
}

/// Where the player is, in milliseconds.
fn time_of(state: &State) -> (time: u64)
    ensures
        time == position(state@),
{
    match &*state.player_state() {
        Some(player) => player.time,
        None => 0,
    }
}

/// What is done about the wish to play `episode`.
fn play_episode(state: &State, episode: &EpisodeRef) -> (done: Response)
    ensures
        done@ == play(state@, episode@),
{
    let slot = match episode.get(state) {
        Some(slot) => slot,
        None => {
            return nothing();
        },
    };
    match &*slot {
        Ok(found) => {
            let mut queries: Vec<Query> = Vec::new();
            match found.image(state) {
                Some(shown) => match &*shown {
                    Ok(image) => {
                        if !image.loaded() {
                            queries.push(
                                Query::Image {
                                    image: Arc::new(Image::new(image.pk.as_str())),
                                    associated_query: None,
                                },
                            );
                        }
                    },
                    Err(_) => {},
                },
                None => {},
            }
            let done = Response {
                actions: Vec::new(),
                queries,
                player: Some(
                    PlayerAction::PlayRemote {
                        episode_pk: found.pk().to_owned(),
                        channel_pk: found.channel().pk().to_owned(),
                        uri: found.audio().to_owned(),
                    },
                ),
            };
            assert(done@.actions =~= Seq::empty());
            assert(done@.queries =~= play(state@, episode@).queries);
            done
        },
        Err(_) => nothing(),
    }
}

/// What is done about a wish of the user, given the snapshot that the user
/// sees: what the store is told, which queries are queued, and what the
/// player is told.
///
/// A skip forward adds 30 seconds to the player's time, which must not
/// leave the range of the time.
pub fn respond(state: &State, intent: Intent) -> (done: Response)
    requires
        intent is HandleSkipForward ==> position(state@) + SKIP_FORWARD <= u64::MAX,
    ensures
        done@ == response(state@, intent@),
{
    match intent {
        Intent::SetSearchDetail(focus) => {
            let mut queries: Vec<Query> = Vec::new();
            match &focus {
                Some(channel) => {
                    queries.push(Query::ItunesLookup { pk: channel.pk().to_owned() });
                },
                None => {},
            }
            let ghost focus_key = focus_view(&focus);
            let mut actions: Vec<StateAction> = Vec::new();
            actions.push(StateAction::SetSearchFocus(focus));
            let done = Response { actions, queries, player: None };
            assert(done@.actions =~= seq![StateActionView::SetSearchFocus(focus_key)]);
            assert(done@.queries =~= response(state@, intent@).queries);
            done
        },
        Intent::SetSearchQuery(query) => {
            let mut queries: Vec<Query> = Vec::new();
            if query.as_str().is_empty() {
                queries.push(Query::ItunesChart);
            } else {
                queries.push(Query::ItunesSearch { query: query.clone() });
            }
            let ghost text = query@;
            let mut actions: Vec<StateAction> = Vec::new();
            actions.push(StateAction::SetSearchQuery(query));
            let done = Response { actions, queries, player: None };
            assert(done@.actions =~= seq![StateActionView::SetSearchQuery(text)]);
            assert(done@.queries =~= response(state@, intent@).queries);
            done
        },
        Intent::HandlePlay(episode) => play_episode(state, &episode),
        Intent::HandleSkipBack => {
            let time: u64 = time_of(state);
            let target: u64 = if time >= SKIP_BACK && time <= 0x7fff_ffff_ffff_ffff {
                time - SKIP_BACK
            } else {
                0
            };
            tell(PlayerAction::SetTime(target))
        },
        Intent::HandleSkipForward => tell(PlayerAction::SetTime(time_of(state) + SKIP_FORWARD)),
        Intent::HandlePause => tell(PlayerAction::Pause),
        Intent::HandleUnpause => tell(PlayerAction::Unpause),
        Intent::HandleSeek(time) => tell(PlayerAction::SetTime(time)),
        Intent::HandleRateChange(rate_bits) => tell(PlayerAction::SetRate(rate_bits)),
    }
}

} // verus!
