//! The caching engine of a podcast client.
//!
//! The engine takes in what catalogs and feeds say of channels, episodes and
//! images, keeps it in a store, and hands out consistent snapshots of that
//! store while a bounded number of workers fetch what is missing.
//!
//! * [`state`] holds the snapshot, [`State`], the actions that change it,
//!   and what holds of every change: writes for channels and images that
//!   nothing refers to are dropped, a newer channel summary keeps the URLs
//!   of the older, and search results for a query that is no longer asked
//!   are dropped.
//! * [`store`] holds the store as a state machine, [`CurrentState`]: batches
//!   are applied whole and in the order of arrival, and one signal says that
//!   there is something new.
//! * [`loader`] holds the scheduler, [`Loader`]: which query is served next,
//!   which queries a newer search has made stale, and when loading begins
//!   and ends.
//! * [`fetch`] says what a worker asks of the network for a query, and what
//!   the answer writes into the store and puts into the queue. The records
//!   that answers are read into are in [`itunes_chart`], [`itunes_search`],
//!   [`itunes_lookup`] and [`rss`].
//! * [`database`] and [`intent`] say what follows from a change of the
//!   subscriptions and from a wish of the user.
//!
//! Nothing here reads a file, opens a connection or starts a thread: the
//! program around the library does, and tells the library what came back.
pub mod channel_core;
pub mod channel_detail;
pub mod channel_ref;
pub mod database;
pub mod episode;
pub mod episode_ref;
pub mod fetch;
pub mod image;
pub mod intent;
pub mod itunes_channel;
pub mod itunes_chart;
pub mod itunes_lookup;
pub mod itunes_search;
pub mod loader;
pub mod pattern;
pub mod player_action;
pub mod player_state;
pub mod query;
pub mod request;
pub mod rss;
pub mod state;
pub mod state_error;
pub mod store;
pub mod table;
pub mod text;

pub use channel_core::{ChannelCore, ChannelCoreView};
pub use channel_detail::{ChannelDetail, ChannelDetailView};
pub use channel_ref::ChannelRef;
pub use database::{Change, DatabaseAction, Statement, Subscriptions};
pub use episode::{Episode, EpisodeView};
pub use episode_ref::EpisodeRef;
pub use fetch::{handle_reply, plan_query, ImageReply, Outcome, Plan, Reply};
pub use image::{Image, ImageView};
pub use intent::{respond, Intent, Response};
pub use itunes_channel::ItunesChannel;
pub use itunes_chart::{ItunesChart, ItunesChartFeed, ItunesChartItem};
pub use itunes_lookup::ItunesLookup;
pub use itunes_search::ItunesSearch;
pub use loader::{Loader, LoaderView, Queued, WorkerStep};
pub use player_action::{PlayerAction, PlayerActionView};
pub use player_state::{Playback, PlayerState, PlayerStateView};
pub use query::{Query, QueryView};
pub use request::{HttpGet, HttpGetView};
pub use rss::{Rss, RssChannel, RssEnclosure, RssEpisode, RssImage, RssImageLink};
pub use state::{State, StateAction, StateActionView, StateView};
pub use state_error::{StateError, StateErrorView};
pub use store::{writer_step, CurrentState, CurrentStateView, Inbox, WriterStep};
