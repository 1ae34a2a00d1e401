//! Feeds: what a channel's feed holds, and how it is tidied up.
use vstd::prelude::*;
use crate::channel_core::{ChannelCore, ChannelCoreView};
use crate::channel_detail::{ChannelDetail, ChannelDetailView};
use crate::episode::{Episode, EpisodeView};
use crate::pattern::{refusal, regex_compiles, regex_replaced, Pattern};
use crate::request::{HttpGet, HttpGetView};
use crate::state::{action_views, StateAction, StateActionView};
use crate::state_error::{StateError, StateErrorView};
use crate::text::{opt_text, texts};

verus! {

/// The image that a feed names for a channel or an episode.
#[derive(Debug)]
pub struct RssImage {
    pub href: String,
}

/// The image that a feed names for a channel in the older way.
#[derive(Debug)]
pub struct RssImageLink {
    pub url: String,
}

/// Where the audio of an episode is.
#[derive(Debug, Default)]
pub struct RssEnclosure {
    pub url: String,
}

impl Clone for RssEnclosure {
    fn clone(&self) -> (copy: Self)
        ensures
            copy == *self,
    {
        RssEnclosure { url: self.url.clone() }
    }
}

/// One episode as the feed holds it.
#[derive(Debug)]
pub struct RssEpisode {
    /// Static identifier. Enclosure url is fallback.
    pub pk: Option<String>,
    /// Fallback is `fallback_title`.
    pub title: Option<String>,
    pub fallback_title: String,
    pub url: String,
    pub date: String,
    /// Fallback is `fallback_description`.
    pub description: Option<String>,
    pub fallback_description: String,
    pub duration: String,
    pub image: Option<RssImage>,
    pub enclosure: RssEnclosure,
}

/// `first` where it is there, else `second`.
pub open spec fn or_else(first: Option<String>, second: String) -> Seq<char> {
    match first {
        Some(text) => text@,
        None => second@,
    }
}

/// A copy of `first` where it is there, else of `second`.
fn pick(first: &Option<String>, second: &String) -> (text: String)
    ensures
        text@ == or_else(*first, *second),
{
    match first {
        Some(text) => text.clone(),
        None => second.clone(),
    }
}

impl RssEpisode {
    /// The key of the episode: its identifier, else the address of its
    /// audio.
    pub open spec fn key(&self) -> Seq<char> {
        or_else(self.pk, self.enclosure.url)
    }

    /// The episode as the store holds it, for the channel `channel`.
    pub open spec fn episode(&self, channel: Seq<char>) -> EpisodeView {
        EpisodeView {
            pk: self.key(),
            channel,
            title: or_else(self.title, self.fallback_title),
            url: self.url@,
            date: self.date@,
            description: or_else(self.description, self.fallback_description),
            duration: self.duration@,
            image: match self.image {
                Some(image) => Some(image.href@),
                None => None,
            },
            audio: self.enclosure.url@,
        }
    }

    /// The key of the episode: its identifier, else the address of its
    /// audio.
    pub fn pk(&self) -> (pk: String)
        ensures
            pk@ == self.key(),
    {
        pick(&self.pk, &self.enclosure.url)
    }

    /// The title for listeners, else the plain one.
    pub fn title(&self) -> (title: String)
        ensures
            title@ == or_else(self.title, self.fallback_title),
    {
        pick(&self.title, &self.fallback_title)
    }

    /// The summary for listeners, else the plain description.
    pub fn description(&self) -> (description: String)
        ensures
            description@ == or_else(self.description, self.fallback_description),
    {
        pick(&self.description, &self.fallback_description)
    }

    /// The episode as the store holds it, for the channel `channel`.
    pub fn to_episode(&self, channel: &str) -> (episode: Episode)
        ensures
            episode@ == self.episode(channel@),
    {
        let episode = Episode::default().with_pk(self.pk()).with_channel(
            channel.to_owned(),
        ).with_title(self.title()).with_url(self.url.clone()).with_date(
            self.date.clone(),
        ).with_description(self.description()).with_duration(self.duration.clone()).with_audio(
            self.enclosure.url.clone(),
        );
        match &self.image {
            Some(image) => episode.with_image(image.href.clone()),
            None => episode,
        }
    }

    /// The episode with other descriptions.
    pub fn with_descriptions(self, description: Option<String>, fallback_description: String) -> (episode:
        RssEpisode)
        ensures
            episode == (RssEpisode { description, fallback_description, ..self }),
    {
        let mut episode = self;
        episode.description = description;
        episode.fallback_description = fallback_description;
        episode
    }
}

/// A channel as its feed holds it.
#[derive(Debug)]
pub struct RssChannel {
    pub title: String,
    /// Fallback is `fallback_description`.
    pub description: Option<String>,
    pub fallback_description: String,
    pub link: String,
    pub author: String,
    pub image_rss: Option<RssImage>,
    pub image_rss_fallback: Option<RssImageLink>,
    pub episodes: Vec<RssEpisode>,
    /// The key under which the channel was asked for.
    pub pk: String,
    /// The address that the feed was fetched from.
    pub self_url: String,
}

/// The keys of a list of episodes.
pub open spec fn feed_keys(episodes: Seq<RssEpisode>) -> Seq<Seq<char>> {
    episodes.map_values(|episode: RssEpisode| episode.key())
}

/// What a list of episodes of the channel `channel` writes into the store.
pub open spec fn episode_actions(episodes: Seq<RssEpisode>, channel: Seq<char>) -> Seq<
    StateActionView,
> {
    episodes.map_values(
        |episode: RssEpisode|
            StateActionView::SetEpisode(
                episode.key(),
                Ok::<EpisodeView, StateErrorView>(episode.episode(channel)),
            ),
    )
}

impl RssChannel {
    /// The address of the channel's image: the one that the feed names in
    /// the newer way, else the one in the older way, else none.
    pub open spec fn image(&self) -> Seq<char> {
        match self.image_rss {
            Some(image) => image.href@,
            None => match self.image_rss_fallback {
                Some(link) => link.url@,
                None => Seq::empty(),
            },
        }
    }

    /// The summary that the feed stands for.
    pub open spec fn summary(&self) -> ChannelCoreView {
        ChannelCoreView {
            pk: self.pk@,
            title: self.title@,
            author: self.author@,
            image_200: None,
            image_600: None,
            image_rss: Some(self.image()),
            rss: Some(self.self_url@),
        }
    }

    /// The details that the feed stands for.
    pub open spec fn detail(&self) -> ChannelDetailView {
        ChannelDetailView {
            pk: self.pk@,
            description: or_else(self.description, self.fallback_description),
            link: self.link@,
            episodes: feed_keys(self.episodes@),
        }
    }

    /// What the feed writes into the store: the channel's summary, its
    /// details, and then each episode.
    pub open spec fn actions(&self) -> Seq<StateActionView> {
        seq![
            StateActionView::SetChannelCore(
                self.pk@,
                Ok::<ChannelCoreView, StateErrorView>(self.summary()),
            ),
            StateActionView::SetChannelDetail(
                self.pk@,
                Ok::<ChannelDetailView, StateErrorView>(self.detail()),
            ),
        ] + episode_actions(self.episodes@, self.pk@)
    }

    /// The address of the channel's image: the one that the feed names in
    /// the newer way, else the one in the older way, else none.
    pub fn image_rss(&self) -> (url: String)
        ensures
            url@ == self.image(),
    {
        match &self.image_rss {
            Some(image) => image.href.clone(),
            None => match &self.image_rss_fallback {
                Some(link) => link.url.clone(),
                None => String::new(),
            },
        }
    }

    /// The summary that the feed stands for: key, title, author, the
    /// feed's image and the feed's address.
    pub fn to_channel_core(&self) -> (core: ChannelCore)
        ensures
            core@ == self.summary(),
    {
        ChannelCore::default().with_pk(self.pk.clone()).with_title(self.title.clone()).with_author(
            self.author.clone(),
        ).with_image_rss(self.image_rss()).with_rss(self.self_url.clone())
    }

    /// The details that the feed stands for: key, description, link, and
    /// the keys of the episodes in the feed's order.
    pub fn to_channel_detail(&self) -> (detail: ChannelDetail)
        ensures
            detail@ == self.detail(),
    {
        let mut keys: Vec<String> = Vec::new();
        let mut i: usize = 0;
        while i < self.episodes.len()
            invariant
                i <= self.episodes@.len(),
                keys@.len() == i,
                forall|j: int| 0 <= j < i ==> (#[trigger] keys@[j])@ == self.episodes@[j].key(),
            decreases self.episodes@.len() - i,
        {
            keys.push(self.episodes[i].pk());
            i += 1;
        }
        assert(texts(keys@) =~= feed_keys(self.episodes@));
        ChannelDetail::default().with_pk(self.pk.clone()).with_description(
            pick(&self.description, &self.fallback_description),
        ).with_link(self.link.clone()).with_episodes(keys.as_slice())
    }

    /// What the feed writes into the store: the channel's summary, its
    /// details, and then each episode.
    pub fn to_actions(&self) -> (actions: Vec<StateAction>)
        ensures
            action_views(actions@) == self.actions(),
    {
        let mut actions: Vec<StateAction> = Vec::new();
        actions.push(StateAction::SetChannelCore(self.pk.clone(), Ok(self.to_channel_core())));
        actions.push(StateAction::SetChannelDetail(self.pk.clone(), Ok(self.to_channel_detail())));
        let ghost head = action_views(actions@);
        assert(head =~= seq![
            StateActionView::SetChannelCore(
                self.pk@,
                Ok::<ChannelCoreView, StateErrorView>(self.summary()),
            ),
            StateActionView::SetChannelDetail(
                self.pk@,
                Ok::<ChannelDetailView, StateErrorView>(self.detail()),
            ),
        ]);
        let ghost episodes = self.episodes@;
        let mut i: usize = 0;
        while i < self.episodes.len()
            invariant
                i <= episodes.len(),
                episodes == self.episodes@,
                action_views(actions@) == head + episode_actions(episodes.take(i as int), self.pk@),
            decreases episodes.len() - i,
        {
            let ghost before = action_views(actions@);
            let ghost written = StateActionView::SetEpisode(
                episodes[i as int].key(),
                Ok::<EpisodeView, StateErrorView>(episodes[i as int].episode(self.pk@)),
            );
            let episode = &self.episodes[i];
            actions.push(
                StateAction::SetEpisode(episode.pk(), Ok(episode.to_episode(self.pk.as_str()))),
            );
            assert(action_views(actions@) =~= before.push(written));
            assert(episode_actions(episodes.take(i + 1), self.pk@) =~= episode_actions(
                episodes.take(i as int),
                self.pk@,
            ).push(written));
            i += 1;
        }
        assert(episodes.take(episodes.len() as int) =~= episodes);
        actions
    }

    /// The channel with other descriptions and episodes.
    pub fn with_descriptions(
        self,
        description: Option<String>,
        fallback_description: String,
        episodes: Vec<RssEpisode>,
    ) -> (channel: RssChannel)
        ensures
            channel == (RssChannel { description, fallback_description, episodes, ..self }),
    {
        let mut channel = self;
        channel.description = description;
        channel.fallback_description = fallback_description;
        channel.episodes = episodes;
        channel
    }
}

/// A feed.
#[derive(Debug)]
pub struct Rss {
    pub channel: RssChannel,
}

/// Matches the prefix of a tag's name, up to the colon: `<abc:` and
/// `</abc:`.
pub const PREFIXED_TAG: &'static str = "(?P<tag></?\\w*):";

/// What a prefixed tag becomes: the same with a hyphen for the colon.
pub const HYPHENATED_TAG: &'static str = "$tag-";

/// Matches a tag, from `<` to the next `>`.
pub const MARKUP: &'static str = "<[^>]+>";

/// `text` with the colon of every prefixed tag turned into a hyphen.
pub open spec fn hyphenated(text: Seq<char>) -> Seq<char> {
    regex_replaced(PREFIXED_TAG@, text, HYPHENATED_TAG@)
}

/// `text` without its tags.
pub open spec fn stripped(text: Seq<char>) -> Seq<char> {
    regex_replaced(MARKUP@, text, Seq::empty())
}

/// `text` without its tags, where there is a text.
pub open spec fn opt_stripped(text: Option<String>) -> Option<Seq<char>> {
    match text {
        Some(text) => Some(stripped(text@)),
        None => None,
    }
}

/// Whether `after` is `before` with both descriptions stripped of their
/// tags.
pub open spec fn episode_stripped(before: RssEpisode, after: RssEpisode) -> bool {
    &&& opt_text(after.description) == opt_stripped(before.description)
    &&& after.fallback_description@ == stripped(before.fallback_description@)
    &&& after == (RssEpisode {
        description: after.description,
        fallback_description: after.fallback_description,
        ..before
    })
}

/// The error for a pattern that `regex` refused.
fn unusable(error: &regex::Error) -> (reason: StateError)
    ensures
        reason@ is XmlError,
{
    StateError::XmlError(refusal(error))
}

/// `text` without its tags.
fn strip(markup: &Pattern, text: &str) -> (plain: String)
    requires
        markup.source() == MARKUP@,
    ensures
        plain@ == stripped(text@),
{
    proof {
        reveal_strlit("");
    }
    let plain = markup.replace_all(text, "");
    assert(""@ =~= Seq::<char>::empty());
    plain
}

/// `text` without its tags, where there is a text.
fn strip_opt(markup: &Pattern, text: &Option<String>) -> (plain: Option<String>)
    requires
        markup.source() == MARKUP@,
    ensures
        opt_text(plain) == opt_stripped(*text),
{
    match text {
        Some(text) => Some(strip(markup, text.as_str())),
        None => None,
    }
}

impl Rss {
    /// The request for the feed at `url`.
    pub fn request(url: &str) -> (request: HttpGet)
        ensures
            request@ == HttpGetView::plain(url@),
    {
        HttpGet::plain(url.to_owned())
    }

    /// Makes the text of a feed fit to be read without namespaces: the
    /// colon of every prefixed tag, as in `<abc:tag>` and `</abc:tag>`,
    /// becomes a hyphen. It fails only where `regex` refuses the pattern
    /// for such tags.
    pub fn prepare(body: &str) -> (prepared: Result<String, StateError>)
        ensures
            match prepared {
                Ok(text) => regex_compiles(PREFIXED_TAG@) && text@ == hyphenated(body@),
                Err(reason) => !regex_compiles(PREFIXED_TAG@) && reason@ is XmlError,
            },
    {
        match Pattern::compile(PREFIXED_TAG) {
            Ok(prefixed) => Ok(prefixed.replace_all(body, HYPHENATED_TAG)),
            Err(error) => Err(unusable(&error)),
        }
    }

    /// The feed under the key `pk`, as fetched from `url`.
    pub fn identify(self, pk: String, url: String) -> (feed: Rss)
        ensures
            feed.channel == (RssChannel { pk, self_url: url, ..self.channel }),
    {
        let mut feed = self;
        feed.channel.pk = pk;
        feed.channel.self_url = url;
        feed
    }

    /// Finishes a feed that was read: every description, of the channel
    /// and of each episode, loses its tags, and the feed gets the key `pk`
    /// and its own address `url`. It fails only where `regex` refuses the
    /// pattern for tags.
    pub fn finish(feed: Rss, pk: String, url: String) -> (finished: Result<Rss, StateError>)
        ensures
            match finished {
                Ok(done) => {
                    &&& regex_compiles(MARKUP@)
                    &&& done.channel.pk == pk
                    &&& done.channel.self_url == url
                    &&& opt_text(done.channel.description) == opt_stripped(
                        feed.channel.description,
                    )
                    &&& done.channel.fallback_description@ == stripped(
                        feed.channel.fallback_description@,
                    )
                    &&& done.channel.episodes@.len() == feed.channel.episodes@.len()
                    &&& forall|i: int|
                        0 <= i < feed.channel.episodes@.len() ==> episode_stripped(
                            feed.channel.episodes@[i],
                            #[trigger] done.channel.episodes@[i],
                        )
                    &&& done.channel == (RssChannel {
                        pk,
                        self_url: url,
                        description: done.channel.description,
                        fallback_description: done.channel.fallback_description,
                        episodes: done.channel.episodes,
                        ..feed.channel
                    })
                },
                Err(reason) => !regex_compiles(MARKUP@) && reason@ is XmlError,
            },
    {
        let markup = match Pattern::compile(MARKUP) {
            Ok(markup) => markup,
            Err(error) => {
                return Err(unusable(&error));
            },
        };
        let description = strip_opt(&markup, &feed.channel.description);
        let fallback_description = strip(&markup, feed.channel.fallback_description.as_str());
        let mut feed = feed;
        let mut read: Vec<RssEpisode> = Vec::new();
        core::mem::swap(&mut feed.channel.episodes, &mut read);
        let ghost all = read@;
        let mut episodes: Vec<RssEpisode> = Vec::new();
        for episode in it: read.into_iter()
            invariant
                it.seq() == all,
                markup.source() == MARKUP@,
                episodes@.len() == it.index(),
                forall|i: int|
                    0 <= i < episodes@.len() ==> episode_stripped(all[i], #[trigger] episodes@[i]),
        {
            let description = strip_opt(&markup, &episode.description);
            let fallback_description = strip(&markup, episode.fallback_description.as_str());
            episodes.push(episode.with_descriptions(description, fallback_description));
        }
        let channel = feed.channel.with_descriptions(description, fallback_description, episodes);
        Ok((Rss { channel }).identify(pk, url))
    }
}

} // verus!
