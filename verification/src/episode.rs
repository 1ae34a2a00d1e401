//! Episodes.
use vstd::prelude::*;
use crate::channel_core::{image_at, opt_slot, preferred_image};
use crate::channel_ref::ChannelRef;
use crate::image::{Image, ImageView};
use crate::state::{State, StateAction, StateActionView, StateView};
use crate::state_error::StateErrorView;
use crate::table::Slot;
use crate::text::{holds, opt_text};

verus! {

/// One episode of a channel, as its feed describes it. Date and duration
/// are kept as the feed wrote them.
#[derive(Debug)]
pub struct Episode {
    pk: String,
    channel: String,
    title: String,
    url: String,
    date: String,
    description: String,
    duration: String,
    image: Option<String>,
    audio: String,
}

/// The mathematical value of an [`Episode`].
pub struct EpisodeView {
    pub pk: Seq<char>,
    pub channel: Seq<char>,
    pub title: Seq<char>,
    pub url: Seq<char>,
    pub date: Seq<char>,
    pub description: Seq<char>,
    pub duration: Seq<char>,
    pub image: Option<Seq<char>>,
    pub audio: Seq<char>,
}

impl EpisodeView {
    /// The episode with every text empty and no image.
    pub open spec fn empty() -> EpisodeView {
        EpisodeView {
            pk: Seq::empty(),
            channel: Seq::empty(),
            title: Seq::empty(),
            url: Seq::empty(),
            date: Seq::empty(),
            description: Seq::empty(),
            duration: Seq::empty(),
            image: None,
            audio: Seq::empty(),
        }
    }

    /// Whether the episode's own image is `url`.
    pub open spec fn references_image(self, url: Seq<char>) -> bool {
        self.image == Some(url)
    }

    /// The large image of the episode's channel, where `state` holds the
    /// channel's summary.
    pub open spec fn channel_image(self, state: StateView) -> Option<
        Result<ImageView, StateErrorView>,
    > {
        if state.channel_core.contains_key(self.channel) {
            match state.channel_core[self.channel] {
                Ok(core) => core.big_image(state.images),
                Err(_) => None,
            }
        } else {
            None
        }
    }

    /// The image to show for the episode: its own where that is loaded,
    /// else the large image of its channel, else its own with its error.
    pub open spec fn shown_image(self, state: StateView) -> Option<
        Result<ImageView, StateErrorView>,
    > {
        preferred_image(image_at(self.image, state.images), self.channel_image(state))
    }
}

impl View for Episode {
    type V = EpisodeView;

    closed spec fn view(&self) -> EpisodeView {
        EpisodeView {
            pk: self.pk@,
            channel: self.channel@,
            title: self.title@,
            url: self.url@,
            date: self.date@,
            description: self.description@,
            duration: self.duration@,
            image: opt_text(self.image),
            audio: self.audio@,
        }
    }
}

impl Episode {
    /// The episode's key.
    pub fn pk(&self) -> (pk: &str)
        ensures
            pk@ == self@.pk,
    {
        self.pk.as_str()
    }

    pub fn with_pk(self, pk: String) -> (episode: Self)
        ensures
            episode@ == (EpisodeView { pk: pk@, ..self@ }),
    {
        let mut next = self;
        next.pk = pk;
        next
    }

    pub fn title(&self) -> (title: &str)
        ensures
            title@ == self@.title,
    {
        self.title.as_str()
    }

    pub fn with_title(self, title: String) -> (episode: Self)
        ensures
            episode@ == (EpisodeView { title: title@, ..self@ }),
    {
        let mut next = self;
        next.title = title;
        next
    }

    pub fn url(&self) -> (url: &str)
        ensures
            url@ == self@.url,
    {
        self.url.as_str()
    }

    pub fn with_url(self, url: String) -> (episode: Self)
        ensures
            episode@ == (EpisodeView { url: url@, ..self@ }),
    {
        let mut next = self;
        next.url = url;
        next
    }

    pub fn date(&self) -> (date: &str)
        ensures
            date@ == self@.date,
    {
        self.date.as_str()
    }

    pub fn with_date(self, date: String) -> (episode: Self)
        ensures
            episode@ == (EpisodeView { date: date@, ..self@ }),
    {
        let mut next = self;
        next.date = date;
        next
    }

    pub fn description(&self) -> (description: &str)
        ensures
            description@ == self@.description,
    {
        self.description.as_str()
    }

    pub fn with_description(self, description: String) -> (episode: Self)
        ensures
            episode@ == (EpisodeView { description: description@, ..self@ }),
    {
        let mut next = self;
        next.description = description;
        next
    }

    pub fn duration(&self) -> (duration: &str)
        ensures
            duration@ == self@.duration,
    {
        self.duration.as_str()
    }

    pub fn with_duration(self, duration: String) -> (episode: Self)
        ensures
            episode@ == (EpisodeView { duration: duration@, ..self@ }),
    {
        let mut next = self;
        next.duration = duration;
        next
    }

    pub fn audio(&self) -> (audio: &str)
        ensures
            audio@ == self@.audio,
    {
        self.audio.as_str()
    }

    pub fn with_audio(self, audio: String) -> (episode: Self)
        ensures
            episode@ == (EpisodeView { audio: audio@, ..self@ }),
    {
        let mut next = self;
        next.audio = audio;
        next
    }

    /// A handle on the channel that the episode belongs to.
    pub fn channel(&self) -> (channel: ChannelRef)
        ensures
            channel@ == self@.channel,
    {
        ChannelRef::new(self.channel.clone())
    }

    /// Names the channel that the episode belongs to.
    pub fn with_channel(self, channel: String) -> (episode: Self)
        ensures
            episode@ == (EpisodeView { channel: channel@, ..self@ }),
    {
        let mut next = self;
        next.channel = channel;
        next
    }

    /// The image to show for the episode, as `state` has it: its own where
    /// that is loaded, else the large image of its channel, else its own
    /// with its error.
    pub fn image(&self, state: &State) -> (found: Option<Slot<Image>>)
        ensures
            opt_slot(found) == self@.shown_image(state@),
    {
        let own = match &self.image {
            Some(url) => state.image_of(url.as_str()),
            None => None,
        };
        let of_channel = match state.core_of(self.channel.as_str()) {
            Some(slot) => match &*slot {
                Ok(core) => core.big_image(state),
                Err(_) => None,
            },
            None => None,
        };
        crate::channel_core::prefer(own, of_channel)
    }

    pub fn with_image(self, image: String) -> (episode: Self)
        ensures
            episode@ == (EpisodeView { image: Some(image@), ..self@ }),
    {
        let mut next = self;
        next.image = Some(image);
        next
    }

    /// The action that writes this episode into the store, under its key.
    pub fn build(self) -> (action: StateAction)
        ensures
            action@ == StateActionView::SetEpisode(self@.pk, Ok(self@)),
    {
        StateAction::SetEpisode(self.pk.clone(), Ok(self))
    }

    /// Whether the episode's own image is `image`.
    pub(crate) fn references_image(&self, image: &str) -> (r: bool)
        ensures
            r == self@.references_image(image@),
    {
        holds(&self.image, image)
    }
}

impl Clone for Episode {
    fn clone(&self) -> (copy: Self)
        ensures
            copy@ == self@,
    {
        Episode {
            pk: self.pk.clone(),
            channel: self.channel.clone(),
            title: self.title.clone(),
            url: self.url.clone(),
            date: self.date.clone(),
            description: self.description.clone(),
            duration: self.duration.clone(),
            image: self.image.clone(),
            audio: self.audio.clone(),
        }
    }
}

impl Default for Episode {
    fn default() -> (episode: Self)
        ensures
            episode@ == EpisodeView::empty(),
    {
        Episode {
            pk: String::new(),
            channel: String::new(),
            title: String::new(),
            url: String::new(),
            date: String::new(),
            description: String::new(),
            duration: String::new(),
            image: None,
            audio: String::new(),
        }
    }
}

} // verus!
