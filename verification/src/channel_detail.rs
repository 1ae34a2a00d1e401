//! Channel details.
use vstd::prelude::*;
use crate::channel_core::ChannelCore;
use crate::episode_ref::{episode_keys, EpisodeRef};
use crate::state::{State, StateAction, StateActionView};
use crate::table::{slot_view, Slot};
use crate::text::texts;

verus! {

/// What a channel's feed says of it: its description and its episodes, by
/// key and in the feed's order.
#[derive(Debug)]
pub struct ChannelDetail {
    pk: String,
    description: String,
    link: String,
    episodes: Vec<EpisodeRef>,
}

/// The mathematical value of a [`ChannelDetail`].
pub struct ChannelDetailView {
    pub pk: Seq<char>,
    pub description: Seq<char>,
    pub link: Seq<char>,
    pub episodes: Seq<Seq<char>>,
}

impl ChannelDetailView {
    /// The details with every text empty and no episode.
    pub open spec fn empty() -> ChannelDetailView {
        ChannelDetailView {
            pk: Seq::empty(),
            description: Seq::empty(),
            link: Seq::empty(),
            episodes: Seq::empty(),
        }
    }
}

impl View for ChannelDetail {
    type V = ChannelDetailView;

    closed spec fn view(&self) -> ChannelDetailView {
        ChannelDetailView {
            pk: self.pk@,
            description: self.description@,
            link: self.link@,
            episodes: episode_keys(self.episodes@),
        }
    }
}

impl ChannelDetail {
    /// The channel's key.
    pub fn pk(&self) -> (pk: &str)
        ensures
            pk@ == self@.pk,
    {
        self.pk.as_str()
    }

    pub fn with_pk(self, pk: String) -> (detail: Self)
        ensures
            detail@ == (ChannelDetailView { pk: pk@, ..self@ }),
    {
        let mut next = self;
        next.pk = pk;
        next
    }

    pub fn description(&self) -> (description: &str)
        ensures
            description@ == self@.description,
    {
        self.description.as_str()
    }

    pub fn with_description(self, description: String) -> (detail: Self)
        ensures
            detail@ == (ChannelDetailView { description: description@, ..self@ }),
    {
        let mut next = self;
        next.description = description;
        next
    }

    pub fn link(&self) -> (link: &str)
        ensures
            link@ == self@.link,
    {
        self.link.as_str()
    }

    pub fn with_link(self, link: String) -> (detail: Self)
        ensures
            detail@ == (ChannelDetailView { link: link@, ..self@ }),
    {
        let mut next = self;
        next.link = link;
        next
    }

    /// The handles on the channel's episodes, in the feed's order.
    pub fn episodes(&self) -> (episodes: &[EpisodeRef])
        ensures
            episode_keys(episodes@) == self@.episodes,
    {
        self.episodes.as_slice()
    }

    /// Replaces the episodes by handles on the keys in `episodes`.
    pub fn with_episodes(self, episodes: &[String]) -> (detail: Self)
        ensures
            detail@ == (ChannelDetailView { episodes: texts(episodes@), ..self@ }),
    {
        let mut handles: Vec<EpisodeRef> = Vec::new();
        let mut i: usize = 0;
        while i < episodes.len()
            invariant
                i <= episodes@.len(),
                handles@.len() == i,
                forall|j: int| 0 <= j < i ==> (#[trigger] handles@[j])@ == episodes@[j]@,
            decreases episodes@.len() - i,
        {
            handles.push(EpisodeRef::new(episodes[i].clone()));
            i += 1;
        }
        assert(episode_keys(handles@) =~= texts(episodes@));
        let mut next = self;
        next.episodes = handles;
        next
    }

    /// The action that writes these details into the store, under their key.
    pub fn build(self) -> (action: StateAction)
        ensures
            action@ == StateActionView::SetChannelDetail(self@.pk, Ok(self@)),
    {
        StateAction::SetChannelDetail(self.pk.clone(), Ok(self))
    }

    /// The channel's summary as `state` has it.
    pub fn channel_core(&self, state: &State) -> (found: Option<Slot<ChannelCore>>)
        ensures
            found is Some == state@.channel_core.contains_key(self@.pk),
            found matches Some(slot) ==> slot_view(&*slot) == state@.channel_core[self@.pk],
    {
        state.core_of(self.pk.as_str())
    }
}

impl Clone for ChannelDetail {
    fn clone(&self) -> (copy: Self)
        ensures
            copy@ == self@,
    {
        let mut episodes: Vec<EpisodeRef> = Vec::new();
        let mut i: usize = 0;
        while i < self.episodes.len()
            invariant
                i <= self.episodes@.len(),
                episodes@.len() == i,
                forall|j: int| 0 <= j < i ==> episodes@[j] == self.episodes@[j],
            decreases self.episodes@.len() - i,
        {
            episodes.push(self.episodes[i].clone());
            i += 1;
        }
        assert(episodes@ =~= self.episodes@);
        ChannelDetail {
            pk: self.pk.clone(),
            description: self.description.clone(),
            link: self.link.clone(),
            episodes,
        }
    }
}

impl Default for ChannelDetail {
    fn default() -> (detail: Self)
        ensures
            detail@ == ChannelDetailView::empty(),
    {
        let detail = ChannelDetail {
            pk: String::new(),
            description: String::new(),
            link: String::new(),
            episodes: Vec::new(),
        };
        assert(episode_keys(detail.episodes@) =~= Seq::<Seq<char>>::empty());
        detail
    }
}

} // verus!
