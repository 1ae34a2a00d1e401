//! Handles on episodes.
use vstd::prelude::*;
use crate::episode::Episode;
use crate::state::State;
use crate::table::{slot_view, Slot};

verus! {

/// A handle on an episode: its key and nothing else, resolved against a
/// snapshot when the episode is asked for.
#[derive(Debug)]
pub struct EpisodeRef {
    pub(crate) pk: String,
}

impl View for EpisodeRef {
    type V = Seq<char>;

    /// A handle stands for its key.
    closed spec fn view(&self) -> Seq<char> {
        self.pk@
    }
}

/// The keys of a list of handles.
pub open spec fn episode_keys(refs: Seq<EpisodeRef>) -> Seq<Seq<char>> {
    refs.map_values(|handle: EpisodeRef| handle@)
}

impl EpisodeRef {
    /// The handle on the episode with the key `pk`.
    pub fn new(pk: String) -> (handle: EpisodeRef)
        ensures
            handle@ == pk@,
    {
        EpisodeRef { pk }
    }

    /// The episode's key.
    pub fn pk(&self) -> (pk: &str)
        ensures
            pk@ == self@,
    {
        self.pk.as_str()
    }

    /// The episode as `state` has it: `None` while its slot is empty.
    pub fn get(&self, state: &State) -> (found: Option<Slot<Episode>>)
        ensures
            found is Some == state@.episodes.contains_key(self@),
            found matches Some(slot) ==> slot_view(&*slot) == state@.episodes[self@],
    {
        state.episode_of(self.pk.as_str())
    }
}

impl Clone for EpisodeRef {
    fn clone(&self) -> (copy: Self)
        ensures
            copy == *self,
    {
        EpisodeRef { pk: self.pk.clone() }
    }
}

impl PartialEq for EpisodeRef {
    /// Handles are equal when their keys are.
    fn eq(&self, other: &EpisodeRef) -> (same: bool) {
        *self.pk.as_str() == *other.pk.as_str()
    }
}

impl vstd::std_specs::cmp::PartialEqSpecImpl for EpisodeRef {
    open spec fn obeys_eq_spec() -> bool {
        true
    }

    open spec fn eq_spec(&self, other: &EpisodeRef) -> bool {
        self@ == other@
    }
}

impl Eq for EpisodeRef {

}

} // verus!
