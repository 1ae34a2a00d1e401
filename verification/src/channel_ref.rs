//! Handles on channels.
use vstd::prelude::*;
use crate::channel_core::ChannelCore;
use crate::channel_detail::ChannelDetail;
use crate::state::State;
use crate::table::{slot_view, Slot};

verus! {

/// A handle on a channel: its key and nothing else. What the channel holds
/// is looked up in a snapshot when it is asked for, so that a handle taken
/// long ago still shows what the store holds now.
#[derive(Debug)]
pub struct ChannelRef {
    pub(crate) pk: String,
}

impl View for ChannelRef {
    type V = Seq<char>;

    /// A handle stands for its key.
    closed spec fn view(&self) -> Seq<char> {
        self.pk@
    }
}

/// The keys of a list of handles.
pub open spec fn channel_keys(refs: Seq<ChannelRef>) -> Seq<Seq<char>> {
    refs.map_values(|handle: ChannelRef| handle@)
}

impl ChannelRef {
    /// The handle on the channel with the key `pk`.
    pub fn new(pk: String) -> (handle: ChannelRef)
        ensures
            handle@ == pk@,
    {
        ChannelRef { pk }
    }

    /// The channel's key.
    pub fn pk(&self) -> (pk: &str)
        ensures
            pk@ == self@,
    {
        self.pk.as_str()
    }

    /// The channel's summary as `state` has it: `None` while its slot is
    /// empty.
    pub fn channel_core(&self, state: &State) -> (found: Option<Slot<ChannelCore>>)
        ensures
            found is Some == state@.channel_core.contains_key(self@),
            found matches Some(slot) ==> slot_view(&*slot) == state@.channel_core[self@],
    {
        state.core_of(self.pk.as_str())
    }

    /// The channel's details as `state` has them: `None` while their slot
    /// is empty.
    pub fn details(&self, state: &State) -> (found: Option<Slot<ChannelDetail>>)
        ensures
            found is Some == state@.channel_detail.contains_key(self@),
            found matches Some(slot) ==> slot_view(&*slot) == state@.channel_detail[self@],
    {
        state.detail_of(self.pk.as_str())
    }
}

impl Clone for ChannelRef {
    fn clone(&self) -> (copy: Self)
        ensures
            copy == *self,
    {
        ChannelRef { pk: self.pk.clone() }
    }
}

impl PartialEq for ChannelRef {
    /// Handles are equal when their keys are.
    fn eq(&self, other: &ChannelRef) -> (same: bool) {
        *self.pk.as_str() == *other.pk.as_str()
    }
}

impl vstd::std_specs::cmp::PartialEqSpecImpl for ChannelRef {
    open spec fn obeys_eq_spec() -> bool {
        true
    }

    open spec fn eq_spec(&self, other: &ChannelRef) -> bool {
        self@ == other@
    }
}

impl Eq for ChannelRef {

}

} // verus!
