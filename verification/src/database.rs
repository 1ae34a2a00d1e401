//! The list of subscriptions: what a request to subscribe or to unsubscribe
//! changes, and what follows from the change.
use vstd::prelude::*;
use crate::channel_ref::{channel_keys, ChannelRef};
use crate::loader::query_views;
use crate::query::{Query, QueryView};
use crate::state::{action_views, StateAction, StateActionView};
use crate::state_error::StateErrorView;
use crate::text::texts;

verus! {

/// A request to the keeper of the subscriptions.
#[derive(Debug)]
pub enum DatabaseAction {
    Subscribe(ChannelRef),
    Unsubscribe(ChannelRef),
}

/// What is to be written to the table of subscriptions.
#[derive(Debug)]
pub enum Statement {
    /// Add the row of the channel with this key.
    Insert(String),
    /// Take out the row of the channel with this key.
    Delete(String),
}

/// What a change of the list brings about.
#[derive(Debug)]
pub struct Change {
    /// What is to be written to the table, where something is.
    pub statement: Option<Statement>,
    /// What is written into the store: the list as it is now.
    pub actions: Vec<StateAction>,
    /// The lookups that follow, one for each channel that is new in the
    /// list.
    pub queries: Vec<Query>,
}

/// The channels that the user subscribes to, by key and in the order in
/// which they were subscribed to.
#[derive(Debug)]
pub struct Subscriptions {
    keys: Vec<String>,
}

impl View for Subscriptions {
    type V = Seq<Seq<char>>;

    closed spec fn view(&self) -> Seq<Seq<char>> {
        texts(self.keys@)
    }
}

/// The write of the list of subscriptions into the store.
pub open spec fn publication(keys: Seq<Seq<char>>) -> Seq<StateActionView> {
    seq![StateActionView::SetSubscriptions(Ok::<Seq<Seq<char>>, StateErrorView>(keys))]
}

/// The lookups of the channels with the keys `keys`.
pub open spec fn lookups(keys: Seq<Seq<char>>) -> Seq<QueryView> {
    keys.map_values(|key: Seq<char>| QueryView::ItunesLookup { pk: key })
}

/// `keys` without its first occurrence of `key`.
pub open spec fn without(keys: Seq<Seq<char>>, key: Seq<char>) -> Seq<Seq<char>>
    decreases keys.len(),
{
    if keys.len() == 0 {
        keys
    } else if keys[0] == key {
        keys.drop_first()
    } else {
        seq![keys[0]] + without(keys.drop_first(), key)
    }
}

/// Taking out the first occurrence is taking out the entry at its place.
proof fn lemma_without(keys: Seq<Seq<char>>, key: Seq<char>, at: int)
    requires
        0 <= at < keys.len(),
        keys[at] == key,
        forall|j: int| 0 <= j < at ==> keys[j] != key,
    ensures
        without(keys, key) == keys.remove(at),
    decreases at,
{
    if at == 0 {
        assert(keys.drop_first() =~= keys.remove(0));
    } else {
        lemma_without(keys.drop_first(), key, at - 1);
        assert(seq![keys[0]] + keys.drop_first().remove(at - 1) =~= keys.remove(at));
    }
}

impl Subscriptions {
    /// Where `key` first stands in the list.
    fn position(&self, key: &str) -> (at: Option<usize>)
        ensures
            at is Some == self@.contains(key@),
            at matches Some(i) ==> i < self@.len() && self@[i as int] == key@ && forall|j: int|
                0 <= j < i ==> self@[j] != key@,
    {
        let mut i: usize = 0;
        while i < self.keys.len()
            invariant
                i <= self.keys@.len(),
                forall|j: int| 0 <= j < i ==> self@[j] != key@,
            decreases self.keys@.len() - i,
        {
            if *self.keys[i].as_str() == *key {
                assert(self@[i as int] == key@);
                return Some(i);
            }
            i += 1;
        }
        None
    }

    /// The write of the list into the store.
    fn publish(&self) -> (actions: Vec<StateAction>)
        ensures
            action_views(actions@) == publication(self@),
    {
        let mut refs: Vec<ChannelRef> = Vec::new();
        let mut i: usize = 0;
        while i < self.keys.len()
            invariant
                i <= self.keys@.len(),
                refs@.len() == i,
                forall|j: int| 0 <= j < i ==> (#[trigger] refs@[j])@ == self.keys@[j]@,
            decreases self.keys@.len() - i,
        {
            refs.push(ChannelRef::new(self.keys[i].clone()));
            i += 1;
        }
        assert(channel_keys(refs@) =~= self@);
        let mut actions: Vec<StateAction> = Vec::new();
        actions.push(StateAction::SetSubscriptions(Ok(refs)));
        assert(action_views(actions@) =~= publication(self@));
        actions
    }

    /// The list as the table holds it at the start, with what the start
    /// brings about: the list is written into the store, and each channel
    /// of it is looked up.
    pub fn load(keys: Vec<String>) -> (loaded: (Subscriptions, Change))
        ensures
            loaded.0@ == texts(keys@),
            loaded.1.statement is None,
            action_views(loaded.1.actions@) == publication(texts(keys@)),
            query_views(loaded.1.queries@) == lookups(texts(keys@)),
    {
        let list = Subscriptions { keys };
        let actions = list.publish();
        let mut queries: Vec<Query> = Vec::new();
        let mut i: usize = 0;
        while i < list.keys.len()
            invariant
                i <= list.keys@.len(),
                queries@.len() == i,
                forall|j: int|
                    0 <= j < i ==> (#[trigger] queries@[j])@ == (QueryView::ItunesLookup {
                        pk: list.keys@[j]@,
                    }),
            decreases list.keys@.len() - i,
        {
            queries.push(Query::ItunesLookup { pk: list.keys[i].clone() });
            i += 1;
        }
        assert(query_views(queries@) =~= lookups(list@));
        (list, Change { statement: None, actions, queries })
    }

    /// Whether the user subscribes to the channel `key`.
    pub fn contains(&self, key: &str) -> (r: bool)
        ensures
            r == self@.contains(key@),
    {
        self.position(key).is_some()
    }

    /// Carries out a request. Subscribing to a channel that is not in the
    /// list puts it at the end; a row is added for it, the list is written
    /// into the store and the channel is looked up. Unsubscribing from a
    /// channel that is in the list takes it out; its row is deleted and the
    /// list is written into the store. Any other request changes nothing
    /// and brings nothing about.
    pub fn handle(&mut self, action: DatabaseAction) -> (change: Option<Change>)
        ensures
            match action {
                DatabaseAction::Subscribe(channel) => if old(self)@.contains(channel@) {
                    change is None && final(self)@ == old(self)@
                } else {
                    &&& final(self)@ == old(self)@.push(channel@)
                    &&& change matches Some(change)
                    &&& change.statement matches Some(Statement::Insert(key))
                    &&& key@ == channel@
                    &&& action_views(change.actions@) == publication(final(self)@)
                    &&& query_views(change.queries@) == seq![
                        QueryView::ItunesLookup { pk: channel@ },
                    ]
                },
                DatabaseAction::Unsubscribe(channel) => if old(self)@.contains(channel@) {
                    &&& final(self)@ == without(old(self)@, channel@)
                    &&& change matches Some(change)
                    &&& change.statement matches Some(Statement::Delete(key))
                    &&& key@ == channel@
                    &&& action_views(change.actions@) == publication(final(self)@)
                    &&& query_views(change.queries@) == Seq::<QueryView>::empty()
                } else {
                    change is None && final(self)@ == old(self)@
                },
            },
    {
        match action {
            DatabaseAction::Subscribe(channel) => {
                if self.contains(channel.pk()) {
                    return None;
                }
                let ghost before = self@;
                self.keys.push(channel.pk().to_owned());
                assert(self@ =~= before.push(channel@));
                let mut queries: Vec<Query> = Vec::new();
                queries.push(Query::ItunesLookup { pk: channel.pk().to_owned() });
                assert(query_views(queries@) =~= seq![QueryView::ItunesLookup { pk: channel@ }]);
                Some(
                    Change {
                        statement: Some(Statement::Insert(channel.pk().to_owned())),
                        actions: self.publish(),
                        queries,
                    },
                )
            },
            DatabaseAction::Unsubscribe(channel) => {
                match self.position(channel.pk()) {
                    Some(at) => {
                        let ghost before = self@;
                        self.keys.remove(at);
                        proof {
                            lemma_without(before, channel@, at as int);
                            assert(self@ =~= before.remove(at as int));
                        }
                        let queries: Vec<Query> = Vec::new();
                        assert(query_views(queries@) =~= Seq::<QueryView>::empty());
                        Some(
                            Change {
                                statement: Some(Statement::Delete(channel.pk().to_owned())),
                                actions: self.publish(),
                                queries,
                            },
                        )
                    },
                    None => None,
                }
            },
        }
    }
}

/// Subscribing never puts a channel into the list twice: a list without
/// repetitions stays without them, whatever is asked of it.
pub proof fn lemma_no_channel_twice(keys: Seq<Seq<char>>, key: Seq<char>)
    requires
        keys.no_duplicates(),
    ensures
        !keys.contains(key) ==> keys.push(key).no_duplicates(),
        without(keys, key).no_duplicates(),
        !without(keys, key).contains(key),
{
    if keys.contains(key) {
        let at = choose|at: int| 0 <= at < keys.len() && keys[at] == key;
        lemma_without(keys, key, at);
        let rest = keys.remove(at);
        assert forall|i: int, j: int| 0 <= i < rest.len() && 0 <= j < rest.len() && i != j implies rest[i]
            != rest[j] by {
            let a = if i < at { i } else { i + 1 };
            let b = if j < at { j } else { j + 1 };
            assert(rest[i] == keys[a] && rest[j] == keys[b]);
        }
        assert forall|i: int| 0 <= i < rest.len() implies rest[i] != key by {
            let a = if i < at { i } else { i + 1 };
            assert(rest[i] == keys[a]);
        }
    } else {
        lemma_without_absent(keys, key);
    }
}

/// Taking out what is not there changes nothing.
proof fn lemma_without_absent(keys: Seq<Seq<char>>, key: Seq<char>)
    requires
        !keys.contains(key),
    ensures
        without(keys, key) == keys,
    decreases keys.len(),
{
    if keys.len() > 0 {
        assert(keys[0] != key);
        assert forall|j: int| 0 <= j < keys.drop_first().len() implies keys.drop_first()[j]
            != key by {
            assert(keys.drop_first()[j] == keys[j + 1]);
        }
        lemma_without_absent(keys.drop_first(), key);
        assert(seq![keys[0]] + keys.drop_first() =~= keys);
    }
}

} // verus!
