//! The store: one writer that applies the batches in the order in which
//! they were handed in, any number of readers of the snapshot that was
//! published last, and one signal that says that there is something new.
use vstd::prelude::*;
use std::sync::Arc;
use crate::state::{action_views, State, StateAction, StateActionView, StateView};
use crate::table::share;

verus! {

/// What the writer found when it looked for the next batch.
#[derive(Debug)]
pub enum Inbox {
    /// The oldest batch that waited.
    Batch(Vec<StateAction>),
    /// No batch waits.
    Empty,
    /// No batch waits and none can come: the store was given up.
    Closed,
}

/// What the writer does next.
#[derive(Debug)]
pub enum WriterStep {
    /// Publish this snapshot in place of the current one, then look for
    /// the next batch.
    Publish(State),
    /// Raise the signal, unless it is raised already, then wait for the
    /// next batch.
    Notify,
    /// End.
    Stop,
}

/// What the writer does once it has looked for the next batch: a batch is
/// applied as a whole to the current snapshot; without one the writer tells
/// the readers that there is something new, and ends where no batch can
/// come.
pub fn writer_step(current: &State, inbox: Inbox) -> (step: WriterStep)
    ensures
        match inbox {
            Inbox::Batch(actions) => step matches WriterStep::Publish(next) && next@
                == current@.run(action_views(actions@)),
            Inbox::Empty => step is Notify,
            Inbox::Closed => step is Stop,
        },
{
    match inbox {
        Inbox::Batch(actions) => WriterStep::Publish(current.apply(actions)),
        Inbox::Empty => WriterStep::Notify,
        Inbox::Closed => WriterStep::Stop,
    }
}

/// The snapshot after each of `batches` was applied to the initial state,
/// one batch after the other.
pub open spec fn replay(batches: Seq<Seq<StateActionView>>) -> StateView
    decreases batches.len(),
{
    if batches.len() == 0 {
        StateView::initial()
    } else {
        replay(batches.drop_last()).run(batches.last())
    }
}

/// The mathematical values of a list of batches.
pub open spec fn batch_views(batches: Seq<Vec<StateAction>>) -> Seq<Seq<StateActionView>> {
    batches.map_values(|batch: Vec<StateAction>| action_views(batch@))
}

/// The mathematical value of a [`CurrentState`].
pub struct CurrentStateView {
    /// The snapshot that readers get.
    pub snapshot: StateView,
    /// Every batch that was ever handed in, in the order of arrival.
    pub history: Seq<Seq<StateActionView>>,
    /// How many of them the writer has applied.
    pub applied: nat,
    /// Whether the signal is raised.
    pub signal: bool,
}

impl CurrentStateView {
    /// A store to which nothing was handed in.
    pub open spec fn fresh() -> CurrentStateView {
        CurrentStateView {
            snapshot: StateView::initial(),
            history: Seq::empty(),
            applied: 0,
            signal: false,
        }
    }

    /// What holds of every store: the snapshot is what the batches applied
    /// so far make of the initial state. These batches are the first ones
    /// that were handed in, each of them as a whole.
    pub open spec fn well_formed(self) -> bool {
        &&& self.applied <= self.history.len()
        &&& self.snapshot == replay(self.history.take(self.applied as int))
    }

    /// The batches that wait for the writer, the oldest first.
    pub open spec fn waiting(self) -> Seq<Seq<StateActionView>> {
        self.history.skip(self.applied as int)
    }

    /// The store after `batch` was handed in.
    pub open spec fn updated(self, batch: Seq<StateActionView>) -> CurrentStateView {
        CurrentStateView { history: self.history.push(batch), ..self }
    }

    /// The store after a turn of the writer: the oldest batch that waited
    /// is applied; where none waited, the signal is raised.
    pub open spec fn turned(self) -> CurrentStateView {
        if self.applied < self.history.len() {
            CurrentStateView {
                snapshot: self.snapshot.run(self.history[self.applied as int]),
                applied: (self.applied + 1) as nat,
                ..self
            }
        } else {
            CurrentStateView { signal: true, ..self }
        }
    }

    /// The store after the signal was looked at, which lowers it.
    pub open spec fn heard(self) -> CurrentStateView {
        CurrentStateView { signal: false, ..self }
    }

    /// Whatever is done to a store, in whatever order, readers only ever
    /// see the state after some first batches of those handed in, never a
    /// part of a batch: handing in, a turn of the writer and a look at the
    /// signal all keep the store well formed.
    pub proof fn lemma_snapshots_are_whole(self, batch: Seq<StateActionView>)
        requires
            self.well_formed(),
        ensures
            CurrentStateView::fresh().well_formed(),
            self.updated(batch).well_formed(),
            self.turned().well_formed(),
            self.heard().well_formed(),
            exists|n: int|
                0 <= n <= self.history.len() && self.snapshot == replay(
                    #[trigger] self.history.take(n),
                ),
    {
        assert(Seq::<Seq<StateActionView>>::empty().take(0) =~= Seq::empty());
        assert(self.history.push(batch).take(self.applied as int) =~= self.history.take(
            self.applied as int,
        ));
        if self.applied < self.history.len() {
            let more = self.history.take(self.applied as int + 1);
            assert(more.drop_last() =~= self.history.take(self.applied as int));
            assert(more.last() == self.history[self.applied as int]);
        }
        assert(self.snapshot == replay(self.history.take(self.applied as int)));
    }

    /// The writer applies the batches in the order in which they were
    /// handed in: after as many turns as batches wait, the snapshot is the
    /// one that all batches make of the initial state.
    pub proof fn lemma_writer_catches_up(self) -> (done: CurrentStateView)
        requires
            self.well_formed(),
        ensures
            done.well_formed(),
            done.history == self.history,
            done.applied == self.history.len(),
            done.snapshot == replay(self.history),
            done.signal == self.signal,
        decreases self.history.len() - self.applied,
    {
        if self.applied < self.history.len() {
            self.lemma_snapshots_are_whole(Seq::empty());
            self.turned().lemma_writer_catches_up()
        } else {
            assert(self.history.take(self.applied as int) =~= self.history);
            self
        }
    }

    /// However many batches are applied between two looks at the signal,
    /// there is one signal to hear: raising a raised signal changes
    /// nothing.
    pub proof fn lemma_signal_is_one_slot(self)
        requires
            self.applied == self.history.len(),
        ensures
            self.turned().signal,
            self.turned().turned() == self.turned(),
            !self.turned().heard().signal,
    {
    }
}

/// The store, as one owner sees it: batches are handed in with
/// [`CurrentState::update`], the writer takes its turns with
/// [`CurrentState::writer_turn`], and readers get the snapshot with
/// [`CurrentState::get`].
pub struct CurrentState {
    published: Arc<State>,
    inbox: Vec<Vec<StateAction>>,
    signal: bool,
    history: Ghost<Seq<Seq<StateActionView>>>,
}

impl View for CurrentState {
    type V = CurrentStateView;

    closed spec fn view(&self) -> CurrentStateView {
        CurrentStateView {
            snapshot: self.published@,
            history: self.history@,
            applied: (self.history@.len() - self.inbox@.len()) as nat,
            signal: self.signal,
        }
    }
}

impl CurrentState {
    #[verifier::type_invariant]
    spec fn valid(self) -> bool {
        &&& self.inbox@.len() <= self.history@.len()
        &&& batch_views(self.inbox@) == self@.waiting()
        &&& self@.well_formed()
    }

    /// A store that holds the initial state, with no batch waiting and the
    /// signal down.
    pub fn new() -> (store: CurrentState)
        ensures
            store@ == CurrentStateView::fresh(),
            store@.well_formed(),
    {
        let published = Arc::new(State::new());
        let inbox: Vec<Vec<StateAction>> = Vec::new();
        proof {
            let none = Seq::<Seq<StateActionView>>::empty();
            assert(none.take(0) =~= none);
            assert(batch_views(inbox@) =~= none.skip(0));
        }
        CurrentState { published, inbox, signal: false, history: Ghost(Seq::empty()) }
    }

    /// The snapshot that was published last. It is the state after some
    /// first batches of those handed in, each applied as a whole.
    pub fn get(&self) -> (snapshot: Arc<State>)
        ensures
            snapshot@ == self@.snapshot,
            self@.well_formed(),
    {
        proof {
            use_type_invariant(self);
        }
        share(&self.published)
    }

    /// Hands in a batch. The snapshot stays as it is until the writer has
    /// had its turn with the batch.
    pub fn update(&mut self, actions: Vec<StateAction>)
        ensures
            final(self)@ == old(self)@.updated(action_views(actions@)),
            final(self)@.well_formed(),
    {
        proof {
            use_type_invariant(&*self);
        }
        let ghost before = self@;
        let mut taken = CurrentState::new();
        core::mem::swap(self, &mut taken);
        let CurrentState { published, mut inbox, signal, history } = taken;
        let ghost batch = action_views(actions@);
        let ghost waited = inbox@;
        inbox.push(actions);
        proof {
            before.lemma_snapshots_are_whole(batch);
            assert(batch_views(inbox@) =~= batch_views(waited).push(batch));
            assert(before.history.push(batch).skip(before.applied as int) =~= before.history.skip(
                before.applied as int,
            ).push(batch));
        }
        *self = CurrentState { published, inbox, signal, history: Ghost(history@.push(batch)) };
    }

    /// One turn of the writer: the oldest batch that waits is applied as a
    /// whole and the new snapshot published; where none waits, the signal
    /// is raised. Says whether a batch was applied.
    pub fn writer_turn(&mut self) -> (applied: bool)
        ensures
            final(self)@ == old(self)@.turned(),
            final(self)@.well_formed(),
            applied == (old(self)@.applied < old(self)@.history.len()),
    {
        proof {
            use_type_invariant(&*self);
        }
        let ghost before = self@;
        let mut taken = CurrentState::new();
        core::mem::swap(self, &mut taken);
        let CurrentState { published, mut inbox, signal, history } = taken;
        let ghost waited = inbox@;
        let found = if inbox.len() > 0 {
            Inbox::Batch(inbox.remove(0))
        } else {
            Inbox::Empty
        };
        proof {
            before.lemma_snapshots_are_whole(Seq::empty());
            if before.applied < before.history.len() {
                assert(batch_views(waited)[0] == before.history[before.applied as int]);
                assert(batch_views(inbox@) =~= batch_views(waited).drop_first());
                assert(before.history.skip(before.applied as int).drop_first()
                    =~= before.history.skip(before.applied as int + 1));
            }
        }
        match writer_step(&*published, found) {
            WriterStep::Publish(next) => {
                *self = CurrentState { published: Arc::new(next), inbox, signal, history };
                true
            },
            _ => {
                *self = CurrentState { published, inbox, signal: true, history };
                false
            },
        }
    }

    /// Looks at the signal and lowers it. Says whether it was raised: then
    /// the writer has applied every batch that was handed in before.
    pub fn try_next(&mut self) -> (raised: bool)
        ensures
            final(self)@ == old(self)@.heard(),
            final(self)@.well_formed(),
            raised == old(self)@.signal,
    {
        proof {
            use_type_invariant(&*self);
        }
        let raised = self.signal;
        self.signal = false;
        raised
    }
}

} // verus!
