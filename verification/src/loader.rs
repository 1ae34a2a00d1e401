//! The fetch scheduler: which query is served next, how many workers run,
//! and which queries a newer search has made stale.
use vstd::prelude::*;
use crate::query::{Query, QueryView};
use crate::state::{action_views, StateAction, StateActionView};

verus! {

/// A query that waits, with the sequence number that it got when it was
/// queued.
pub type Waiting = (QueryView, usize);

/// The mathematical values of the entries of a queue.
pub open spec fn waiting_views(queue: Seq<(Query, usize)>) -> Seq<Waiting> {
    queue.map_values(|entry: (Query, usize)| (entry.0@, entry.1))
}

/// The mathematical value of an entry that may be missing.
pub open spec fn handed_out(entry: Option<(Query, usize)>) -> Option<Waiting> {
    match entry {
        Some(entry) => Some((entry.0@, entry.1)),
        None => None,
    }
}

/// Whether a newer search has made the entry stale. With `marker` the
/// sequence number of the newest search or chart query, these are stale:
/// every other search or chart query, and every image that was asked for
/// on behalf of an older one.
pub open spec fn stale(entry: Waiting, marker: usize) -> bool {
    ||| entry.0.is_search() && entry.1 != marker
    ||| serves_query_before(entry, marker)
}

/// Whether the entry is an image that was asked for on behalf of a query
/// with a sequence number below `limit`.
pub open spec fn serves_query_before(entry: Waiting, limit: usize) -> bool {
    match entry.0 {
        QueryView::Image { associated_query: Some(origin), .. } => origin < limit,
        _ => false,
    }
}

/// Whether `first` is served before `second`: it has the higher priority,
/// or the same and was queued earlier.
pub open spec fn serves_before(first: Waiting, second: Waiting) -> bool {
    ||| first.0.priority() > second.0.priority()
    ||| first.0.priority() == second.0.priority() && first.1 < second.1
}

/// What is left of `pending` once the stale entries at its front are
/// dropped.
pub open spec fn skip_stale(pending: Seq<Waiting>, marker: usize) -> Seq<Waiting>
    decreases pending.len(),
{
    if pending.len() == 0 {
        pending
    } else if stale(pending[0], marker) {
        skip_stale(pending.drop_first(), marker)
    } else {
        pending
    }
}

/// Where a new query of the given priority goes into `pending`: behind
/// every entry at the front that has at least that priority.
pub open spec fn place(pending: Seq<Waiting>, priority: usize) -> int
    decreases pending.len(),
{
    if pending.len() == 0 || pending[0].0.priority() < priority {
        0
    } else {
        1 + place(pending.drop_first(), priority)
    }
}

/// The mathematical value of a [`Loader`].
pub struct LoaderView {
    /// The queries that wait, the one that is served next first.
    pub pending: Seq<Waiting>,
    /// The number of workers that run.
    pub in_flight: usize,
    /// The number of workers that may run at most.
    pub max_in_flight: usize,
    /// The number of queries that were queued so far, which is the sequence
    /// number of the next one.
    pub total_queries: usize,
    /// The sequence number of the newest search or chart query.
    pub max_search_index: usize,
}

impl LoaderView {
    /// A scheduler with nothing to do.
    pub open spec fn idle(max_in_flight: usize) -> LoaderView {
        LoaderView {
            pending: Seq::empty(),
            in_flight: 0,
            max_in_flight,
            total_queries: 0,
            max_search_index: 0,
        }
    }

    /// What holds of every scheduler: the queue is in the order of service,
    /// every sequence number in it has been given out, and no more workers
    /// run than may.
    pub open spec fn well_formed(self) -> bool {
        &&& forall|i: int, j: int|
            0 <= i < j < self.pending.len() ==> serves_before(
                #[trigger] self.pending[i],
                #[trigger] self.pending[j],
            )
        &&& forall|i: int|
            0 <= i < self.pending.len() ==> (#[trigger] self.pending[i]).1 < self.total_queries
        &&& self.in_flight <= self.max_in_flight
        &&& self.max_search_index <= self.total_queries
    }

    /// Whether queuing a query starts a worker.
    pub open spec fn has_room(self) -> bool {
        self.in_flight < self.max_in_flight
    }

    /// The scheduler after `query` was queued.
    pub open spec fn queued(self, query: QueryView) -> LoaderView {
        LoaderView {
            pending: self.pending.insert(
                place(self.pending, query.priority()),
                (query, self.total_queries),
            ),
            in_flight: if self.has_room() {
                (self.in_flight + 1) as usize
            } else {
                self.in_flight
            },
            max_in_flight: self.max_in_flight,
            total_queries: (self.total_queries + 1) as usize,
            max_search_index: if query.is_search() {
                self.total_queries
            } else {
                self.max_search_index
            },
        }
    }

    /// The scheduler after each of `queries` was queued, in their order.
    pub open spec fn queued_all(self, queries: Seq<QueryView>) -> LoaderView
        decreases queries.len(),
    {
        if queries.len() == 0 {
            self
        } else {
            self.queued_all(queries.drop_last()).queued(queries.last())
        }
    }

    /// The entry that is handed out next: the first one that is not stale.
    pub open spec fn next(self) -> Option<Waiting> {
        let fresh = skip_stale(self.pending, self.max_search_index);
        if fresh.len() == 0 {
            None
        } else {
            Some(fresh[0])
        }
    }

    /// The scheduler after an entry was asked for: the stale entries at the
    /// front are gone, and so is the entry that was handed out.
    pub open spec fn popped(self) -> LoaderView {
        let fresh = skip_stale(self.pending, self.max_search_index);
        LoaderView {
            pending: if fresh.len() == 0 {
                fresh
            } else {
                fresh.drop_first()
            },
            ..self
        }
    }

    /// The scheduler after a worker has ended.
    pub open spec fn retired(self) -> LoaderView {
        LoaderView { in_flight: (self.in_flight - 1) as usize, ..self }
    }
}

/// The actions that tell the store that loading has begun or ended, where
/// `changed` says that it has.
pub open spec fn loading_actions(changed: bool, loading: bool) -> Seq<StateActionView> {
    if changed {
        seq![StateActionView::SetLoading(loading)]
    } else {
        Seq::empty()
    }
}

/// What is to be done once queries were queued.
#[derive(Debug)]
pub struct Queued {
    /// The number of workers to start.
    pub spawn: usize,
    /// What to tell the store: that loading has begun, where the first
    /// worker starts.
    pub actions: Vec<StateAction>,
}

/// What a worker does next.
#[derive(Debug)]
pub enum WorkerStep {
    /// Fetch `query`, which was queued as number `request_idx`.
    Run { query: Query, request_idx: usize },
    /// End, after telling the store `actions`: that loading has ended,
    /// where this was the last worker.
    Exit { actions: Vec<StateAction> },
}

/// The scheduler's state.
#[derive(Debug)]
pub struct Loader {
    queries: Vec<(Query, usize)>,
    in_flight: usize,
    max_in_flight: usize,
    /// Used to break ties between queries of one priority (oldest first).
    total_queries: usize,
    max_search_index: usize,
}

impl View for Loader {
    type V = LoaderView;

    closed spec fn view(&self) -> LoaderView {
        LoaderView {
            pending: waiting_views(self.queries@),
            in_flight: self.in_flight,
            max_in_flight: self.max_in_flight,
            total_queries: self.total_queries,
            max_search_index: self.max_search_index,
        }
    }
}

/// Whether a newer search has made the entry stale.
fn is_stale(query: &Query, request_idx: usize, marker: usize) -> (r: bool)
    ensures
        r == stale((query@, request_idx), marker),
{
    if query.is_search() && request_idx != marker {
        return true;
    }
    match query {
        Query::Image { associated_query: Some(origin), .. } => *origin < marker,
        _ => false,
    }
}

/// The actions that tell the store that loading has begun or ended.
fn tell_loading(changed: bool, loading: bool) -> (actions: Vec<StateAction>)
    ensures
        action_views(actions@) == loading_actions(changed, loading),
{
    let mut actions: Vec<StateAction> = Vec::new();
    if changed {
        actions.push(StateAction::SetLoading(loading));
    }
    assert(action_views(actions@) =~= loading_actions(changed, loading));
    actions
}

impl Loader {
    #[verifier::type_invariant]
    spec fn valid(self) -> bool {
        self@.well_formed()
    }

    /// A scheduler with nothing to do, which lets at most `max_in_flight`
    /// workers run.
    pub fn new(max_in_flight: usize) -> (loader: Loader)
        ensures
            loader@ == LoaderView::idle(max_in_flight),
            loader@.well_formed(),
    {
        let loader = Loader {
            queries: Vec::new(),
            in_flight: 0,
            max_in_flight,
            total_queries: 0,
            max_search_index: 0,
        };
        assert(loader@.pending =~= Seq::<Waiting>::empty());
        loader
    }

    /// The number of workers that run.
    pub fn in_flight(&self) -> (n: usize)
        ensures
            n == self@.in_flight,
            self@.well_formed(),
    {
        proof {
            use_type_invariant(self);
        }
        self.in_flight
    }

    /// The number of queries that were queued so far.
    pub fn total_queries(&self) -> (n: usize)
        ensures
            n == self@.total_queries,
    {
        self.total_queries
    }

    /// The number of queries that wait.
    pub fn waiting(&self) -> (n: usize)
        ensures
            n == self@.pending.len(),
    {
        self.queries.len()
    }

    /// Queues `query`. It gets the next sequence number; if it is a search
    /// or the chart, every older one of these is stale from now on, and so
    /// is every image that was asked for on behalf of one. A worker is to
    /// start unless as many run as may.
    pub fn queue(&mut self, query: Query) -> (queued: Queued)
        requires
            old(self)@.total_queries < usize::MAX,
        ensures
            final(self)@ == old(self)@.queued(query@),
            final(self)@.well_formed(),
            queued.spawn == if old(self)@.has_room() {
                1usize
            } else {
                0usize
            },
            action_views(queued.actions@) == loading_actions(
                old(self)@.in_flight == 0 && final(self)@.in_flight == 1,
                true,
            ),
    {
        let first = self.in_flight == 0;
        let spawned = self.enqueue(query);
        Queued {
            spawn: if spawned {
                1
            } else {
                0
            },
            actions: tell_loading(first && spawned, true),
        }
    }

    /// Queues each of `queries`, in their order.
    pub fn queue_all(&mut self, queries: Vec<Query>) -> (queued: Queued)
        requires
            old(self)@.total_queries + queries@.len() <= usize::MAX,
        ensures
            final(self)@ == old(self)@.queued_all(query_views(queries@)),
            final(self)@.well_formed(),
            queued.spawn == final(self)@.in_flight - old(self)@.in_flight,
            action_views(queued.actions@) == loading_actions(
                old(self)@.in_flight == 0 && final(self)@.in_flight > 0,
                true,
            ),
    {
        proof {
            use_type_invariant(&*self);
        }
        let ghost all = queries@;
        let ghost before = self@;
        let first = self.in_flight == 0;
        let mut spawn: usize = 0;
        for query in it: queries.into_iter()
            invariant
                it.seq() == all,
                before.total_queries + all.len() <= usize::MAX,
                self@ == before.queued_all(query_views(all.take(it.index() as int))),
                self@.total_queries == before.total_queries + it.index(),
                self@.well_formed(),
                before.in_flight <= self@.in_flight,
                spawn == self@.in_flight - before.in_flight,
        {
            proof {
                let done = it.index() as int;
                assert(query_views(all.take(done + 1)).drop_last() =~= query_views(
                    all.take(done),
                ));
                assert(query_views(all.take(done + 1)).last() == query@);
            }
            if self.enqueue(query) {
                spawn = spawn + 1;
            }
        }
        assert(all.take(all.len() as int) =~= all);
        Queued { spawn, actions: tell_loading(first && spawn > 0, true) }
    }

    /// Hands out the entry that is served next, with its sequence number:
    /// the waiting query of the highest priority, the oldest one among
    /// equals. Stale entries that stand before it are dropped for good.
    /// `None` means that nothing is left to serve.
    pub fn pop(&mut self) -> (next: Option<(Query, usize)>)
        ensures
            handed_out(next) == old(self)@.next(),
            final(self)@ == old(self)@.popped(),
            final(self)@.well_formed(),
    {
        proof {
            use_type_invariant(&*self);
        }
        let ghost before = self@;
        let mut queries: Vec<(Query, usize)> = Vec::new();
        core::mem::swap(&mut self.queries, &mut queries);
        assert(waiting_views(self.queries@) =~= Seq::<Waiting>::empty());
        let marker: usize = self.max_search_index;
        let mut k: usize = 0;
        while k < queries.len() && is_stale(&queries[k].0, queries[k].1, marker)
            invariant
                k <= queries@.len(),
                waiting_views(queries@) == before.pending,
                forall|j: int| 0 <= j < k ==> stale(#[trigger] before.pending[j], marker),
            decreases queries@.len() - k,
        {
            k += 1;
        }
        proof {
            lemma_skip_stale(before.pending, marker, k as int);
        }
        if k == queries.len() {
            assert(before.pending.skip(k as int) =~= Seq::<Waiting>::empty());
            None
        } else {
            let mut rest = queries.split_off(k + 1);
            let entry = queries.pop();
            proof {
                assert(waiting_views(rest@) =~= before.pending.skip(k as int).drop_first());
            }
            core::mem::swap(&mut self.queries, &mut rest);
            entry
        }
    }

    /// What a worker does next: it fetches the entry that [`Loader::pop`]
    /// hands out, or ends where nothing is left to serve. The last worker
    /// to end tells the store that loading has ended.
    pub fn worker_next(&mut self) -> (step: WorkerStep)
        requires
            old(self)@.in_flight > 0,
        ensures
            final(self)@.well_formed(),
            match old(self)@.next() {
                Some(entry) => {
                    &&& step matches WorkerStep::Run { query, request_idx }
                    &&& (query@, request_idx) == entry
                    &&& final(self)@ == old(self)@.popped()
                },
                None => {
                    &&& step matches WorkerStep::Exit { actions }
                    &&& action_views(actions@) == loading_actions(
                        old(self)@.in_flight == 1,
                        false,
                    )
                    &&& final(self)@ == old(self)@.popped().retired()
                },
            },
    {
        match self.pop() {
            Some((query, request_idx)) => WorkerStep::Run { query, request_idx },
            None => {
                self.in_flight = self.in_flight - 1;
                WorkerStep::Exit { actions: tell_loading(self.in_flight == 0, false) }
            },
        }
    }

    /// Queues `query` and says whether a worker is to start.
    fn enqueue(&mut self, query: Query) -> (spawned: bool)
        requires
            old(self)@.total_queries < usize::MAX,
        ensures
            final(self)@ == old(self)@.queued(query@),
            final(self)@.well_formed(),
            spawned == old(self)@.has_room(),
    {
        proof {
            use_type_invariant(&*self);
        }
        let ghost before = self@;
        let mut queries: Vec<(Query, usize)> = Vec::new();
        core::mem::swap(&mut self.queries, &mut queries);
        assert(waiting_views(self.queries@) =~= Seq::<Waiting>::empty());
        let priority: usize = query.priority();
        let mut at: usize = 0;
        while at < queries.len() && queries[at].0.priority() >= priority
            invariant
                at <= queries@.len(),
                waiting_views(queries@) == before.pending,
                forall|j: int| 0 <= j < at ==> (#[trigger] before.pending[j]).0.priority() >= priority,
            decreases queries@.len() - at,
        {
            at += 1;
        }
        let request_idx: usize = self.total_queries;
        let marker: usize = if query.is_search() {
            request_idx
        } else {
            self.max_search_index
        };
        let spawned = self.in_flight < self.max_in_flight;
        let in_flight: usize = if spawned {
            self.in_flight + 1
        } else {
            self.in_flight
        };
        let ghost entry = (query@, request_idx);
        queries.insert(at, (query, request_idx));
        proof {
            lemma_place(before.pending, priority, at as int);
            assert(waiting_views(queries@) =~= before.pending.insert(at as int, entry));
            before.lemma_queue_keeps_order(entry.0);
        }
        *self = Loader {
            queries,
            in_flight,
            max_in_flight: self.max_in_flight,
            total_queries: request_idx + 1,
            max_search_index: marker,
        };
        spawned
    }
}

/// The mathematical values of a list of queries.
pub open spec fn query_views(queries: Seq<Query>) -> Seq<QueryView> {
    queries.map_values(|query: Query| query@)
}

/// `place` is where the entries of at least the given priority end.
proof fn lemma_place(pending: Seq<Waiting>, priority: usize, at: int)
    requires
        0 <= at <= pending.len(),
        forall|j: int| 0 <= j < at ==> (#[trigger] pending[j]).0.priority() >= priority,
        at < pending.len() ==> pending[at].0.priority() < priority,
    ensures
        place(pending, priority) == at,
    decreases at,
{
    if at > 0 {
        let rest = pending.drop_first();
        assert forall|j: int| 0 <= j < at - 1 implies (#[trigger] rest[j]).0.priority()
            >= priority by {
            assert(rest[j] == pending[j + 1]);
        }
        lemma_place(rest, priority, at - 1);
    }
}

/// `skip_stale` drops exactly the stale entries before the first one that
/// is not.
proof fn lemma_skip_stale(pending: Seq<Waiting>, marker: usize, k: int)
    requires
        0 <= k <= pending.len(),
        forall|j: int| 0 <= j < k ==> stale(#[trigger] pending[j], marker),
        k < pending.len() ==> !stale(pending[k], marker),
    ensures
        skip_stale(pending, marker) == pending.skip(k),
    decreases k,
{
    if k > 0 {
        let rest = pending.drop_first();
        assert forall|j: int| 0 <= j < k - 1 implies stale(#[trigger] rest[j], marker) by {
            assert(rest[j] == pending[j + 1]);
        }
        lemma_skip_stale(rest, marker, k - 1);
        assert(rest.skip(k - 1) =~= pending.skip(k));
    } else {
        assert(pending.skip(0) =~= pending);
    }
}

impl LoaderView {
    /// The place of a new query is within the queue; before it stand the
    /// entries of at least its priority, behind it those of a lower one.
    pub proof fn lemma_place_splits(self, priority: usize)
        requires
            self.well_formed(),
        ensures
            0 <= place(self.pending, priority) <= self.pending.len(),
            forall|j: int|
                0 <= j < place(self.pending, priority) ==> (#[trigger] self.pending[j]).0.priority()
                    >= priority,
            forall|j: int|
                place(self.pending, priority) <= j < self.pending.len() ==> (
                #[trigger] self.pending[j]).0.priority() < priority,
    {
        lemma_place_bounds(self.pending, priority);
        let at = place(self.pending, priority);
        assert forall|j: int| at <= j < self.pending.len() implies (
        #[trigger] self.pending[j]).0.priority() < priority by {
            if at < j {
                assert(serves_before(self.pending[at], self.pending[j]));
            }
        }
    }

    /// Queuing keeps the queue in the order of service: whatever the order
    /// in which queries come, a higher priority stands before a lower one,
    /// and among equals the older before the newer.
    pub proof fn lemma_queue_keeps_order(self, query: QueryView)
        requires
            self.well_formed(),
            self.total_queries < usize::MAX,
        ensures
            self.queued(query).well_formed(),
    {
        self.lemma_place_splits(query.priority());
        let at = place(self.pending, query.priority());
        let entry = (query, self.total_queries);
        let after = self.queued(query).pending;
        assert forall|i: int, j: int| 0 <= i < j < after.len() implies serves_before(
            #[trigger] after[i],
            #[trigger] after[j],
        ) by {
            let a = if i < at { i } else { i - 1 };
            let b = if j < at { j } else { j - 1 };
            if i != at && j != at {
                assert(after[i] == self.pending[a]);
                assert(after[j] == self.pending[b]);
                assert(serves_before(self.pending[a], self.pending[b]));
            } else if i == at {
                assert(after[j] == self.pending[b]);
            } else {
                assert(after[i] == self.pending[a]);
            }
        }
        assert forall|i: int| 0 <= i < after.len() implies (#[trigger] after[i]).1
            < self.queued(query).total_queries by {
            if i != at {
                let a = if i < at { i } else { i - 1 };
                assert(after[i] == self.pending[a]);
            }
        }
    }
}

/// The number of stale entries at the front of `pending`.
proof fn lemma_first_fresh(pending: Seq<Waiting>, marker: usize) -> (k: int)
    ensures
        0 <= k <= pending.len(),
        forall|j: int| 0 <= j < k ==> stale(#[trigger] pending[j], marker),
        k < pending.len() ==> !stale(pending[k], marker),
        skip_stale(pending, marker) == pending.skip(k),
    decreases pending.len(),
{
    if pending.len() == 0 || !stale(pending[0], marker) {
        assert(pending.skip(0) =~= pending);
        0
    } else {
        let rest = pending.drop_first();
        let k = lemma_first_fresh(rest, marker);
        assert forall|j: int| 0 <= j < k + 1 implies stale(#[trigger] pending[j], marker) by {
            if j > 0 {
                assert(pending[j] == rest[j - 1]);
            }
        }
        if k + 1 < pending.len() {
            assert(pending[k + 1] == rest[k]);
        }
        assert(rest.skip(k) =~= pending.skip(k + 1));
        k + 1
    }
}

impl LoaderView {
    /// What is handed out is the best of what waits: it is not stale, and
    /// it is served before every other waiting entry that is not stale,
    /// that is, it has the highest priority among them and is the oldest of
    /// that priority. Left in the queue are exactly the entries that are
    /// served after it, still in the order of service. Where nothing is
    /// handed out, every entry was stale and the queue is empty afterwards.
    pub proof fn lemma_pop_serves_best(self)
        requires
            self.well_formed(),
        ensures
            self.popped().well_formed(),
            match self.next() {
                Some(entry) => {
                    &&& self.pending.contains(entry)
                    &&& !stale(entry, self.max_search_index)
                    &&& forall|other: Waiting|
                        self.pending.contains(other) && !stale(other, self.max_search_index)
                            && other != entry ==> #[trigger] serves_before(entry, other)
                    &&& forall|other: Waiting| #[trigger]
                        self.popped().pending.contains(other) <==> self.pending.contains(other)
                            && serves_before(entry, other)
                },
                None => {
                    &&& forall|other: Waiting| #[trigger]
                        self.pending.contains(other) ==> stale(other, self.max_search_index)
                    &&& self.popped().pending.len() == 0
                },
            },
    {
        let k = lemma_first_fresh(self.pending, self.max_search_index);
        let left = self.popped().pending;
        if k < self.pending.len() {
            let entry = self.pending[k];
            assert(self.pending.skip(k)[0] == entry);
            assert(left =~= self.pending.skip(k + 1));
            assert forall|other: Waiting|
                self.pending.contains(other) && !stale(other, self.max_search_index) && other
                    != entry implies #[trigger] serves_before(entry, other) by {
                let j = choose|j: int| 0 <= j < self.pending.len() && self.pending[j] == other;
                assert(serves_before(self.pending[k], self.pending[j]));
            }
            assert forall|other: Waiting| #[trigger]
                left.contains(other) <==> self.pending.contains(other) && serves_before(
                    entry,
                    other,
                ) by {
                if left.contains(other) {
                    let j = choose|j: int| 0 <= j < left.len() && left[j] == other;
                    assert(self.pending[k + 1 + j] == other);
                    assert(serves_before(self.pending[k], self.pending[k + 1 + j]));
                }
                if self.pending.contains(other) && serves_before(entry, other) {
                    let j = choose|j: int| 0 <= j < self.pending.len() && self.pending[j] == other;
                    if j < k {
                        assert(serves_before(self.pending[j], self.pending[k]));
                    }
                    assert(left[j - k - 1] == other);
                }
            }
            assert forall|i: int, j: int| 0 <= i < j < left.len() implies serves_before(
                #[trigger] left[i],
                #[trigger] left[j],
            ) by {
                assert(serves_before(self.pending[k + 1 + i], self.pending[k + 1 + j]));
            }
            assert forall|i: int| 0 <= i < left.len() implies (#[trigger] left[i]).1
                < self.total_queries by {
                assert(left[i] == self.pending[k + 1 + i]);
            }
        } else {
            assert(left =~= Seq::<Waiting>::empty());
            assert forall|other: Waiting| #[trigger]
                self.pending.contains(other) implies stale(other, self.max_search_index) by {
                let j = choose|j: int| 0 <= j < self.pending.len() && self.pending[j] == other;
            }
        }
    }

    /// A search or chart query that is queued makes stale every search and
    /// chart query that waits, and every waiting image that was asked for
    /// on behalf of an earlier query. It is not stale itself.
    pub proof fn lemma_search_supersedes(self, query: QueryView)
        requires
            self.well_formed(),
            self.total_queries < usize::MAX,
            query.is_search(),
        ensures
            self.queued(query).max_search_index == self.total_queries,
            !stale((query, self.total_queries), self.queued(query).max_search_index),
            forall|entry: Waiting| #[trigger]
                self.pending.contains(entry) && entry.0.is_search() ==> stale(
                    entry,
                    self.queued(query).max_search_index,
                ),
            forall|entry: Waiting| #[trigger]
                self.pending.contains(entry) && serves_query_before(entry, self.total_queries)
                    ==> stale(entry, self.queued(query).max_search_index),
    {
        assert forall|entry: Waiting| #[trigger]
            self.pending.contains(entry) && entry.0.is_search() implies stale(
            entry,
            self.queued(query).max_search_index,
        ) by {
            let j = choose|j: int| 0 <= j < self.pending.len() && self.pending[j] == entry;
        }
    }

    /// What is stale stays stale: no query that is queued later makes a
    /// stale entry fit to be served again.
    pub proof fn lemma_stale_for_good(self, entry: Waiting, query: QueryView)
        requires
            self.well_formed(),
            self.total_queries < usize::MAX,
            self.pending.contains(entry),
            stale(entry, self.max_search_index),
        ensures
            stale(entry, self.queued(query).max_search_index),
    {
        let j = choose|j: int| 0 <= j < self.pending.len() && self.pending[j] == entry;
    }

    /// Loading begins when the first worker starts and ends when the last
    /// one ends: queuing raises the number of workers from zero exactly
    /// when none ran and one may run, and a worker's end brings it to zero
    /// exactly when it was the only one. No more workers run than may.
    pub proof fn lemma_loading_edges(self, query: QueryView)
        requires
            self.well_formed(),
        ensures
            (self.in_flight == 0 && self.queued(query).in_flight == 1) <==> (self.in_flight == 0
                && self.max_in_flight > 0),
            self.queued(query).in_flight <= self.max_in_flight,
            self.in_flight > 0 ==> (self.popped().retired().in_flight == 0 <==> self.in_flight
                == 1),
            self.popped().in_flight == self.in_flight,
    {
    }
}

/// The place of a new query is within the queue, and every entry before it
/// has at least the query's priority; the entry at it, if there is one, has
/// a lower one.
proof fn lemma_place_bounds(pending: Seq<Waiting>, priority: usize)
    ensures
        0 <= place(pending, priority) <= pending.len(),
        forall|j: int|
            0 <= j < place(pending, priority) ==> (#[trigger] pending[j]).0.priority() >= priority,
        place(pending, priority) < pending.len() ==> pending[place(pending, priority)].0.priority()
            < priority,
    decreases pending.len(),
{
    if pending.len() == 0 || pending[0].0.priority() < priority {
    } else {
        let rest = pending.drop_first();
        lemma_place_bounds(rest, priority);
        assert forall|j: int| 0 <= j < place(pending, priority) implies (
        #[trigger] pending[j]).0.priority() >= priority by {
            if j > 0 {
                assert(pending[j] == rest[j - 1]);
            }
        }
    }
}

} // verus!
