//! The cooperative task executor and the event-correlated future state it
//! drives.
//!
//! A future's completion is delivered by a later, externally triggered
//! callback carrying a correlation id. The id is looked up in a
//! [`SharedStateMap`], which buffers the result if the wake arrives before
//! the first poll. The executor keeps one FIFO queue of tasks; a tick
//! serves every task that was queued when the tick began exactly once,
//! re-queueing the ones that are still pending.
//!
//! Polling a task and invoking a waker are the caller's business — the
//! executor is generic over the task representation and the waker
//! representation, so the host-facing shell decides what those are.

use std::collections::HashMap;
use vstd::prelude::*;

use crate::Fault;

verus! {

broadcast use vstd::std_specs::hash::group_hash_axioms;

/// Completion state shared between one event-correlated future and the
/// callback that will complete it: whether the event has fired, the
/// buffered result, and the waker stored by the latest poll.
pub struct EventHandlerSharedState<T, W> {
    pub completed: bool,
    pub waker: Option<W>,
    pub result: Option<T>,
}

/// A handle on one outstanding event-correlated future: the correlation id
/// under which its shared state is registered.
#[derive(Debug, Clone, Copy, PartialEq, Eq, Structural)]
pub struct EventHandlerFuture {
    pub state_id: u32,
}

/// The registry model: correlation id to shared completion state.
pub type StateMapModel<T, W> = Map<u32, EventHandlerSharedState<T, W>>;

/// True when `id` is registered and still waiting to be woken.
pub open spec fn spec_pending<T, W>(m: StateMapModel<T, W>, id: u32) -> bool {
    m.contains_key(id) && !m[id].completed
}

/// True when `id` holds a buffered result that a poll would consume.
pub open spec fn spec_buffered<T, W>(m: StateMapModel<T, W>, id: u32) -> bool {
    m.contains_key(id) && m[id].completed && m[id].result is Some
}

/// Registering a fresh, incomplete state under `id`.
pub open spec fn spec_created<T, W>(m: StateMapModel<T, W>, id: u32) -> StateMapModel<T, W> {
    m.insert(
        id,
        (EventHandlerSharedState { completed: false, waker: None::<W>, result: None::<T> }),
    )
}

/// Completing `id` with result `v`: the state is marked completed, the
/// result buffered, and the stored waker taken out to be invoked.
pub open spec fn spec_woken<T, W>(m: StateMapModel<T, W>, id: u32, v: T) -> StateMapModel<T, W> {
    m.insert(id, (EventHandlerSharedState { completed: true, waker: None::<W>, result: Some(v) }))
}

/// Storing `w` as the waker for `id`, replacing any previous one.
pub open spec fn spec_waiting<T, W>(m: StateMapModel<T, W>, id: u32, w: W) -> StateMapModel<T, W> {
    m.insert(
        id,
        (EventHandlerSharedState {
            completed: m[id].completed,
            waker: Some(w),
            result: m[id].result,
        }),
    )
}

/// What polling `id` returns: the buffered result if the wake already
/// happened, pending if the state is still waiting, and a
/// [`Fault::MissingCorrelation`] if the id is not registered at all.
pub open spec fn spec_poll_result<T, W>(m: StateMapModel<T, W>, id: u32) -> Result<
    Option<T>,
    Fault,
> {
    if !m.contains_key(id) {
        Err(Fault::MissingCorrelation)
    } else if spec_buffered(m, id) {
        Ok(Some(m[id].result->Some_0))
    } else {
        Ok(None)
    }
}

/// The registry after polling `id`: a consumed result leaves the registry,
/// a pending poll stores the waker, an unknown id changes nothing.
pub open spec fn spec_after_poll<T, W>(m: StateMapModel<T, W>, id: u32, w: W) -> StateMapModel<
    T,
    W,
> {
    if !m.contains_key(id) {
        m
    } else if spec_buffered(m, id) {
        m.remove(id)
    } else {
        spec_waiting(m, id, w)
    }
}

/// What waking `id` returns: the waker a poll stored (to be invoked by the
/// caller), or a [`Fault::MissingCorrelation`] when the id is not pending —
/// never registered, already woken, or already consumed.
pub open spec fn spec_wake_result<T, W>(m: StateMapModel<T, W>, id: u32) -> Result<
    Option<W>,
    Fault,
> {
    if spec_pending(m, id) {
        Ok(m[id].waker)
    } else {
        Err(Fault::MissingCorrelation)
    }
}

/// The registry after waking `id` with `v`: a pending state is completed
/// with the result buffered; anything else is left alone.
pub open spec fn spec_after_wake<T, W>(m: StateMapModel<T, W>, id: u32, v: T) -> StateMapModel<
    T,
    W,
> {
    if spec_pending(m, id) {
        spec_woken(m, id, v)
    } else {
        m
    }
}

/// The registry of outstanding event-correlated futures for one result
/// type, keyed by correlation id.
pub struct SharedStateMap<T, W> {
    states: HashMap<u32, EventHandlerSharedState<T, W>>,
}

impl<T, W> View for SharedStateMap<T, W> {
    type V = StateMapModel<T, W>;

    closed spec fn view(&self) -> StateMapModel<T, W> {
        self.states@
    }
}

impl<T, W> SharedStateMap<T, W> {
    /// A registry with no outstanding futures.
    pub fn new() -> (r: Self)
        ensures
            r@ == StateMapModel::<T, W>::empty(),
    {
        SharedStateMap { states: HashMap::new() }
    }

    /// How many correlation ids are registered, woken or not.
    pub fn len(&self) -> (n: usize)
        ensures
            n == self@.dom().len(),
    {
        self.states.len()
    }

    /// Whether `id` is registered (woken or not).
    pub fn contains(&self, id: u32) -> (r: bool)
        ensures
            r == self@.contains_key(id),
    {
        self.states.contains_key(&id)
    }

    /// Whether `id` holds a buffered result that the next poll will return.
    pub fn has_result(&self, id: u32) -> (r: bool)
        ensures
            r == spec_buffered(self@, id),
    {
        match self.states.get(&id) {
            Some(state) => state.completed && state.result.is_some(),
            None => false,
        }
    }

    /// Register a fresh shared state under correlation id `id` and hand
    /// back the future that will observe it.
    pub fn create_future(&mut self, id: u32) -> (f: EventHandlerFuture)
        ensures
            final(self)@ == spec_created(old(self)@, id),
            f.state_id == id,
    {
        let state = EventHandlerSharedState { completed: false, waker: None, result: None };
        self.states.insert(id, state);
        EventHandlerFuture { state_id: id }
    }

    /// Complete the future registered under `id`: buffer the result, mark
    /// the state woken — after which the id no longer counts as pending —
    /// and return the waker the caller must now invoke, if a poll stored
    /// one. A wake for an id that is not pending signals a protocol desync
    /// and changes nothing.
    pub fn wake_future(&mut self, id: u32, result: T) -> (r: Result<Option<W>, Fault>)
        ensures
            r == spec_wake_result(old(self)@, id),
            final(self)@ == spec_after_wake(old(self)@, id, result),
    {
        match self.states.remove(&id) {
            Some(state) => {
                if state.completed {
                    self.states.insert(id, state);
                    proof {
                        assert(self@ =~= old(self)@);
                    }
                    Err(Fault::MissingCorrelation)
                } else {
                    let woken = EventHandlerSharedState {
                        completed: true,
                        waker: None,
                        result: Some(result),
                    };
                    self.states.insert(id, woken);
                    Ok(state.waker)
                }
            },
            None => Err(Fault::MissingCorrelation),
        }
    }

    /// Poll the future registered under `id`. A buffered result is consumed
    /// and its registry entry dropped; otherwise `waker` is stored —
    /// replacing any previous waker — and the poll reports pending. An id
    /// that was never registered, or whose result was already consumed,
    /// reports a [`Fault::MissingCorrelation`].
    pub fn poll_future(&mut self, id: u32, waker: W) -> (r: Result<Option<T>, Fault>)
        ensures
            r == spec_poll_result(old(self)@, id),
            final(self)@ == spec_after_poll(old(self)@, id, waker),
    {
        match self.states.remove(&id) {
            Some(state) => {
                if state.completed && state.result.is_some() {
                    match state.result {
                        Some(value) => Ok(Some(value)),
                        None => Err(Fault::MissingCorrelation),
                    }
                } else {
                    let waiting = EventHandlerSharedState {
                        completed: state.completed,
                        waker: Some(waker),
                        result: state.result,
                    };
                    self.states.insert(id, waiting);
                    proof {
                        assert(self@ =~= spec_waiting(old(self)@, id, waker));
                    }
                    Ok(None)
                }
            },
            None => Err(Fault::MissingCorrelation),
        }
    }
}

impl EventHandlerFuture {
    /// Register a fresh shared state under `id` in the given registry and
    /// return the future together with the id a completion callback must
    /// later present. The caller chooses the id; nothing here guarantees it
    /// is collision-free.
    pub fn create_future_with_state_id<T, W>(map: &mut SharedStateMap<T, W>, id: u32) -> (r: (
        EventHandlerFuture,
        u32,
    ))
        ensures
            final(map)@ == spec_created(old(map)@, id),
            r.0.state_id == id,
            r.1 == id,
    {
        let future = map.create_future(id);
        (future, id)
    }

    /// Complete the future registered under `id`. See
    /// [`SharedStateMap::wake_future`].
    pub fn wake_future_with_state_id<T, W>(map: &mut SharedStateMap<T, W>, id: u32, result: T) -> (r:
        Result<Option<W>, Fault>)
        ensures
            r == spec_wake_result(old(map)@, id),
            final(map)@ == spec_after_wake(old(map)@, id, result),
    {
        map.wake_future(id, result)
    }

    /// Poll this future against its registry. See
    /// [`SharedStateMap::poll_future`].
    pub fn poll<T, W>(&self, map: &mut SharedStateMap<T, W>, waker: W) -> (r: Result<
        Option<T>,
        Fault,
    >)
        ensures
            r == spec_poll_result(old(map)@, self.state_id),
            final(map)@ == spec_after_poll(old(map)@, self.state_id, waker),
    {
        map.poll_future(self.state_id, waker)
    }
}

/// Buffered completion: waking a freshly created future before it is ever
/// polled succeeds and buffers the result, and the first later poll returns
/// exactly that result — the wake is not lost.
pub proof fn lemma_buffered_completion<T, W>(m: StateMapModel<T, W>, id: u32, v: T)
    ensures
        ({
            let created = spec_created(m, id);
            let woken = spec_after_wake(created, id, v);
            &&& spec_wake_result(created, id) == Ok::<Option<W>, Fault>(None)
            &&& spec_buffered(woken, id)
            &&& spec_poll_result(woken, id) == Ok::<Option<T>, Fault>(Some(v))
        }),
{
}

/// A wake reaches the waker stored by the latest pending poll: after a poll
/// stored waker `w` for a pending id, that id is still pending and its
/// stored waker is exactly `w`, so the wake that completes it hands `w`
/// back to be invoked.
pub proof fn lemma_poll_then_wake<T, W>(m: StateMapModel<T, W>, id: u32, w: W)
    requires
        spec_pending(m, id),
    ensures
        spec_pending(spec_waiting(m, id, w), id),
        spec_waiting(m, id, w)[id].waker == Some(w),
{
}

/// The tasks retained by one tick: those whose poll outcome was a new task
/// value, kept in the order they were served.
pub open spec fn spec_retained<P>(outs: Seq<Option<P>>) -> Seq<P>
    decreases outs.len(),
{
    if outs.len() == 0 {
        Seq::empty()
    } else {
        match outs.last() {
            Some(task) => spec_retained(outs.drop_last()).push(task),
            None => spec_retained(outs.drop_last()),
        }
    }
}

/// The cooperative executor's run queue: a FIFO of pending tasks. The task
/// representation is the caller's; polling one is done by the closure
/// handed to [`Runtime::poll_tasks`].
pub struct Runtime<P> {
    tasks: Vec<P>,
}

impl<P> View for Runtime<P> {
    type V = Seq<P>;

    closed spec fn view(&self) -> Seq<P> {
        self.tasks@
    }
}

impl<P> Runtime<P> {
    /// An executor with an empty run queue.
    pub fn new() -> (r: Self)
        ensures
            r@ == Seq::<P>::empty(),
    {
        Runtime { tasks: Vec::new() }
    }

    /// How many tasks are queued.
    pub fn task_count(&self) -> (n: usize)
        ensures
            n == self@.len(),
    {
        self.tasks.len()
    }

    /// Append a task to the queue tail without polling it, for contexts
    /// where even the first poll must be deferred to a later turn.
    pub fn enqueue(&mut self, task: P)
        ensures
            final(self)@ == old(self)@.push(task),
    {
        self.tasks.push(task);
    }

    /// One tick: serve exactly the tasks queued when the tick began, each
    /// exactly once and in FIFO order. `poll` returns the task again if it
    /// is still pending — it is then re-queued at the tail, to be retried
    /// on a later tick, never within this one — or nothing if it is done.
    /// Returns how many tasks were served.
    pub fn poll_tasks<F: Fn(P) -> Option<P>>(&mut self, poll: &F) -> (n: usize)
        requires
            forall|p: P| call_requires(*poll, (p,)),
        ensures
            n == old(self)@.len(),
            exists|outs: Seq<Option<P>>|
                {
                    &&& outs.len() == old(self)@.len()
                    &&& (forall|i: int|
                        0 <= i < outs.len() ==> call_ensures(
                            *poll,
                            (old(self)@[i],),
                            #[trigger] outs[i],
                        ))
                    &&& final(self)@ == spec_retained(outs)
                },
    {
        let n = self.tasks.len();
        let ghost mut outs: Seq<Option<P>> = Seq::empty();
        let mut k: usize = 0;
        while k < n
            invariant
                forall|p: P| call_requires(*poll, (p,)),
                k <= n,
                n == old(self)@.len(),
                outs.len() == k,
                forall|i: int|
                    0 <= i < k ==> call_ensures(*poll, (old(self)@[i],), #[trigger] outs[i]),
                self@ =~= old(self)@.subrange(k as int, n as int) + spec_retained(outs),
            decreases n - k,
        {
            proof {
                assert(old(self)@.subrange(k as int, n as int).len() > 0);
            }
            let task = self.tasks.remove(0);
            assert(task == old(self)@[k as int]);
            assert(self@ =~= old(self)@.subrange(k as int + 1, n as int) + spec_retained(outs));
            let outcome = poll(task);
            match outcome {
                Some(still_pending) => {
                    self.tasks.push(still_pending);
                    proof {
                        let prev = outs;
                        outs = outs.push(Some(still_pending));
                        assert(outs.drop_last() =~= prev);
                        assert(spec_retained(outs) =~= spec_retained(prev).push(still_pending));
                        assert(self@ =~= old(self)@.subrange(k as int + 1, n as int)
                            + spec_retained(outs));
                    }
                },
                None => {
                    proof {
                        let prev = outs;
                        outs = outs.push(None::<P>);
                        assert(outs.drop_last() =~= prev);
                        assert(spec_retained(outs) =~= spec_retained(prev));
                        assert(self@ =~= old(self)@.subrange(k as int + 1, n as int)
                            + spec_retained(outs));
                    }
                },
            }
            k += 1;
        }
        proof {
            assert(old(self)@.subrange(n as int, n as int) =~= Seq::<P>::empty());
            assert(self@ =~= spec_retained(outs));
        }
        n
    }
}

/// Spawn a task and immediately run one full tick over the current queue
/// contents: the new task — and every task queued before it — is served by
/// `poll` before this call returns. A task that completes on its very first
/// poll has therefore produced its effect before the spawn returns.
pub fn run<P, F: Fn(P) -> Option<P>>(rt: &mut Runtime<P>, task: P, poll: &F) -> (n: usize)
    requires
        forall|p: P| call_requires(*poll, (p,)),
    ensures
        n == old(rt)@.len() + 1,
        exists|outs: Seq<Option<P>>|
            {
                &&& outs.len() == old(rt)@.len() + 1
                &&& (forall|i: int|
                    0 <= i < outs.len() ==> call_ensures(
                        *poll,
                        (old(rt)@.push(task)[i],),
                        #[trigger] outs[i],
                    ))
                &&& final(rt)@ == spec_retained(outs)
            },
{
    rt.enqueue(task);
    rt.poll_tasks(poll)
}

} // verus!
