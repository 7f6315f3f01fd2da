use vstd::prelude::*;

use crate::error::Error;

verus! {

/// What a successful fetch yields, as cached in node-local storage.
#[derive(Clone, Debug, PartialEq, Eq)]
pub struct GithubInfo {
    pub login: Vec<u8>,
    pub blog: Vec<u8>,
    pub public_repos: u32,
}

/// The fetch lock as node-local storage holds it.
#[derive(Clone, Copy, Debug, PartialEq, Eq)]
pub enum LockState {
    /// Never written.
    Absent,
    /// A worker is fetching.
    Held,
    /// Released.
    Free,
    /// A stored value that does not decode as a lock.
    Unreadable,
}

/// Node-local storage shared by the workers of one node: the cached fetch
/// result and the fetch lock.
#[derive(Debug)]
pub struct LocalStore {
    pub gh_info: Option<GithubInfo>,
    pub lock: LockState,
}

/// How a call of `begin_fetch` that may go on ends its first phase.
#[derive(Clone, Copy, Debug, PartialEq, Eq)]
pub enum FetchStart {
    /// A result is cached: nothing is to be fetched.
    Cached,
    /// This caller now holds the lock and is to fetch.
    Acquired,
}

/// A lock that a worker may take: never written, or released.
pub open spec fn lock_takeable(l: LockState) -> bool {
    l is Absent || l is Free
}

/// What `begin_fetch` returns on a store.
pub open spec fn begin_result(s: LocalStore) -> Result<FetchStart, Error> {
    if s.gh_info is Some {
        Ok(FetchStart::Cached)
    } else if lock_takeable(s.lock) {
        Ok(FetchStart::Acquired)
    } else {
        Err(Error::AlreadyFetched)
    }
}

/// The store after `begin_fetch`: the lock is taken exactly when nothing is
/// cached and the lock is takeable.
pub open spec fn after_begin(s: LocalStore) -> LocalStore {
    if s.gh_info is None && lock_takeable(s.lock) {
        LocalStore { gh_info: s.gh_info, lock: LockState::Held }
    } else {
        s
    }
}

/// The store after `finish_fetch`: a fetched result is cached, and the lock
/// is released whatever the outcome.
pub open spec fn after_finish(s: LocalStore, fetched: Result<GithubInfo, Error>) -> LocalStore {
    match fetched {
        Ok(info) => LocalStore { gh_info: Some(info), lock: LockState::Free },
        Err(_) => LocalStore { gh_info: s.gh_info, lock: LockState::Free },
    }
}

/// What `finish_fetch` returns for a fetch outcome.
pub open spec fn finish_result(fetched: Result<GithubInfo, Error>) -> Result<(), Error> {
    match fetched {
        Ok(_) => Ok(()),
        Err(e) => Err(e),
    }
}

impl LocalStore {
    /// Storage where nothing was ever written.
    pub fn new() -> (r: LocalStore)
        ensures
            r.gh_info is None,
            r.lock == LockState::Absent,
    {
        LocalStore { gh_info: None, lock: LockState::Absent }
    }

    /// Compare-and-set on the lock: takes it when it was never written or is
    /// released, and leaves it as it is otherwise.
    pub fn try_acquire(&mut self) -> (acquired: bool)
        ensures
            acquired == lock_takeable(old(self).lock),
            final(self).gh_info == old(self).gh_info,
            final(self).lock == (if acquired { LockState::Held } else { old(self).lock }),
    {
        match self.lock {
            LockState::Absent | LockState::Free => {
                self.lock = LockState::Held;
                true
            },
            LockState::Held | LockState::Unreadable => false,
        }
    }

    /// Releases the lock.
    pub fn release(&mut self)
        ensures
            final(self).gh_info == old(self).gh_info,
            final(self).lock == LockState::Free,
    {
        self.lock = LockState::Free;
    }
}

/// First phase of a fetch: a cached result ends it at once; otherwise the
/// caller takes the lock or, when another worker holds it, is turned away
/// with `AlreadyFetched`. The caller fetches only on `Acquired`, and then
/// hands the outcome to `finish_fetch`.
pub fn begin_fetch(store: &mut LocalStore) -> (r: Result<FetchStart, Error>)
    ensures
        r == begin_result(*old(store)),
        *final(store) == after_begin(*old(store)),
{
    if store.gh_info.is_some() {
        return Ok(FetchStart::Cached);
    }
    if store.try_acquire() {
        Ok(FetchStart::Acquired)
    } else {
        Err(Error::AlreadyFetched)
    }
}

/// Second phase of a fetch, for the worker that holds the lock: caches a
/// fetched result, releases the lock whatever the outcome, and passes a
/// failure on.
pub fn finish_fetch(store: &mut LocalStore, fetched: Result<GithubInfo, Error>) -> (r: Result<(), Error>)
    ensures
        r == finish_result(fetched),
        *final(store) == after_finish(*old(store), fetched),
{
    match fetched {
        Ok(info) => {
            store.gh_info = Some(info);
            store.release();
            Ok(())
        },
        Err(e) => {
            store.release();
            Err(e)
        },
    }
}

/// Where one worker activation stands in the fetch protocol.
#[derive(Clone, Copy, Debug, PartialEq, Eq)]
pub enum Phase {
    /// Holds the lock and has a request out.
    Fetching,
    /// Has returned.
    Finished,
}

/// A step of one worker, named by a number, on the node's shared store.
pub enum NodeEvent {
    /// The worker calls `begin_fetch`.
    Begin(usize),
    /// The worker's request came back with this outcome, and it calls
    /// `finish_fetch`.
    Finish(usize, Result<GithubInfo, Error>),
}

/// The node's shared store and the phase of each worker that has begun.
pub struct NodeState {
    pub store: LocalStore,
    pub phases: Map<usize, Phase>,
}

/// Worker `w` has a request out.
pub open spec fn fetching(n: NodeState, w: usize) -> bool {
    n.phases.contains_key(w) && n.phases[w] == Phase::Fetching
}

/// One step of the node. A worker begins only when it has no request out;
/// it goes on to fetch exactly when `begin_fetch` returns `Acquired`. A
/// worker finishes only when it has a request out.
pub open spec fn node_step(n: NodeState, e: NodeEvent) -> NodeState {
    match e {
        NodeEvent::Begin(w) => if fetching(n, w) {
            n
        } else {
            NodeState {
                store: after_begin(n.store),
                phases: n.phases.insert(
                    w,
                    if begin_result(n.store) == Ok::<FetchStart, Error>(FetchStart::Acquired) {
                        Phase::Fetching
                    } else {
                        Phase::Finished
                    },
                ),
            }
        },
        NodeEvent::Finish(w, fetched) => if fetching(n, w) {
            NodeState {
                store: after_finish(n.store, fetched),
                phases: n.phases.insert(w, Phase::Finished),
            }
        } else {
            n
        },
    }
}

/// The node after the steps `events`, in order, from `n`.
pub open spec fn node_run(n: NodeState, events: Seq<NodeEvent>) -> NodeState
    decreases events.len(),
{
    if events.len() == 0 {
        n
    } else {
        node_step(node_run(n, events.drop_last()), events.last())
    }
}

/// At most one worker has a request out, and while one has, the lock is
/// held and nothing is cached.
pub open spec fn exclusive(n: NodeState) -> bool {
    &&& forall|a: usize, b: usize| fetching(n, a) && fetching(n, b) ==> a == b
    &&& forall|a: usize| fetching(n, a) ==> n.store.lock == LockState::Held && n.store.gh_info is None
}

proof fn lemma_step_exclusive(n: NodeState, e: NodeEvent)
    requires
        exclusive(n),
    ensures
        exclusive(node_step(n, e)),
{
    let m = node_step(n, e);
    match e {
        NodeEvent::Begin(w) => {
            if !fetching(n, w) && begin_result(n.store) == Ok::<FetchStart, Error>(FetchStart::Acquired) {
                assert forall|a: usize| fetching(m, a) implies a == w by {
                    if a != w {
                        assert(fetching(n, a));
                    }
                }
            } else if !fetching(n, w) {
                assert(m.store == n.store);
                assert forall|a: usize| fetching(m, a) implies fetching(n, a) by {
                    if a == w {
                        assert(!fetching(m, a));
                    }
                }
            }
        },
        NodeEvent::Finish(w, fetched) => {
            if fetching(n, w) {
                assert forall|a: usize| !fetching(m, a) by {
                    if a != w {
                        assert(!fetching(n, a));
                    }
                }
            }
        },
    }
}

/// However the steps of concurrent workers on one node interleave, starting
/// with no request out, at most one worker has a request out at any time,
/// and any worker that begins meanwhile is turned away with
/// `AlreadyFetched`.
pub proof fn lemma_single_fetcher(store: LocalStore, events: Seq<NodeEvent>)
    ensures
        ({
            let n = node_run(NodeState { store, phases: Map::empty() }, events);
            &&& forall|a: usize, b: usize| fetching(n, a) && fetching(n, b) ==> a == b
            &&& forall|a: usize|
                fetching(n, a) ==> begin_result(n.store) == Err::<FetchStart, Error>(
                    Error::AlreadyFetched,
                )
        }),
{
    lemma_run_exclusive(NodeState { store, phases: Map::empty() }, events);
}

proof fn lemma_run_exclusive(n: NodeState, events: Seq<NodeEvent>)
    requires
        exclusive(n),
    ensures
        exclusive(node_run(n, events)),
    decreases events.len(),
{
    if events.len() > 0 {
        lemma_run_exclusive(n, events.drop_last());
        lemma_step_exclusive(node_run(n, events.drop_last()), events.last());
    }
}

/// Once a result is cached, no interleaving of worker steps sends a
/// request: every `begin_fetch` returns `Cached`, no worker comes to hold
/// the lock, and the cached result stays as it is.
pub proof fn lemma_cached_never_fetches(store: LocalStore, events: Seq<NodeEvent>)
    requires
        store.gh_info is Some,
    ensures
        ({
            let n = node_run(NodeState { store, phases: Map::empty() }, events);
            &&& n.store.gh_info == store.gh_info
            &&& begin_result(n.store) == Ok::<FetchStart, Error>(FetchStart::Cached)
            &&& forall|a: usize| !fetching(n, a)
        }),
    decreases events.len(),
{
    if events.len() > 0 {
        let init = NodeState { store, phases: Map::empty() };
        lemma_cached_never_fetches(store, events.drop_last());
        let p = node_run(init, events.drop_last());
        let m = node_step(p, events.last());
        assert forall|a: usize| !fetching(m, a) by {
            assert(!fetching(p, a));
        }
    }
}

} // verus!
