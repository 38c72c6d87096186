//! The mathematical model of a thread's record and of the ten operations.
//!
//! Every contract of the tracker is stated over the types and functions
//! of this module.

use crate::primitive::{
    derived_kind, lock_code, DependencyType, LockId, LockType, SLock, ThreadKey,
};
use vstd::prelude::*;

verus! {

/// Thread `thread` reached for `target` while it held the primitives in
/// `held`.
pub struct Relation {
    pub kind: DependencyType,
    pub thread: ThreadKey,
    pub target: SLock,
    pub held: Set<SLock>,
}

/// One recorded fact about a thread.
pub enum Status {
    /// The primitive was reached with nothing held.
    Single(SLock),
    /// The relation's target was reached with the relation's set held.
    Depends(Relation),
}

/// What the tracker keeps for one thread.
pub struct ThreadView {
    /// The primitives the thread is believed to hold.
    pub held: Set<SLock>,
    /// The facts most recently formed about the thread.
    pub recent: Set<Status>,
    /// Relations kept over the thread's lifetime. No operation adds to
    /// it.
    pub history: Set<Relation>,
}

/// The sum of `acc` and the number of `l`, wrapped at the width of the
/// hash.
pub open spec fn mix(acc: u64, l: SLock) -> u64 {
    if acc + lock_code(l) > u64::MAX {
        (acc + lock_code(l) - 0x1_0000_0000_0000_0000) as u64
    } else {
        (acc + lock_code(l)) as u64
    }
}

/// [`mix`] as a value.
pub open spec fn mixer() -> spec_fn(u64, SLock) -> u64 {
    |acc: u64, l: SLock| mix(acc, l)
}

/// The hash of a set of primitives: the wrapped sum of its members'
/// numbers.
pub open spec fn set_hash(s: Set<SLock>) -> u64 {
    s.fold(0u64, mixer())
}

/// The hash of a relation. It is formed from the held set alone, so
/// relations that differ only in kind, thread or target share it.
pub open spec fn relation_hash(r: Relation) -> u64 {
    set_hash(r.held)
}

/// Adding the numbers of two primitives gives the same in either order.
proof fn lemma_mix_commutes()
    ensures
        vstd::set::fold::is_fun_commutative(mixer()),
{
    assert forall|a1: SLock, a2: SLock, b: u64| #[trigger]
        mixer()(mixer()(b, a2), a1) == mixer()(mixer()(b, a1), a2) by {}
}

/// The hash of the empty set is 0.
pub proof fn lemma_set_hash_empty()
    ensures
        set_hash(Set::<SLock>::empty()) == 0,
{
    vstd::set::fold::lemma_fold_empty(0u64, mixer());
}

/// A new member adds its number to the hash.
pub proof fn lemma_set_hash_insert(s: Set<SLock>, l: SLock)
    requires
        s.finite(),
        !s.contains(l),
    ensures
        set_hash(s.insert(l)) == mix(set_hash(s), l),
{
    lemma_mix_commutes();
    vstd::set::fold::lemma_fold_insert(s, 0u64, mixer(), l);
}

/// The record of a thread that has just registered.
pub open spec fn fresh_thread() -> ThreadView {
    ThreadView { held: Set::empty(), recent: Set::empty(), history: Set::empty() }
}

/// The exclusive mutex with id `id`.
pub open spec fn mutex_of(id: LockId) -> SLock {
    SLock { l_type: LockType::Mutex, l_id: id }
}

/// The read-write lock with id `id`, taken for reading.
pub open spec fn read_lock_of(id: LockId) -> SLock {
    SLock { l_type: LockType::RMutex, l_id: id }
}

/// The read-write lock with id `id`, taken for writing.
pub open spec fn write_lock_of(id: LockId) -> SLock {
    SLock { l_type: LockType::WMutex, l_id: id }
}

/// The condition variable with id `id`.
pub open spec fn cond_var_of(id: LockId) -> SLock {
    SLock { l_type: LockType::CondVar, l_id: id }
}

/// The channel with id `id`.
pub open spec fn channel_of(id: LockId) -> SLock {
    SLock { l_type: LockType::Channel, l_id: id }
}

/// The fact formed when thread `t`, holding `held`, reaches for `target`
/// by an acquisition: a singleton if nothing is held, else a dependency
/// of kind `Mutex` on what is held.
pub open spec fn acquire_record(t: ThreadKey, held: Set<SLock>, target: SLock) -> Status {
    if held == Set::<SLock>::empty() {
        Status::Single(target)
    } else {
        Status::Depends(Relation { kind: DependencyType::Mutex, thread: t, target, held })
    }
}

/// Acquisition of `target` by thread `t`. The fact is formed from what is
/// held before the call; only with `hold` does `target` then join the
/// held set.
pub open spec fn acquire_step(s: ThreadView, t: ThreadKey, target: SLock, hold: bool) -> ThreadView {
    ThreadView {
        held: if hold {
            s.held.insert(target)
        } else {
            s.held
        },
        recent: s.recent.insert(acquire_record(t, s.held, target)),
        history: s.history,
    }
}

/// Release of `target`: it leaves the held set, and nothing is recorded.
pub open spec fn release_step(s: ThreadView, target: SLock) -> ThreadView {
    ThreadView { held: s.held.remove(target), recent: s.recent, history: s.history }
}

/// A wait of thread `t` on condition variable `cv` with the mutex
/// `assoc`.
///
/// With exactly one primitive held: a singleton for `cv` if that primitive
/// is the mutex, and nothing at all if it is another. Otherwise the mutex
/// leaves the held set and a dependency of kind `Signal` on what remains
/// is recorded.
pub open spec fn wait_step(s: ThreadView, t: ThreadKey, cv: LockId, assoc: LockId) -> ThreadView {
    if s.held.len() == 1 {
        if s.held.contains(mutex_of(assoc)) {
            ThreadView {
                held: s.held,
                recent: s.recent.insert(Status::Single(cond_var_of(cv))),
                history: s.history,
            }
        } else {
            s
        }
    } else {
        let rest = s.held.remove(mutex_of(assoc));
        ThreadView {
            held: rest,
            recent: s.recent.insert(
                Status::Depends(
                    Relation {
                        kind: DependencyType::Signal,
                        thread: t,
                        target: cond_var_of(cv),
                        held: rest,
                    },
                ),
            ),
            history: s.history,
        }
    }
}

/// A receive of thread `t` from channel `ch`: a dependency of kind `Send`
/// on what is held, also where that is nothing.
pub open spec fn receive_step(s: ThreadView, t: ThreadKey, ch: LockId) -> ThreadView {
    ThreadView {
        held: s.held,
        recent: s.recent.insert(
            Status::Depends(
                Relation {
                    kind: DependencyType::Send,
                    thread: t,
                    target: channel_of(ch),
                    held: s.held,
                },
            ),
        ),
        history: s.history,
    }
}

/// What a signal on `target` by thread `t`, holding `held`, makes of one
/// fact. A dependency is chained: `target` joins its held set. A singleton
/// yields a new dependency of `target` on `held`, of the kind that the
/// singleton's primitive gives.
pub open spec fn propagate_one(x: Status, t: ThreadKey, held: Set<SLock>, target: SLock) -> Status {
    match x {
        Status::Depends(d) => Status::Depends(
            Relation { kind: d.kind, thread: d.thread, target: d.target, held: d.held.insert(target) },
        ),
        Status::Single(l) => Status::Depends(
            Relation { kind: derived_kind(l.l_type), thread: t, target, held },
        ),
    }
}

/// The facts that a signal on `target` makes of the facts in `recent`.
pub open spec fn propagate_all(
    recent: Set<Status>,
    t: ThreadKey,
    held: Set<SLock>,
    target: SLock,
) -> Set<Status> {
    Set::new(
        |y: Status|
            exists|x: Status| #[trigger] recent.contains(x) && y == propagate_one(x, t, held, target),
    )
}

/// A signal on `target` by thread `t` (a notification of a condition
/// variable, a send on a channel): the recent facts are replaced by what
/// the signal makes of them, and the held set stays.
pub open spec fn propagate_step(s: ThreadView, t: ThreadKey, target: SLock) -> ThreadView {
    ThreadView {
        held: s.held,
        recent: propagate_all(s.recent, t, s.held, target),
        history: s.history,
    }
}

/// The records of all registered threads.
pub type TrackerView = Map<ThreadKey, ThreadView>;

/// Why an operation of the tracker was refused.
#[derive(Clone, Copy, PartialEq, Eq, Structural, Debug)]
pub enum TrackerError {
    /// The thread named in the call is not registered.
    UnknownThread,
}

/// What an operation for thread `t` returns: success exactly where `t` is
/// registered.
pub open spec fn verdict(m: TrackerView, t: ThreadKey) -> Result<(), TrackerError> {
    if m.contains_key(t) {
        Ok(())
    } else {
        Err(TrackerError::UnknownThread)
    }
}

/// The records after thread `t`'s record has become `next`; unchanged
/// where `t` is not registered.
pub open spec fn with_thread(m: TrackerView, t: ThreadKey, next: ThreadView) -> TrackerView {
    if m.contains_key(t) {
        m.insert(t, next)
    } else {
        m
    }
}

/// The records after thread `t` acquires the exclusive mutex `id`.
pub open spec fn after_mutex_lock(m: TrackerView, t: ThreadKey, id: LockId) -> TrackerView {
    with_thread(m, t, acquire_step(m[t], t, mutex_of(id), true))
}

/// The records after thread `t` releases the exclusive mutex `id`.
pub open spec fn after_mutex_unlock(m: TrackerView, t: ThreadKey, id: LockId) -> TrackerView {
    with_thread(m, t, release_step(m[t], mutex_of(id)))
}

/// The records after thread `t` acquires the read-write lock `id` for
/// reading. The lock does not join the held set.
pub open spec fn after_rwmutex_rlock(m: TrackerView, t: ThreadKey, id: LockId) -> TrackerView {
    with_thread(m, t, acquire_step(m[t], t, read_lock_of(id), false))
}

/// The records after thread `t` releases the read-write lock `id` that
/// it took for reading.
pub open spec fn after_rwmutex_runlock(m: TrackerView, t: ThreadKey, id: LockId) -> TrackerView {
    with_thread(m, t, release_step(m[t], read_lock_of(id)))
}

/// The records after thread `t` acquires the read-write lock `id` for
/// writing. The lock does not join the held set.
pub open spec fn after_rwmutex_wlock(m: TrackerView, t: ThreadKey, id: LockId) -> TrackerView {
    with_thread(m, t, acquire_step(m[t], t, write_lock_of(id), false))
}

/// The records after thread `t` releases the read-write lock `id` that
/// it took for writing.
pub open spec fn after_rwmutex_wunlock(m: TrackerView, t: ThreadKey, id: LockId) -> TrackerView {
    with_thread(m, t, release_step(m[t], write_lock_of(id)))
}

/// The records after thread `t` waits on condition variable `cv` with the
/// mutex `assoc`.
pub open spec fn after_cond_wait(m: TrackerView, t: ThreadKey, cv: LockId, assoc: LockId) -> TrackerView {
    with_thread(m, t, wait_step(m[t], t, cv, assoc))
}

/// The records after thread `t` notifies condition variable `cv`.
pub open spec fn after_cond_notify(m: TrackerView, t: ThreadKey, cv: LockId) -> TrackerView {
    with_thread(m, t, propagate_step(m[t], t, cond_var_of(cv)))
}

/// The records after thread `t` receives from channel `ch`.
pub open spec fn after_chan_recv(m: TrackerView, t: ThreadKey, ch: LockId) -> TrackerView {
    with_thread(m, t, receive_step(m[t], t, ch))
}

/// The records after thread `t` sends on channel `ch`.
pub open spec fn after_chan_send(m: TrackerView, t: ThreadKey, ch: LockId) -> TrackerView {
    with_thread(m, t, propagate_step(m[t], t, channel_of(ch)))
}

/// Nothing comes of no facts.
pub proof fn lemma_propagate_empty(t: ThreadKey, held: Set<SLock>, target: SLock)
    ensures
        propagate_all(Set::empty(), t, held, target) == Set::<Status>::empty(),
{
    assert(propagate_all(Set::empty(), t, held, target) =~= Set::<Status>::empty());
}

/// One fact more gives its image more.
pub proof fn lemma_propagate_insert(
    recent: Set<Status>,
    x: Status,
    t: ThreadKey,
    held: Set<SLock>,
    target: SLock,
)
    ensures
        propagate_all(recent.insert(x), t, held, target) == propagate_all(
            recent,
            t,
            held,
            target,
        ).insert(propagate_one(x, t, held, target)),
{
    let lhs = propagate_all(recent.insert(x), t, held, target);
    let rhs = propagate_all(recent, t, held, target).insert(propagate_one(x, t, held, target));
    assert forall|y: Status| lhs.contains(y) <==> rhs.contains(y) by {
        if lhs.contains(y) {
            let w = choose|w: Status| #[trigger]
                recent.insert(x).contains(w) && y == propagate_one(w, t, held, target);
            if w != x {
                assert(recent.contains(w));
            }
        }
        if rhs.contains(y) {
            if y == propagate_one(x, t, held, target) {
                assert(recent.insert(x).contains(x));
            } else {
                let w = choose|w: Status| #[trigger]
                    recent.contains(w) && y == propagate_one(w, t, held, target);
                assert(recent.insert(x).contains(w));
            }
        }
    }
    assert(lhs =~= rhs);
}

} // verus!
