//! What holds of the operations, whatever the records and the arguments.

use crate::model::{
    acquire_record, after_chan_recv, after_chan_send, after_cond_notify, after_mutex_lock,
    after_mutex_unlock, after_rwmutex_rlock, after_rwmutex_wlock, channel_of, cond_var_of,
    mutex_of, propagate_one, propagate_step, relation_hash, release_step, wait_step, with_thread,
    Relation, Status, ThreadView, TrackerView,
};
use crate::primitive::{derived_kind, DependencyType, LockId, SLock, ThreadKey};
use vstd::prelude::*;

verus! {

/// An operation for one thread registers and removes no thread, and
/// leaves the record of every other thread as it was.
pub proof fn law_other_threads_untouched(
    m: TrackerView,
    t: ThreadKey,
    next: ThreadView,
    other: ThreadKey,
)
    requires
        other != t,
    ensures
        with_thread(m, t, next).dom() == m.dom(),
        with_thread(m, t, next)[other] == m[other],
{
    assert(with_thread(m, t, next).dom() =~= m.dom());
}

/// Acquiring an exclusive mutex that is not held and releasing it at once
/// restores the held set.
pub proof fn law_lock_then_unlock_restores_held(m: TrackerView, t: ThreadKey, id: LockId)
    requires
        !m[t].held.contains(mutex_of(id)),
    ensures
        after_mutex_unlock(after_mutex_lock(m, t, id), t, id)[t].held == m[t].held,
{
    assert(m[t].held.insert(mutex_of(id)).remove(mutex_of(id)) =~= m[t].held);
}

/// Releasing a primitive that is not held changes nothing.
pub proof fn law_release_of_unheld_is_void(s: ThreadView, target: SLock)
    requires
        !s.held.contains(target),
    ensures
        release_step(s, target) == s,
{
    assert(s.held.remove(target) =~= s.held);
}

/// A wait by a thread that holds exactly one primitive, and not the
/// mutex named in the call, changes nothing.
pub proof fn law_mismatched_wait_is_void(s: ThreadView, t: ThreadKey, cv: LockId, assoc: LockId)
    requires
        s.held.len() == 1,
        !s.held.contains(mutex_of(assoc)),
    ensures
        wait_step(s, t, cv, assoc) == s,
{
}

/// A thread that holds nothing and acquires an exclusive mutex gains the
/// singleton of that mutex among its recent facts, and nothing else.
pub proof fn law_lock_with_nothing_held_adds_singleton(m: TrackerView, t: ThreadKey, id: LockId)
    requires
        m.contains_key(t),
        m[t].held == Set::<SLock>::empty(),
    ensures
        after_mutex_lock(m, t, id)[t].recent == m[t].recent.insert(Status::Single(mutex_of(id))),
{
}

/// The fact formed by an acquisition of `target` that is not held: if it
/// is a dependency, its held set is the one before the call, and does not
/// contain `target`.
pub proof fn law_acquired_target_not_in_snapshot(t: ThreadKey, held: Set<SLock>, target: SLock)
    requires
        !held.contains(target),
    ensures
        match acquire_record(t, held, target) {
            Status::Depends(d) => d.target == target && d.held == held && !d.held.contains(
                d.target,
            ),
            Status::Single(l) => l == target && held == Set::<SLock>::empty(),
        },
{
}

/// Every dependency that the acquisition of an exclusive mutex adds to a
/// thread's recent facts, the mutex not being held before, lacks its own
/// target in its held set.
pub proof fn law_lock_never_depends_on_itself(
    m: TrackerView,
    t: ThreadKey,
    id: LockId,
    d: Relation,
)
    requires
        m.contains_key(t),
        !m[t].held.contains(mutex_of(id)),
        !m[t].recent.contains(Status::Depends(d)),
        after_mutex_lock(m, t, id)[t].recent.contains(Status::Depends(d)),
    ensures
        d.target == mutex_of(id),
        d.held == m[t].held,
        !d.held.contains(d.target),
{
}

/// Acquiring a read-write lock, for reading or for writing, leaves the
/// held set as it was.
pub proof fn law_rwlock_never_held(m: TrackerView, t: ThreadKey, id: LockId)
    ensures
        after_rwmutex_rlock(m, t, id)[t].held == m[t].held,
        after_rwmutex_wlock(m, t, id)[t].held == m[t].held,
{
}

/// After a signal on `target`, every dependency that was among the recent
/// facts is there with `target` added to its held set, every singleton
/// that was there has yielded a dependency of `target` on what is held,
/// no singleton is left, and the held set is as it was.
pub proof fn law_signal_propagates(s: ThreadView, t: ThreadKey, target: SLock)
    ensures
        forall|d: Relation| #[trigger]
            s.recent.contains(Status::Depends(d)) ==> propagate_step(s, t, target).recent.contains(
                Status::Depends(
                    Relation {
                        kind: d.kind,
                        thread: d.thread,
                        target: d.target,
                        held: d.held.insert(target),
                    },
                ),
            ),
        forall|l: SLock| #[trigger]
            s.recent.contains(Status::Single(l)) ==> propagate_step(s, t, target).recent.contains(
                Status::Depends(
                    Relation { kind: derived_kind(l.l_type), thread: t, target, held: s.held },
                ),
            ),
        forall|x: Status| #[trigger]
            propagate_step(s, t, target).recent.contains(x) ==> x is Depends,
        propagate_step(s, t, target).held == s.held,
{
    assert forall|d: Relation| #[trigger] s.recent.contains(Status::Depends(d)) implies propagate_step(
        s,
        t,
        target,
    ).recent.contains(
        Status::Depends(
            Relation {
                kind: d.kind,
                thread: d.thread,
                target: d.target,
                held: d.held.insert(target),
            },
        ),
    ) by {
        assert(propagate_one(Status::Depends(d), t, s.held, target) == Status::Depends(
            Relation {
                kind: d.kind,
                thread: d.thread,
                target: d.target,
                held: d.held.insert(target),
            },
        ));
    }
    assert forall|l: SLock| #[trigger] s.recent.contains(Status::Single(l)) implies propagate_step(
        s,
        t,
        target,
    ).recent.contains(
        Status::Depends(Relation { kind: derived_kind(l.l_type), thread: t, target, held: s.held }),
    ) by {
        assert(propagate_one(Status::Single(l), t, s.held, target) == Status::Depends(
            Relation { kind: derived_kind(l.l_type), thread: t, target, held: s.held },
        ));
    }
}

/// After a thread notifies condition variable `cv`, every dependency that
/// was among its recent facts is there with the condition variable added
/// to its held set, and every singleton that was there has yielded a
/// dependency whose target is the condition variable.
pub proof fn law_notify_is_complete(m: TrackerView, t: ThreadKey, cv: LockId)
    requires
        m.contains_key(t),
    ensures
        forall|d: Relation| #[trigger]
            m[t].recent.contains(Status::Depends(d)) ==> after_cond_notify(
                m,
                t,
                cv,
            )[t].recent.contains(
                Status::Depends(
                    Relation {
                        kind: d.kind,
                        thread: d.thread,
                        target: d.target,
                        held: d.held.insert(cond_var_of(cv)),
                    },
                ),
            ),
        forall|l: SLock| #[trigger]
            m[t].recent.contains(Status::Single(l)) ==> after_cond_notify(
                m,
                t,
                cv,
            )[t].recent.contains(
                Status::Depends(
                    Relation {
                        kind: derived_kind(l.l_type),
                        thread: t,
                        target: cond_var_of(cv),
                        held: m[t].held,
                    },
                ),
            ),
        forall|x: Status| #[trigger]
            after_cond_notify(m, t, cv)[t].recent.contains(x) ==> x is Depends,
        after_cond_notify(m, t, cv)[t].held == m[t].held,
{
    law_signal_propagates(m[t], t, cond_var_of(cv));
}

/// After a thread sends on channel `ch`, every dependency that was among
/// its recent facts is there with the channel added to its held set, and
/// every singleton that was there has yielded a dependency whose target
/// is the channel.
pub proof fn law_send_is_complete(m: TrackerView, t: ThreadKey, ch: LockId)
    requires
        m.contains_key(t),
    ensures
        forall|d: Relation| #[trigger]
            m[t].recent.contains(Status::Depends(d)) ==> after_chan_send(m, t, ch)[t].recent.contains(
                Status::Depends(
                    Relation {
                        kind: d.kind,
                        thread: d.thread,
                        target: d.target,
                        held: d.held.insert(channel_of(ch)),
                    },
                ),
            ),
        forall|l: SLock| #[trigger]
            m[t].recent.contains(Status::Single(l)) ==> after_chan_send(m, t, ch)[t].recent.contains(
                Status::Depends(
                    Relation {
                        kind: derived_kind(l.l_type),
                        thread: t,
                        target: channel_of(ch),
                        held: m[t].held,
                    },
                ),
            ),
        forall|x: Status| #[trigger]
            after_chan_send(m, t, ch)[t].recent.contains(x) ==> x is Depends,
        after_chan_send(m, t, ch)[t].held == m[t].held,
{
    law_signal_propagates(m[t], t, channel_of(ch));
}

/// A receive always records a dependency, never a singleton: also for a
/// thread that holds nothing, whose dependency then has the empty held
/// set.
pub proof fn law_receive_records_dependency(m: TrackerView, t: ThreadKey, ch: LockId)
    requires
        m.contains_key(t),
    ensures
        after_chan_recv(m, t, ch)[t].recent == m[t].recent.insert(
            Status::Depends(
                Relation {
                    kind: DependencyType::Send,
                    thread: t,
                    target: channel_of(ch),
                    held: m[t].held,
                },
            ),
        ),
        after_chan_recv(m, t, ch)[t].recent.contains(Status::Single(channel_of(ch)))
            == m[t].recent.contains(Status::Single(channel_of(ch))),
        after_chan_recv(m, t, ch)[t].held == m[t].held,
{
}

/// The hash of a relation is formed from its held set alone: relations
/// with the same held set have the same hash, whatever their kinds,
/// threads and targets. Equal relations therefore hash alike.
pub proof fn law_hash_reads_held_set_only(a: Relation, b: Relation)
    requires
        a.held == b.held,
    ensures
        relation_hash(a) == relation_hash(b),
{
}

} // verus!
