//! What the tracker keeps for one thread, and the operations on it.

use crate::lock_set::LockSet;
use crate::model::{
    acquire_step, fresh_thread, propagate_step, receive_step, release_step, wait_step, Relation,
    ThreadView,
};
use crate::primitive::{DependencyType, LockId, LockType, SLock, ThreadKey};
use crate::status::{DependencyRelation, RsType};
use crate::status_set::StatusSet;
use vstd::prelude::*;

verus! {

/// The meanings of the relations of `s`, in order.
pub open spec fn relation_meanings(s: Seq<DependencyRelation>) -> Seq<Relation> {
    s.map_values(|d: DependencyRelation| d@)
}

/// The record of one thread.
#[derive(Debug)]
pub struct ThreadState {
    /// The primitives the thread is believed to hold.
    pub lockset: LockSet,
    /// The facts most recently formed about the thread.
    pub recent_status: StatusSet,
    /// Relations kept over the thread's lifetime, for a reader of the
    /// graph. No operation of the tracker adds to it.
    pub dependency_set: Vec<DependencyRelation>,
}

impl View for ThreadState {
    type V = ThreadView;

    open spec fn view(&self) -> ThreadView {
        ThreadView {
            held: self.lockset@,
            recent: self.recent_status@,
            history: relation_meanings(self.dependency_set@).to_set(),
        }
    }
}

impl ThreadState {
    /// The record of a thread that has just registered: nothing held,
    /// nothing recorded.
    pub fn new() -> (s: ThreadState)
        ensures
            s@ == fresh_thread(),
    {
        let s = ThreadState {
            lockset: LockSet::new(),
            recent_status: StatusSet::new(),
            dependency_set: Vec::new(),
        };
        assert(relation_meanings(s.dependency_set@).to_set() =~= Set::<Relation>::empty());
        s
    }

    /// Records that thread `t_id` reaches for `target` by an acquisition:
    /// a singleton if it holds nothing, else a dependency of kind `Mutex`
    /// on what it holds. With `hold`, `target` then joins the held set.
    pub fn acquire(&mut self, t_id: ThreadKey, target: SLock, hold: bool)
        ensures
            final(self)@ == acquire_step(old(self)@, t_id, target, hold),
    {
        if self.lockset.is_empty() {
            self.recent_status.insert(RsType::S(target));
        } else {
            let snapshot = self.lockset.clone();
            self.recent_status.insert(
                RsType::D(DependencyRelation::new(DependencyType::Mutex, t_id, target, snapshot)),
            );
        }
        if hold {
            self.lockset.insert(target);
        }
    }

    /// Takes `target` out of the held set. Nothing is recorded, and
    /// nothing happens if `target` is not held.
    pub fn release(&mut self, target: SLock)
        ensures
            final(self)@ == release_step(old(self)@, target),
    {
        self.lockset.remove(&target);
    }

    /// Records that thread `t_id` waits on condition variable `cv_id`
    /// with the mutex `assoc_id`.
    ///
    /// Where exactly one primitive is held, a singleton for the condition
    /// variable is recorded if that primitive is the mutex, and nothing if
    /// it is another. Otherwise the mutex leaves the held set and a
    /// dependency of kind `Signal` on what remains is recorded.
    pub fn wait(&mut self, t_id: ThreadKey, cv_id: LockId, assoc_id: LockId)
        ensures
            final(self)@ == wait_step(old(self)@, t_id, cv_id, assoc_id),
    {
        let mutex = SLock::new(LockType::Mutex, assoc_id);
        let cv = SLock::new(LockType::CondVar, cv_id);
        if self.lockset.len() == 1 {
            if self.lockset.contains(&mutex) {
                self.recent_status.insert(RsType::S(cv));
            }
        } else {
            self.lockset.remove(&mutex);
            let snapshot = self.lockset.clone();
            self.recent_status.insert(
                RsType::D(DependencyRelation::new(DependencyType::Signal, t_id, cv, snapshot)),
            );
        }
    }

    /// Records a signal on `target` by thread `t_id`: every recent
    /// dependency is chained with `target`, every recent singleton is
    /// replaced by a dependency of `target` on what is held now.
    pub fn propagate(&mut self, t_id: ThreadKey, target: SLock)
        ensures
            final(self)@ == propagate_step(old(self)@, t_id, target),
    {
        let rebuilt = self.recent_status.propagated(t_id, &self.lockset, target);
        self.recent_status = rebuilt;
    }

    /// Records that thread `t_id` receives from channel `ch_id`: a
    /// dependency of kind `Send` on what it holds, also where that is
    /// nothing.
    pub fn receive(&mut self, t_id: ThreadKey, ch_id: LockId)
        ensures
            final(self)@ == receive_step(old(self)@, t_id, ch_id),
    {
        let snapshot = self.lockset.clone();
        self.recent_status.insert(
            RsType::D(
                DependencyRelation::new(
                    DependencyType::Send,
                    t_id,
                    SLock::new(LockType::Channel, ch_id),
                    snapshot,
                ),
            ),
        );
    }
}

} // verus!
