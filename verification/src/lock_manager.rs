//! The tracker: the records of all registered threads, and the ten
//! operations that instrumented primitives report.

use crate::model::{
    after_chan_recv, after_chan_send, after_cond_notify, after_cond_wait, after_mutex_lock,
    after_mutex_unlock, after_rwmutex_rlock, after_rwmutex_runlock, after_rwmutex_wlock,
    after_rwmutex_wunlock, fresh_thread, verdict, ThreadView, TrackerError, TrackerView,
};
use crate::primitive::{LockId, LockType, SLock, ThreadKey};
use crate::thread_state::ThreadState;
use std::collections::HashMap;
use vstd::prelude::*;

verus! {

broadcast use vstd::std_specs::hash::group_hash_axioms;

/// The dependency tracker.
///
/// A thread is registered before the first operation that names it. Every
/// operation changes the record of the one thread it names and leaves
/// the others as they were; for a thread that is not registered it
/// changes nothing and returns [`TrackerError::UnknownThread`].
pub struct LockManager {
    threads: HashMap<ThreadKey, ThreadState>,
}

impl View for LockManager {
    type V = TrackerView;

    closed spec fn view(&self) -> TrackerView {
        self.threads@.map_values(|s: ThreadState| s@)
    }
}

impl LockManager {
    /// A tracker with no thread registered.
    pub fn new() -> (manager: LockManager)
        ensures
            manager@ == Map::<ThreadKey, ThreadView>::empty(),
    {
        let manager = LockManager { threads: HashMap::new() };
        assert(manager@ =~= Map::<ThreadKey, ThreadView>::empty());
        manager
    }

    /// Takes the record of thread `t_id` out of the map, if there is one.
    fn take(&mut self, t_id: ThreadKey) -> (taken: Option<ThreadState>)
        ensures
            match taken {
                Some(state) => old(self)@.contains_key(t_id) && state@ == old(self)@[t_id]
                    && final(self)@ == old(self)@.remove(t_id),
                None => !old(self)@.contains_key(t_id) && final(self)@ == old(self)@,
            },
    {
        let taken = self.threads.remove(&t_id);
        proof {
            assert(self@ =~= old(self)@.remove(t_id));
            if taken.is_none() {
                assert(self@ =~= old(self)@);
            }
        }
        taken
    }

    /// Puts `state` into the map as the record of thread `t_id`.
    fn put(&mut self, t_id: ThreadKey, state: ThreadState)
        ensures
            final(self)@ == old(self)@.insert(t_id, state@),
    {
        self.threads.insert(t_id, state);
        assert(self@ =~= old(self)@.insert(t_id, state@));
    }

    /// Whether thread `t_id` is registered.
    pub fn is_registered(&self, t_id: ThreadKey) -> (b: bool)
        ensures
            b == self@.contains_key(t_id),
    {
        self.threads.contains_key(&t_id)
    }

    /// Registers thread `t_id` with nothing held and nothing recorded,
    /// and says whether it did. A thread that is registered already keeps
    /// its record.
    pub fn register_thread(&mut self, t_id: ThreadKey) -> (added: bool)
        ensures
            added == !old(self)@.contains_key(t_id),
            final(self)@ == if added {
                old(self)@.insert(t_id, fresh_thread())
            } else {
                old(self)@
            },
    {
        if self.threads.contains_key(&t_id) {
            false
        } else {
            self.put(t_id, ThreadState::new());
            true
        }
    }

    /// Removes thread `t_id` and hands out its record, if it was
    /// registered.
    pub fn deregister_thread(&mut self, t_id: ThreadKey) -> (removed: Option<ThreadState>)
        ensures
            final(self)@ == old(self)@.remove(t_id),
            match removed {
                Some(state) => old(self)@.contains_key(t_id) && state@ == old(self)@[t_id],
                None => !old(self)@.contains_key(t_id),
            },
    {
        let removed = self.take(t_id);
        assert(self@ =~= old(self)@.remove(t_id));
        removed
    }

    /// The record of thread `t_id`, if it is registered.
    pub fn thread(&self, t_id: ThreadKey) -> (found: Option<&ThreadState>)
        ensures
            match found {
                Some(state) => self@.contains_key(t_id) && state@ == self@[t_id],
                None => !self@.contains_key(t_id),
            },
    {
        self.threads.get(&t_id)
    }

    /// Thread `t_id` acquires the exclusive mutex `m_id`.
    ///
    /// A singleton is recorded if the thread holds nothing, else a
    /// dependency of kind `Mutex` on what it holds; the mutex then joins
    /// the held set.
    pub fn mutex_lock(&mut self, t_id: ThreadKey, m_id: LockId) -> (r: Result<(), TrackerError>)
        ensures
            r == verdict(old(self)@, t_id),
            final(self)@ == after_mutex_lock(old(self)@, t_id, m_id),
    {
        match self.take(t_id) {
            Some(mut state) => {
                state.acquire(t_id, SLock::new(LockType::Mutex, m_id), true);
                self.put(t_id, state);
                assert(self@ =~= after_mutex_lock(old(self)@, t_id, m_id));
                Ok(())
            },
            None => Err(TrackerError::UnknownThread),
        }
    }

    /// Thread `t_id` releases the exclusive mutex `m_id`.
    ///
    /// The mutex leaves the held set; nothing is recorded, and nothing
    /// happens to the record if the mutex was not held.
    pub fn mutex_unlock(&mut self, t_id: ThreadKey, m_id: LockId) -> (r: Result<(), TrackerError>)
        ensures
            r == verdict(old(self)@, t_id),
            final(self)@ == after_mutex_unlock(old(self)@, t_id, m_id),
    {
        match self.take(t_id) {
            Some(mut state) => {
                state.release(SLock::new(LockType::Mutex, m_id));
                self.put(t_id, state);
                assert(self@ =~= after_mutex_unlock(old(self)@, t_id, m_id));
                Ok(())
            },
            None => Err(TrackerError::UnknownThread),
        }
    }

    /// Thread `t_id` acquires the read-write lock `m_id` for reading.
    ///
    /// The fact is recorded as for an exclusive mutex, but the lock does
    /// not join the held set.
    pub fn rwmutex_rlock(&mut self, t_id: ThreadKey, m_id: LockId) -> (r: Result<(), TrackerError>)
        ensures
            r == verdict(old(self)@, t_id),
            final(self)@ == after_rwmutex_rlock(old(self)@, t_id, m_id),
    {
        match self.take(t_id) {
            Some(mut state) => {
                state.acquire(t_id, SLock::new(LockType::RMutex, m_id), false);
                self.put(t_id, state);
                assert(self@ =~= after_rwmutex_rlock(old(self)@, t_id, m_id));
                Ok(())
            },
            None => Err(TrackerError::UnknownThread),
        }
    }

    /// Thread `t_id` releases the read-write lock `m_id` that it took for
    /// reading.
    ///
    /// The lock leaves the held set if it is there, which an acquisition
    /// alone never brings about.
    pub fn rwmutex_runlock(&mut self, t_id: ThreadKey, m_id: LockId) -> (r: Result<(), TrackerError>)
        ensures
            r == verdict(old(self)@, t_id),
            final(self)@ == after_rwmutex_runlock(old(self)@, t_id, m_id),
    {
        match self.take(t_id) {
            Some(mut state) => {
                state.release(SLock::new(LockType::RMutex, m_id));
                self.put(t_id, state);
                assert(self@ =~= after_rwmutex_runlock(old(self)@, t_id, m_id));
                Ok(())
            },
            None => Err(TrackerError::UnknownThread),
        }
    }

    /// Thread `t_id` acquires the read-write lock `m_id` for writing.
    ///
    /// The fact is recorded as for an exclusive mutex, but the lock does
    /// not join the held set.
    pub fn rwmutex_wlock(&mut self, t_id: ThreadKey, m_id: LockId) -> (r: Result<(), TrackerError>)
        ensures
            r == verdict(old(self)@, t_id),
            final(self)@ == after_rwmutex_wlock(old(self)@, t_id, m_id),
    {
        match self.take(t_id) {
            Some(mut state) => {
                state.acquire(t_id, SLock::new(LockType::WMutex, m_id), false);
                self.put(t_id, state);
                assert(self@ =~= after_rwmutex_wlock(old(self)@, t_id, m_id));
                Ok(())
            },
            None => Err(TrackerError::UnknownThread),
        }
    }

    /// Thread `t_id` releases the read-write lock `m_id` that it took for
    /// writing.
    ///
    /// The lock leaves the held set if it is there, which an acquisition
    /// alone never brings about.
    pub fn rwmutex_wunlock(&mut self, t_id: ThreadKey, m_id: LockId) -> (r: Result<(), TrackerError>)
        ensures
            r == verdict(old(self)@, t_id),
            final(self)@ == after_rwmutex_wunlock(old(self)@, t_id, m_id),
    {
        match self.take(t_id) {
            Some(mut state) => {
                state.release(SLock::new(LockType::WMutex, m_id));
                self.put(t_id, state);
                assert(self@ =~= after_rwmutex_wunlock(old(self)@, t_id, m_id));
                Ok(())
            },
            None => Err(TrackerError::UnknownThread),
        }
    }

    /// Thread `t_id` waits on condition variable `cv_id` with the mutex
    /// `assoc_id`.
    ///
    /// Where the thread holds exactly one primitive, a singleton for the
    /// condition variable is recorded if that primitive is the mutex, and
    /// nothing if it is another. Otherwise the mutex leaves the held set
    /// and a dependency of kind `Signal` on what remains is recorded.
    pub fn cond_wait(&mut self, t_id: ThreadKey, cv_id: LockId, assoc_id: LockId) -> (r: Result<(), TrackerError>)
        ensures
            r == verdict(old(self)@, t_id),
            final(self)@ == after_cond_wait(old(self)@, t_id, cv_id, assoc_id),
    {
        match self.take(t_id) {
            Some(mut state) => {
                state.wait(t_id, cv_id, assoc_id);
                self.put(t_id, state);
                assert(self@ =~= after_cond_wait(old(self)@, t_id, cv_id, assoc_id));
                Ok(())
            },
            None => Err(TrackerError::UnknownThread),
        }
    }

    /// Thread `t_id` notifies condition variable `cv_id`.
    ///
    /// The recent facts are rebuilt: the condition variable joins the
    /// held set of every dependency, and every singleton is replaced by a
    /// dependency of the condition variable on what the thread holds now.
    /// The held set stays.
    pub fn cond_notify(&mut self, t_id: ThreadKey, cv_id: LockId) -> (r: Result<(), TrackerError>)
        ensures
            r == verdict(old(self)@, t_id),
            final(self)@ == after_cond_notify(old(self)@, t_id, cv_id),
    {
        match self.take(t_id) {
            Some(mut state) => {
                state.propagate(t_id, SLock::new(LockType::CondVar, cv_id));
                self.put(t_id, state);
                assert(self@ =~= after_cond_notify(old(self)@, t_id, cv_id));
                Ok(())
            },
            None => Err(TrackerError::UnknownThread),
        }
    }

    /// Thread `t_id` receives from channel `ch_id`.
    ///
    /// A dependency of kind `Send` on what the thread holds is recorded,
    /// also where it holds nothing.
    pub fn chan_recv(&mut self, t_id: ThreadKey, ch_id: LockId) -> (r: Result<(), TrackerError>)
        ensures
            r == verdict(old(self)@, t_id),
            final(self)@ == after_chan_recv(old(self)@, t_id, ch_id),
    {
        match self.take(t_id) {
            Some(mut state) => {
                state.receive(t_id, ch_id);
                self.put(t_id, state);
                assert(self@ =~= after_chan_recv(old(self)@, t_id, ch_id));
                Ok(())
            },
            None => Err(TrackerError::UnknownThread),
        }
    }

    /// Thread `t_id` sends on channel `ch_id`.
    ///
    /// The recent facts are rebuilt as by a notification, with the channel
    /// in place of the condition variable.
    pub fn chan_send(&mut self, t_id: ThreadKey, ch_id: LockId) -> (r: Result<(), TrackerError>)
        ensures
            r == verdict(old(self)@, t_id),
            final(self)@ == after_chan_send(old(self)@, t_id, ch_id),
    {
        match self.take(t_id) {
            Some(mut state) => {
                state.propagate(t_id, SLock::new(LockType::Channel, ch_id));
                self.put(t_id, state);
                assert(self@ =~= after_chan_send(old(self)@, t_id, ch_id));
                Ok(())
            },
            None => Err(TrackerError::UnknownThread),
        }
    }
}

} // verus!
