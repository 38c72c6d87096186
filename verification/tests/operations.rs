use lock_tracker::lock_manager::LockManager;
use lock_tracker::lock_set::LockSet;
use lock_tracker::model::TrackerError;
use lock_tracker::primitive::{DependencyType, LockType, SLock};
use lock_tracker::status::{DependencyRelation, RsType};
use lock_tracker::status_set::StatusSet;
use lock_tracker::thread_state::ThreadState;

fn lock(kind: LockType, id: u32) -> SLock {
    SLock::new(kind, id)
}

fn locks(items: &[SLock]) -> LockSet {
    let mut s = LockSet::new();
    for l in items {
        s.insert(*l);
    }
    s
}

fn relation(kind: DependencyType, t: u64, held: &[SLock], target: SLock) -> RsType {
    RsType::D(DependencyRelation::new(kind, t, target, locks(held)))
}

fn registered(t: u64) -> LockManager {
    let mut m = LockManager::new();
    m.register_thread(t);
    m
}

#[test]
fn new_tracker_knows_no_thread() {
    let m = LockManager::new();
    assert!(!m.is_registered(0));
    assert!(m.thread(0).is_none());
}

#[test]
fn registration_creates_empty_record() {
    let mut m = LockManager::new();
    assert!(m.register_thread(4));
    assert!(m.is_registered(4));
    assert!(!m.is_registered(5));
    let s = m.thread(4).unwrap();
    assert!(s.lockset.is_empty());
    assert!(s.recent_status.is_empty());
    assert!(s.dependency_set.is_empty());
}

#[test]
fn second_registration_keeps_record() {
    let mut m = registered(4);
    m.mutex_lock(4, 1).unwrap();
    assert!(!m.register_thread(4));
    let s = m.thread(4).unwrap();
    assert!(s.lockset.contains(&lock(LockType::Mutex, 1)));
    assert_eq!(s.recent_status.len(), 1);
}

#[test]
fn deregistration_hands_out_record() {
    let mut m = registered(4);
    m.mutex_lock(4, 1).unwrap();
    let s = m.deregister_thread(4).unwrap();
    assert_eq!(s.lockset, locks(&[lock(LockType::Mutex, 1)]));
    assert!(!m.is_registered(4));
    assert!(m.deregister_thread(4).is_none());
    assert_eq!(m.mutex_lock(4, 1), Err(TrackerError::UnknownThread));
}

#[test]
fn every_operation_refuses_unknown_thread() {
    let mut m = registered(1);
    m.mutex_lock(1, 7).unwrap();
    let e = Err(TrackerError::UnknownThread);
    assert_eq!(m.mutex_lock(2, 7), e);
    assert_eq!(m.mutex_unlock(2, 7), e);
    assert_eq!(m.rwmutex_rlock(2, 7), e);
    assert_eq!(m.rwmutex_runlock(2, 7), e);
    assert_eq!(m.rwmutex_wlock(2, 7), e);
    assert_eq!(m.rwmutex_wunlock(2, 7), e);
    assert_eq!(m.cond_wait(2, 7, 7), e);
    assert_eq!(m.cond_notify(2, 7), e);
    assert_eq!(m.chan_recv(2, 7), e);
    assert_eq!(m.chan_send(2, 7), e);
    assert!(!m.is_registered(2));
    let s = m.thread(1).unwrap();
    assert_eq!(s.lockset, locks(&[lock(LockType::Mutex, 7)]));
    assert_eq!(s.recent_status.len(), 1);
    assert!(s.recent_status.contains(&RsType::S(lock(LockType::Mutex, 7))));
}

#[test]
fn lock_then_unlock_restores_held_set() {
    let mut m = registered(1);
    m.mutex_lock(1, 1).unwrap();
    m.mutex_lock(1, 2).unwrap();
    let before = m.thread(1).unwrap().lockset.clone();
    m.mutex_lock(1, 3).unwrap();
    assert_ne!(m.thread(1).unwrap().lockset, before);
    m.mutex_unlock(1, 3).unwrap();
    assert_eq!(m.thread(1).unwrap().lockset, before);
    assert_eq!(m.thread(1).unwrap().recent_status.len(), 3);
}

#[test]
fn relocking_a_held_mutex_is_not_undone_by_unlock() {
    let mut m = registered(1);
    m.mutex_lock(1, 1).unwrap();
    m.mutex_lock(1, 1).unwrap();
    let s = m.thread(1).unwrap();
    assert_eq!(s.lockset.len(), 1);
    assert!(s.recent_status.contains(&relation(
        DependencyType::Mutex,
        1,
        &[lock(LockType::Mutex, 1)],
        lock(LockType::Mutex, 1)
    )));
    m.mutex_unlock(1, 1).unwrap();
    assert!(m.thread(1).unwrap().lockset.is_empty());
}

#[test]
fn lock_with_nothing_held_adds_only_a_singleton() {
    let mut m = registered(1);
    m.mutex_lock(1, 6).unwrap();
    let s = m.thread(1).unwrap();
    assert_eq!(s.recent_status.len(), 1);
    assert!(s.recent_status.contains(&RsType::S(lock(LockType::Mutex, 6))));
    assert!(!s.recent_status.contains(&relation(DependencyType::Mutex, 1, &[], lock(LockType::Mutex, 6))));
}

#[test]
fn dependency_of_lock_lacks_its_target() {
    let mut m = registered(1);
    m.mutex_lock(1, 1).unwrap();
    m.mutex_lock(1, 2).unwrap();
    m.mutex_lock(1, 3).unwrap();
    let s = m.thread(1).unwrap();
    let mut seen = 0;
    for r in s.recent_status.records() {
        if let RsType::D(d) = r {
            assert!(!d.lock_set.contains(&d.l));
            assert_eq!(d.t_id, 1);
            assert_eq!(d.dep_type, DependencyType::Mutex);
            seen += 1;
        }
    }
    assert_eq!(seen, 2);
    assert!(s.recent_status.contains(&relation(
        DependencyType::Mutex,
        1,
        &[lock(LockType::Mutex, 1), lock(LockType::Mutex, 2)],
        lock(LockType::Mutex, 3)
    )));
}

#[test]
fn unlock_of_unheld_mutex_changes_nothing() {
    let mut m = registered(1);
    m.mutex_lock(1, 1).unwrap();
    assert_eq!(m.mutex_unlock(1, 2), Ok(()));
    let s = m.thread(1).unwrap();
    assert_eq!(s.lockset, locks(&[lock(LockType::Mutex, 1)]));
    assert_eq!(s.recent_status.len(), 1);
}

#[test]
fn unlock_records_nothing() {
    let mut m = registered(1);
    m.mutex_lock(1, 1).unwrap();
    m.mutex_unlock(1, 1).unwrap();
    let s = m.thread(1).unwrap();
    assert!(s.lockset.is_empty());
    assert_eq!(s.recent_status.len(), 1);
    assert!(s.recent_status.contains(&RsType::S(lock(LockType::Mutex, 1))));
}

#[test]
fn read_lock_is_recorded_but_not_held() {
    let mut m = registered(1);
    m.rwmutex_rlock(1, 4).unwrap();
    {
        let s = m.thread(1).unwrap();
        assert!(s.lockset.is_empty());
        assert!(s.recent_status.contains(&RsType::S(lock(LockType::RMutex, 4))));
    }
    m.mutex_lock(1, 1).unwrap();
    m.rwmutex_rlock(1, 5).unwrap();
    let s = m.thread(1).unwrap();
    assert_eq!(s.lockset, locks(&[lock(LockType::Mutex, 1)]));
    assert!(s.recent_status.contains(&relation(
        DependencyType::Mutex,
        1,
        &[lock(LockType::Mutex, 1)],
        lock(LockType::RMutex, 5)
    )));
    assert_eq!(s.recent_status.len(), 3);
}

#[test]
fn write_lock_is_recorded_but_not_held() {
    let mut m = registered(1);
    m.rwmutex_wlock(1, 4).unwrap();
    {
        let s = m.thread(1).unwrap();
        assert!(s.lockset.is_empty());
        assert!(s.recent_status.contains(&RsType::S(lock(LockType::WMutex, 4))));
    }
    m.mutex_lock(1, 1).unwrap();
    m.rwmutex_wlock(1, 5).unwrap();
    let s = m.thread(1).unwrap();
    assert_eq!(s.lockset, locks(&[lock(LockType::Mutex, 1)]));
    assert!(s.recent_status.contains(&relation(
        DependencyType::Mutex,
        1,
        &[lock(LockType::Mutex, 1)],
        lock(LockType::WMutex, 5)
    )));
}

#[test]
fn read_and_write_unlock_remove_only_their_own_kind() {
    let mut m = registered(1);
    m.mutex_lock(1, 4).unwrap();
    m.rwmutex_runlock(1, 4).unwrap();
    m.rwmutex_wunlock(1, 4).unwrap();
    assert_eq!(m.thread(1).unwrap().lockset, locks(&[lock(LockType::Mutex, 4)]));
    assert_eq!(m.thread(1).unwrap().recent_status.len(), 1);
}

#[test]
fn read_and_write_unlock_remove_what_is_present() {
    let mut s = ThreadState::new();
    s.lockset.insert(lock(LockType::RMutex, 4));
    s.lockset.insert(lock(LockType::WMutex, 4));
    s.release(lock(LockType::RMutex, 4));
    assert_eq!(s.lockset, locks(&[lock(LockType::WMutex, 4)]));
    s.release(lock(LockType::WMutex, 4));
    assert!(s.lockset.is_empty());
    assert!(s.recent_status.is_empty());
}

#[test]
fn wait_with_other_single_lock_records_nothing() {
    let mut m = registered(1);
    m.mutex_lock(1, 2).unwrap();
    assert_eq!(m.cond_wait(1, 5, 1), Ok(()));
    let s = m.thread(1).unwrap();
    assert_eq!(s.lockset, locks(&[lock(LockType::Mutex, 2)]));
    assert_eq!(s.recent_status.len(), 1);
    assert!(s.recent_status.contains(&RsType::S(lock(LockType::Mutex, 2))));
}

#[test]
fn wait_with_nothing_held_records_empty_dependency() {
    let mut m = registered(1);
    assert_eq!(m.cond_wait(1, 5, 1), Ok(()));
    let s = m.thread(1).unwrap();
    assert!(s.lockset.is_empty());
    assert_eq!(s.recent_status.len(), 1);
    assert!(s.recent_status.contains(&relation(DependencyType::Signal, 1, &[], lock(LockType::CondVar, 5))));
}

#[test]
fn wait_with_many_held_and_absent_mutex_keeps_all() {
    let mut m = registered(1);
    m.mutex_lock(1, 2).unwrap();
    m.mutex_lock(1, 3).unwrap();
    m.cond_wait(1, 5, 1).unwrap();
    let s = m.thread(1).unwrap();
    assert_eq!(s.lockset.len(), 2);
    assert!(s.recent_status.contains(&relation(
        DependencyType::Signal,
        1,
        &[lock(LockType::Mutex, 2), lock(LockType::Mutex, 3)],
        lock(LockType::CondVar, 5)
    )));
}

#[test]
fn notify_chains_dependencies_and_derives_from_singletons() {
    let mut m = registered(1);
    m.mutex_lock(1, 1).unwrap();
    m.mutex_lock(1, 2).unwrap();
    m.cond_notify(1, 9).unwrap();
    let s = m.thread(1).unwrap();
    assert_eq!(s.lockset, locks(&[lock(LockType::Mutex, 1), lock(LockType::Mutex, 2)]));
    assert_eq!(s.recent_status.len(), 2);
    assert!(s.recent_status.contains(&relation(
        DependencyType::Mutex,
        1,
        &[lock(LockType::Mutex, 1), lock(LockType::CondVar, 9)],
        lock(LockType::Mutex, 2)
    )));
    assert!(s.recent_status.contains(&relation(
        DependencyType::Mutex,
        1,
        &[lock(LockType::Mutex, 1), lock(LockType::Mutex, 2)],
        lock(LockType::CondVar, 9)
    )));
}

#[test]
fn notify_on_empty_status_leaves_it_empty() {
    let mut m = registered(1);
    m.cond_notify(1, 9).unwrap();
    assert!(m.thread(1).unwrap().recent_status.is_empty());
    m.chan_send(1, 9).unwrap();
    assert!(m.thread(1).unwrap().recent_status.is_empty());
}

#[test]
fn notify_derives_signal_from_condition_singleton() {
    let mut m = registered(1);
    m.mutex_lock(1, 1).unwrap();
    m.mutex_unlock(1, 1).unwrap();
    m.cond_notify(1, 9).unwrap();
    m.mutex_lock(1, 1).unwrap();
    m.cond_notify(1, 8).unwrap();
    m.cond_wait(1, 5, 1).unwrap();
    // recent: two dependencies and the singleton of condition variable 5
    assert!(m.thread(1).unwrap().recent_status.contains(&RsType::S(lock(LockType::CondVar, 5))));
    m.cond_notify(1, 7).unwrap();
    let s = m.thread(1).unwrap();
    assert!(s.recent_status.contains(&relation(
        DependencyType::Signal,
        1,
        &[lock(LockType::Mutex, 1)],
        lock(LockType::CondVar, 7)
    )));
    for r in s.recent_status.records() {
        assert!(matches!(r, RsType::D(_)));
    }
}

#[test]
fn propagation_derives_kind_from_each_singleton() {
    let cases = [
        (LockType::Mutex, DependencyType::Mutex),
        (LockType::RMutex, DependencyType::Mutex),
        (LockType::WMutex, DependencyType::Mutex),
        (LockType::CondVar, DependencyType::Signal),
        (LockType::Channel, DependencyType::Send),
    ];
    for (kind, derived) in cases {
        assert_eq!(kind.derived(), derived);
        let mut s = ThreadState::new();
        s.lockset.insert(lock(LockType::Mutex, 3));
        s.recent_status.insert(RsType::S(lock(kind, 1)));
        s.propagate(8, lock(LockType::Channel, 2));
        assert_eq!(s.recent_status.len(), 1);
        assert!(s.recent_status.contains(&relation(
            derived,
            8,
            &[lock(LockType::Mutex, 3)],
            lock(LockType::Channel, 2)
        )));
    }
}

#[test]
fn propagation_merges_records_that_become_equal() {
    let mut recent = StatusSet::new();
    let target = lock(LockType::CondVar, 9);
    assert!(recent.insert(relation(DependencyType::Mutex, 1, &[lock(LockType::Mutex, 1)], lock(LockType::Mutex, 2))));
    assert!(recent.insert(relation(
        DependencyType::Mutex,
        1,
        &[lock(LockType::Mutex, 1), target],
        lock(LockType::Mutex, 2)
    )));
    assert!(recent.insert(RsType::S(lock(LockType::Mutex, 1))));
    assert!(recent.insert(RsType::S(lock(LockType::RMutex, 5))));
    assert_eq!(recent.len(), 4);
    let held = locks(&[lock(LockType::Mutex, 1)]);
    let out = recent.propagated(1, &held, target);
    assert_eq!(out.len(), 2);
    assert!(out.contains(&relation(
        DependencyType::Mutex,
        1,
        &[target, lock(LockType::Mutex, 1)],
        lock(LockType::Mutex, 2)
    )));
    assert!(out.contains(&relation(DependencyType::Mutex, 1, &[lock(LockType::Mutex, 1)], target)));
    assert_eq!(recent.len(), 4);
}

#[test]
fn propagation_keeps_thread_of_chained_relation() {
    let mut s = ThreadState::new();
    s.recent_status.insert(relation(DependencyType::Send, 3, &[], lock(LockType::Channel, 1)));
    s.propagate(8, lock(LockType::Channel, 2));
    assert_eq!(s.recent_status.len(), 1);
    assert!(s.recent_status.contains(&relation(
        DependencyType::Send,
        3,
        &[lock(LockType::Channel, 2)],
        lock(LockType::Channel, 1)
    )));
}

#[test]
fn send_propagates_with_channel_target() {
    let mut m = registered(1);
    m.mutex_lock(1, 1).unwrap();
    m.chan_recv(1, 3).unwrap();
    m.chan_send(1, 4).unwrap();
    let s = m.thread(1).unwrap();
    assert_eq!(s.lockset, locks(&[lock(LockType::Mutex, 1)]));
    assert_eq!(s.recent_status.len(), 2);
    assert!(s.recent_status.contains(&relation(
        DependencyType::Mutex,
        1,
        &[lock(LockType::Mutex, 1)],
        lock(LockType::Channel, 4)
    )));
    assert!(s.recent_status.contains(&relation(
        DependencyType::Send,
        1,
        &[lock(LockType::Mutex, 1), lock(LockType::Channel, 4)],
        lock(LockType::Channel, 3)
    )));
}

#[test]
fn receive_records_dependency_on_what_is_held() {
    let mut m = registered(1);
    m.mutex_lock(1, 1).unwrap();
    m.chan_recv(1, 3).unwrap();
    let s = m.thread(1).unwrap();
    assert_eq!(s.lockset, locks(&[lock(LockType::Mutex, 1)]));
    assert!(s.recent_status.contains(&relation(
        DependencyType::Send,
        1,
        &[lock(LockType::Mutex, 1)],
        lock(LockType::Channel, 3)
    )));
    assert_eq!(s.recent_status.len(), 2);
}

#[test]
fn repeated_fact_is_recorded_once() {
    let mut m = registered(1);
    m.chan_recv(1, 3).unwrap();
    m.chan_recv(1, 3).unwrap();
    assert_eq!(m.thread(1).unwrap().recent_status.len(), 1);
    m.chan_recv(1, 4).unwrap();
    assert_eq!(m.thread(1).unwrap().recent_status.len(), 2);
}

#[test]
fn operations_leave_other_threads_alone() {
    let mut m = LockManager::new();
    m.register_thread(1);
    m.register_thread(2);
    m.mutex_lock(1, 1).unwrap();
    m.mutex_lock(2, 2).unwrap();
    m.mutex_lock(2, 3).unwrap();
    m.cond_notify(2, 9).unwrap();
    m.cond_wait(2, 5, 2).unwrap();
    m.chan_recv(2, 5).unwrap();
    m.chan_send(2, 6).unwrap();
    m.mutex_unlock(2, 3).unwrap();
    let s = m.thread(1).unwrap();
    assert_eq!(s.lockset, locks(&[lock(LockType::Mutex, 1)]));
    assert_eq!(s.recent_status.len(), 1);
    assert!(s.recent_status.contains(&RsType::S(lock(LockType::Mutex, 1))));
    assert!(m.is_registered(2));
}
