//! The facts recorded about a thread: singletons and dependency relations.

use crate::lock_set::LockSet;
use crate::model::{relation_hash, Relation, Status};
use crate::primitive::{DependencyType, SLock, ThreadKey};
use vstd::prelude::*;

verus! {

/// The fact that thread `t_id` reached for `l` while it held `lock_set`.
///
/// Two relations are equal when all four parts are, the sets compared by
/// their members.
#[derive(Debug)]
pub struct DependencyRelation {
    pub dep_type: DependencyType,
    pub t_id: ThreadKey,
    pub l: SLock,
    pub lock_set: LockSet,
}

impl View for DependencyRelation {
    type V = Relation;

    open spec fn view(&self) -> Relation {
        Relation {
            kind: self.dep_type,
            thread: self.t_id,
            target: self.l,
            held: self.lock_set@,
        }
    }
}

impl DependencyRelation {
    /// The relation with the given parts.
    pub fn new(dep_type: DependencyType, t_id: ThreadKey, l: SLock, lock_set: LockSet) -> (d:
        DependencyRelation)
        ensures
            d@ == (Relation { kind: dep_type, thread: t_id, target: l, held: lock_set@ }),
    {
        DependencyRelation { dep_type, t_id, l, lock_set }
    }

    /// The hash of the relation, formed from its held set alone. Equal
    /// relations have equal hashes; relations that differ only in kind,
    /// thread or target have equal hashes too.
    pub fn hash_code(&self) -> (h: u64)
        ensures
            h == relation_hash(self@),
    {
        self.lock_set.hash_code()
    }
}

impl Clone for DependencyRelation {
    /// An equal relation.
    fn clone(&self) -> (d: DependencyRelation)
        ensures
            d@ == self@,
    {
        DependencyRelation {
            dep_type: self.dep_type,
            t_id: self.t_id,
            l: self.l,
            lock_set: self.lock_set.clone(),
        }
    }
}

impl PartialEq for DependencyRelation {
    /// Whether the two relations agree in kind, thread, target and held
    /// set.
    fn eq(&self, other: &DependencyRelation) -> (b: bool) {
        self.dep_type == other.dep_type && self.t_id == other.t_id && self.l == other.l
            && self.lock_set == other.lock_set
    }
}

impl Eq for DependencyRelation {

}

impl vstd::std_specs::cmp::PartialEqSpecImpl for DependencyRelation {
    open spec fn obeys_eq_spec() -> bool {
        true
    }

    open spec fn eq_spec(&self, other: &DependencyRelation) -> bool {
        self@ == other@
    }
}

/// One record of a thread's recent status.
#[derive(Debug)]
pub enum RsType {
    /// A primitive reached with nothing held.
    S(SLock),
    /// A primitive reached while others were held.
    D(DependencyRelation),
}

impl View for RsType {
    type V = Status;

    open spec fn view(&self) -> Status {
        match self {
            RsType::S(l) => Status::Single(*l),
            RsType::D(d) => Status::Depends(d@),
        }
    }
}

impl Clone for RsType {
    /// An equal record.
    fn clone(&self) -> (r: RsType)
        ensures
            r@ == self@,
    {
        match self {
            RsType::S(l) => RsType::S(*l),
            RsType::D(d) => RsType::D(d.clone()),
        }
    }
}

impl PartialEq for RsType {
    /// Whether the two records are of the same form and hold equal
    /// parts.
    fn eq(&self, other: &RsType) -> (b: bool) {
        match (self, other) {
            (RsType::S(a), RsType::S(b)) => *a == *b,
            (RsType::D(a), RsType::D(b)) => *a == *b,
            _ => false,
        }
    }
}

impl Eq for RsType {

}

impl vstd::std_specs::cmp::PartialEqSpecImpl for RsType {
    open spec fn obeys_eq_spec() -> bool {
        true
    }

    open spec fn eq_spec(&self, other: &RsType) -> bool {
        self@ == other@
    }
}

} // verus!
