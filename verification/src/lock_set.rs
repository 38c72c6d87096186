//! A finite set of primitives.

use crate::model::{lemma_set_hash_empty, lemma_set_hash_insert, set_hash};
use crate::primitive::SLock;
use vstd::prelude::*;

verus! {

/// A set of primitives, such as those a thread holds.
///
/// The members are kept in a vector in which none occurs twice; the order
/// of the vector carries no meaning.
#[derive(Debug)]
pub struct LockSet {
    locks: Vec<SLock>,
}

impl View for LockSet {
    type V = Set<SLock>;

    closed spec fn view(&self) -> Set<SLock> {
        self.locks@.to_set()
    }
}

/// The index of `l` in `v`, if it occurs there.
fn position(v: &Vec<SLock>, l: &SLock) -> (r: Option<usize>)
    ensures
        match r {
            Some(i) => i < v@.len() && v@[i as int] == *l,
            None => !v@.contains(*l),
        },
{
    let mut i: usize = 0;
    while i < v.len()
        invariant
            i <= v@.len(),
            forall|j: int| 0 <= j < i ==> v@[j] != *l,
        decreases v@.len() - i,
    {
        if v[i] == *l {
            return Some(i);
        }
        i += 1;
    }
    None
}

/// Removing the only occurrence of a value from a sequence removes it from
/// the set of the sequence's values, and no value then occurs twice.
proof fn lemma_remove_unique(s: Seq<SLock>, i: int)
    requires
        s.no_duplicates(),
        0 <= i < s.len(),
    ensures
        s.remove(i).no_duplicates(),
        s.remove(i).to_set() == s.to_set().remove(s[i]),
{
    let r = s.remove(i);
    assert forall|x: SLock| r.to_set().contains(x) <==> s.to_set().remove(s[i]).contains(x) by {
        if r.to_set().contains(x) {
            let j = choose|j: int| 0 <= j < r.len() && r[j] == x;
            if j < i {
                assert(s[j] == x);
            } else {
                assert(s[j + 1] == x);
            }
        }
        if s.to_set().remove(s[i]).contains(x) {
            let j = choose|j: int| 0 <= j < s.len() && s[j] == x;
            if j < i {
                assert(r[j] == x);
            } else {
                assert(r[j - 1] == x);
            }
        }
    }
    assert(r.to_set() =~= s.to_set().remove(s[i]));
}

impl LockSet {
    #[verifier::type_invariant]
    spec fn distinct(self) -> bool {
        self.locks@.no_duplicates()
    }

    /// Every set of primitives held in a value is finite.
    pub proof fn lemma_finite(&self)
        ensures
            self@.finite(),
    {
        vstd::seq_lib::seq_to_set_is_finite(self.locks@);
    }

    /// The empty set.
    pub fn new() -> (s: LockSet)
        ensures
            s@ == Set::<SLock>::empty(),
    {
        let s = LockSet { locks: Vec::new() };
        assert(s.locks@.to_set() =~= Set::<SLock>::empty());
        s
    }

    /// The number of members.
    pub fn len(&self) -> (n: usize)
        ensures
            self@.finite(),
            n == self@.len(),
    {
        proof {
            use_type_invariant(self);
            self.locks@.unique_seq_to_set();
            vstd::seq_lib::seq_to_set_is_finite(self.locks@);
        }
        self.locks.len()
    }

    /// Whether the set has no member.
    pub fn is_empty(&self) -> (b: bool)
        ensures
            b <==> self@ == Set::<SLock>::empty(),
    {
        proof {
            if self.locks@.len() == 0 {
                assert(self.locks@.to_set() =~= Set::<SLock>::empty());
            } else {
                assert(self.locks@.to_set().contains(self.locks@[0]));
            }
        }
        self.locks.len() == 0
    }

    /// Whether `l` is a member.
    pub fn contains(&self, l: &SLock) -> (b: bool)
        ensures
            b == self@.contains(*l),
    {
        position(&self.locks, l).is_some()
    }

    /// The members, each once, in no particular order.
    pub fn members(&self) -> (v: &Vec<SLock>)
        ensures
            v@.no_duplicates(),
            v@.to_set() == self@,
    {
        proof {
            use_type_invariant(self);
        }
        &self.locks
    }

    /// The hash of the set: the wrapped sum of its members' numbers,
    /// whatever the order in which they were added.
    pub fn hash_code(&self) -> (h: u64)
        ensures
            h == set_hash(self@),
    {
        proof {
            use_type_invariant(self);
            lemma_set_hash_empty();
            assert(self.locks@.take(0).to_set() =~= Set::<SLock>::empty());
        }
        let mut h: u64 = 0;
        let mut i: usize = 0;
        while i < self.locks.len()
            invariant
                i <= self.locks@.len(),
                self.locks@.no_duplicates(),
                h == set_hash(self.locks@.take(i as int).to_set()),
            decreases self.locks@.len() - i,
        {
            proof {
                let before = self.locks@.take(i as int);
                let l = self.locks@[i as int];
                assert(self.locks@.take(i + 1) =~= before.push(l));
                before.lemma_push_to_set_commute(l);
                vstd::seq_lib::seq_to_set_is_finite(before);
                assert(!before.to_set().contains(l)) by {
                    if before.to_set().contains(l) {
                        let j = choose|j: int| 0 <= j < before.len() && before[j] == l;
                        assert(self.locks@[j] == self.locks@[i as int]);
                    }
                }
                lemma_set_hash_insert(before.to_set(), l);
            }
            h = h.wrapping_add(self.locks[i].code());
            i += 1;
        }
        assert(self.locks@.take(i as int) =~= self.locks@);
        h
    }

    /// Adds `l`, and says whether it was absent.
    pub fn insert(&mut self, l: SLock) -> (added: bool)
        ensures
            final(self)@ == old(self)@.insert(l),
            added == !old(self)@.contains(l),
    {
        proof {
            use_type_invariant(&*self);
        }
        if position(&self.locks, &l).is_some() {
            assert(self@ =~= self@.insert(l));
            false
        } else {
            let mut v: Vec<SLock> = Vec::new();
            std::mem::swap(&mut v, &mut self.locks);
            let ghost before = v@;
            v.push(l);
            proof {
                before.lemma_push_to_set_commute(l);
            }
            self.locks = v;
            true
        }
    }

    /// Removes `l`, and says whether it was present.
    pub fn remove(&mut self, l: &SLock) -> (removed: bool)
        ensures
            final(self)@ == old(self)@.remove(*l),
            removed == old(self)@.contains(*l),
    {
        proof {
            use_type_invariant(&*self);
        }
        match position(&self.locks, l) {
            Some(i) => {
                let mut v: Vec<SLock> = Vec::new();
                std::mem::swap(&mut v, &mut self.locks);
                proof {
                    lemma_remove_unique(v@, i as int);
                }
                v.remove(i);
                self.locks = v;
                true
            },
            None => {
                assert(self@ =~= self@.remove(*l));
                false
            },
        }
    }
}

impl Clone for LockSet {
    /// A set with the same members.
    fn clone(&self) -> (s: LockSet)
        ensures
            s@ == self@,
    {
        proof {
            use_type_invariant(self);
        }
        let mut v: Vec<SLock> = Vec::new();
        let mut i: usize = 0;
        while i < self.locks.len()
            invariant
                i <= self.locks@.len(),
                v@ == self.locks@.take(i as int),
            decreases self.locks@.len() - i,
        {
            v.push(self.locks[i]);
            assert(self.locks@.take(i as int).push(self.locks@[i as int]) =~= self.locks@.take(
                i + 1,
            ));
            i += 1;
        }
        assert(self.locks@.take(i as int) =~= self.locks@);
        LockSet { locks: v }
    }
}

impl PartialEq for LockSet {
    /// Whether the two sets have the same members.
    fn eq(&self, other: &LockSet) -> (b: bool) {
        proof {
            use_type_invariant(self);
            use_type_invariant(other);
            self.locks@.unique_seq_to_set();
            other.locks@.unique_seq_to_set();
            self.lemma_finite();
            other.lemma_finite();
        }
        if self.locks.len() != other.locks.len() {
            return false;
        }
        let mut i: usize = 0;
        while i < self.locks.len()
            invariant
                i <= self.locks@.len(),
                forall|j: int| 0 <= j < i ==> other@.contains(#[trigger] self.locks@[j]),
            decreases self.locks@.len() - i,
        {
            if position(&other.locks, &self.locks[i]).is_none() {
                assert(self@.contains(self.locks@[i as int]));
                return false;
            }
            i += 1;
        }
        proof {
            assert(self@.subset_of(other@));
            vstd::set_lib::lemma_subset_equality(self@, other@);
        }
        true
    }
}

impl Eq for LockSet {

}

impl vstd::std_specs::cmp::PartialEqSpecImpl for LockSet {
    open spec fn obeys_eq_spec() -> bool {
        true
    }

    open spec fn eq_spec(&self, other: &LockSet) -> bool {
        self@ == other@
    }
}

} // verus!
