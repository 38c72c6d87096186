//! A finite set of recorded facts.

use crate::lock_set::LockSet;
use crate::model::{lemma_propagate_empty, lemma_propagate_insert, propagate_all, Status};
use crate::primitive::{SLock, ThreadKey};
use crate::status::{DependencyRelation, RsType};
use vstd::prelude::*;

verus! {

/// The meanings of the records of `s`, in order.
pub open spec fn meanings(s: Seq<RsType>) -> Seq<Status> {
    s.map_values(|r: RsType| r@)
}

/// A set of records, such as a thread's recent status.
///
/// The records are kept in a vector in which no two are equal; the order
/// of the vector carries no meaning.
#[derive(Debug)]
pub struct StatusSet {
    items: Vec<RsType>,
}

impl View for StatusSet {
    type V = Set<Status>;

    closed spec fn view(&self) -> Set<Status> {
        meanings(self.items@).to_set()
    }
}

/// The index of a record equal to `r` in `v`, if there is one.
fn position(v: &Vec<RsType>, r: &RsType) -> (p: Option<usize>)
    ensures
        match p {
            Some(i) => i < v@.len() && v@[i as int]@ == r@,
            None => !meanings(v@).contains(r@),
        },
{
    let mut i: usize = 0;
    while i < v.len()
        invariant
            i <= v@.len(),
            forall|j: int| 0 <= j < i ==> (#[trigger] v@[j])@ != r@,
        decreases v@.len() - i,
    {
        if v[i] == *r {
            return Some(i);
        }
        i += 1;
    }
    assert forall|j: int| 0 <= j < meanings(v@).len() implies meanings(v@)[j] != r@ by {
        assert(v@[j]@ != r@);
    }
    None
}

/// The meanings of a prefix one longer are those of the prefix and that of
/// the next record.
proof fn lemma_meanings_take(s: Seq<RsType>, i: int)
    requires
        0 <= i < s.len(),
    ensures
        meanings(s.take(i + 1)).to_set() == meanings(s.take(i)).to_set().insert(s[i]@),
{
    assert(meanings(s.take(i + 1)) =~= meanings(s.take(i)).push(s[i]@));
    meanings(s.take(i)).lemma_push_to_set_commute(s[i]@);
}

impl StatusSet {
    #[verifier::type_invariant]
    spec fn distinct(self) -> bool {
        meanings(self.items@).no_duplicates()
    }

    /// The empty set.
    pub fn new() -> (s: StatusSet)
        ensures
            s@ == Set::<Status>::empty(),
    {
        let s = StatusSet { items: Vec::new() };
        assert(meanings(s.items@).to_set() =~= Set::<Status>::empty());
        s
    }

    /// The number of records.
    pub fn len(&self) -> (n: usize)
        ensures
            self@.finite(),
            n == self@.len(),
    {
        proof {
            use_type_invariant(self);
            meanings(self.items@).unique_seq_to_set();
            vstd::seq_lib::seq_to_set_is_finite(meanings(self.items@));
        }
        self.items.len()
    }

    /// Whether the set has no record.
    pub fn is_empty(&self) -> (b: bool)
        ensures
            b <==> self@ == Set::<Status>::empty(),
    {
        proof {
            if self.items@.len() == 0 {
                assert(meanings(self.items@).to_set() =~= Set::<Status>::empty());
            } else {
                assert(meanings(self.items@)[0] == self.items@[0]@);
                assert(meanings(self.items@).to_set().contains(self.items@[0]@));
            }
        }
        self.items.len() == 0
    }

    /// Whether a record equal to `r` is a member.
    pub fn contains(&self, r: &RsType) -> (b: bool)
        ensures
            b == self@.contains(r@),
    {
        match position(&self.items, r) {
            Some(i) => {
                assert(meanings(self.items@)[i as int] == r@);
                true
            },
            None => false,
        }
    }

    /// The records, each once, in no particular order.
    pub fn records(&self) -> (v: &Vec<RsType>)
        ensures
            meanings(v@).no_duplicates(),
            meanings(v@).to_set() == self@,
    {
        proof {
            use_type_invariant(self);
        }
        &self.items
    }

    /// Adds `r` unless an equal record is a member, and says whether it
    /// was added.
    pub fn insert(&mut self, r: RsType) -> (added: bool)
        ensures
            final(self)@ == old(self)@.insert(r@),
            added == !old(self)@.contains(r@),
    {
        proof {
            use_type_invariant(&*self);
        }
        match position(&self.items, &r) {
            Some(i) => {
                assert(meanings(self.items@)[i as int] == r@);
                assert(self@ =~= self@.insert(r@));
                false
            },
            None => {
                let mut v: Vec<RsType> = Vec::new();
                std::mem::swap(&mut v, &mut self.items);
                let ghost before = v@;
                v.push(r);
                proof {
                    assert(meanings(v@) =~= meanings(before).push(r@));
                    meanings(before).lemma_push_to_set_commute(r@);
                }
                self.items = v;
                true
            },
        }
    }

    /// The records that a signal on `target` by thread `t`, holding
    /// `held`, makes of these: each dependency chained, each singleton
    /// turned into a dependency of `target` on `held`.
    pub fn propagated(&self, t: ThreadKey, held: &LockSet, target: SLock) -> (out: StatusSet)
        ensures
            out@ == propagate_all(self@, t, held@, target),
    {
        let mut out = StatusSet::new();
        let mut i: usize = 0;
        proof {
            assert(meanings(self.items@.take(0)).to_set() =~= Set::<Status>::empty());
            lemma_propagate_empty(t, held@, target);
        }
        while i < self.items.len()
            invariant
                i <= self.items@.len(),
                out@ == propagate_all(
                    meanings(self.items@.take(i as int)).to_set(),
                    t,
                    held@,
                    target,
                ),
            decreases self.items@.len() - i,
        {
            let next = match &self.items[i] {
                RsType::D(d) => {
                    let mut chained = d.clone();
                    chained.lock_set.insert(target);
                    RsType::D(chained)
                },
                RsType::S(l) => RsType::D(
                    DependencyRelation::new(l.l_type.derived(), t, target, held.clone()),
                ),
            };
            proof {
                lemma_meanings_take(self.items@, i as int);
                lemma_propagate_insert(
                    meanings(self.items@.take(i as int)).to_set(),
                    self.items@[i as int]@,
                    t,
                    held@,
                    target,
                );
            }
            out.insert(next);
            i += 1;
        }
        assert(self.items@.take(i as int) =~= self.items@);
        out
    }
}

impl Clone for StatusSet {
    /// A set with equal records.
    fn clone(&self) -> (s: StatusSet)
        ensures
            s@ == self@,
    {
        proof {
            use_type_invariant(self);
        }
        let mut v: Vec<RsType> = Vec::new();
        let mut i: usize = 0;
        while i < self.items.len()
            invariant
                i <= self.items@.len(),
                meanings(v@) == meanings(self.items@.take(i as int)),
            decreases self.items@.len() - i,
        {
            let ghost before = v@;
            v.push(self.items[i].clone());
            assert(meanings(v@) =~= meanings(before).push(self.items@[i as int]@));
            assert(meanings(self.items@.take(i + 1)) =~= meanings(self.items@.take(i as int)).push(
                self.items@[i as int]@,
            ));
            i += 1;
        }
        assert(self.items@.take(i as int) =~= self.items@);
        StatusSet { items: v }
    }
}

} // verus!
