//! Synchronisation primitives and the kinds of dependency between them.

use vstd::prelude::*;

verus! {

/// Numeric identity of one primitive instance.
pub type LockId = u32;

/// Identity of a thread as the tracker sees it.
pub type ThreadKey = u64;

/// The kind of a synchronisation primitive.
#[derive(Clone, Copy, PartialEq, Eq, Structural, Debug, Hash)]
pub enum LockType {
    /// An exclusive mutex.
    Mutex,
    /// A read-write lock taken for reading.
    RMutex,
    /// A read-write lock taken for writing.
    WMutex,
    /// A condition variable.
    CondVar,
    /// A channel.
    Channel,
}

/// Why a dependency arose.
#[derive(Clone, Copy, PartialEq, Eq, Structural, Debug, Hash)]
pub enum DependencyType {
    /// A primitive was acquired while others were held.
    Mutex,
    /// A wait on, or a notification of, a condition variable.
    Signal,
    /// A receive from, or a send on, a channel.
    Send,
}

/// A reference to one primitive: its kind and its id.
#[derive(Clone, Copy, PartialEq, Eq, Structural, Debug, Hash)]
pub struct SLock {
    pub l_type: LockType,
    pub l_id: LockId,
}

/// The kind of the dependency that a notification or a send derives from
/// the fact that a primitive of kind `k` was reached with nothing held.
pub open spec fn derived_kind(k: LockType) -> DependencyType {
    match k {
        LockType::Mutex | LockType::RMutex | LockType::WMutex => DependencyType::Mutex,
        LockType::CondVar => DependencyType::Signal,
        LockType::Channel => DependencyType::Send,
    }
}

/// The number that stands for a kind of primitive in a hash.
pub open spec fn kind_code(k: LockType) -> u64 {
    match k {
        LockType::Mutex => 0,
        LockType::RMutex => 1,
        LockType::WMutex => 2,
        LockType::CondVar => 3,
        LockType::Channel => 4,
    }
}

/// The number that stands for a primitive in a hash: its kind in the upper
/// half, its id in the lower. Different primitives have different numbers.
pub open spec fn lock_code(l: SLock) -> u64 {
    (kind_code(l.l_type) * 0x1_0000_0000 + l.l_id) as u64
}

impl LockType {
    /// The number that stands for this kind in a hash.
    pub fn code(self) -> (c: u64)
        ensures
            c == kind_code(self),
    {
        match self {
            LockType::Mutex => 0,
            LockType::RMutex => 1,
            LockType::WMutex => 2,
            LockType::CondVar => 3,
            LockType::Channel => 4,
        }
    }

    /// The kind of the dependency derived from a primitive of this kind.
    pub fn derived(self) -> (k: DependencyType)
        ensures
            k == derived_kind(self),
    {
        match self {
            LockType::Mutex | LockType::RMutex | LockType::WMutex => DependencyType::Mutex,
            LockType::CondVar => DependencyType::Signal,
            LockType::Channel => DependencyType::Send,
        }
    }
}

impl SLock {
    /// The primitive of kind `l_type` with id `l_id`.
    pub fn new(l_type: LockType, l_id: LockId) -> (l: SLock)
        ensures
            l == (SLock { l_type, l_id }),
    {
        SLock { l_type, l_id }
    }

    /// The number that stands for this primitive in a hash.
    pub fn code(&self) -> (c: u64)
        ensures
            c == lock_code(*self),
    {
        self.l_type.code() * 0x1_0000_0000 + (self.l_id as u64)
    }
}

} // verus!
