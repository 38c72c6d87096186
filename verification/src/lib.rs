//! A recorder of lock dependencies for deadlock detection.
//!
//! Instrumented synchronisation primitives report every acquire, release,
//! wait, notify, send and receive to a [`lock_manager::LockManager`]. For each
//! registered thread the manager keeps the set of primitives the thread
//! holds and the set of facts most recently formed about it: either that a
//! primitive was reached with nothing held, or that it was reached while a
//! given set of primitives was held. A cycle detector reads those facts; it
//! is not part of this crate.

pub mod primitive;
pub mod model;
pub mod lock_set;
pub mod status;
pub mod status_set;
pub mod thread_state;
pub mod lock_manager;
pub mod laws;
