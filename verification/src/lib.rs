//! Low-level thread-synchronization primitives, modelled as small state
//! machines over the atomic words the real implementations manipulate.
//!
//! Each module holds one primitive: shared ownership with weak references,
//! a spin-then-park mutex, a condition variable, a writer-starvation-avoiding
//! reader/writer lock, and a one-shot message channel. Every public operation
//! corresponds to one atomic step of the concurrent protocol (a CAS, a swap,
//! a fetch-and-add), and its contract states exactly how that step changes
//! the shared state. Blocking itself (the futex-style wait) is the caller's
//! affair: an operation that would have to block instead reports that fact,
//! and the surrounding loop parks and retries.

pub mod arc;
pub mod channel;
pub mod condvar;
pub mod mutex;
pub mod rwlock;
