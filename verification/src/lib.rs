//! In-process concurrency primitives, specified and verified: a
//! reference-counted shared pointer with a non-owning weak variant
//! ([`arc`]), the abstract counting protocol behind it and its laws
//! ([`counting`]), and a mutual-exclusion lock with a scope-bound guard
//! ([`spinlock`]). Around that core: a credential store hashing
//! passwords through pbkdf2 ([`users`]), the data model of a
//! question-and-answer service ([`models`]), verified log-message
//! builders ([`logging`]), formatter closures ([`formatting`]), a
//! type-state machine ([`machine`]) and a sum accumulator ([`wrapper`]).
use vstd::prelude::*;

pub mod arc;
pub mod counting;
pub mod formatting;
pub mod logging;
pub mod machine;
pub mod models;
pub mod spinlock;
pub mod users;
pub mod wrapper;

verus! {

} // verus!
