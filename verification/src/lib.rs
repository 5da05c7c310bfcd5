//! Verified core of a moderator-facing coding-problem service.
//!
//! The library models the problem repository as an in-memory table with its
//! invariants, validates creation payloads, and decides the HTTP replies of
//! the moderator API. Network, database and serialization edges live outside
//! the library and hand it plain values.

pub mod api;
pub mod errors;
mod gen;
pub mod problem;
pub mod routing;
pub mod store;

use vstd::prelude::*;

verus! {

} // verus!
