//! A tag service's logic: the bearer-token guard on writes, the mapping from storage results
//! to responses, an in-memory tag table, and the create / read / list / update / delete
//! handlers over it, with the laws that tie them together.

use vstd::prelude::*;

pub mod auth;
pub mod entity;
pub mod handler;
pub mod lifecycle;
pub mod store;
pub mod tag;

verus! {

} // verus!
