//! The physical plan builder of a distributed SQL engine: it turns an
//! optimized relational tree into an executable plan, binding column indices to
//! field positions, folding constants, staging aggregates around exchanges and
//! assembling the storage hints of each scan. Beside it stand the decisions of
//! the admission queue and of the query result cache.
use vstd::prelude::*;

pub mod aggregate;
pub mod builder;
pub mod cache;
pub mod error;
pub mod expr;
pub mod laws;
pub mod lists;
pub mod metadata;
pub mod plan;
pub mod projection;
pub mod pushdown;
pub mod queue;
pub mod relational;
pub mod scalar;
pub mod schema;

verus! {

} // verus!
