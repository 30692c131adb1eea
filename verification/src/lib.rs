//! Sort-clause construction for a SQL query builder.
//!
//! Given an optional user-requested sort column, a mandatory tie-breaker
//! column, and directives describing reverse-mode pagination and implicit
//! tie-breaking, this crate decides which columns a query sorts by and in
//! which direction, so that paginated result sets are ordered
//! deterministically.

pub mod column;
pub mod ordering;
