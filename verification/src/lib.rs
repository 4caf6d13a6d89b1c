//! Small supporting utilities for an HTTP service backed by a record store:
//! a unified application error model, a payload field validator, an
//! inspection-only decoder for the store's authentication tokens, and a
//! codec for `table:key` record identifiers.

pub mod errors;
pub mod fields;
pub mod surrealdb;
