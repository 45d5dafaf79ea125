//! Recognition of single-table analytic `SELECT` statements.
//!
//! The library takes the syntax tree of a SQL text, decides whether the
//! statement belongs to a small analytic subset (one table, one aggregation over
//! one column, at most one simple predicate), extracts what it computes, and
//! regenerates two derived queries.

pub mod aggregation;
pub mod comparison;
pub mod destructured_query;
pub mod error;
pub mod filter;
pub mod query_metadata;
pub mod support;
pub mod syntax;
pub mod table;
