//! A verified model of the constraint-gate layer of a verifiable-query
//! engine: relational operators (sort, group-by, join, aggregation) encoded
//! as selector-gated polynomial constraints and byte-table lookups over a
//! shared column plan, together with the witness generators that fill them.
//!
//! Every gate exposes the two phases of a circuit's life: a configuration
//! entry point that allocates columns and selectors out of the shared plan,
//! and a synthesis entry point that computes and checks one witness.

pub mod aggregation;
pub mod circuit;
pub mod config;
pub mod constants;
pub mod error;
pub mod field;
pub mod group_by;
pub mod join;
pub mod range_check;
pub mod sort;
pub mod text;
pub mod utils;
pub mod validation;
