//! Row materialization protocol for a streaming SQL result cursor.
//!
//! Column values read from a native cursor are transient: they die the moment
//! the cursor steps to the next row. This crate decides when and how those
//! transient values are copied into owned memory, so that a row object may
//! outlive the step that produced it. Rows are materialized either eagerly
//! (all values copied at once) or lazily (copied on demand, at most once,
//! strictly before the next step).

pub mod any;
pub mod column;
pub mod error;
pub mod row;
pub mod slot;
pub mod statement;
pub mod value;
