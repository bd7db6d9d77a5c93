//! Data-access core of a task-tracking record store.
//!
//! The crate models tasks as typed records, converts them to and from the
//! flat string-encoded rows of a relational store, and assembles the
//! parameterized statements that read and mutate those rows.  All statement
//! text is built from fixed fragments and an allow-list of sort columns;
//! every value travels as a bound parameter.

pub mod errors;
pub mod ext;
pub mod models;
pub mod codec;
pub mod query;
pub mod repo;
pub mod text;
