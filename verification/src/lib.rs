//! A repository of todo records, with two backends, verified with Verus.
//!
//! A repository offers five operations: `create`, `find`, `all`, `update`
//! and `delete`. What they mean is written down once, in [`contract`], on a
//! collection of records taken as a mathematical map from id to record.
//!
//! - [`model`] holds the record and the payloads of `create` and `update`.
//! - [`error`] holds the two kinds of failure, `NotFound` and `Unexpected`.
//! - [`contract`] says what each operation answers and what it leaves.
//! - [`store`] is the collection itself, proved to do what [`contract`] says.
//! - [`repository`] is the interface that both backends offer.
//! - [`memory`] is the in-memory backend: a store behind a readers-writer
//!   lock, shared by all clones of a handle.
//! - [`durable`] is the durable backend's part: the statement of each
//!   operation and the answer to be read from the database's reply.
//! - [`http`] maps the answers to status codes and bodies.
//! - [`laws`] proves what holds of the operations taken together.
//! - [`decimal`] writes ids out for the messages of failures.

pub mod contract;
pub mod decimal;
pub mod durable;
pub mod error;
pub mod http;
pub mod laws;
pub mod memory;
pub mod model;
pub mod repository;
pub mod store;
