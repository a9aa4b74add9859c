//! A resumable consumer of a repository event stream, as a library without
//! input or output.
//!
//! - [`firehose`] decodes one message into a typed event.
//! - [`select`] picks the operations of an event that concern a namespace.
//! - [`ingest`] is the ingestion loop as a state machine: it decides what to
//!   write to the stores and what to do next.
//! - [`db`] says what the cursor and the dead letters hold after each write.
//! - [`laws`] and [`encode`] state and prove what holds of all of it.
//!
//! The decoding of CBOR itself is left to `ciborium` and `serde_ipld_dagcbor`,
//! behind the contracts of [`cbor`]; everything else is verified.

pub mod cbor;
pub mod db;
pub mod encode;
pub mod firehose;
pub mod ingest;
pub mod item;
pub mod laws;
pub mod schema;
pub mod select;
pub mod text;
