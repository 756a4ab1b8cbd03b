//! Turns a batch of catalog records into SQL: an upsert for each record's
//! metadata, and an update for each record whose image could be fetched,
//! converted and stored.
//!
//! The library decides and renders; it does no input or output. Whoever runs
//! a batch reads the records, asks the [`scheduler`] which record may start,
//! does for each record what its job in [`processor`] asks for, and hands the
//! results to the outcome in [`batch`].

pub mod batch;
pub mod document;
pub mod escape;
pub mod export;
pub mod identity;
pub mod image;
pub mod processor;
pub mod record;
pub mod scheduler;
pub mod statement;
pub mod text;
pub mod value;
