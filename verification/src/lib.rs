//! A small persistence core for named collections of structured documents.
//!
//! A collection is an ordered sequence of opaque JSON documents kept in one
//! file, `<name>.json`, inside a host-supplied application data directory.
//! The host performs the raw filesystem reads and writes; this crate holds
//! the logic in between: naming the collection file, defaulting an absent
//! file to the empty collection, rendering and parsing the file text, and
//! the error taxonomy that every operation reports through.

pub mod json;
pub mod store;
