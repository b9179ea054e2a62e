//! A personal todo manager: hierarchical todo lists stored as a markdown
//! subset, with a navigation and edit state machine over the loaded files.
//!
//! - [`todo`] holds the document model: notes, sections, list files.
//! - [`codec`] parses lines into documents and serializes them back.
//! - [`roundtrip`] proves the codec's round-trip and idempotence laws.
//! - [`app`] is the navigation and edit state machine, with save planning.
//! - [`util`] computes the fingerprints used for change detection.

pub mod app;
pub mod codec;
pub mod roundtrip;
pub mod strutil;
pub mod todo;
pub mod util;
