//! Core of a terminal dashboard for browsing home-brew recipes: an immutable
//! record store loaded once at startup, a selection model driven by key
//! input, and a pure formatter that turns a record into display lines.
//!
//! Terminal setup, drawing and file loading are collaborators outside this
//! crate; everything here is plain state and text.

pub mod app;
pub mod datatypes;
pub mod format;
