//! State, rules and rendering of a panel indicator that shows how many
//! GitLab to-do items are pending.
//!
//! The crate holds no I/O. A host program reads the configuration file,
//! sends the HTTP request and draws the widgets; everything it has to decide
//! is computed here from plain values.

pub mod app;
pub mod config;
pub mod gitlab;
pub mod laws;
pub mod popup;
pub mod text;
