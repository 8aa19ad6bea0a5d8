//! The clip-manager TUI's state and key handling.
pub mod app;
pub mod keys;
pub mod labels;
