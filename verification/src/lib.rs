//! An append-only personal log: the record format, the edits of the stored
//! lines, the checks on what the user typed, and the decisions of the two
//! block helpers that a rendering template calls.

pub mod clock;
pub mod command;
pub mod config;
pub mod entry;
pub mod error;
pub mod helpers;
pub mod input;
pub mod json;
pub mod store;
pub mod text;
pub mod walk;
