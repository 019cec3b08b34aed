//! Tailing of append-only, line-delimited JSON logs and fan-out of the new
//! lines to live subscribers.
//!
//! The library holds the decisions of a log viewer, each with its contract:
//!
//! - [`reader`] cuts a buffer into lines and picks the lines that are new
//!   and look like a JSON object;
//! - [`tracker`] keeps, for each tailed file, how far it has been handled;
//! - [`broadcast`] hands every published event to the current subscribers;
//! - [`dispatch`] goes from a changed path to the events published for it
//!   and the position tracked afterwards;
//! - [`connection`] says what one viewer connection does with what arrives;
//! - [`laws`] states what holds of reading a growing log in steps;
//! - [`listing`], [`projects`], [`export`], [`tool_renderer`] and [`tui`]
//!   hold what the listings, the exports and the two interfaces show.
//!
//! Reading files, parsing JSON into entries, watching directories and
//! talking to viewers are left to the program that uses the library.

pub mod broadcast;
pub mod connection;
pub mod dispatch;
pub mod events;
pub mod export;
pub mod json;
pub mod laws;
pub mod listing;
pub mod projects;
pub mod reader;
pub mod text;
pub mod tool_renderer;
pub mod tracker;
pub mod tui;

pub use events::{
    LogEntry, ProjectSummary, SessionState, SessionSummary, StreamIdentity, Timestamp, WatchEvent,
};
pub use dispatch::WatchManager;
pub use json::{Json, JsonNumber};
