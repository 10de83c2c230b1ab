//! A two-mode line editor for the terminal: a session that switches between
//! viewing and editing, collects one line of text at a time into a message
//! log, and describes what each frame shows.
//!
//! The session and its key bindings are in [`state`], the event loop over a
//! sequence of events in [`session`], and the description of a frame in
//! [`render`]. Nothing here reads a key or draws a cell: a caller hands in
//! events and the drawable area, and gets signals and frames back.

pub mod layout;
pub mod render;
pub mod session;
pub mod state;
pub mod text;

pub use layout::{Region, RowRule};
pub use render::{ui, Cursor, Frame, Span, Style};
pub use session::run_app;
pub use state::{App, AppState, AppView, Event, Key, Signal};
