//! A terminal front end for a reactive UI tree.
//!
//! The crate holds the decisions of a full-screen terminal session: which
//! terminal switches to make and to undo, how the event loop reacts to each
//! stimulus, and how one frame of the two-pane screen is laid out and painted.
//! Everything that touches the terminal device or the UI engine is left to the
//! caller, which performs the commands this crate hands out.

pub mod content;
pub mod event_loop;
pub mod frame;
pub mod grid;
pub mod input;
pub mod selection;
pub mod session;
pub mod toolkit;
