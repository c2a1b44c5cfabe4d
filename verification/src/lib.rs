//! Keeps a local media player and a screen recorder in lockstep.
//!
//! The library is the decision-making half of a small supervisory program:
//! it owns the playlist cursor and the optimistically tracked pause and
//! recording flags, and turns file-marker trigger events into the exact
//! player and recorder commands to issue.  The surrounding binary performs
//! the file polling, socket writes and subprocess management, and feeds
//! every observation back in as a plain value.

pub mod controller;
pub mod ipc;
pub mod paths;
pub mod playlist;
pub mod recorder;
pub mod resolver;
pub mod scanner;
pub mod supervisor;
