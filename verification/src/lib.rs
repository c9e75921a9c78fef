//! A terminal browser for columnar tabular files.
//!
//! The library holds the verified core of the browser: the projection of
//! file metadata into display-ready tables, the per-chunk statistics
//! summaries, and the navigation state machine that keeps a bounded
//! visible window of rows and columns consistent as a cursor moves
//! through a dataset larger than the screen.
//!
//! Opening a file, decoding the binary container, drawing the screen and
//! reading key events are left to an unverified shell around this
//! library; the shell hands plain values in and takes plain values back.

pub mod args;
pub mod command;
pub mod error;
pub mod numfmt;
pub mod page;
pub mod state;
pub mod stats;
pub mod ui;
pub mod viewer;
