//! Terminal control: size queries, raw-mode transitions and resize tracking.
//!
//! The library holds the decisions of the terminal drivers as functions on
//! plain values: how a kernel window size or a console window rectangle
//! becomes a [`TerminalSize`], which console mode bits make up raw mode, what
//! a raw-mode guard hands back on release, and when a resize watcher
//! publishes a new size to its subscribers.
use vstd::prelude::*;

pub mod guard;
pub mod resize;
pub mod unix;
pub mod windows;

verus! {

/// The geometry of a terminal: character cells, and the viewport in pixels
/// (`0` where the platform does not report pixels).
#[derive(Debug, Clone, Copy, PartialEq, Eq, Structural)]
pub struct TerminalSize {
    pub width: u16,
    pub height: u16,
    pub pixel_width: u16,
    pub pixel_height: u16,
}

} // verus!
