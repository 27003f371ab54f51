//! Dropdown-terminal controller logic for a tiling compositor.
//!
//! The library holds the decision core: querying results are handed in as
//! plain values, and the library computes window geometry and the ordered
//! sequence of compositor commands to issue. Process spawning and the
//! compositor transport live outside the library.

use vstd::prelude::*;

pub mod commands;
pub mod engine;
pub mod geometry;
pub mod numfmt;
pub mod state;

verus! {

/// The screen edge a terminal window is anchored to.
#[derive(Clone, Copy, Debug, PartialEq, Eq, Structural)]
pub enum TermPosition {
    /// Top edge.
    T,
    /// Right edge.
    R,
    /// Bottom edge.
    B,
    /// Left edge.
    L,
}

/// A physical display as reported by the compositor.
#[derive(Clone, Copy, Debug, PartialEq, Eq, Structural)]
pub struct Monitor {
    pub width: i32,
    pub height: i32,
    pub focused: bool,
}

/// Absolute pixel size of the managed terminal window.
#[derive(Clone, Copy, Debug, PartialEq, Eq, Structural)]
pub struct TerminalSize {
    pub width: i32,
    pub height: i32,
}

impl Default for TerminalSize {
    /// The fallback size used when no percentages are configured.
    fn default() -> (size: Self)
        ensures
            size.width == 600,
            size.height == 400,
    {
        Self { width: 600, height: 400 }
    }
}

/// A compositor workspace: its numeric id and its display name.
pub struct Workspace {
    pub id: i32,
    pub name: String,
}

/// A managed window as reported by the compositor: its class identifier and
/// the workspace it currently resides on.
pub struct Client {
    pub class: String,
    pub workspace: Workspace,
}

/// The static configuration of one invocation: the terminal program to
/// spawn, the window class to manage, width and height as percentages of
/// the focused monitor, the margin in pixels, and the anchor edge.
pub struct Config {
    pub terminal: String,
    pub class: String,
    pub width: i32,
    pub height: i32,
    pub gap: i32,
    pub position: TermPosition,
}

} // verus!
