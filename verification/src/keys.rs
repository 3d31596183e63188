//! The key-event model and the reserved-chord routing table.
//!
//! A [`Key`] is the container's own view of one keyboard event. Three
//! reserved chords are claimed by the tab layer itself — control-t opens
//! a tab, control-w closes one, and the horizontal-tab character advances
//! to the next tab — and every other key is forwarded verbatim to the
//! pane-level handler. The routing decision is a pure function of the
//! key, computed by [`route_key`].

use vstd::prelude::*;

verus! {

/// One keyboard event, as the tab layer sees it.
///
/// The variants mirror the events a terminal input stream can report;
/// the tab layer itself only distinguishes the three reserved chords and
/// treats every other value as opaque.
#[derive(Clone, Copy, Debug, PartialEq, Eq)]
pub enum Key {
    /// The backspace key.
    Backspace,
    /// The left arrow key.
    Left,
    /// Shift and the left arrow key.
    ShiftLeft,
    /// Alt and the left arrow key.
    AltLeft,
    /// Control and the left arrow key.
    CtrlLeft,
    /// The right arrow key.
    Right,
    /// Shift and the right arrow key.
    ShiftRight,
    /// Alt and the right arrow key.
    AltRight,
    /// Control and the right arrow key.
    CtrlRight,
    /// The up arrow key.
    Up,
    /// Shift and the up arrow key.
    ShiftUp,
    /// Alt and the up arrow key.
    AltUp,
    /// Control and the up arrow key.
    CtrlUp,
    /// The down arrow key.
    Down,
    /// Shift and the down arrow key.
    ShiftDown,
    /// Alt and the down arrow key.
    AltDown,
    /// Control and the down arrow key.
    CtrlDown,
    /// The home key.
    Home,
    /// Control and the home key.
    CtrlHome,
    /// The end key.
    End,
    /// Control and the end key.
    CtrlEnd,
    /// The page-up key.
    PageUp,
    /// The page-down key.
    PageDown,
    /// Shift-tab (back-tab).
    BackTab,
    /// The delete key.
    Delete,
    /// The insert key.
    Insert,
    /// A function key with its number.
    F(u8),
    /// A plain character key.
    Char(char),
    /// A character pressed together with alt.
    Alt(char),
    /// A character pressed together with control.
    Ctrl(char),
    /// The null byte.
    Null,
    /// The escape key.
    Esc,
}

/// The tab-level command a key resolves to.
#[derive(Clone, Copy, Debug, PartialEq, Eq)]
pub enum TabCmd {
    /// Open a new tab (reserved chord: control-t).
    NewTab,
    /// Close the current tab (reserved chord: control-w).
    CloseTab,
    /// Switch to the next tab (reserved chord: the tab character).
    NextTab,
    /// Not a reserved chord: hand the key to the pane-level handler.
    Forward,
}

/// The fixed routing table: which tab-level command a key stands for.
pub open spec fn route_spec(key: Key) -> TabCmd {
    if key == Key::Ctrl('t') {
        TabCmd::NewTab
    } else if key == Key::Ctrl('w') {
        TabCmd::CloseTab
    } else if key == Key::Char('\t') {
        TabCmd::NextTab
    } else {
        TabCmd::Forward
    }
}

/// Decide which tab-level command `key` stands for.
///
/// Control-t maps to [`TabCmd::NewTab`], control-w to
/// [`TabCmd::CloseTab`], the horizontal-tab character to
/// [`TabCmd::NextTab`], and every other key to [`TabCmd::Forward`].
pub fn route_key(key: Key) -> (cmd: TabCmd)
    ensures
        cmd == route_spec(key),
{
    match key {
        Key::Ctrl('t') => TabCmd::NewTab,
        Key::Ctrl('w') => TabCmd::CloseTab,
        Key::Char('\t') => TabCmd::NextTab,
        _ => TabCmd::Forward,
    }
}

} // verus!
