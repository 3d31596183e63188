//! The widget capability: the rendering contract every pane satisfies.
//!
//! A pane — and the tab container itself — produces a header string, a
//! footer string and a ready-to-paint draw-list, refreshes its cached
//! display state, and accepts a key event. Each operation may surface a
//! [`TabError`]. The shared [`WidgetCore`] carries the display geometry
//! the contract needs, and the error-log sink that fire-and-forget
//! failures are recorded to.

use vstd::prelude::*;
use crate::errors::TabError;
use crate::keys::Key;

verus! {

/// The display geometry available to a widget.
#[derive(Clone, Copy, Debug, PartialEq, Eq)]
pub struct Coordinates {
    /// The horizontal extent, in columns.
    pub xsize: u16,
    /// The vertical extent, in rows.
    pub ysize: u16,
}

/// The shared state behind every widget: its display geometry, and the
/// log sink that suppressed failures are recorded to.
#[derive(PartialEq)]
pub struct WidgetCore {
    /// The widget's current display geometry.
    pub coordinates: Coordinates,
    /// The error log: one line per recorded, non-propagated failure.
    pub log: Vec<String>,
}

impl WidgetCore {
    /// A core with the given geometry and an empty log.
    pub fn new(xsize: u16, ysize: u16) -> (r: WidgetCore)
        ensures
            r.coordinates == (Coordinates { xsize, ysize }),
            r.log@.len() == 0,
    {
        WidgetCore { coordinates: Coordinates { xsize, ysize }, log: Vec::new() }
    }
}

impl Clone for WidgetCore {
    /// A duplicate core: the same geometry, the same log entries.
    fn clone(&self) -> (r: Self)
        ensures
            r.coordinates == self.coordinates,
            r.log@ == self.log@,
    {
        let log = self.log.clone();
        proof {
            assert(log@ =~= self.log@);
        }
        WidgetCore { coordinates: self.coordinates, log }
    }
}

/// The rendering/interaction contract every pane satisfies.
///
/// What each operation returns is the pane's own business; the
/// container only delegates to it and surfaces its failures.
pub trait Widget {
    /// Shared access to the widget's core state.
    fn get_core(&self) -> Result<&WidgetCore, TabError>;

    /// Exclusive access to the widget's core state.
    fn get_core_mut(&mut self) -> Result<&mut WidgetCore, TabError>;

    /// The widget's header line.
    fn render_header(&self) -> Result<String, TabError>;

    /// The widget's footer line.
    fn render_footer(&self) -> Result<String, TabError>;

    /// A fully-formed, ready-to-paint representation of the widget's
    /// current state.
    fn get_drawlist(&self) -> Result<String, TabError>;

    /// Re-derive any cached display state from current geometry and
    /// content; safe to call again at any time.
    fn refresh(&mut self) -> Result<(), TabError>;

    /// Accept one key event.
    fn on_key(&mut self, key: Key) -> Result<(), TabError>;
}

} // verus!
