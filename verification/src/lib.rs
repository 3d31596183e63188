//! A tab-management layer for a terminal user interface.
//!
//! A [`tabview::TabView`] hosts several independently-rendering panes
//! ("tabs") behind a single widget surface, tracks which pane is active,
//! switches between panes, and routes keyboard input either to tab-level
//! commands (new/close/next tab) or down into the active pane.

pub mod decimal;
pub mod errors;
pub mod header;
pub mod keys;
pub mod tabview;
pub mod term;
pub mod widget;

pub use errors::TabError;
pub use keys::Key;
pub use keys::TabCmd;
pub use tabview::TabLogic;
pub use tabview::TabView;
pub use tabview::Tabbable;
pub use widget::Widget;
pub use widget::WidgetCore;
