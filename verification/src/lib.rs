//! A status-bar tray icon for macOS, as a verified state machine: the icon's
//! attributes and visibility, the platform operations that each change asks
//! for, and what a click on the icon does.

pub mod model;
pub mod tray;
pub mod click;
pub mod laws;
