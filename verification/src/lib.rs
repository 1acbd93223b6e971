//! Decision logic of a keyboard and mouse driven window manager: snap
//! layouts, shortcut mapping, the Win-key hook state machine, Win+drag
//! gestures and virtual desktop bookkeeping.
pub mod snap;
pub mod actions;
pub mod shortcut;
pub mod drag;
pub mod hook;
pub mod mouse;
pub mod desktop;
pub mod tray;
pub mod window;
