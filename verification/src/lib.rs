//! A scrollable, focusable terminal pane that displays a textual diff.
//!
//! The pane keeps its scroll position across refresh cycles as long as the
//! displayed content has not actually changed: the host may push a freshly
//! computed diff on every tick, and the component suppresses the state reset
//! whenever the new content is identical to what is already shown.

pub mod component;
pub mod diff;
pub mod fingerprint;
pub mod input;
pub mod render;
