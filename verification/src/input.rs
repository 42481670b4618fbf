//! The input events the pane understands.
//!
//! The host translates whatever its terminal backend delivers into these
//! values; the pane itself only distinguishes the two scroll keys.

use vstd::prelude::*;

verus! {

/// The keys the pane can react to. Every key that is neither the down arrow
/// nor the up arrow is reported as [`KeyCode::Other`].
#[derive(Clone, Copy, PartialEq, Eq, Structural, Debug)]
pub enum KeyCode {
    Up,
    Down,
    Other,
}

/// One discrete input event: a key press, or anything else (resize, pointer
/// activity, ...), which the pane ignores.
#[derive(Clone, Copy, PartialEq, Eq, Structural, Debug)]
pub enum Event {
    Key(KeyCode),
    Other,
}

} // verus!
