//! Decoded keyboard input, as the engine consumes it.

use vstd::prelude::*;

verus! {

/// A key that produces no character.
#[derive(Clone, Copy, Debug, PartialEq, Eq, Structural)]
pub enum ControlCode {
    ArrowLeft,
    ArrowRight,
    ArrowUp,
    ArrowDown,
    /// Any other control key; the engine ignores it.
    Other,
}

/// One decoded key press.
#[derive(Clone, Copy, Debug, PartialEq, Eq)]
pub enum InputEvent {
    Control(ControlCode),
    Printable(char),
}

/// The character that starts a new game from the game-over screen.
pub const START_KEY: char = 's';

} // verus!
