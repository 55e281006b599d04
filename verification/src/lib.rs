//! A lane-crossing arcade game for an 80x25 character display, written as a
//! verified state machine. The engine advances on timer ticks and key events
//! and hands back the drawing commands of each step; it never touches the
//! display itself.

pub mod bounds;
pub mod config;
pub mod display;
pub mod frogger;
pub mod input;
pub mod invariants;
pub mod laws;
pub mod lilypad;
pub mod obstacle;
pub mod player;
pub mod screen;
pub mod state;
pub mod transitions;

pub use crate::bounds::add2;
pub use crate::bounds::safe_add;
pub use crate::bounds::sub2;
pub use crate::frogger::Frogger;
pub use crate::input::ControlCode;
pub use crate::input::InputEvent;
pub use crate::lilypad::LilyPad;
pub use crate::obstacle::Obstacle;
pub use crate::player::Player;
pub use crate::screen::Color;
pub use crate::screen::DrawCmd;
