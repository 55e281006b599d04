//! The fixed numbers of the game: where things start, how many there are, and
//! what a success is worth.

use vstd::prelude::*;
use crate::screen::BUFFER_HEIGHT;
use crate::screen::BUFFER_WIDTH;

verus! {

/// Width of the band in which obstacles travel; their columns wrap at it.
pub const LANE_WIDTH: usize = BUFFER_WIDTH - 3;

/// Column at which the player starts each attempt.
pub const START_COL: usize = 37;

/// Row at which the player starts each attempt.
pub const START_ROW: usize = BUFFER_HEIGHT - 2;

/// Row of the goal slots; reaching it resolves a landing.
pub const GOAL_ROW: usize = 3;

/// Progress marker at the start of each attempt: rows above it earn the
/// progress bonus.
pub const FIRST_PROGRESS_ROW: usize = BUFFER_HEIGHT - 4;

/// Number of frogs at the start of a game and after a restock.
pub const DEFAULT_FROGS: usize = 7;

/// Number of obstacles.
pub const OBSTACLE_COUNT: usize = 10;

/// Number of goal slots.
pub const PAD_COUNT: usize = 5;

/// Column of the first goal slot.
pub const PAD_FIRST_COL: usize = 7;

/// Distance between the columns of neighboring goal slots.
pub const PAD_SPACING: usize = 15;

/// Score for reaching a row closer to the goal than any before in this attempt.
pub const PROGRESS_BONUS: usize = 10;

/// Score for landing on a goal slot.
pub const SLOT_BONUS: usize = 50;

/// Score for filling the last open goal slot.
pub const RESTOCK_BONUS: usize = 1000;

/// The most that one key event can add to the score.
pub const MAX_KEY_GAIN: usize = PROGRESS_BONUS + SLOT_BONUS + RESTOCK_BONUS;

/// Value of the delay counter at which a dead frog is replaced.
pub const RESPAWN_DELAY: usize = 3;

/// Row of the status line.
pub const UI_ROW: usize = 1;

/// Column at which the score is written on the status line.
pub const SCORE_COL: usize = 3;

/// Column of the first frog marker on the status line.
pub const FROGS_COL: usize = 25;

} // verus!
