//! What each step of the game does, as functions of the state: the state
//! after the step, and the frame that the step draws.

use vstd::prelude::*;
use crate::bounds::wrap_add;
use crate::config::DEFAULT_FROGS;
use crate::config::FIRST_PROGRESS_ROW;
use crate::config::FROGS_COL;
use crate::config::GOAL_ROW;
use crate::config::PAD_COUNT;
use crate::config::PAD_FIRST_COL;
use crate::config::PAD_SPACING;
use crate::config::PROGRESS_BONUS;
use crate::config::RESPAWN_DELAY;
use crate::config::RESTOCK_BONUS;
use crate::config::SCORE_COL;
use crate::config::SLOT_BONUS;
use crate::config::START_ROW;
use crate::config::UI_ROW;
use crate::input::ControlCode;
use crate::input::InputEvent;
use crate::input::START_KEY;
use crate::lilypad::LilyPadView;
use crate::obstacle::ObstacleView;
use crate::player::PlayerView;
use crate::screen::put;
use crate::screen::put_clear_screen;
use crate::screen::put_clipped;
use crate::screen::put_num;
use crate::screen::put_str;
use crate::screen::Color;
use crate::screen::Frame;
use crate::screen::BUFFER_HEIGHT;
use crate::screen::BUFFER_WIDTH;
use crate::state::advanced_all;
use crate::state::vacated_all;
use crate::state::GameView;

verus! {

/// The larger of two integers.
pub open spec fn max_of(a: int, b: int) -> int {
    if a >= b {
        a
    } else {
        b
    }
}

/// `frame` followed by the first `n` frog markers of the status line.
pub open spec fn markers_onto(frame: Frame, n: int) -> Frame
    decreases n,
{
    if n <= 0 {
        frame
    } else {
        put(
            markers_onto(frame, n - 1),
            '@',
            FROGS_COL + n - 1,
            UI_ROW as int,
            Color::LightGreen,
            Color::Black,
        )
    }
}

/// `frame` followed by the status line: the score, then one marker for each
/// frog left.
pub open spec fn ui_onto(score: int, frogs: int, frame: Frame) -> Frame {
    markers_onto(
        put_num(frame, score, SCORE_COL as int, UI_ROW as int, Color::White, Color::Black),
        frogs,
    )
}

/// `frame` followed by a blank over the marker of the frog just spent, where
/// `frogs` are left.
pub open spec fn spent_onto(frogs: int, frame: Frame) -> Frame {
    put(frame, ' ', FROGS_COL + frogs, UI_ROW as int, Color::Black, Color::Black)
}

/// `frame` followed by one column of the far bank: the three rows around the
/// goal row.
pub open spec fn bank_column_onto(frame: Frame, col: int) -> Frame {
    let f = put(frame, ' ', col, GOAL_ROW - 1, Color::Black, Color::LightGreen);
    let f = put(f, ' ', col, GOAL_ROW as int, Color::Black, Color::LightGreen);
    put(f, ' ', col, GOAL_ROW + 1, Color::Black, Color::LightGreen)
}

/// `frame` followed by the first `n` columns of the far bank.
pub open spec fn bank_onto(frame: Frame, n: int) -> Frame
    decreases n,
{
    if n <= 0 {
        frame
    } else {
        bank_column_onto(bank_onto(frame, n - 1), n - 1)
    }
}

/// `frame` followed by the first `n` cells of one row of the near bank.
pub open spec fn strip_onto(frame: Frame, row: int, n: int) -> Frame
    decreases n,
{
    if n <= 0 {
        frame
    } else {
        put(strip_onto(frame, row, n - 1), ' ', n - 1, row, Color::Black, Color::Pink)
    }
}

/// `frame` followed by the first `n` rows of the near bank, which lies
/// above the start row.
pub open spec fn near_bank_onto(frame: Frame, n: int) -> Frame
    decreases n,
{
    if n <= 0 {
        frame
    } else {
        strip_onto(
            near_bank_onto(frame, n - 1),
            FIRST_PROGRESS_ROW + n - 1,
            BUFFER_WIDTH as int,
        )
    }
}

/// `frame` followed by the ground: the far bank column by column, then the
/// near bank row by row.
pub open spec fn ground_onto(frame: Frame) -> Frame {
    near_bank_onto(bank_onto(frame, BUFFER_WIDTH as int), START_ROW - FIRST_PROGRESS_ROW)
}

/// `frame` followed by the first `n` slots of `pads`, each drawn empty.
pub open spec fn pads_onto(pads: Seq<LilyPadView>, frame: Frame, n: int) -> Frame
    decreases n,
{
    if n <= 0 {
        frame
    } else {
        pads[n - 1].drawreg_onto(pads_onto(pads, frame, n - 1))
    }
}

/// `frame` followed by the game-over screen.
pub open spec fn summary_onto(score: int, hiscore: int, frame: Frame) -> Frame {
    let fg = Color::White;
    let bg = Color::Black;
    let f = put_clear_screen(frame);
    let f = put_str(f, "GAME OVER", BUFFER_WIDTH / 2 - 4, 5, fg, bg);
    let f = put_str(f, "SCORE", 25, 10, fg, bg);
    let f = put_num(f, score, 25, 11, fg, bg);
    let f = put_str(f, "HI-SCORE", 40, 10, fg, bg);
    let f = put_num(f, hiscore, 40, 11, fg, bg);
    put_str(f, "Press S to play again!", 20, 20, fg, bg)
}

/// The slots of `pads`, evenly spaced along the goal row.
pub open spec fn laid_out(pads: Seq<LilyPadView>) -> Seq<LilyPadView> {
    Seq::new(
        pads.len(),
        |i: int|
            LilyPadView { lx: PAD_FIRST_COL + i * PAD_SPACING, ly: pads[i].ly, taken: pads[i].taken },
    )
}

/// Obstacle `i` as a new game sets it up: two obstacles to a lane, the lanes
/// further from the start row in later pairs. What a pair does not set stays
/// as it is.
pub open spec fn lane_setup(i: int, o: ObstacleView) -> ObstacleView {
    if i == 1 {
        ObstacleView { ox: 30, oy: o.oy, color: Color::LightGray, speed: o.speed }
    } else if i == 2 {
        ObstacleView { ox: 10, oy: 18, color: Color::LightBlue, speed: o.speed }
    } else if i == 3 {
        ObstacleView { ox: BUFFER_WIDTH - 30, oy: 18, color: Color::LightCyan, speed: o.speed }
    } else if i == 4 {
        ObstacleView { ox: 22, oy: 16, color: Color::Red, speed: 2 }
    } else if i == 5 {
        ObstacleView { ox: BUFFER_WIDTH - 30, oy: 16, color: Color::LightRed, speed: 2 }
    } else if i == 6 {
        ObstacleView { ox: 20, oy: 12, color: Color::Yellow, speed: o.speed }
    } else if i == 7 {
        ObstacleView { ox: BUFFER_WIDTH - 41, oy: 12, color: Color::White, speed: o.speed }
    } else if i == 8 {
        ObstacleView { ox: o.ox, oy: 10, color: Color::Brown, speed: 2 }
    } else if i == 9 {
        ObstacleView { ox: BUFFER_WIDTH - 52, oy: 10, color: Color::Cyan, speed: 2 }
    } else {
        o
    }
}

/// The obstacles of `obstacles`, each set up for a new game.
pub open spec fn lanes_set_up(obstacles: Seq<ObstacleView>) -> Seq<ObstacleView> {
    Seq::new(obstacles.len(), |i: int| lane_setup(i, obstacles[i]))
}

impl GameView {
    // ------------------------------------------------------------------
    // Drawing the whole board
    // ------------------------------------------------------------------
    /// `frame` followed by the ground, the frog and the status line.
    pub open spec fn draw_onto(self, frame: Frame) -> Frame {
        ui_onto(self.score, self.frogs, self.player.draw_onto(ground_onto(frame)))
    }

    // ------------------------------------------------------------------
    // A new attempt
    // ------------------------------------------------------------------
    /// The state with the frog back at the start, alive, and the progress
    /// marker reset.
    pub open spec fn reset_state(self) -> GameView {
        GameView {
            player: PlayerView::start(),
            living: true,
            currenty: FIRST_PROGRESS_ROW as int,
            ..self
        }
    }

    /// `frame` followed by the frog erased where it is, unless it is on the
    /// goal row, and drawn at the start.
    pub open spec fn reset_onto(self, frame: Frame) -> Frame {
        let f = if self.player.py != GOAL_ROW {
            self.player.clear_onto(frame)
        } else {
            frame
        };
        PlayerView::start().draw_onto(f)
    }

    // ------------------------------------------------------------------
    // Restocking the goal slots
    // ------------------------------------------------------------------
    /// The state with every goal slot open again and the frogs back at their
    /// default.
    pub open spec fn makelilypads_state(self) -> GameView {
        GameView {
            lilypads: vacated_all(self.lilypads),
            frogs: DEFAULT_FROGS as int,
            openl: PAD_COUNT as int,
            ..self
        }
    }

    /// `frame` followed by every goal slot drawn empty.
    pub open spec fn makelilypads_onto(self, frame: Frame) -> Frame {
        pads_onto(self.lilypads, frame, PAD_COUNT as int)
    }

    // ------------------------------------------------------------------
    // Laying out a new game
    // ------------------------------------------------------------------
    /// The state at the start of a new game: goal slots laid out and open,
    /// obstacles set up in their lanes, the frog at the start, the counters
    /// at their defaults, the score at zero. The best score is kept.
    pub open spec fn initialize_state(self) -> GameView {
        GameView {
            player: PlayerView::start(),
            obstacles: lanes_set_up(self.obstacles),
            lilypads: vacated_all(laid_out(self.lilypads)),
            frogs: DEFAULT_FROGS as int,
            living: true,
            init: true,
            score: 0,
            hiscore: self.hiscore,
            ddelay: 0,
            currenty: FIRST_PROGRESS_ROW as int,
            openl: PAD_COUNT as int,
            started: self.started,
        }
    }

    /// `frame` followed by the goal slots drawn empty where the new game has
    /// them, the status line of the new game, and the frog moved to the
    /// start.
    pub open spec fn initialize_onto(self, frame: Frame) -> Frame {
        let f = pads_onto(laid_out(self.lilypads), frame, PAD_COUNT as int);
        let f = ui_onto(0, DEFAULT_FROGS as int, f);
        self.reset_onto(f)
    }

    // ------------------------------------------------------------------
    // Game over
    // ------------------------------------------------------------------
    /// The state after the game has ended: nothing runs, and the best score
    /// is the larger of the best score so far and the score of this game.
    pub open spec fn game_over_state(self) -> GameView {
        GameView {
            living: false,
            init: false,
            hiscore: max_of(self.hiscore, self.score),
            started: false,
            ..self
        }
    }

    /// `frame` followed by the frog erased and the game-over screen.
    pub open spec fn game_over_onto(self, frame: Frame) -> Frame {
        summary_onto(
            self.score,
            max_of(self.hiscore, self.score),
            self.player.clear_onto(frame),
        )
    }

    // ------------------------------------------------------------------
    // The obstacle sweep
    // ------------------------------------------------------------------
    /// Whether obstacle `i`, once it has moved, hits the frog.
    pub open spec fn hit_by(self, i: int) -> bool {
        self.obstacles[i].advanced().collides(self.player.px, self.player.py)
    }

    /// Whether one of the first `n` obstacles, once it has moved, hits the
    /// frog.
    pub open spec fn hit_within(self, n: int) -> bool {
        exists|i: int| 0 <= i < n && #[trigger] self.hit_by(i)
    }

    /// Whether the sweep costs a frog: the frog is alive and an obstacle
    /// hits it.
    pub open spec fn sweep_kills(self) -> bool {
        self.living && self.hit_within(self.obstacles.len() as int)
    }

    /// The state after the sweep: every obstacle has moved; if one of them
    /// hits the living frog, the frog is dead and one frog is spent, however
    /// many obstacles hit it.
    pub open spec fn sweep_state(self) -> GameView {
        GameView {
            obstacles: advanced_all(self.obstacles),
            frogs: if self.sweep_kills() {
                self.frogs - 1
            } else {
                self.frogs
            },
            living: self.living && !self.sweep_kills(),
            ..self
        }
    }

    /// `frame` followed by what the sweep draws for obstacle `i`: the
    /// obstacle erased where it was and drawn where it is now; and, if it is
    /// the first to hit the living frog, the marker of the spent frog
    /// blanked and the status line.
    pub open spec fn sweep_step_onto(self, i: int, frame: Frame) -> Frame {
        let o = self.obstacles[i];
        let f = o.advanced().draw_onto(o.clear_onto(frame));
        if self.living && !self.hit_within(i) && self.hit_by(i) {
            ui_onto(self.score, self.frogs - 1, spent_onto(self.frogs - 1, f))
        } else {
            f
        }
    }

    /// `frame` followed by what the sweep draws for the first `n` obstacles.
    pub open spec fn sweep_onto(self, frame: Frame, n: int) -> Frame
        decreases n,
    {
        if n <= 0 {
            frame
        } else {
            self.sweep_step_onto(n - 1, self.sweep_onto(frame, n - 1))
        }
    }

    // ------------------------------------------------------------------
    // Landing on a goal slot
    // ------------------------------------------------------------------
    /// Whether slot `i` is open and in the column of the frog.
    pub open spec fn slot_fits(self, i: int) -> bool {
        self.lilypads[i].lx == self.player.px && !self.lilypads[i].taken
    }

    /// The first slot from `i` on that fits, or the number of slots if none
    /// does.
    pub open spec fn landing_slot_from(self, i: int) -> int
        decreases self.lilypads.len() - i,
    {
        if i >= self.lilypads.len() {
            self.lilypads.len() as int
        } else if self.slot_fits(i) {
            i
        } else {
            self.landing_slot_from(i + 1)
        }
    }

    /// The slot on which the frog lands, or the number of slots if there is
    /// none.
    pub open spec fn landing_slot(self) -> int {
        self.landing_slot_from(0)
    }

    /// Whether the frog lands: it is on the goal row and a slot fits.
    pub open spec fn lands(self) -> bool {
        self.player.py == GOAL_ROW && self.landing_slot() < self.lilypads.len()
    }

    /// Whether the landing fills the last open slot.
    pub open spec fn restocks(self) -> bool {
        self.lands() && self.openl == 1
    }

    /// Whether the landing spends the last frog.
    pub open spec fn landing_ends_game(self) -> bool {
        self.lands() && !self.restocks() && self.frogs == 1
    }

    /// The state after goal-slot resolution. Without a landing nothing
    /// changes. A landing takes the slot, pays the slot bonus and spends a
    /// frog, and the frog goes back to the start. Filling the last open slot
    /// also pays the restock bonus, opens all slots and restores the frogs
    /// before one is spent. Spending the last frog ends the game.
    pub open spec fn check_lilypads_state(self) -> GameView {
        if !self.lands() {
            self
        } else {
            let taken = self.lilypads.update(
                self.landing_slot(),
                self.lilypads[self.landing_slot()].occupied(),
            );
            let score = self.score + SLOT_BONUS + if self.restocks() {
                RESTOCK_BONUS as int
            } else {
                0int
            };
            let over = self.landing_ends_game();
            GameView {
                player: PlayerView::start(),
                obstacles: self.obstacles,
                lilypads: if self.restocks() {
                    vacated_all(taken)
                } else {
                    taken
                },
                frogs: if self.restocks() {
                    DEFAULT_FROGS - 1
                } else {
                    self.frogs - 1
                },
                living: !over,
                init: self.init && !over,
                score: score,
                hiscore: if over {
                    max_of(self.hiscore, score)
                } else {
                    self.hiscore
                },
                ddelay: self.ddelay,
                currenty: FIRST_PROGRESS_ROW as int,
                openl: if self.restocks() {
                    PAD_COUNT as int
                } else {
                    self.openl - 1
                },
                started: self.started && !over,
            }
        }
    }

    /// `frame` followed by what goal-slot resolution draws.
    pub open spec fn check_lilypads_onto(self, frame: Frame) -> Frame {
        if !self.lands() {
            frame
        } else {
            let after = self.check_lilypads_state();
            let slot = self.lilypads[self.landing_slot()];
            let f = ui_onto(self.score + SLOT_BONUS, self.frogs, frame);
            let f = slot.froghome_onto(f);
            let f = if self.restocks() {
                let pads = self.lilypads.update(self.landing_slot(), slot.occupied());
                ui_onto(after.score, DEFAULT_FROGS as int, pads_onto(pads, f, PAD_COUNT as int))
            } else {
                f
            };
            let f = spent_onto(after.frogs, f);
            let f = PlayerView::start().draw_onto(f);
            if self.landing_ends_game() {
                summary_onto(
                    after.score,
                    after.hiscore,
                    PlayerView::start().clear_onto(PlayerView::start().clear_onto(f)),
                )
            } else {
                f
            }
        }
    }

    // ------------------------------------------------------------------
    // A tick
    // ------------------------------------------------------------------
    /// Whether the next tick lays out a new game.
    pub open spec fn tick_initializes(self) -> bool {
        !self.init && self.started
    }

    /// The state after the part of a tick that follows the laying out. A
    /// living frog sees the obstacles sweep. With no frog left the game is
    /// over. A dead frog lies for the respawn delay and is then replaced by
    /// a new one at the start.
    pub open spec fn advance_state(self) -> GameView {
        if self.living {
            self.sweep_state()
        } else if self.frogs == 0 {
            GameView { ddelay: 0, ..self.game_over_state() }
        } else if self.ddelay == RESPAWN_DELAY {
            GameView { ddelay: 0, ..self.reset_state() }
        } else {
            GameView { ddelay: self.ddelay + 1, ..self }
        }
    }

    /// `frame` followed by what that part of a tick draws.
    pub open spec fn advance_onto(self, frame: Frame) -> Frame {
        if self.living {
            self.sweep_onto(frame, self.obstacles.len() as int)
        } else if self.frogs == 0 {
            self.game_over_onto(self.player.clear_onto(frame))
        } else if self.ddelay == 0 {
            let fg = Color::LightGreen;
            let f = self.player.draw_onto(frame);
            let f = put_clipped(f, 'x', self.player.px - 1, self.player.py, fg, Color::Black);
            let f = put_clipped(f, 'x', self.player.px + 1, self.player.py, fg, Color::Black);
            spent_onto(self.frogs, f)
        } else if self.ddelay == RESPAWN_DELAY {
            PlayerView::start().draw_onto(self.player.clear_onto(frame))
        } else {
            frame
        }
    }

    /// The state one tick later.
    pub open spec fn tick_state(self) -> GameView {
        if self.tick_initializes() {
            self.initialize_state().advance_state()
        } else {
            self.advance_state()
        }
    }

    /// The frame that the tick draws.
    pub open spec fn tick_frame(self) -> Frame {
        if self.tick_initializes() {
            self.initialize_state().advance_onto(
                self.initialize_onto(self.draw_onto(Seq::empty())),
            )
        } else {
            self.advance_onto(Seq::empty())
        }
    }

    // ------------------------------------------------------------------
    // Keys
    // ------------------------------------------------------------------
    /// The state with the frog in column `px`.
    pub open spec fn with_px(self, px: int) -> GameView {
        GameView { player: PlayerView { px, py: self.player.py }, ..self }
    }

    /// The state with the frog in row `py`.
    pub open spec fn with_py(self, py: int) -> GameView {
        GameView { player: PlayerView { px: self.player.px, py }, ..self }
    }

    /// The state after a step to the left: two columns, wrapping at the edge
    /// of the display.
    pub open spec fn left_state(self) -> GameView {
        self.with_px(wrap_add(self.player.px, BUFFER_WIDTH - 2, BUFFER_WIDTH as int))
    }

    /// The state after a step to the right: two columns, wrapping at the
    /// edge of the display.
    pub open spec fn right_state(self) -> GameView {
        self.with_px(wrap_add(self.player.px, 2, BUFFER_WIDTH as int))
    }

    /// The state after a step down: two rows, unless the frog is on the
    /// start row.
    pub open spec fn down_state(self) -> GameView {
        if self.player.py < START_ROW {
            self.with_py(wrap_add(self.player.py, 2, BUFFER_HEIGHT as int))
        } else {
            self
        }
    }

    /// The state with the frog two rows up.
    pub open spec fn stepped_up(self) -> GameView {
        self.with_py(wrap_add(self.player.py, BUFFER_HEIGHT - 2, BUFFER_HEIGHT as int))
    }

    /// The state after the step up has met the goal row, if it has: a landing
    /// is resolved; without one the step is taken back.
    pub open spec fn goal_state(self) -> GameView {
        if self.player.py != GOAL_ROW {
            self
        } else if self.lands() {
            self.check_lilypads_state()
        } else {
            self.with_py(wrap_add(self.player.py, 2, BUFFER_HEIGHT as int))
        }
    }

    /// `frame` followed by what meeting the goal row draws.
    pub open spec fn goal_onto(self, frame: Frame) -> Frame {
        if self.player.py != GOAL_ROW {
            frame
        } else if self.lands() {
            self.check_lilypads_onto(frame)
        } else if self.started {
            self.goal_state().player.draw_onto(frame)
        } else {
            frame
        }
    }

    /// Whether the frog is on a row closer to the goal than the progress
    /// marker.
    pub open spec fn progresses(self) -> bool {
        self.player.py < self.currenty
    }

    /// The state after progress has been paid: the progress bonus for a row
    /// closer to the goal than any before, which becomes the marker.
    pub open spec fn progress_state(self) -> GameView {
        if self.progresses() {
            GameView {
                score: self.score + PROGRESS_BONUS,
                currenty: self.player.py,
                ..self
            }
        } else {
            self
        }
    }

    /// `frame` followed by what paying progress draws.
    pub open spec fn progress_onto(self, frame: Frame) -> Frame {
        if self.progresses() && self.started {
            ui_onto(self.score + PROGRESS_BONUS, self.frogs, frame)
        } else {
            frame
        }
    }

    /// The state after a step up.
    pub open spec fn up_state(self) -> GameView {
        self.stepped_up().goal_state().progress_state().check_lilypads_state()
    }

    /// `frame` followed by what a step up draws: the frog erased, what
    /// meeting the goal row and paying progress draw, and the frog where it
    /// now is.
    pub open spec fn up_onto(self, frame: Frame) -> Frame {
        let met = self.stepped_up();
        let resolved = met.goal_state();
        let paid = resolved.progress_state();
        let f = self.player.clear_onto(frame);
        let f = met.goal_onto(f);
        let f = resolved.progress_onto(f);
        let f = paid.check_lilypads_onto(f);
        self.up_state().player.draw_onto(f)
    }

    /// The state after a control key. A dead frog does not move.
    pub open spec fn handle_raw_state(self, code: ControlCode) -> GameView {
        if !self.living {
            self
        } else {
            match code {
                ControlCode::ArrowLeft => self.left_state(),
                ControlCode::ArrowRight => self.right_state(),
                ControlCode::ArrowUp => self.up_state(),
                ControlCode::ArrowDown => self.down_state(),
                ControlCode::Other => self,
            }
        }
    }

    /// `frame` followed by what a control key draws.
    pub open spec fn handle_raw_onto(self, code: ControlCode, frame: Frame) -> Frame {
        if !self.living {
            frame
        } else {
            match code {
                ControlCode::ArrowLeft => self.left_state().player.draw_onto(
                    self.player.clear_onto(frame),
                ),
                ControlCode::ArrowRight => self.right_state().player.draw_onto(
                    self.player.clear_onto(frame),
                ),
                ControlCode::ArrowUp => self.up_onto(frame),
                ControlCode::ArrowDown => if self.player.py < START_ROW {
                    self.down_state().player.draw_onto(self.player.clear_onto(frame))
                } else {
                    frame
                },
                ControlCode::Other => frame,
            }
        }
    }

    /// Whether a character starts a new game: it is the start key and no
    /// game is running.
    pub open spec fn restarts(self, c: char) -> bool {
        c == START_KEY && !self.started
    }

    /// The state after a character key. The start key, while no game is
    /// running, starts one: the score is zero and the obstacles are as every
    /// new game first has them. Nothing else changes the state.
    pub open spec fn handle_unicode_state(self, c: char) -> GameView {
        if self.restarts(c) {
            GameView {
                started: true,
                score: 0,
                obstacles: Seq::new(self.obstacles.len(), |i: int| ObstacleView::initial()),
                ..self
            }
        } else {
            self
        }
    }

    /// `frame` followed by what a character key draws.
    pub open spec fn handle_unicode_onto(self, c: char, frame: Frame) -> Frame {
        if self.restarts(c) {
            put_clear_screen(frame)
        } else {
            frame
        }
    }

    /// The state after a key event.
    pub open spec fn key_state(self, key: InputEvent) -> GameView {
        match key {
            InputEvent::Control(code) => self.handle_raw_state(code),
            InputEvent::Printable(c) => self.handle_unicode_state(c),
        }
    }

    /// The frame that the key event draws.
    pub open spec fn key_frame(self, key: InputEvent) -> Frame {
        match key {
            InputEvent::Control(code) => self.handle_raw_onto(code, Seq::empty()),
            InputEvent::Printable(c) => self.handle_unicode_onto(c, Seq::empty()),
        }
    }
}

} // verus!
