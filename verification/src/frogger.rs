//! The engine: the state of a game and the two events that advance it.

use vstd::prelude::*;
use crate::bounds::add2;
use crate::bounds::safe_add;
use crate::bounds::sub2;
use crate::config::DEFAULT_FROGS;
use crate::config::FIRST_PROGRESS_ROW;
use crate::config::FROGS_COL;
use crate::config::GOAL_ROW;
use crate::config::LANE_WIDTH;
use crate::config::MAX_KEY_GAIN;
use crate::config::OBSTACLE_COUNT;
use crate::config::PAD_COUNT;
use crate::config::PAD_FIRST_COL;
use crate::config::PAD_SPACING;
use crate::config::PROGRESS_BONUS;
use crate::config::RESPAWN_DELAY;
use crate::config::RESTOCK_BONUS;
use crate::config::SCORE_COL;
use crate::config::SLOT_BONUS;
use crate::config::START_COL;
use crate::config::START_ROW;
use crate::config::UI_ROW;
use crate::input::ControlCode;
use crate::input::InputEvent;
use crate::input::START_KEY;
use crate::lilypad::LilyPad;
use crate::lilypad::LilyPadView;
use crate::obstacle::Obstacle;
use crate::obstacle::ObstacleView;
use crate::player::Player;
use crate::screen::all_on_screen;
use crate::screen::push_clear_screen;
use crate::screen::push_num;
use crate::screen::push_plot;
use crate::screen::push_plot_clipped;
use crate::screen::push_str;
use crate::screen::Color;
use crate::screen::DrawCmd;
use crate::screen::BUFFER_HEIGHT;
use crate::screen::BUFFER_WIDTH;
use crate::state::lemma_open_count_bounds;
use crate::state::lemma_open_count_occupy;
use crate::state::open_count;
use crate::state::GameView;
use crate::transitions::bank_onto;
use crate::transitions::ground_onto;
use crate::transitions::laid_out;
use crate::transitions::lanes_set_up;
use crate::transitions::markers_onto;
use crate::transitions::near_bank_onto;
use crate::transitions::pads_onto;
use crate::transitions::strip_onto;
use crate::transitions::ui_onto;

verus! {

/// The game: the frog, the obstacles, the goal slots and the counters.
pub struct Frogger {
    player: Player,
    obstacles: [Obstacle; OBSTACLE_COUNT],
    lilypads: [LilyPad; PAD_COUNT],
    frogs: usize,
    living: bool,
    init: bool,
    score: usize,
    hiscore: usize,
    ddelay: usize,
    currenty: usize,
    openl: usize,
    started: bool,
}

/// The obstacles as every new game first has them.
fn fresh_obstacles() -> (obstacles: [Obstacle; OBSTACLE_COUNT])
    ensures
        forall|i: int|
            0 <= i < OBSTACLE_COUNT ==> (#[trigger] obstacles[i])@ == ObstacleView::initial(),
{
    let o = Obstacle::default();
    [o, o, o, o, o, o, o, o, o, o]
}

/// The goal slots as every new game first has them.
fn fresh_lilypads() -> (lilypads: [LilyPad; PAD_COUNT])
    ensures
        forall|i: int| 0 <= i < PAD_COUNT ==> (#[trigger] lilypads[i])@ == LilyPadView::initial(),
{
    let pad = LilyPad::default();
    [pad, pad, pad, pad, pad]
}

impl Default for Frogger {
    fn default() -> (game: Frogger)
        ensures
            game@ == GameView::initial(),
            game.wf(),
    {
        let game = Frogger {
            player: Player::default(),
            frogs: DEFAULT_FROGS,
            obstacles: fresh_obstacles(),
            lilypads: fresh_lilypads(),
            living: true,
            score: 0,
            hiscore: 0,
            ddelay: 0,
            init: false,
            currenty: FIRST_PROGRESS_ROW,
            openl: PAD_COUNT,
            started: true,
        };
        proof {
            assert(game@.obstacles =~= GameView::initial().obstacles);
            assert(game@.lilypads =~= GameView::initial().lilypads);
            crate::state::lemma_initial_wf();
        }
        game
    }
}

impl Frogger {
    /// The state of the game as a mathematical value.
    pub closed spec fn view(&self) -> GameView {
        GameView {
            player: self.player@,
            obstacles: Seq::new(OBSTACLE_COUNT as nat, |i: int| self.obstacles[i]@),
            lilypads: Seq::new(PAD_COUNT as nat, |i: int| self.lilypads[i]@),
            frogs: self.frogs as int,
            living: self.living,
            init: self.init,
            score: self.score as int,
            hiscore: self.hiscore as int,
            ddelay: self.ddelay as int,
            currenty: self.currenty as int,
            openl: self.openl as int,
            started: self.started,
        }
    }

    /// The invariant of the engine between events.
    pub open spec fn wf(&self) -> bool {
        self@.wf()
    }

    /// The frog.
    pub fn player(&self) -> (player: &Player)
        ensures
            player@ == self@.player,
    {
        &self.player
    }

    /// Obstacle `i`, if there is one.
    pub fn obstacle(&self, i: usize) -> (obstacle: Option<&Obstacle>)
        ensures
            i < OBSTACLE_COUNT ==> obstacle is Some && obstacle->0@ == self@.obstacles[i as int],
            i >= OBSTACLE_COUNT ==> obstacle is None,
    {
        if i < OBSTACLE_COUNT {
            Some(&self.obstacles[i])
        } else {
            None
        }
    }

    /// Goal slot `i`, if there is one.
    pub fn lilypad(&self, i: usize) -> (lilypad: Option<&LilyPad>)
        ensures
            i < PAD_COUNT ==> lilypad is Some && lilypad->0@ == self@.lilypads[i as int],
            i >= PAD_COUNT ==> lilypad is None,
    {
        if i < PAD_COUNT {
            Some(&self.lilypads[i])
        } else {
            None
        }
    }

    /// Frogs left.
    pub fn frogs(&self) -> (frogs: usize)
        ensures
            frogs == self@.frogs,
    {
        self.frogs
    }

    /// Whether the frog is alive.
    pub fn living(&self) -> (living: bool)
        ensures
            living == self@.living,
    {
        self.living
    }

    /// Whether the board of the current game has been laid out.
    pub fn init(&self) -> (init: bool)
        ensures
            init == self@.init,
    {
        self.init
    }

    /// Score of the current game.
    pub fn score(&self) -> (score: usize)
        ensures
            score == self@.score,
    {
        self.score
    }

    /// Best score of the games that are over.
    pub fn hiscore(&self) -> (hiscore: usize)
        ensures
            hiscore == self@.hiscore,
    {
        self.hiscore
    }

    /// Ticks for which the frog has been lying dead.
    pub fn ddelay(&self) -> (ddelay: usize)
        ensures
            ddelay == self@.ddelay,
    {
        self.ddelay
    }

    /// The progress marker.
    pub fn currenty(&self) -> (currenty: usize)
        ensures
            currenty == self@.currenty,
    {
        self.currenty
    }

    /// Number of goal slots without a frog.
    pub fn openl(&self) -> (openl: usize)
        ensures
            openl == self@.openl,
    {
        self.openl
    }

    /// Whether a game is running.
    pub fn started(&self) -> (started: bool)
        ensures
            started == self@.started,
    {
        self.started
    }

    /// Appends the commands that draw the status line.
    fn draw_ui(&self, out: &mut Vec<DrawCmd>)
        requires
            self@.frogs <= DEFAULT_FROGS,
        ensures
            final(out)@ == ui_onto(self@.score, self@.frogs, old(out)@),
    {
        push_num(out, self.score, SCORE_COL, UI_ROW, Color::White, Color::Black);
        let ghost numbered = out@;
        let mut f: usize = 0;
        while f < self.frogs
            invariant
                self@.frogs <= DEFAULT_FROGS,
                f <= self.frogs,
                out@ == markers_onto(numbered, f as int),
            decreases self.frogs - f,
        {
            push_plot(out, '@', FROGS_COL + f, UI_ROW, Color::LightGreen, Color::Black);
            f = f + 1;
        }
    }

    /// Appends the commands that draw the two banks.
    fn draw_ground(&self, out: &mut Vec<DrawCmd>)
        ensures
            final(out)@ == ground_onto(old(out)@),
    {
        let mut x: usize = 0;
        while x < BUFFER_WIDTH
            invariant
                x <= BUFFER_WIDTH,
                out@ == bank_onto(old(out)@, x as int),
            decreases BUFFER_WIDTH - x,
        {
            push_plot(out, ' ', x, GOAL_ROW - 1, Color::Black, Color::LightGreen);
            push_plot(out, ' ', x, GOAL_ROW, Color::Black, Color::LightGreen);
            push_plot(out, ' ', x, GOAL_ROW + 1, Color::Black, Color::LightGreen);
            x = x + 1;
        }
        let ghost far = out@;
        let mut ry: usize = FIRST_PROGRESS_ROW;
        while ry < START_ROW
            invariant
                FIRST_PROGRESS_ROW <= ry <= START_ROW,
                out@ == near_bank_onto(far, ry - FIRST_PROGRESS_ROW),
            decreases START_ROW - ry,
        {
            let ghost above = out@;
            let mut rx: usize = 0;
            while rx < BUFFER_WIDTH
                invariant
                    rx <= BUFFER_WIDTH,
                    ry < START_ROW,
                    out@ == strip_onto(above, ry as int, rx as int),
                decreases BUFFER_WIDTH - rx,
            {
                push_plot(out, ' ', rx, ry, Color::Black, Color::Pink);
                rx = rx + 1;
            }
            ry = ry + 1;
        }
    }

    /// Appends the commands that draw the ground, the frog and the status
    /// line.
    fn draw(&self, out: &mut Vec<DrawCmd>)
        requires
            self@.player.on_board(),
            self@.frogs <= DEFAULT_FROGS,
        ensures
            final(out)@ == self@.draw_onto(old(out)@),
    {
        self.draw_ground(out);
        self.player.draw(out);
        self.draw_ui(out);
    }

    /// Puts the frog back at the start for a new attempt.
    fn reset(&mut self, out: &mut Vec<DrawCmd>)
        requires
            old(self)@.player.on_board(),
        ensures
            final(self)@ == old(self)@.reset_state(),
            final(out)@ == old(self)@.reset_onto(old(out)@),
    {
        if self.player.py != GOAL_ROW {
            self.player.clear(out);
        }
        self.player.px = START_COL;
        self.player.py = START_ROW;
        self.player.draw(out);
        self.living = true;
        self.currenty = FIRST_PROGRESS_ROW;
        assert(self@.obstacles =~= old(self)@.obstacles);
        assert(self@.lilypads =~= old(self)@.lilypads);
    }

    /// Opens every goal slot again and restores the frogs.
    fn makelilypads(&mut self, out: &mut Vec<DrawCmd>)
        requires
            old(self)@.pads_placed(),
        ensures
            final(self)@ == old(self)@.makelilypads_state(),
            final(out)@ == old(self)@.makelilypads_onto(old(out)@),
    {
        let mut i: usize = 0;
        while i < PAD_COUNT
            invariant
                i <= PAD_COUNT,
                old(self)@.pads_placed(),
                out@ == pads_onto(old(self)@.lilypads, old(out)@, i as int),
                forall|j: int| 0 <= j < i ==> self.lilypads[j]@ == old(self).lilypads[j]@.vacated(),
                forall|j: int| i <= j < PAD_COUNT ==> self.lilypads[j] == old(self).lilypads[j],
                self.player == old(self).player,
                self.obstacles == old(self).obstacles,
                self.frogs == old(self).frogs,
                self.living == old(self).living,
                self.init == old(self).init,
                self.score == old(self).score,
                self.hiscore == old(self).hiscore,
                self.ddelay == old(self).ddelay,
                self.currenty == old(self).currenty,
                self.openl == old(self).openl,
                self.started == old(self).started,
            decreases PAD_COUNT - i,
        {
            assert(old(self)@.lilypads[i as int].placed());
            self.lilypads[i].drawreg(out);
            self.lilypads[i].taken = false;
            i = i + 1;
        }
        self.frogs = DEFAULT_FROGS;
        self.openl = PAD_COUNT;
        assert(self@.lilypads =~= old(self)@.makelilypads_state().lilypads);
        assert(self@.obstacles =~= old(self)@.obstacles);
    }

    /// Lays out a new game.
    fn initialize(&mut self, out: &mut Vec<DrawCmd>)
        requires
            old(self)@.player.on_board(),
            old(self)@.pads_placed(),
        ensures
            final(self)@ == old(self)@.initialize_state(),
            final(out)@ == old(self)@.initialize_onto(old(out)@),
    {
        self.score = 0;
        let mut i: usize = 0;
        while i < PAD_COUNT
            invariant
                i <= PAD_COUNT,
                forall|j: int|
                    0 <= j < i ==> self.lilypads[j]@ == laid_out(old(self)@.lilypads)[j],
                forall|j: int| i <= j < PAD_COUNT ==> self.lilypads[j] == old(self).lilypads[j],
                self.player == old(self).player,
                self.obstacles == old(self).obstacles,
                self.hiscore == old(self).hiscore,
                self.started == old(self).started,
                self.score == 0,
            decreases PAD_COUNT - i,
        {
            self.lilypads[i].lx = PAD_FIRST_COL + i * PAD_SPACING;
            i = i + 1;
        }
        self.openl = PAD_COUNT;

        self.obstacles[1].ox = 30;
        self.obstacles[1].color = Color::LightGray;
        self.obstacles[2].oy = 18;
        self.obstacles[2].ox = 10;
        self.obstacles[2].color = Color::LightBlue;
        self.obstacles[3].oy = 18;
        self.obstacles[3].ox = BUFFER_WIDTH - 30;
        self.obstacles[3].color = Color::LightCyan;
        self.obstacles[4].oy = 16;
        self.obstacles[4].ox = 22;
        self.obstacles[4].color = Color::Red;
        self.obstacles[4].speed = 2;
        self.obstacles[5].oy = 16;
        self.obstacles[5].color = Color::LightRed;
        self.obstacles[5].speed = 2;
        self.obstacles[5].ox = BUFFER_WIDTH - 30;
        self.obstacles[6].oy = 12;
        self.obstacles[6].ox = 20;
        self.obstacles[6].color = Color::Yellow;
        self.obstacles[7].oy = 12;
        self.obstacles[7].color = Color::White;
        self.obstacles[7].ox = BUFFER_WIDTH - 41;
        self.obstacles[8].oy = 10;
        self.obstacles[8].speed = 2;
        self.obstacles[8].color = Color::Brown;
        self.obstacles[9].oy = 10;
        self.obstacles[9].speed = 2;
        self.obstacles[9].color = Color::Cyan;
        self.obstacles[9].ox = BUFFER_WIDTH - 52;

        assert(self@.lilypads =~= laid_out(old(self)@.lilypads));
        assert(self@.obstacles =~= lanes_set_up(old(self)@.obstacles));
        self.makelilypads(out);
        self.draw_ui(out);
        self.init = true;
        self.living = true;
        self.currenty = FIRST_PROGRESS_ROW;
        self.ddelay = 0;
        self.reset(out);
        self.frogs = DEFAULT_FROGS;
    }

    /// Ends the game and shows the summary.
    fn game_over(&mut self, out: &mut Vec<DrawCmd>)
        requires
            old(self)@.player.on_board(),
        ensures
            final(self)@ == old(self)@.game_over_state(),
            final(out)@ == old(self)@.game_over_onto(old(out)@),
    {
        let fg = Color::White;
        let bg = Color::Black;
        self.player.clear(out);
        self.started = false;
        self.init = false;
        self.living = false;
        push_clear_screen(out);
        if self.score > self.hiscore {
            self.hiscore = self.score;
        }
        push_str(out, "GAME OVER", BUFFER_WIDTH / 2 - 4, 5, fg, bg);
        push_str(out, "SCORE", 25, 10, fg, bg);
        push_num(out, self.score, 25, 11, fg, bg);
        push_str(out, "HI-SCORE", 40, 10, fg, bg);
        push_num(out, self.hiscore, 40, 11, fg, bg);
        push_str(out, "Press S to play again!", 20, 20, fg, bg);
        assert(self@.obstacles =~= old(self)@.obstacles);
        assert(self@.lilypads =~= old(self)@.lilypads);
    }

    /// Moves every obstacle by its speed and tests each against the frog.
    fn move_obstacles(&mut self, out: &mut Vec<DrawCmd>)
        requires
            old(self)@.obstacles_in_lane(),
            old(self)@.frogs <= DEFAULT_FROGS,
            old(self)@.living ==> old(self)@.frogs >= 1,
        ensures
            final(self)@ == old(self)@.sweep_state(),
            final(out)@ == old(self)@.sweep_onto(old(out)@, OBSTACLE_COUNT as int),
    {
        let bw: usize = LANE_WIDTH;
        let mut i: usize = 0;
        while i < OBSTACLE_COUNT
            invariant
                i <= OBSTACLE_COUNT,
                bw == LANE_WIDTH,
                old(self)@.obstacles_in_lane(),
                old(self)@.frogs <= DEFAULT_FROGS,
                old(self)@.living ==> old(self)@.frogs >= 1,
                out@ == old(self)@.sweep_onto(old(out)@, i as int),
                forall|j: int|
                    0 <= j < i ==> self.obstacles[j]@ == old(self).obstacles[j]@.advanced(),
                forall|j: int|
                    i <= j < OBSTACLE_COUNT ==> self.obstacles[j] == old(self).obstacles[j],
                self.living == (old(self).living && !old(self)@.hit_within(i as int)),
                self.frogs == if old(self).living && old(self)@.hit_within(i as int) {
                    old(self).frogs - 1
                } else {
                    old(self).frogs as int
                },
                self.player == old(self).player,
                self.lilypads == old(self).lilypads,
                self.init == old(self).init,
                self.score == old(self).score,
                self.hiscore == old(self).hiscore,
                self.ddelay == old(self).ddelay,
                self.currenty == old(self).currenty,
                self.openl == old(self).openl,
                self.started == old(self).started,
            decreases OBSTACLE_COUNT - i,
        {
            proof {
                assert(old(self)@.obstacles[i as int].in_lane());
                old(self)@.obstacles[i as int].lemma_advanced_in_lane();
            }
            self.obstacles[i].clear(out);
            self.obstacles[i].ox = safe_add::<LANE_WIDTH>(
                self.obstacles[i].ox,
                bw - self.obstacles[i].speed,
            );
            self.obstacles[i].draw(out);
            let hit = self.obstacles[i].checkcollide(self.player.px, self.player.py);
            assert(hit == old(self)@.hit_by(i as int));
            if self.living && hit {
                self.living = false;
                self.frogs = self.frogs - 1;
                push_plot(out, ' ', FROGS_COL + self.frogs, UI_ROW, Color::Black, Color::Black);
                self.draw_ui(out);
            }
            proof {
                if old(self)@.hit_within(i + 1) {
                    let k = choose|k: int| 0 <= k < i + 1 && #[trigger] old(self)@.hit_by(k);
                    if k < i {
                        assert(old(self)@.hit_within(i as int));
                    }
                }
            }
            i = i + 1;
        }
        assert(self@.obstacles =~= old(self)@.sweep_state().obstacles);
        assert(self@.lilypads =~= old(self)@.lilypads);
    }

    /// Resolves a landing: on the goal row, the first open slot in the column
    /// of the frog takes it.
    fn check_lilypads(&mut self, out: &mut Vec<DrawCmd>)
        requires
            old(self)@.player.on_board(),
            old(self)@.pads_placed(),
            old(self)@.lands() ==> {
                &&& old(self)@.openl == open_count(old(self)@.lilypads, PAD_COUNT as int)
                &&& 1 <= old(self)@.frogs <= DEFAULT_FROGS
                &&& old(self)@.score + SLOT_BONUS + RESTOCK_BONUS <= usize::MAX
            },
        ensures
            final(self)@ == old(self)@.check_lilypads_state(),
            final(out)@ == old(self)@.check_lilypads_onto(old(out)@),
    {
        if self.player.py == GOAL_ROW {
            let mut i: usize = 0;
            while i < PAD_COUNT
                invariant
                    i <= PAD_COUNT,
                    *self == *old(self),
                    out@ == old(out)@,
                    self@.landing_slot() == self@.landing_slot_from(i as int),
                    self.player.py == GOAL_ROW,
                    old(self)@.player.on_board(),
                    old(self)@.pads_placed(),
                    old(self)@.lands() ==> {
                        &&& old(self)@.openl == open_count(old(self)@.lilypads, PAD_COUNT as int)
                        &&& 1 <= old(self)@.frogs <= DEFAULT_FROGS
                        &&& old(self)@.score + SLOT_BONUS + RESTOCK_BONUS <= usize::MAX
                    },
                decreases PAD_COUNT - i,
            {
                if self.lilypads[i].lx == self.player.px && self.lilypads[i].taken == false {
                    proof {
                        assert(old(self)@.slot_fits(i as int));
                        assert(old(self)@.landing_slot() == i);
                        assert(old(self)@.lands());
                        lemma_open_count_occupy(old(self)@.lilypads, i as int, PAD_COUNT as int);
                        lemma_open_count_bounds(
                            old(self)@.lilypads.update(
                                i as int,
                                old(self)@.lilypads[i as int].occupied(),
                            ),
                            PAD_COUNT as int,
                        );
                    }
                    self.score += SLOT_BONUS;
                    self.draw_ui(out);
                    self.lilypads[i].froghome(out);
                    self.openl -= 1;
                    assert(self@.lilypads =~= old(self)@.lilypads.update(
                        i as int,
                        old(self)@.lilypads[i as int].occupied(),
                    ));
                    if self.openl == 0 {
                        self.score += RESTOCK_BONUS;
                        self.makelilypads(out);
                        self.openl = PAD_COUNT;
                        self.draw_ui(out);
                    }
                    self.frogs -= 1;
                    push_plot(out, ' ', FROGS_COL + self.frogs, UI_ROW, Color::Black, Color::Black);
                    self.reset(out);
                    if self.frogs == 0 {
                        self.player.clear(out);
                        self.game_over(out);
                    }
                    assert(self@.obstacles =~= old(self)@.obstacles);
                    return ;
                }
                i = i + 1;
            }
        }
    }

    /// Handles a control key: the arrows move a living frog.
    fn handle_raw(&mut self, key: ControlCode, out: &mut Vec<DrawCmd>)
        requires
            old(self).wf(),
            old(self)@.score + MAX_KEY_GAIN <= usize::MAX,
        ensures
            final(self)@ == old(self)@.handle_raw_state(key),
            final(out)@ == old(self)@.handle_raw_onto(key, old(out)@),
    {
        if self.living {
            match key {
                ControlCode::ArrowLeft => {
                    self.player.clear(out);
                    self.player.px = sub2::<BUFFER_WIDTH>(self.player.px);
                    self.player.draw(out);
                },
                ControlCode::ArrowRight => {
                    self.player.clear(out);
                    self.player.px = add2::<BUFFER_WIDTH>(self.player.px);
                    self.player.draw(out);
                },
                ControlCode::ArrowUp => {
                    self.player.clear(out);
                    self.player.py = sub2::<BUFFER_HEIGHT>(self.player.py);
                    assert(self@ == old(self)@.stepped_up());
                    if self.player.py == GOAL_ROW {
                        let l = self.openl;
                        self.check_lilypads(out);
                        if self.openl == l {
                            self.player.py = add2::<BUFFER_HEIGHT>(self.player.py);
                            if self.started {
                                self.player.draw(out);
                            }
                        }
                    }
                    assert(self@ == old(self)@.stepped_up().goal_state());
                    if self.player.py < self.currenty {
                        self.score += PROGRESS_BONUS;
                        if self.started {
                            self.draw_ui(out);
                        }
                        self.currenty = self.player.py;
                    }
                    assert(self@ == old(self)@.stepped_up().goal_state().progress_state());
                    proof {
                        old(self)@.stepped_up().lemma_check_lilypads_placed();
                    }
                    self.check_lilypads(out);
                    self.player.draw(out);
                },
                ControlCode::ArrowDown => {
                    if self.player.py < START_ROW {
                        self.player.clear(out);
                        self.player.py = add2::<BUFFER_HEIGHT>(self.player.py);
                        self.player.draw(out);
                    }
                },
                ControlCode::Other => {},
            }
        }
        assert(self@.obstacles =~= old(self)@.handle_raw_state(key).obstacles);
        assert(self@.lilypads =~= old(self)@.handle_raw_state(key).lilypads);
    }

    /// Handles a character key: the start key starts a new game when none is
    /// running.
    fn handle_unicode(&mut self, c: char, out: &mut Vec<DrawCmd>)
        ensures
            final(self)@ == old(self)@.handle_unicode_state(c),
            final(out)@ == old(self)@.handle_unicode_onto(c, old(out)@),
    {
        if c == START_KEY {
            if self.started == false {
                self.started = true;
                push_clear_screen(out);
                self.score = 0;
                self.obstacles = fresh_obstacles();
            }
        }
        assert(self@.obstacles =~= old(self)@.handle_unicode_state(c).obstacles);
        assert(self@.lilypads =~= old(self)@.handle_unicode_state(c).lilypads);
    }

    /// Advances the game by one key event and returns what to draw.
    pub fn key(&mut self, key: InputEvent) -> (frame: Vec<DrawCmd>)
        requires
            old(self).wf(),
            old(self)@.score + MAX_KEY_GAIN <= usize::MAX,
        ensures
            final(self)@ == old(self)@.key_state(key),
            frame@ == old(self)@.key_frame(key),
            final(self).wf(),
            all_on_screen(frame@),
    {
        let mut out: Vec<DrawCmd> = Vec::new();
        match key {
            InputEvent::Control(code) => self.handle_raw(code, &mut out),
            InputEvent::Printable(c) => self.handle_unicode(c, &mut out),
        }
        proof {
            old(self)@.lemma_key_wf(key);
            old(self)@.lemma_key_on_screen(key);
        }
        out
    }

    /// Advances the game by one timer tick and returns what to draw.
    pub fn tick(&mut self) -> (frame: Vec<DrawCmd>)
        requires
            old(self).wf(),
        ensures
            final(self)@ == old(self)@.tick_state(),
            frame@ == old(self)@.tick_frame(),
            final(self).wf(),
            all_on_screen(frame@),
    {
        let mut out: Vec<DrawCmd> = Vec::new();
        if self.init == false && self.started == true {
            self.draw(&mut out);
            self.initialize(&mut out);
        }
        let ghost laid = self@;
        if self.living {
            self.move_obstacles(&mut out);
        } else if self.frogs == 0 {
            self.player.clear(&mut out);
            self.started = false;
            self.game_over(&mut out);
            self.ddelay = 0;
        } else {
            if self.ddelay == 0 {
                let fg = Color::LightGreen;
                self.player.draw(&mut out);
                push_plot_clipped(&mut out, 'x', self.player.px, 1, self.player.py, fg, Color::Black);
                push_plot_clipped(&mut out, 'x', self.player.px, 3, self.player.py, fg, Color::Black);
                push_plot(&mut out, ' ', FROGS_COL + self.frogs, UI_ROW, Color::Black, Color::Black);
                self.ddelay += 1;
            } else if self.ddelay == RESPAWN_DELAY {
                self.player.clear(&mut out);
                self.player.px = START_COL;
                self.player.py = START_ROW;
                self.player.draw(&mut out);
                self.living = true;
                self.currenty = FIRST_PROGRESS_ROW;
                self.ddelay = 0;
            } else {
                self.ddelay += 1;
            }
        }
        assert(self@.obstacles =~= laid.advance_state().obstacles);
        assert(self@.lilypads =~= laid.advance_state().lilypads);
        proof {
            old(self)@.lemma_tick_wf();
            old(self)@.lemma_tick_on_screen();
        }
        out
    }
}

} // verus!
