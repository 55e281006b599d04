//! Every frame the game draws stays on the display.

use vstd::prelude::*;
use crate::config::DEFAULT_FROGS;
use crate::config::FIRST_PROGRESS_ROW;
use crate::config::GOAL_ROW;
use crate::config::PAD_COUNT;
use crate::config::START_ROW;
use crate::input::ControlCode;
use crate::input::InputEvent;
use crate::lilypad::LilyPadView;
use crate::player::PlayerView;
use crate::screen::all_on_screen;
use crate::screen::Frame;
use crate::screen::BUFFER_HEIGHT;
use crate::screen::BUFFER_WIDTH;
use crate::state::GameView;
use crate::transitions::bank_onto;
use crate::transitions::ground_onto;
use crate::transitions::laid_out;
use crate::transitions::markers_onto;
use crate::transitions::near_bank_onto;
use crate::transitions::pads_onto;
use crate::transitions::spent_onto;
use crate::transitions::strip_onto;
use crate::transitions::ui_onto;

verus! {

/// The frog markers of the status line stay on the display.
pub proof fn lemma_markers_on_screen(frame: Frame, n: int)
    requires
        all_on_screen(frame),
        n <= DEFAULT_FROGS,
    ensures
        all_on_screen(markers_onto(frame, n)),
    decreases n,
{
    if n > 0 {
        lemma_markers_on_screen(frame, n - 1);
    }
}

/// The status line stays on the display.
pub proof fn lemma_ui_on_screen(score: int, frogs: int, frame: Frame)
    requires
        all_on_screen(frame),
        frogs <= DEFAULT_FROGS,
    ensures
        all_on_screen(ui_onto(score, frogs, frame)),
{
    lemma_markers_on_screen(ui_onto(score, 0, frame), frogs);
}

/// The far bank stays on the display.
pub proof fn lemma_bank_on_screen(frame: Frame, n: int)
    requires
        all_on_screen(frame),
        n <= BUFFER_WIDTH,
    ensures
        all_on_screen(bank_onto(frame, n)),
    decreases n,
{
    if n > 0 {
        lemma_bank_on_screen(frame, n - 1);
    }
}

/// A row of the near bank stays on the display.
pub proof fn lemma_strip_on_screen(frame: Frame, row: int, n: int)
    requires
        all_on_screen(frame),
        0 <= row < BUFFER_HEIGHT,
        n <= BUFFER_WIDTH,
    ensures
        all_on_screen(strip_onto(frame, row, n)),
    decreases n,
{
    if n > 0 {
        lemma_strip_on_screen(frame, row, n - 1);
    }
}

/// The near bank stays on the display.
pub proof fn lemma_near_bank_on_screen(frame: Frame, n: int)
    requires
        all_on_screen(frame),
        n <= START_ROW - FIRST_PROGRESS_ROW,
    ensures
        all_on_screen(near_bank_onto(frame, n)),
    decreases n,
{
    if n > 0 {
        lemma_near_bank_on_screen(frame, n - 1);
        lemma_strip_on_screen(
            near_bank_onto(frame, n - 1),
            FIRST_PROGRESS_ROW + n - 1,
            BUFFER_WIDTH as int,
        );
    }
}

/// The ground stays on the display.
pub proof fn lemma_ground_on_screen(frame: Frame)
    requires
        all_on_screen(frame),
    ensures
        all_on_screen(ground_onto(frame)),
{
    lemma_bank_on_screen(frame, BUFFER_WIDTH as int);
    lemma_near_bank_on_screen(
        bank_onto(frame, BUFFER_WIDTH as int),
        START_ROW - FIRST_PROGRESS_ROW,
    );
}

/// Goal slots that are placed on the display are drawn on it.
pub proof fn lemma_pads_on_screen(pads: Seq<LilyPadView>, frame: Frame, n: int)
    requires
        all_on_screen(frame),
        n <= pads.len(),
        forall|i: int| 0 <= i < pads.len() ==> (#[trigger] pads[i]).placed(),
    ensures
        all_on_screen(pads_onto(pads, frame, n)),
    decreases n,
{
    if n > 0 {
        lemma_pads_on_screen(pads, frame, n - 1);
        pads[n - 1].lemma_drawreg_on_screen(pads_onto(pads, frame, n - 1));
    }
}

impl GameView {
    /// Drawing the whole board stays on the display.
    pub proof fn lemma_draw_on_screen(self, frame: Frame)
        requires
            self.player.on_board(),
            self.frogs <= DEFAULT_FROGS,
            all_on_screen(frame),
        ensures
            all_on_screen(self.draw_onto(frame)),
    {
        lemma_ground_on_screen(frame);
        self.player.lemma_draw_on_screen(ground_onto(frame));
        lemma_ui_on_screen(self.score, self.frogs, self.player.draw_onto(ground_onto(frame)));
    }

    /// Moving the frog to the start stays on the display.
    pub proof fn lemma_reset_on_screen(self, frame: Frame)
        requires
            self.player.on_board(),
            all_on_screen(frame),
        ensures
            all_on_screen(self.reset_onto(frame)),
    {
        self.player.lemma_clear_on_screen(frame);
        PlayerView::start().lemma_draw_on_screen(frame);
        PlayerView::start().lemma_draw_on_screen(self.player.clear_onto(frame));
    }

    /// Laying out a new game stays on the display.
    pub proof fn lemma_initialize_on_screen(self, frame: Frame)
        requires
            self.player.on_board(),
            self.pads_placed(),
            all_on_screen(frame),
        ensures
            all_on_screen(self.initialize_onto(frame)),
    {
        let pads = laid_out(self.lilypads);
        assert forall|i: int| 0 <= i < pads.len() implies (#[trigger] pads[i]).placed() by {
            assert(self.lilypads[i].placed());
        }
        lemma_pads_on_screen(pads, frame, PAD_COUNT as int);
        let f = pads_onto(pads, frame, PAD_COUNT as int);
        lemma_ui_on_screen(0, DEFAULT_FROGS as int, f);
        self.lemma_reset_on_screen(ui_onto(0, DEFAULT_FROGS as int, f));
    }

    /// The game-over screen, with the frog erased first, stays on the
    /// display.
    pub proof fn lemma_game_over_on_screen(self, frame: Frame)
        requires
            self.player.on_board(),
            all_on_screen(frame),
        ensures
            all_on_screen(self.game_over_onto(frame)),
    {
        self.player.lemma_clear_on_screen(frame);
    }

    /// What the sweep draws stays on the display.
    pub proof fn lemma_sweep_on_screen(self, frame: Frame, n: int)
        requires
            self.obstacles_in_lane(),
            self.living ==> 1 <= self.frogs <= DEFAULT_FROGS,
            n <= self.obstacles.len(),
            all_on_screen(frame),
        ensures
            all_on_screen(self.sweep_onto(frame, n)),
        decreases n,
    {
        if n > 0 {
            self.lemma_sweep_on_screen(frame, n - 1);
            let f = self.sweep_onto(frame, n - 1);
            let o = self.obstacles[n - 1];
            assert(o.in_lane());
            o.lemma_advanced_in_lane();
            o.lemma_clear_on_screen(f);
            o.advanced().lemma_draw_on_screen(o.clear_onto(f));
            let moved = o.advanced().draw_onto(o.clear_onto(f));
            if self.living {
                lemma_ui_on_screen(self.score, self.frogs - 1, spent_onto(self.frogs - 1, moved));
            }
        }
    }

    /// What goal-slot resolution draws stays on the display.
    pub proof fn lemma_check_lilypads_on_screen(self, frame: Frame)
        requires
            self.pads_placed(),
            self.lands() ==> 1 <= self.frogs <= DEFAULT_FROGS,
            all_on_screen(frame),
        ensures
            all_on_screen(self.check_lilypads_onto(frame)),
    {
        if self.lands() {
            self.lemma_landing_slot(0);
            let start = PlayerView::start();
            let after = self.check_lilypads_state();
            let slot = self.lilypads[self.landing_slot()];
            assert(slot.placed());
            lemma_ui_on_screen(self.score + crate::config::SLOT_BONUS, self.frogs, frame);
            let f1 = ui_onto(self.score + crate::config::SLOT_BONUS, self.frogs, frame);
            slot.lemma_froghome_on_screen(f1);
            let f2 = slot.froghome_onto(f1);
            let f3 = if self.restocks() {
                let pads = self.lilypads.update(self.landing_slot(), slot.occupied());
                assert forall|i: int| 0 <= i < pads.len() implies (#[trigger] pads[i]).placed() by {
                    assert(self.lilypads[i].placed());
                }
                lemma_pads_on_screen(pads, f2, PAD_COUNT as int);
                lemma_ui_on_screen(
                    after.score,
                    DEFAULT_FROGS as int,
                    pads_onto(pads, f2, PAD_COUNT as int),
                );
                ui_onto(after.score, DEFAULT_FROGS as int, pads_onto(pads, f2, PAD_COUNT as int))
            } else {
                f2
            };
            let f4 = spent_onto(after.frogs, f3);
            start.lemma_draw_on_screen(f4);
            let f5 = start.draw_onto(f4);
            start.lemma_clear_on_screen(f5);
            start.lemma_clear_on_screen(start.clear_onto(f5));
        }
    }

    /// What the part of a tick that follows the laying out draws stays on
    /// the display.
    pub proof fn lemma_advance_on_screen(self, frame: Frame)
        requires
            self.wf(),
            all_on_screen(frame),
        ensures
            all_on_screen(self.advance_onto(frame)),
    {
        let start = PlayerView::start();
        if self.living {
            self.lemma_sweep_on_screen(frame, self.obstacles.len() as int);
        } else if self.frogs == 0 {
            self.player.lemma_clear_on_screen(frame);
            self.lemma_game_over_on_screen(self.player.clear_onto(frame));
        } else {
            self.player.lemma_draw_on_screen(frame);
            self.player.lemma_clear_on_screen(frame);
            start.lemma_draw_on_screen(self.player.clear_onto(frame));
        }
    }

    /// The frame of a tick stays on the display.
    pub proof fn lemma_tick_on_screen(self)
        requires
            self.wf(),
        ensures
            all_on_screen(self.tick_frame()),
    {
        let empty: Frame = Seq::empty();
        if self.tick_initializes() {
            self.lemma_draw_on_screen(empty);
            self.lemma_initialize_on_screen(self.draw_onto(empty));
            self.lemma_initialize_wf();
            self.initialize_state().lemma_advance_on_screen(
                self.initialize_onto(self.draw_onto(empty)),
            );
        } else {
            self.lemma_advance_on_screen(empty);
        }
    }

    /// What a step up draws stays on the display.
    pub proof fn lemma_up_on_screen(self, frame: Frame)
        requires
            self.wf(),
            self.living,
            all_on_screen(frame),
        ensures
            all_on_screen(self.up_onto(frame)),
    {
        let met = self.stepped_up();
        let resolved = met.goal_state();
        let paid = resolved.progress_state();
        self.player.lemma_clear_on_screen(frame);
        let f1 = self.player.clear_onto(frame);
        met.lemma_check_lilypads_on_screen(f1);
        resolved.player.lemma_draw_on_screen(f1);
        let f2 = met.goal_onto(f1);
        if met.player.py == GOAL_ROW && met.lands() {
            met.lemma_landing_wf();
        }
        lemma_ui_on_screen(resolved.score + crate::config::PROGRESS_BONUS, resolved.frogs, f2);
        let f3 = resolved.progress_onto(f2);
        met.lemma_check_lilypads_placed();
        paid.lemma_check_lilypads_on_screen(f3);
        let f4 = paid.check_lilypads_onto(f3);
        self.lemma_up_wf();
        self.up_state().player.lemma_draw_on_screen(f4);
    }

    /// The frame of a key event stays on the display.
    pub proof fn lemma_key_on_screen(self, key: InputEvent)
        requires
            self.wf(),
        ensures
            all_on_screen(self.key_frame(key)),
    {
        let empty: Frame = Seq::empty();
        match key {
            InputEvent::Control(code) => {
                if self.living {
                    self.player.lemma_clear_on_screen(empty);
                    let f = self.player.clear_onto(empty);
                    match code {
                        ControlCode::ArrowLeft => {
                            crate::bounds::lemma_wrap_add_closed(
                                self.player.px,
                                BUFFER_WIDTH - 2,
                                BUFFER_WIDTH as int,
                            );
                            self.left_state().player.lemma_draw_on_screen(f);
                        },
                        ControlCode::ArrowRight => {
                            crate::bounds::lemma_wrap_add_closed(
                                self.player.px,
                                2,
                                BUFFER_WIDTH as int,
                            );
                            self.right_state().player.lemma_draw_on_screen(f);
                        },
                        ControlCode::ArrowUp => {
                            self.lemma_up_on_screen(empty);
                        },
                        ControlCode::ArrowDown => {
                            if self.player.py < START_ROW {
                                self.down_state().player.lemma_draw_on_screen(f);
                            }
                        },
                        ControlCode::Other => {},
                    }
                }
            },
            InputEvent::Printable(c) => {},
        }
    }
}

} // verus!
