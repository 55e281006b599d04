//! Every step of the game keeps the state valid.

use vstd::prelude::*;
use crate::config::GOAL_ROW;
use crate::config::OBSTACLE_COUNT;
use crate::config::PAD_COUNT;
use crate::input::ControlCode;
use crate::input::InputEvent;
use crate::state::lemma_open_count_occupy;
use crate::state::lemma_open_count_vacated;
use crate::state::GameView;
use crate::transitions::laid_out;

verus! {

impl GameView {
    /// Laying out a new game gives a valid state.
    pub proof fn lemma_initialize_wf(self)
        requires
            self.obstacles_in_lane(),
            self.pads_placed(),
            0 <= self.hiscore,
            self.started,
        ensures
            self.initialize_state().wf(),
    {
        let next = self.initialize_state();
        assert forall|i: int| 0 <= i < OBSTACLE_COUNT implies (#[trigger] next.obstacles[i]).in_lane() by {
            assert(self.obstacles[i].in_lane());
        }
        assert forall|i: int| 0 <= i < PAD_COUNT implies (#[trigger] next.lilypads[i]).placed() by {
            assert(self.lilypads[i].placed());
        }
        lemma_open_count_vacated(laid_out(self.lilypads), PAD_COUNT as int);
    }

    /// The obstacle sweep keeps a valid state valid.
    pub proof fn lemma_sweep_wf(self)
        requires
            self.wf(),
        ensures
            self.sweep_state().wf(),
    {
        let next = self.sweep_state();
        assert forall|i: int| 0 <= i < OBSTACLE_COUNT implies (#[trigger] next.obstacles[i]).in_lane() by {
            assert(self.obstacles[i].in_lane());
            self.obstacles[i].lemma_advanced_in_lane();
        }
    }

    /// Goal-slot resolution keeps the goal slots placed.
    pub proof fn lemma_check_lilypads_placed(self)
        requires
            self.pads_placed(),
        ensures
            self.check_lilypads_state().pads_placed(),
    {
        let next = self.check_lilypads_state();
        self.lemma_landing_slot(0);
        assert forall|i: int| 0 <= i < PAD_COUNT implies (#[trigger] next.lilypads[i]).placed() by {
            assert(self.lilypads[i].placed());
        }
    }

    /// The slot on which the frog lands is a slot that fits, and none before
    /// it does.
    pub proof fn lemma_landing_slot(self, from: int)
        requires
            0 <= from <= self.lilypads.len(),
        ensures
            from <= self.landing_slot_from(from) <= self.lilypads.len(),
            self.landing_slot_from(from) < self.lilypads.len() ==> self.slot_fits(
                self.landing_slot_from(from),
            ),
            forall|j: int| from <= j < self.landing_slot_from(from) ==> !self.slot_fits(j),
        decreases self.lilypads.len() - from,
    {
        if from < self.lilypads.len() && !self.slot_fits(from) {
            self.lemma_landing_slot(from + 1);
        }
    }

    /// A landing keeps the state valid: the frog is back on the start row,
    /// the counters agree with the slots.
    pub proof fn lemma_landing_wf(self)
        requires
            self.player.on_board(),
            self.obstacles_in_lane(),
            self.pads_placed(),
            self.counters_ok(),
            self.phase_ok(),
            self.living,
            self.lands(),
        ensures
            self.check_lilypads_state().wf(),
    {
        let next = self.check_lilypads_state();
        let slot = self.landing_slot();
        self.lemma_landing_slot(0);
        self.lemma_check_lilypads_placed();
        let taken = self.lilypads.update(slot, self.lilypads[slot].occupied());
        lemma_open_count_occupy(self.lilypads, slot, PAD_COUNT as int);
        lemma_open_count_vacated(taken, PAD_COUNT as int);
    }

    /// The part of a tick that follows the laying out keeps a valid state
    /// valid.
    pub proof fn lemma_advance_wf(self)
        requires
            self.wf(),
        ensures
            self.advance_state().wf(),
    {
        if self.living {
            self.lemma_sweep_wf();
        }
    }

    /// A tick keeps a valid state valid.
    pub proof fn lemma_tick_wf(self)
        requires
            self.wf(),
        ensures
            self.tick_state().wf(),
    {
        if self.tick_initializes() {
            self.lemma_initialize_wf();
            self.initialize_state().lemma_advance_wf();
        } else {
            self.lemma_advance_wf();
        }
    }

    /// A step up keeps a valid state valid.
    pub proof fn lemma_up_wf(self)
        requires
            self.wf(),
            self.living,
        ensures
            self.up_state().wf(),
    {
        let met = self.stepped_up();
        if met.player.py == GOAL_ROW && met.lands() {
            met.lemma_landing_wf();
        }
    }

    /// A key event keeps a valid state valid.
    pub proof fn lemma_key_wf(self, key: InputEvent)
        requires
            self.wf(),
        ensures
            self.key_state(key).wf(),
    {
        match key {
            InputEvent::Control(code) => {
                if self.living {
                    match code {
                        ControlCode::ArrowUp => {
                            self.lemma_up_wf();
                        },
                        _ => {},
                    }
                }
            },
            InputEvent::Printable(c) => {
                let next = self.handle_unicode_state(c);
                assert forall|i: int| 0 <= i < OBSTACLE_COUNT implies (
                #[trigger] next.obstacles[i]).in_lane() by {
                    assert(self.obstacles[i].in_lane());
                }
            },
        }
    }
}

} // verus!
