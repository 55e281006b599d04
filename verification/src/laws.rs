//! What holds of every game: how the frogs, the goal slots and the scores
//! can change from one state to the next.

use vstd::prelude::*;
use crate::config::DEFAULT_FROGS;
use crate::config::GOAL_ROW;
use crate::config::PAD_COUNT;
use crate::config::PROGRESS_BONUS;
use crate::config::RESTOCK_BONUS;
use crate::config::SLOT_BONUS;
use crate::input::ControlCode;
use crate::input::InputEvent;
use crate::input::START_KEY;
use crate::state::lemma_open_count_occupy;
use crate::state::lemma_open_count_zero;
use crate::state::open_count;
use crate::state::GameView;
use crate::transitions::max_of;

verus! {

/// One step of a game: a timer tick or a key event.
pub enum Event {
    Tick,
    Key(InputEvent),
}

impl GameView {
    /// The state after one event.
    pub open spec fn step(self, event: Event) -> GameView {
        match event {
            Event::Tick => self.tick_state(),
            Event::Key(key) => self.key_state(key),
        }
    }

    /// The state after a sequence of events, first to last.
    pub open spec fn run(self, events: Seq<Event>) -> GameView
        decreases events.len(),
    {
        if events.len() == 0 {
            self
        } else {
            self.run(events.drop_last()).step(events.last())
        }
    }

    /// Whether an event refills the frogs: a tick that lays out a new game,
    /// or a key that lands the frog on the last open goal slot.
    pub open spec fn refills(self, event: Event) -> bool {
        match event {
            Event::Tick => self.tick_initializes(),
            Event::Key(key) => self.key_restocks(key),
        }
    }

    /// Whether no event of a sequence refills the frogs in the state in
    /// which it arrives.
    pub open spec fn never_refills(self, events: Seq<Event>) -> bool
        decreases events.len(),
    {
        events.len() == 0 || (self.never_refills(events.drop_last()) && !self.run(
            events.drop_last(),
        ).refills(events.last()))
    }

    /// The state after `n` ticks.
    pub open spec fn ticks(self, n: nat) -> GameView
        decreases n,
    {
        if n == 0 {
            self
        } else {
            self.ticks((n - 1) as nat).tick_state()
        }
    }

    /// Whether a key event lands the frog on the last open goal slot.
    pub open spec fn key_restocks(self, key: InputEvent) -> bool {
        key == InputEvent::Control(ControlCode::ArrowUp) && self.living
            && self.stepped_up().restocks()
    }

    /// Whether a key event lands the frog on a goal slot.
    pub open spec fn key_lands(self, key: InputEvent) -> bool {
        key == InputEvent::Control(ControlCode::ArrowUp) && self.living
            && self.stepped_up().lands()
    }

    /// Whether a tick ends the game: the frog is dead and no frog is left.
    pub open spec fn tick_ends_game(self) -> bool {
        !self.tick_initializes() && !self.living && self.frogs == 0
    }

    // ------------------------------------------------------------------
    // Frogs
    // ------------------------------------------------------------------
    /// A tick costs at most one frog and, unless it lays out a new game,
    /// adds none. A tick that lays out a new game starts from the default
    /// number of frogs.
    pub proof fn lemma_tick_frogs(self)
        requires
            self.wf(),
        ensures
            !self.tick_initializes() ==> self.frogs - 1 <= self.tick_state().frogs <= self.frogs,
            self.tick_initializes() ==> DEFAULT_FROGS - 1 <= self.tick_state().frogs
                <= DEFAULT_FROGS,
            self.tick_state().frogs < self.frogs && !self.tick_initializes() ==> self.living
                && !self.tick_state().living,
    {
    }

    /// A key event costs at most one frog and adds none, except that the
    /// landing which fills the last open goal slot restores the default
    /// number before it spends one.
    pub proof fn lemma_key_frogs(self, key: InputEvent)
        requires
            self.wf(),
        ensures
            self.key_restocks(key) ==> self.key_state(key).frogs == DEFAULT_FROGS - 1,
            !self.key_restocks(key) ==> self.frogs - 1 <= self.key_state(key).frogs <= self.frogs,
            self.key_state(key).frogs != self.frogs ==> self.key_lands(key),
    {
    }

    /// Once a game is laid out or over, no tick lays out a new one: that
    /// takes the start key.
    pub proof fn lemma_tick_initializes_once(self)
        requires
            self.wf(),
        ensures
            !self.tick_state().tick_initializes(),
    {
    }

    /// Over any number of ticks from a state in which the next tick lays out
    /// no new game, the frogs never grow in number: fewer ticks leave at
    /// least as many frogs as more ticks.
    pub proof fn lemma_ticks_frogs_never_grow(self, m: nat, n: nat)
        requires
            self.wf(),
            !self.tick_initializes(),
            m <= n,
        ensures
            self.ticks(n).wf(),
            !self.ticks(n).tick_initializes(),
            self.ticks(n).frogs <= self.ticks(m).frogs,
        decreases n,
    {
        if n > 0 {
            let before = self.ticks((n - 1) as nat);
            if m == n {
                self.lemma_ticks_frogs_never_grow((n - 1) as nat, (n - 1) as nat);
            } else {
                self.lemma_ticks_frogs_never_grow(m, (n - 1) as nat);
            }
            before.lemma_tick_wf();
            before.lemma_tick_frogs();
            before.lemma_tick_initializes_once();
        }
    }

    /// Over any number of ticks, whatever the first of them does, the frogs
    /// never grow in number after it.
    pub proof fn lemma_ticks_frogs_after_first(self, m: nat, n: nat)
        requires
            self.wf(),
            1 <= m <= n,
        ensures
            self.ticks(n).frogs <= self.ticks(m).frogs <= DEFAULT_FROGS,
        decreases n,
    {
        self.lemma_tick_wf();
        self.lemma_tick_initializes_once();
        self.lemma_ticks_shift(m);
        self.lemma_ticks_shift(n);
        self.tick_state().lemma_ticks_frogs_never_grow((m - 1) as nat, (n - 1) as nat);
        self.tick_state().lemma_ticks_frogs_never_grow((m - 1) as nat, (m - 1) as nat);
    }

    /// Over any sequence of ticks and keys of which none refills the frogs,
    /// the frogs never grow in number, and every event costs at most one.
    pub proof fn lemma_run_frogs_never_grow(self, events: Seq<Event>)
        requires
            self.wf(),
            self.never_refills(events),
        ensures
            self.run(events).wf(),
            self.frogs - events.len() <= self.run(events).frogs <= self.frogs,
        decreases events.len(),
    {
        if events.len() > 0 {
            let before = self.run(events.drop_last());
            self.lemma_run_frogs_never_grow(events.drop_last());
            match events.last() {
                Event::Tick => {
                    before.lemma_tick_wf();
                    before.lemma_tick_frogs();
                },
                Event::Key(key) => {
                    before.lemma_key_wf(key);
                    before.lemma_key_frogs(key);
                },
            }
        }
    }

    /// `n` ticks are one tick followed by `n - 1` ticks.
    pub proof fn lemma_ticks_shift(self, n: nat)
        requires
            n >= 1,
        ensures
            self.ticks(n) == self.tick_state().ticks((n - 1) as nat),
        decreases n,
    {
        if n > 1 {
            self.lemma_ticks_shift((n - 1) as nat);
            assert(self.ticks(n) == self.ticks((n - 1) as nat).tick_state());
            assert(self.tick_state().ticks((n - 1) as nat) == self.tick_state().ticks(
                (n - 2) as nat,
            ).tick_state());
        } else {
            assert(self.ticks(1) == self.ticks(0).tick_state());
        }
    }

    // ------------------------------------------------------------------
    // Goal slots
    // ------------------------------------------------------------------
    /// A landing occupies a slot that was open, so no slot is occupied twice
    /// between two restocks. Unless it fills the last open slot, it changes
    /// no other slot and leaves exactly one open slot fewer. If it fills the
    /// last open slot, every other slot was taken, and afterwards all slots
    /// are open and counted.
    pub proof fn lemma_landing_slots(self)
        requires
            self.pads_placed(),
            self.openl == open_count(self.lilypads, PAD_COUNT as int),
            self.lands(),
        ensures
            0 <= self.landing_slot() < PAD_COUNT,
            !self.lilypads[self.landing_slot()].taken,
            self.check_lilypads_state().lilypads.len() == PAD_COUNT,
            !self.restocks() ==> {
                &&& self.check_lilypads_state().lilypads[self.landing_slot()].taken
                &&& self.check_lilypads_state().openl == self.openl - 1
                &&& forall|j: int|
                    0 <= j < PAD_COUNT && j != self.landing_slot() ==> (
                    #[trigger] self.check_lilypads_state().lilypads[j]) == self.lilypads[j]
            },
            self.restocks() ==> {
                &&& self.check_lilypads_state().openl == PAD_COUNT
                &&& forall|j: int|
                    0 <= j < PAD_COUNT ==> !(
                    #[trigger] self.check_lilypads_state().lilypads[j]).taken
                &&& forall|j: int|
                    0 <= j < PAD_COUNT && j != self.landing_slot() ==> (
                    #[trigger] self.lilypads[j]).taken
            },
    {
        let slot = self.landing_slot();
        self.lemma_landing_slot(0);
        if self.restocks() {
            let taken = self.lilypads.update(slot, self.lilypads[slot].occupied());
            lemma_open_count_occupy(self.lilypads, slot, PAD_COUNT as int);
            assert forall|j: int| 0 <= j < PAD_COUNT && j != slot implies (
            #[trigger] self.lilypads[j]).taken by {
                lemma_open_count_zero(taken, PAD_COUNT as int, j);
            }
        }
    }

    /// A tick that lays out no new game leaves the goal slots and their
    /// count as they are.
    pub proof fn lemma_tick_slots(self)
        requires
            self.wf(),
            !self.tick_initializes(),
        ensures
            self.tick_state().lilypads == self.lilypads,
            self.tick_state().openl == self.openl,
    {
    }

    /// A key event changes the count of open goal slots only by a landing:
    /// to one fewer, or, from one, to all of them.
    pub proof fn lemma_key_slots(self, key: InputEvent)
        requires
            self.wf(),
        ensures
            !self.key_lands(key) ==> self.key_state(key).openl == self.openl && self.key_state(
                key,
            ).lilypads == self.lilypads,
            self.key_lands(key) && !self.key_restocks(key) ==> self.key_state(key).openl
                == self.openl - 1,
            self.key_restocks(key) ==> self.openl == 1 && self.key_state(key).openl == PAD_COUNT,
    {
        if self.key_lands(key) {
            let met = self.stepped_up();
            met.lemma_landing_wf();
        }
    }

    // ------------------------------------------------------------------
    // Scores
    // ------------------------------------------------------------------
    /// A tick leaves the score as it is, unless it lays out a new game,
    /// which starts at zero.
    pub proof fn lemma_tick_score(self)
        requires
            self.wf(),
        ensures
            self.tick_state().score == if self.tick_initializes() {
                0
            } else {
                self.score
            },
    {
    }

    /// A key event never lowers the score, except that the start key, while
    /// no game is running, sets it to zero. One key event adds at most a
    /// progress bonus, a slot bonus and a restock bonus.
    pub proof fn lemma_key_score(self, key: InputEvent)
        requires
            self.wf(),
        ensures
            key matches InputEvent::Printable(c) && self.restarts(c) ==> self.key_state(key).score
                == 0,
            !(key matches InputEvent::Printable(c) && self.restarts(c)) ==> self.score
                <= self.key_state(key).score <= self.score + PROGRESS_BONUS + SLOT_BONUS
                + RESTOCK_BONUS,
    {
        if self.key_lands(key) {
            let met = self.stepped_up();
            met.lemma_landing_wf();
        }
    }

    /// The best score never decreases. A tick changes it only by ending the
    /// game, and then it is the larger of the best score so far and the
    /// score of the game that ends.
    pub proof fn lemma_tick_hiscore(self)
        requires
            self.wf(),
        ensures
            self.tick_state().hiscore >= self.hiscore,
            self.tick_ends_game() ==> self.tick_state().hiscore == max_of(self.hiscore, self.score),
            !self.tick_ends_game() ==> self.tick_state().hiscore == self.hiscore,
    {
    }

    /// The best score never decreases. A key event changes it only by a
    /// landing that spends the last frog, and then it is the larger of the
    /// best score so far and the final score of the game.
    pub proof fn lemma_key_hiscore(self, key: InputEvent)
        requires
            self.wf(),
        ensures
            self.key_state(key).hiscore >= self.hiscore,
            self.key_state(key).hiscore == if self.key_lands(key) && self.stepped_up(
            ).landing_ends_game() {
                max_of(self.hiscore, self.key_state(key).score)
            } else {
                self.hiscore
            },
    {
        if self.key_lands(key) {
            let met = self.stepped_up();
            met.lemma_landing_wf();
        }
    }

    /// Over any sequence of ticks and keys the best score never decreases.
    pub proof fn lemma_run_hiscore_never_falls(self, events: Seq<Event>)
        requires
            self.wf(),
        ensures
            self.run(events).wf(),
            self.run(events).hiscore >= self.hiscore,
        decreases events.len(),
    {
        if events.len() > 0 {
            let before = self.run(events.drop_last());
            self.lemma_run_hiscore_never_falls(events.drop_last());
            match events.last() {
                Event::Tick => {
                    before.lemma_tick_wf();
                    before.lemma_tick_hiscore();
                },
                Event::Key(key) => {
                    before.lemma_key_wf(key);
                    before.lemma_key_hiscore(key);
                },
            }
        }
    }

    /// Two steps up from two rows below the row under the goal, with one
    /// goal slot left open and the frog in its column, pay one progress
    /// bonus, the slot bonus and the restock bonus.
    pub proof fn lemma_last_crossing_score(self)
        requires
            self.wf(),
            self.living,
            self.player.py == GOAL_ROW + 4,
            self.currenty == self.player.py,
            self.openl == 1,
            self.with_py(GOAL_ROW as int).lands(),
        ensures
            self.up_state().up_state().score == self.score + PROGRESS_BONUS + SLOT_BONUS
                + RESTOCK_BONUS,
            self.up_state().up_state().openl == PAD_COUNT,
            self.up_state().up_state().frogs == DEFAULT_FROGS - 1,
    {
        let first = self.up_state();
        assert(first == GameView {
            score: self.score + PROGRESS_BONUS,
            currenty: GOAL_ROW + 2,
            ..self.with_py(GOAL_ROW + 2)
        });
        let met = first.stepped_up();
        assert(met.lilypads == self.lilypads);
        assert(met.player == self.with_py(GOAL_ROW as int).player);
        met.lemma_same_landing_slot(self.with_py(GOAL_ROW as int), 0);
        assert(met.lands());
        met.lemma_landing_wf();
    }

    /// States with the same goal slots and the same frog have the same
    /// landing slot.
    pub proof fn lemma_same_landing_slot(self, other: GameView, from: int)
        requires
            self.lilypads == other.lilypads,
            self.player == other.player,
            0 <= from,
        ensures
            self.landing_slot_from(from) == other.landing_slot_from(from),
        decreases self.lilypads.len() - from,
    {
        if from < self.lilypads.len() && !self.slot_fits(from) {
            self.lemma_same_landing_slot(other, from + 1);
        }
    }

    // ------------------------------------------------------------------
    // Collisions and the end of the game
    // ------------------------------------------------------------------
    /// A sweep in which an obstacle hits the living frog costs exactly one
    /// frog and leaves the frog dead; any other sweep costs none.
    pub proof fn lemma_collision_costs_one(self)
        requires
            self.wf(),
            self.living,
            !self.tick_initializes(),
        ensures
            self.sweep_kills() ==> self.tick_state().frogs == self.frogs - 1
                && !self.tick_state().living,
            !self.sweep_kills() ==> self.tick_state().frogs == self.frogs
                && self.tick_state().living,
    {
    }

    /// With the frog dead and no frog left, the next tick ends the game.
    pub proof fn lemma_no_frog_left_ends_game(self)
        requires
            self.wf(),
            self.tick_ends_game(),
        ensures
            !self.tick_state().started,
            !self.tick_state().init,
            !self.tick_state().living,
    {
    }

    /// While no game is running, only the start key starts one, and the new
    /// game begins with score zero. Ticks and all other keys leave the
    /// engine waiting.
    pub proof fn lemma_only_start_key_restarts(self, key: InputEvent)
        requires
            self.wf(),
            !self.started,
        ensures
            !self.tick_state().started,
            self.key_state(key).started <==> key == InputEvent::Printable(START_KEY),
            self.key_state(key).started ==> self.key_state(key).score == 0,
    {
        if self.key_lands(key) {
            let met = self.stepped_up();
            met.lemma_landing_wf();
        }
    }

    /// The tick after the start key lays out a new game: the frogs are at
    /// their default unless the first sweep already costs one, and the score
    /// is zero.
    pub proof fn lemma_restart_plays(self)
        requires
            self.wf(),
            !self.started,
        ensures
            self.key_state(InputEvent::Printable(START_KEY)).tick_initializes(),
            self.key_state(InputEvent::Printable(START_KEY)).tick_state().init,
            self.key_state(InputEvent::Printable(START_KEY)).tick_state().score == 0,
            self.key_state(InputEvent::Printable(START_KEY)).tick_state().frogs >= DEFAULT_FROGS
                - 1,
    {
        let started = self.key_state(InputEvent::Printable(START_KEY));
        self.lemma_key_wf(InputEvent::Printable(START_KEY));
    }
}

} // verus!
