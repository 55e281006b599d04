//! The state of a game as a mathematical value, and what makes it valid.

use vstd::prelude::*;
use crate::config::DEFAULT_FROGS;
use crate::config::FIRST_PROGRESS_ROW;
use crate::config::GOAL_ROW;
use crate::config::OBSTACLE_COUNT;
use crate::config::PAD_COUNT;
use crate::config::RESPAWN_DELAY;
use crate::config::START_ROW;
use crate::lilypad::LilyPadView;
use crate::obstacle::ObstacleView;
use crate::player::PlayerView;

verus! {

/// Everything the engine remembers between two events.
#[verifier::ext_equal]
pub struct GameView {
    /// The frog.
    pub player: PlayerView,
    /// The obstacles, in the order in which a tick moves them.
    pub obstacles: Seq<ObstacleView>,
    /// The goal slots, in the order in which a landing scans them.
    pub lilypads: Seq<LilyPadView>,
    /// Frogs left. A collision costs one, and so does a landing.
    pub frogs: int,
    /// Whether the frog is alive; false while it lies dead and after the
    /// game is over.
    pub living: bool,
    /// Whether the board of the current game has been laid out.
    pub init: bool,
    /// Score of the current game.
    pub score: int,
    /// Best score of the games that are over.
    pub hiscore: int,
    /// Ticks for which the frog has been lying dead.
    pub ddelay: int,
    /// Progress marker: the row closest to the goal reached in this attempt.
    pub currenty: int,
    /// Number of goal slots without a frog.
    pub openl: int,
    /// Whether a game is running; false from game over until the start key.
    pub started: bool,
}

/// Number of slots without a frog among the first `n` of `pads`.
pub open spec fn open_count(pads: Seq<LilyPadView>, n: int) -> int
    decreases n,
{
    if n <= 0 {
        0
    } else {
        open_count(pads, n - 1) + if pads[n - 1].taken {
            0int
        } else {
            1int
        }
    }
}

/// The slots of `pads`, each without a frog.
pub open spec fn vacated_all(pads: Seq<LilyPadView>) -> Seq<LilyPadView> {
    Seq::new(pads.len(), |i: int| pads[i].vacated())
}

/// The obstacles of `obstacles`, each one tick later.
pub open spec fn advanced_all(obstacles: Seq<ObstacleView>) -> Seq<ObstacleView> {
    Seq::new(obstacles.len(), |i: int| obstacles[i].advanced())
}

impl GameView {
    /// The state in which the engine is created: a game is running, its
    /// board not yet laid out.
    pub open spec fn initial() -> GameView {
        GameView {
            player: PlayerView::start(),
            obstacles: Seq::new(OBSTACLE_COUNT as nat, |i: int| ObstacleView::initial()),
            lilypads: Seq::new(PAD_COUNT as nat, |i: int| LilyPadView::initial()),
            frogs: DEFAULT_FROGS as int,
            living: true,
            init: false,
            score: 0,
            hiscore: 0,
            ddelay: 0,
            currenty: FIRST_PROGRESS_ROW as int,
            openl: PAD_COUNT as int,
            started: true,
        }
    }

    /// The frog stands on one of the rows that two-cell steps from the start
    /// row reach, below the goal row.
    pub open spec fn frog_on_lane_row(self) -> bool {
        &&& self.player.on_board()
        &&& GOAL_ROW < self.player.py <= START_ROW
        &&& self.player.py % 2 == START_ROW % 2
    }

    /// Every obstacle is in its lane.
    pub open spec fn obstacles_in_lane(self) -> bool {
        &&& self.obstacles.len() == OBSTACLE_COUNT
        &&& forall|i: int| 0 <= i < OBSTACLE_COUNT ==> (#[trigger] self.obstacles[i]).in_lane()
    }

    /// Every goal slot is placed on the display.
    pub open spec fn pads_placed(self) -> bool {
        &&& self.lilypads.len() == PAD_COUNT
        &&& forall|i: int| 0 <= i < PAD_COUNT ==> (#[trigger] self.lilypads[i]).placed()
    }

    /// The counters are in range and agree with what they count.
    pub open spec fn counters_ok(self) -> bool {
        &&& 0 <= self.frogs <= DEFAULT_FROGS
        &&& self.living ==> self.frogs >= 1
        &&& 0 <= self.ddelay <= RESPAWN_DELAY
        &&& self.openl == open_count(self.lilypads, PAD_COUNT as int)
        &&& 1 <= self.openl <= PAD_COUNT
        &&& 0 <= self.score
        &&& 0 <= self.hiscore
        &&& 0 <= self.currenty
    }

    /// The flags agree: a board is laid out only while a game is running,
    /// and while none is running the frog is dead and no frog is left.
    pub open spec fn phase_ok(self) -> bool {
        &&& self.init ==> self.started
        &&& !self.started ==> !self.living && self.frogs == 0
    }

    /// The invariant of the engine between events.
    pub open spec fn wf(self) -> bool {
        &&& self.frog_on_lane_row()
        &&& self.obstacles_in_lane()
        &&& self.pads_placed()
        &&& self.counters_ok()
        &&& self.phase_ok()
    }
}

/// Among `n` slots there are between none and `n` without a frog.
pub proof fn lemma_open_count_bounds(pads: Seq<LilyPadView>, n: int)
    requires
        0 <= n,
    ensures
        0 <= open_count(pads, n) <= n,
    decreases n,
{
    if n > 0 {
        lemma_open_count_bounds(pads, n - 1);
    }
}

/// The count looks at the first `n` slots only.
pub proof fn lemma_open_count_agrees(a: Seq<LilyPadView>, b: Seq<LilyPadView>, n: int)
    requires
        forall|j: int| 0 <= j < n ==> a[j].taken == b[j].taken,
    ensures
        open_count(a, n) == open_count(b, n),
    decreases n,
{
    if n > 0 {
        lemma_open_count_agrees(a, b, n - 1);
    }
}

/// A frog on a slot that had none leaves one open slot fewer.
pub proof fn lemma_open_count_occupy(pads: Seq<LilyPadView>, i: int, n: int)
    requires
        0 <= i < n <= pads.len(),
        !pads[i].taken,
    ensures
        open_count(pads.update(i, pads[i].occupied()), n) == open_count(pads, n) - 1,
    decreases n,
{
    let after = pads.update(i, pads[i].occupied());
    if i == n - 1 {
        lemma_open_count_agrees(after, pads, n - 1);
    } else {
        lemma_open_count_occupy(pads, i, n - 1);
    }
}

/// With every frog taken off, all slots are open.
pub proof fn lemma_open_count_vacated(pads: Seq<LilyPadView>, n: int)
    requires
        0 <= n <= pads.len(),
    ensures
        open_count(vacated_all(pads), n) == n,
    decreases n,
{
    if n > 0 {
        lemma_open_count_vacated(pads, n - 1);
    }
}

/// Where no slot is open, every slot has a frog.
pub proof fn lemma_open_count_zero(pads: Seq<LilyPadView>, n: int, j: int)
    requires
        0 <= j < n,
        open_count(pads, n) == 0,
    ensures
        pads[j].taken,
    decreases n,
{
    lemma_open_count_bounds(pads, n - 1);
    if j < n - 1 {
        lemma_open_count_zero(pads, n - 1, j);
    }
}

/// The state in which the engine is created is valid.
pub proof fn lemma_initial_wf()
    ensures
        GameView::initial().wf(),
{
    reveal_with_fuel(open_count, 6);
}

} // verus!
