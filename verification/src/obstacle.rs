//! The obstacles that travel along the lanes.

use vstd::prelude::*;
use crate::bounds::wrap_add;
use crate::config::LANE_WIDTH;
use crate::screen::all_on_screen;
use crate::screen::push_plot;
use crate::screen::put;
use crate::screen::Color;
use crate::screen::DrawCmd;
use crate::screen::Frame;
use crate::screen::BUFFER_HEIGHT;
use crate::screen::BUFFER_WIDTH;

verus! {

/// Number of columns of an obstacle that can hit the frog.
pub const OBSTACLE_SPAN: usize = 6;

/// Number of columns that the glyph of an obstacle covers.
pub const OBSTACLE_GLYPH_WIDTH: usize = 7;

/// An obstacle: the left cell of its lower row, its color and the number of
/// cells it travels per tick.
#[derive(Clone, Copy)]
pub struct Obstacle {
    pub(crate) ox: usize,
    pub(crate) oy: usize,
    pub(crate) color: Color,
    pub(crate) speed: usize,
}

/// An obstacle over the integers.
pub struct ObstacleView {
    pub ox: int,
    pub oy: int,
    pub color: Color,
    pub speed: int,
}

/// Whether column `x` is one of the `width` columns that begin at `start`.
pub open spec fn covers(start: int, width: int, x: int) -> bool {
    start <= x < start + width
}

/// `frame` followed by the commands that write `ch` at column `col` of the
/// rows `first` and `second`, in that order, if the column is on the display;
/// `frame` itself otherwise.
pub open spec fn put_column(
    frame: Frame,
    ch: char,
    col: int,
    first: int,
    second: int,
    fg: Color,
    bg: Color,
) -> Frame {
    if col < BUFFER_WIDTH {
        put(put(frame, ch, col, first, fg, bg), ch, col, second, fg, bg)
    } else {
        frame
    }
}

impl ObstacleView {
    /// The obstacle as every new game first has it.
    pub open spec fn initial() -> ObstacleView {
        ObstacleView { ox: BUFFER_WIDTH - 8, oy: 20, color: Color::Blue, speed: 1 }
    }

    /// The obstacle is inside its lane, both of its rows are rows of the
    /// display, and it travels no more than a lane width per tick.
    pub open spec fn in_lane(self) -> bool {
        &&& 0 <= self.ox < LANE_WIDTH
        &&& 1 <= self.oy < BUFFER_HEIGHT
        &&& 0 <= self.speed <= LANE_WIDTH
    }

    /// The obstacle one tick later: `speed` cells to the left, re-entering
    /// the lane on the right.
    pub open spec fn advanced(self) -> ObstacleView {
        ObstacleView {
            ox: wrap_add(self.ox, LANE_WIDTH - self.speed, LANE_WIDTH as int),
            oy: self.oy,
            color: self.color,
            speed: self.speed,
        }
    }

    /// Whether the obstacle hits a frog centered at `(px, py)`: the upper row
    /// of the obstacle is the row of the frog, and some column lies both in
    /// the span of the obstacle, `[ox, ox + 6)`, and in the footprint of the
    /// frog, `[px - 2, px + 2)`.
    pub open spec fn collides(self, px: int, py: int) -> bool {
        &&& self.oy - 1 == py
        &&& exists|x: int| #[trigger]
            covers(self.ox, OBSTACLE_SPAN as int, x) && covers(px - 2, 4, x)
    }

    /// `frame` followed by the middle of the glyph: the first `n` of its four
    /// filled columns, upper row first, as far as they are on the display.
    pub open spec fn deck_onto(self, frame: Frame, n: int) -> Frame
        decreases n,
    {
        if n <= 0 {
            frame
        } else {
            put_column(
                self.deck_onto(frame, n - 1),
                '_',
                self.ox + 1 + n,
                self.oy - 1,
                self.oy,
                self.color,
                self.color,
            )
        }
    }

    /// `frame` followed by the glyph: an open edge, a second edge column, four
    /// filled columns and a closing edge, each on both rows, clipped at the
    /// right edge of the display.
    pub open spec fn draw_onto(self, frame: Frame) -> Frame {
        let f = put(frame, '(', self.ox, self.oy, self.color, Color::Black);
        let f = put(f, '(', self.ox, self.oy - 1, self.color, Color::Black);
        let f = put_column(f, '0', self.ox + 1, self.oy, self.oy - 1, self.color, Color::Black);
        let f = self.deck_onto(f, 4);
        put_column(f, ']', self.ox + 6, self.oy, self.oy - 1, self.color, Color::Black)
    }

    /// `frame` followed by black blanks over the first `n` columns of the
    /// glyph, upper row first, as far as they are on the display.
    pub open spec fn blanks_onto(self, frame: Frame, n: int) -> Frame
        decreases n,
    {
        if n <= 0 {
            frame
        } else {
            put_column(
                self.blanks_onto(frame, n - 1),
                ' ',
                self.ox + n - 1,
                self.oy - 1,
                self.oy,
                Color::Black,
                Color::Black,
            )
        }
    }

    /// `frame` followed by black blanks over the whole glyph.
    pub open spec fn clear_onto(self, frame: Frame) -> Frame {
        self.blanks_onto(frame, OBSTACLE_GLYPH_WIDTH as int)
    }

    /// The hit test in closed form: the rows agree and the two spans overlap.
    pub proof fn lemma_collides_overlap(self, px: int, py: int)
        ensures
            self.collides(px, py) <==> (self.oy - 1 == py && self.ox < px + 2 && px - 2 < self.ox
                + OBSTACLE_SPAN),
    {
        if self.oy - 1 == py && self.ox < px + 2 && px - 2 < self.ox + OBSTACLE_SPAN {
            let x = if self.ox >= px - 2 {
                self.ox
            } else {
                px - 2
            };
            assert(covers(self.ox, OBSTACLE_SPAN as int, x) && covers(px - 2, 4, x));
        }
    }

    /// The hit test looks at positions only: two obstacles in the same place
    /// agree on every frog, whatever their colors and speeds.
    pub proof fn lemma_collides_by_position(self, other: ObstacleView, px: int, py: int)
        requires
            self.ox == other.ox,
            self.oy == other.oy,
        ensures
            self.collides(px, py) == other.collides(px, py),
    {
        self.lemma_collides_overlap(px, py);
        other.lemma_collides_overlap(px, py);
    }

    /// An obstacle in its lane is still in its lane one tick later.
    pub proof fn lemma_advanced_in_lane(self)
        requires
            self.in_lane(),
        ensures
            self.advanced().in_lane(),
    {
        crate::bounds::lemma_wrap_add_closed(
            self.ox,
            LANE_WIDTH - self.speed,
            LANE_WIDTH as int,
        );
    }

    proof fn lemma_deck_on_screen(self, frame: Frame, n: int)
        requires
            self.in_lane(),
            all_on_screen(frame),
        ensures
            all_on_screen(self.deck_onto(frame, n)),
        decreases n,
    {
        if n > 0 {
            self.lemma_deck_on_screen(frame, n - 1);
        }
    }

    proof fn lemma_blanks_on_screen(self, frame: Frame, n: int)
        requires
            self.in_lane(),
            all_on_screen(frame),
        ensures
            all_on_screen(self.blanks_onto(frame, n)),
        decreases n,
    {
        if n > 0 {
            self.lemma_blanks_on_screen(frame, n - 1);
        }
    }

    /// Drawing an obstacle in its lane stays on the display.
    pub proof fn lemma_draw_on_screen(self, frame: Frame)
        requires
            self.in_lane(),
            all_on_screen(frame),
        ensures
            all_on_screen(self.draw_onto(frame)),
    {
        let f = put(frame, '(', self.ox, self.oy, self.color, Color::Black);
        let f = put(f, '(', self.ox, self.oy - 1, self.color, Color::Black);
        let f = put_column(f, '0', self.ox + 1, self.oy, self.oy - 1, self.color, Color::Black);
        self.lemma_deck_on_screen(f, 4);
    }

    /// Erasing an obstacle in its lane stays on the display.
    pub proof fn lemma_clear_on_screen(self, frame: Frame)
        requires
            self.in_lane(),
            all_on_screen(frame),
        ensures
            all_on_screen(self.clear_onto(frame)),
    {
        self.lemma_blanks_on_screen(frame, OBSTACLE_GLYPH_WIDTH as int);
    }
}

impl Default for Obstacle {
    fn default() -> (o: Obstacle)
        ensures
            o@ == ObstacleView::initial(),
    {
        Obstacle { ox: BUFFER_WIDTH - 8, oy: 20, color: Color::Blue, speed: 1 }
    }
}

impl Obstacle {
    pub open(crate) spec fn view(&self) -> ObstacleView {
        ObstacleView {
            ox: self.ox as int,
            oy: self.oy as int,
            color: self.color,
            speed: self.speed as int,
        }
    }

    /// Column of the left cell of the glyph.
    pub fn ox(&self) -> (ox: usize)
        ensures
            ox == self@.ox,
    {
        self.ox
    }

    /// Lower row of the glyph.
    pub fn oy(&self) -> (oy: usize)
        ensures
            oy == self@.oy,
    {
        self.oy
    }

    /// Color of the glyph.
    pub fn color(&self) -> (color: Color)
        ensures
            color == self@.color,
    {
        self.color
    }

    /// Cells traveled per tick.
    pub fn speed(&self) -> (speed: usize)
        ensures
            speed == self@.speed,
    {
        self.speed
    }

    /// Appends the commands that draw the obstacle.
    pub fn draw(&self, out: &mut Vec<DrawCmd>)
        requires
            self@.in_lane(),
        ensures
            final(out)@ == self@.draw_onto(old(out)@),
    {
        push_plot(out, '(', self.ox, self.oy, self.color, Color::Black);
        push_plot(out, '(', self.ox, self.oy - 1, self.color, Color::Black);
        if self.ox + 1 < BUFFER_WIDTH {
            push_plot(out, '0', self.ox + 1, self.oy, self.color, Color::Black);
            push_plot(out, '0', self.ox + 1, self.oy - 1, self.color, Color::Black);
        }
        let ghost edges = out@;
        let mut bx: usize = 2;
        while bx < 6
            invariant
                self@.in_lane(),
                2 <= bx <= 6,
                out@ == self@.deck_onto(edges, bx - 2),
            decreases 6 - bx,
        {
            if self.ox + bx < BUFFER_WIDTH {
                push_plot(out, '_', self.ox + bx, self.oy - 1, self.color, self.color);
                push_plot(out, '_', self.ox + bx, self.oy, self.color, self.color);
            }
            bx = bx + 1;
        }
        if self.ox + 6 < BUFFER_WIDTH {
            push_plot(out, ']', self.ox + 6, self.oy, self.color, Color::Black);
            push_plot(out, ']', self.ox + 6, self.oy - 1, self.color, Color::Black);
        }
    }

    /// Whether the obstacle hits a frog centered at `(px, py)`.
    pub fn checkcollide(&self, px: usize, py: usize) -> (hit: bool)
        ensures
            hit == self@.collides(px as int, py as int),
    {
        proof {
            self@.lemma_collides_overlap(px as int, py as int);
        }
        let same_row = self.oy >= 1 && self.oy - 1 == py;
        let overlap = if self.ox >= px {
            self.ox - px < 2
        } else {
            px - self.ox < 8
        };
        same_row && overlap
    }

    /// Appends the commands that erase the obstacle.
    pub fn clear(&self, out: &mut Vec<DrawCmd>)
        requires
            self@.in_lane(),
        ensures
            final(out)@ == self@.clear_onto(old(out)@),
    {
        let mut bx: usize = 0;
        while bx < OBSTACLE_GLYPH_WIDTH
            invariant
                self@.in_lane(),
                bx <= OBSTACLE_GLYPH_WIDTH,
                out@ == self@.blanks_onto(old(out)@, bx as int),
            decreases OBSTACLE_GLYPH_WIDTH - bx,
        {
            if self.ox + bx < BUFFER_WIDTH {
                push_plot(out, ' ', self.ox + bx, self.oy - 1, Color::Black, Color::Black);
                push_plot(out, ' ', self.ox + bx, self.oy, Color::Black, Color::Black);
            }
            bx = bx + 1;
        }
    }
}

} // verus!
