//! The player-controlled frog.

use vstd::prelude::*;
use crate::config::GOAL_ROW;
use crate::config::START_COL;
use crate::config::START_ROW;
use crate::screen::all_on_screen;
use crate::screen::put_clipped;
use crate::screen::push_plot_clipped;
use crate::screen::Color;
use crate::screen::DrawCmd;
use crate::screen::Frame;
use crate::screen::BUFFER_HEIGHT;
use crate::screen::BUFFER_WIDTH;

verus! {

/// The frog: the cell its glyph is centered on.
pub struct Player {
    pub(crate) px: usize,
    pub(crate) py: usize,
}

/// A frog as a pair of integers.
pub struct PlayerView {
    pub px: int,
    pub py: int,
}

impl PlayerView {
    /// The frog at its starting cell.
    pub open spec fn start() -> PlayerView {
        PlayerView { px: START_COL as int, py: START_ROW as int }
    }

    /// The center is in a column of the display and both rows of the glyph
    /// are rows of the display.
    pub open spec fn on_board(self) -> bool {
        0 <= self.px < BUFFER_WIDTH && 0 <= self.py && self.py + 1 < BUFFER_HEIGHT
    }

    /// Background of the glyph: highlighted on the goal row.
    pub open spec fn background(self) -> Color {
        if self.py == GOAL_ROW {
            Color::Pink
        } else {
            Color::Black
        }
    }

    /// `frame` followed by the glyph: head and eyes on the row of the
    /// center, legs and belly on the row below. Cells beside the display are
    /// left out.
    pub open spec fn draw_onto(self, frame: Frame) -> Frame {
        let fg = Color::LightGreen;
        let bg = self.background();
        let f = put_clipped(frame, '-', self.px, self.py, fg, bg);
        let f = put_clipped(f, '0', self.px - 1, self.py, fg, bg);
        let f = put_clipped(f, '0', self.px + 1, self.py, fg, bg);
        let f = put_clipped(f, '^', self.px - 2, self.py + 1, fg, bg);
        let f = put_clipped(f, '(', self.px - 1, self.py + 1, fg, bg);
        let f = put_clipped(f, '_', self.px, self.py + 1, fg, bg);
        let f = put_clipped(f, ')', self.px + 1, self.py + 1, fg, bg);
        put_clipped(f, '^', self.px + 2, self.py + 1, fg, bg)
    }

    /// `frame` followed by blanks in the background color over the footprint
    /// of the glyph: three cells on the row of the center, five on the row
    /// below.
    pub open spec fn clear_onto(self, frame: Frame) -> Frame {
        let c = self.background();
        let f = put_clipped(frame, ' ', self.px - 1, self.py, c, c);
        let f = put_clipped(f, ' ', self.px, self.py, c, c);
        let f = put_clipped(f, ' ', self.px + 1, self.py, c, c);
        let f = put_clipped(f, ' ', self.px - 2, self.py + 1, c, c);
        let f = put_clipped(f, ' ', self.px - 1, self.py + 1, c, c);
        let f = put_clipped(f, ' ', self.px, self.py + 1, c, c);
        let f = put_clipped(f, ' ', self.px + 1, self.py + 1, c, c);
        put_clipped(f, ' ', self.px + 2, self.py + 1, c, c)
    }

    /// Drawing a frog on the board stays on the display.
    pub proof fn lemma_draw_on_screen(self, frame: Frame)
        requires
            self.on_board(),
            all_on_screen(frame),
        ensures
            all_on_screen(self.draw_onto(frame)),
    {
    }

    /// Erasing a frog on the board stays on the display.
    pub proof fn lemma_clear_on_screen(self, frame: Frame)
        requires
            self.on_board(),
            all_on_screen(frame),
        ensures
            all_on_screen(self.clear_onto(frame)),
    {
    }
}

impl Default for Player {
    fn default() -> (p: Player)
        ensures
            p@ == PlayerView::start(),
    {
        Player { px: START_COL, py: START_ROW }
    }
}

impl Player {
    pub open(crate) spec fn view(&self) -> PlayerView {
        PlayerView { px: self.px as int, py: self.py as int }
    }

    /// Column of the center of the glyph.
    pub fn px(&self) -> (px: usize)
        ensures
            px == self@.px,
    {
        self.px
    }

    /// Row of the center of the glyph.
    pub fn py(&self) -> (py: usize)
        ensures
            py == self@.py,
    {
        self.py
    }

    /// Appends the commands that draw the frog.
    pub fn draw(&self, out: &mut Vec<DrawCmd>)
        requires
            self@.on_board(),
        ensures
            final(out)@ == self@.draw_onto(old(out)@),
    {
        let fg = Color::LightGreen;
        let mut bg = Color::Black;
        if self.py == GOAL_ROW {
            bg = Color::Pink;
        }
        push_plot_clipped(out, '-', self.px, 2, self.py, fg, bg);
        push_plot_clipped(out, '0', self.px, 1, self.py, fg, bg);
        push_plot_clipped(out, '0', self.px, 3, self.py, fg, bg);
        push_plot_clipped(out, '^', self.px, 0, self.py + 1, fg, bg);
        push_plot_clipped(out, '(', self.px, 1, self.py + 1, fg, bg);
        push_plot_clipped(out, '_', self.px, 2, self.py + 1, fg, bg);
        push_plot_clipped(out, ')', self.px, 3, self.py + 1, fg, bg);
        push_plot_clipped(out, '^', self.px, 4, self.py + 1, fg, bg);
    }

    /// Appends the commands that erase the frog.
    pub fn clear(&self, out: &mut Vec<DrawCmd>)
        requires
            self@.on_board(),
        ensures
            final(out)@ == self@.clear_onto(old(out)@),
    {
        let mut c = Color::Black;
        if self.py == GOAL_ROW {
            c = Color::Pink;
        }
        push_plot_clipped(out, ' ', self.px, 1, self.py, c, c);
        push_plot_clipped(out, ' ', self.px, 2, self.py, c, c);
        push_plot_clipped(out, ' ', self.px, 3, self.py, c, c);
        push_plot_clipped(out, ' ', self.px, 0, self.py + 1, c, c);
        push_plot_clipped(out, ' ', self.px, 1, self.py + 1, c, c);
        push_plot_clipped(out, ' ', self.px, 2, self.py + 1, c, c);
        push_plot_clipped(out, ' ', self.px, 3, self.py + 1, c, c);
        push_plot_clipped(out, ' ', self.px, 4, self.py + 1, c, c);
    }
}

} // verus!
