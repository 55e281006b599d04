//! The goal slots: lily pads on the far bank.

use vstd::prelude::*;
use crate::config::GOAL_ROW;
use crate::config::PAD_FIRST_COL;
use crate::screen::all_on_screen;
use crate::screen::push_plot;
use crate::screen::put;
use crate::screen::Color;
use crate::screen::DrawCmd;
use crate::screen::Frame;
use crate::screen::BUFFER_HEIGHT;
use crate::screen::BUFFER_WIDTH;

verus! {

/// A goal slot: the cell it is centered on and whether a frog sits on it.
#[derive(Clone, Copy)]
pub struct LilyPad {
    pub(crate) lx: usize,
    pub(crate) ly: usize,
    pub(crate) taken: bool,
}

/// A goal slot over the integers.
pub struct LilyPadView {
    pub lx: int,
    pub ly: int,
    pub taken: bool,
}

impl LilyPadView {
    /// The slot as every new game first has it.
    pub open spec fn initial() -> LilyPadView {
        LilyPadView { lx: PAD_FIRST_COL as int, ly: GOAL_ROW as int, taken: false }
    }

    /// The five columns and three rows around the center are on the display.
    pub open spec fn placed(self) -> bool {
        &&& 2 <= self.lx
        &&& self.lx + 2 < BUFFER_WIDTH
        &&& 1 <= self.ly
        &&& self.ly + 1 < BUFFER_HEIGHT
    }

    /// The same slot with a frog on it.
    pub open spec fn occupied(self) -> LilyPadView {
        LilyPadView { lx: self.lx, ly: self.ly, taken: true }
    }

    /// The same slot without a frog.
    pub open spec fn vacated(self) -> LilyPadView {
        LilyPadView { lx: self.lx, ly: self.ly, taken: false }
    }

    /// `frame` followed by one column of the empty pad: leaf on the row of
    /// the center and the row below, water on the row above.
    pub open spec fn leaf_column_onto(self, frame: Frame, col: int) -> Frame {
        let f = put(frame, ' ', col, self.ly, Color::Black, Color::Green);
        let f = put(f, ' ', col, self.ly + 1, Color::Black, Color::Green);
        put(f, ' ', col, self.ly - 1, Color::Black, Color::Blue)
    }

    /// `frame` followed by the water to the left and to the right of the pad
    /// on one row.
    pub open spec fn water_row_onto(self, frame: Frame, row: int) -> Frame {
        let f = put(frame, ' ', self.lx - 2, row, Color::Black, Color::Blue);
        put(f, ' ', self.lx + 2, row, Color::Black, Color::Blue)
    }

    /// `frame` followed by the empty pad: three leaf columns, left to right,
    /// then the water beside it on the row of the center and the row below.
    pub open spec fn drawreg_onto(self, frame: Frame) -> Frame {
        let f = self.leaf_column_onto(frame, self.lx - 1);
        let f = self.leaf_column_onto(f, self.lx);
        let f = self.leaf_column_onto(f, self.lx + 1);
        let f = self.water_row_onto(f, self.ly);
        self.water_row_onto(f, self.ly + 1)
    }

    /// `frame` followed by a frog at home on the pad.
    pub open spec fn froghome_onto(self, frame: Frame) -> Frame {
        let fg = Color::LightGreen;
        let f = put(frame, '-', self.lx, self.ly + 1, fg, Color::Green);
        let f = put(f, '0', self.lx - 1, self.ly + 1, fg, Color::Green);
        let f = put(f, '0', self.lx + 1, self.ly + 1, fg, Color::Green);
        let f = put(f, '(', self.lx - 1, self.ly, fg, Color::Green);
        let f = put(f, ')', self.lx + 1, self.ly, fg, Color::Green);
        let f = put(f, 'v', self.lx + 2, self.ly, fg, Color::Blue);
        put(f, 'v', self.lx - 2, self.ly, fg, Color::Blue)
    }

    /// Drawing an empty pad that is placed on the display stays on it.
    pub proof fn lemma_drawreg_on_screen(self, frame: Frame)
        requires
            self.placed(),
            all_on_screen(frame),
        ensures
            all_on_screen(self.drawreg_onto(frame)),
    {
    }

    /// Drawing a frog at home on a pad that is placed on the display stays on
    /// it.
    pub proof fn lemma_froghome_on_screen(self, frame: Frame)
        requires
            self.placed(),
            all_on_screen(frame),
        ensures
            all_on_screen(self.froghome_onto(frame)),
    {
    }
}

impl Default for LilyPad {
    fn default() -> (pad: LilyPad)
        ensures
            pad@ == LilyPadView::initial(),
    {
        LilyPad { lx: PAD_FIRST_COL, ly: GOAL_ROW, taken: false }
    }
}

impl LilyPad {
    pub open(crate) spec fn view(&self) -> LilyPadView {
        LilyPadView { lx: self.lx as int, ly: self.ly as int, taken: self.taken }
    }

    /// Column of the center of the pad.
    pub fn lx(&self) -> (lx: usize)
        ensures
            lx == self@.lx,
    {
        self.lx
    }

    /// Row of the center of the pad.
    pub fn ly(&self) -> (ly: usize)
        ensures
            ly == self@.ly,
    {
        self.ly
    }

    /// Whether a frog sits on the pad.
    pub fn taken(&self) -> (taken: bool)
        ensures
            taken == self@.taken,
    {
        self.taken
    }

    /// Appends the commands that draw one column of the empty pad.
    fn leaf_column(&self, out: &mut Vec<DrawCmd>, col: usize)
        requires
            self@.placed(),
        ensures
            final(out)@ == self@.leaf_column_onto(old(out)@, col as int),
    {
        push_plot(out, ' ', col, self.ly, Color::Black, Color::Green);
        push_plot(out, ' ', col, self.ly + 1, Color::Black, Color::Green);
        push_plot(out, ' ', col, self.ly - 1, Color::Black, Color::Blue);
    }

    /// Appends the commands that draw the water beside the pad on one row.
    fn water_row(&self, out: &mut Vec<DrawCmd>, row: usize)
        requires
            self@.placed(),
        ensures
            final(out)@ == self@.water_row_onto(old(out)@, row as int),
    {
        push_plot(out, ' ', self.lx - 2, row, Color::Black, Color::Blue);
        push_plot(out, ' ', self.lx + 2, row, Color::Black, Color::Blue);
    }

    /// Appends the commands that draw the empty pad.
    pub fn drawreg(&self, out: &mut Vec<DrawCmd>)
        requires
            self@.placed(),
        ensures
            final(out)@ == self@.drawreg_onto(old(out)@),
    {
        self.leaf_column(out, self.lx - 1);
        self.leaf_column(out, self.lx);
        self.leaf_column(out, self.lx + 1);
        self.water_row(out, self.ly);
        self.water_row(out, self.ly + 1);
    }

    /// Marks the pad as taken and appends the commands that draw a frog at
    /// home on it.
    pub fn froghome(&mut self, out: &mut Vec<DrawCmd>)
        requires
            old(self)@.placed(),
        ensures
            final(self)@ == old(self)@.occupied(),
            final(out)@ == old(self)@.froghome_onto(old(out)@),
    {
        self.taken = true;
        let fg = Color::LightGreen;
        push_plot(out, '-', self.lx, self.ly + 1, fg, Color::Green);
        push_plot(out, '0', self.lx - 1, self.ly + 1, fg, Color::Green);
        push_plot(out, '0', self.lx + 1, self.ly + 1, fg, Color::Green);
        push_plot(out, '(', self.lx - 1, self.ly, fg, Color::Green);
        push_plot(out, ')', self.lx + 1, self.ly, fg, Color::Green);
        push_plot(out, 'v', self.lx + 2, self.ly, fg, Color::Blue);
        push_plot(out, 'v', self.lx - 2, self.ly, fg, Color::Blue);
    }
}

} // verus!
