//! The character display the engine draws on: its size, its colors, and the
//! drawing commands that a renderer carries out.

use vstd::prelude::*;

verus! {

/// Number of character rows of the display.
pub const BUFFER_HEIGHT: usize = 25;

/// Number of character columns of the display.
pub const BUFFER_WIDTH: usize = 80;

/// One of the sixteen colors of a text-mode cell.
#[derive(Clone, Copy, Debug, PartialEq, Eq, Structural)]
pub enum Color {
    Black,
    Blue,
    Green,
    Cyan,
    Red,
    Magenta,
    Brown,
    LightGray,
    DarkGray,
    LightBlue,
    LightGreen,
    LightCyan,
    LightRed,
    Pink,
    Yellow,
    White,
}

/// One request to the renderer. Coordinates are in cells, column first.
#[derive(Clone, Copy, Debug, PartialEq, Eq)]
pub enum DrawCmd {
    /// Write one character cell.
    Plot { ch: char, col: usize, row: usize, fg: Color, bg: Color },
    /// Write a number in decimal, starting at the given cell.
    PlotNum { value: usize, col: usize, row: usize, fg: Color, bg: Color },
    /// Write a text, starting at the given cell.
    PlotStr { text: &'static str, col: usize, row: usize, fg: Color, bg: Color },
    /// Blank the whole display.
    ClearScreen,
}

/// A sequence of drawing commands, in the order they are to be carried out.
pub type Frame = Seq<DrawCmd>;

/// The command that writes `ch` at `(col, row)`.
pub open spec fn plot(ch: char, col: int, row: int, fg: Color, bg: Color) -> DrawCmd {
    DrawCmd::Plot { ch, col: col as usize, row: row as usize, fg, bg }
}

/// `frame` followed by the command that writes `ch` at `(col, row)`.
pub open spec fn put(frame: Frame, ch: char, col: int, row: int, fg: Color, bg: Color) -> Frame {
    frame.push(plot(ch, col, row, fg, bg))
}

/// `frame` followed by the command that writes `ch` at `(col, row)` if that
/// column is on the display; `frame` itself otherwise.
pub open spec fn put_clipped(
    frame: Frame,
    ch: char,
    col: int,
    row: int,
    fg: Color,
    bg: Color,
) -> Frame {
    if 0 <= col < BUFFER_WIDTH {
        put(frame, ch, col, row, fg, bg)
    } else {
        frame
    }
}

/// `frame` followed by the command that writes `value` from `(col, row)` on.
pub open spec fn put_num(
    frame: Frame,
    value: int,
    col: int,
    row: int,
    fg: Color,
    bg: Color,
) -> Frame {
    frame.push(
        DrawCmd::PlotNum { value: value as usize, col: col as usize, row: row as usize, fg, bg },
    )
}

/// `frame` followed by the command that writes `text` from `(col, row)` on.
pub open spec fn put_str(
    frame: Frame,
    text: &'static str,
    col: int,
    row: int,
    fg: Color,
    bg: Color,
) -> Frame {
    frame.push(DrawCmd::PlotStr { text, col: col as usize, row: row as usize, fg, bg })
}

/// `frame` followed by the command that blanks the display.
pub open spec fn put_clear_screen(frame: Frame) -> Frame {
    frame.push(DrawCmd::ClearScreen)
}

/// Whether `(col, row)` names a cell of the display.
pub open spec fn cell_on_screen(col: int, row: int) -> bool {
    0 <= col < BUFFER_WIDTH && 0 <= row < BUFFER_HEIGHT
}

/// Whether a renderer can carry out `cmd`: every command that names a cell
/// names one of the display.
pub open spec fn on_screen(cmd: DrawCmd) -> bool {
    match cmd {
        DrawCmd::Plot { col, row, .. } => cell_on_screen(col as int, row as int),
        DrawCmd::PlotNum { col, row, .. } => cell_on_screen(col as int, row as int),
        DrawCmd::PlotStr { col, row, .. } => cell_on_screen(col as int, row as int),
        DrawCmd::ClearScreen => true,
    }
}

/// Whether a renderer can carry out every command of `frame`.
pub open spec fn all_on_screen(frame: Frame) -> bool {
    forall|k: int| 0 <= k < frame.len() ==> on_screen(#[trigger] frame[k])
}

/// Appends the command that writes `ch` at `(col, row)`.
pub fn push_plot(out: &mut Vec<DrawCmd>, ch: char, col: usize, row: usize, fg: Color, bg: Color)
    ensures
        final(out)@ == put(old(out)@, ch, col as int, row as int, fg, bg),
{
    out.push(DrawCmd::Plot { ch, col, row, fg, bg });
}

/// Appends the command that writes `value` from `(col, row)` on.
pub fn push_num(
    out: &mut Vec<DrawCmd>,
    value: usize,
    col: usize,
    row: usize,
    fg: Color,
    bg: Color,
)
    ensures
        final(out)@ == put_num(old(out)@, value as int, col as int, row as int, fg, bg),
{
    out.push(DrawCmd::PlotNum { value, col, row, fg, bg });
}

/// Appends the command that writes `text` from `(col, row)` on.
pub fn push_str(
    out: &mut Vec<DrawCmd>,
    text: &'static str,
    col: usize,
    row: usize,
    fg: Color,
    bg: Color,
)
    ensures
        final(out)@ == put_str(old(out)@, text, col as int, row as int, fg, bg),
{
    out.push(DrawCmd::PlotStr { text, col, row, fg, bg });
}

/// Appends the command that blanks the display.
pub fn push_clear_screen(out: &mut Vec<DrawCmd>)
    ensures
        final(out)@ == put_clear_screen(old(out)@),
{
    out.push(DrawCmd::ClearScreen);
}

/// Appends the command that writes `ch` at column `base + shift - 2` of `row`
/// when that column is on the display.
pub fn push_plot_clipped(
    out: &mut Vec<DrawCmd>,
    ch: char,
    base: usize,
    shift: usize,
    row: usize,
    fg: Color,
    bg: Color,
)
    requires
        base < BUFFER_WIDTH,
        shift <= 4,
    ensures
        final(out)@ == put_clipped(old(out)@, ch, base + shift - 2, row as int, fg, bg),
{
    if base + shift >= 2 && base + shift - 2 < BUFFER_WIDTH {
        out.push(DrawCmd::Plot { ch, col: base + shift - 2, row, fg, bg });
    }
}

} // verus!
