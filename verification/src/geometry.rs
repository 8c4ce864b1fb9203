//! Where the squares are drawn and which square lies under the mouse.
//!
//! The board is drawn as eight by eight cells of `FIELD_SIZE` pixels. Cell
//! `(col, row)` has its top left corner at `(col * FIELD_SIZE, row * FIELD_SIZE)`.
//! Unless the board is inverted, row 0 shows the eighth rank and column 0 the
//! a-file; inverted, row 0 shows the first rank and column 0 the h-file.
use vstd::prelude::*;
use crate::square::Square;

verus! {

/// Size in pixels of a square.
pub const FIELD_SIZE: u32 = 100;
/// Width in pixels of the evaluation bar right of the board.
pub const EVAL_BAR_W: u32 = 35;
/// Width in pixels of the side panel right of the evaluation bar.
pub const UI_WIDTH: u32 = 200;
/// Radius in pixels of the circles that mark the destinations of legal moves.
pub const MOVE_INDICATOR_SIZE: u32 = 15;

/// The square a board square is drawn at, counted in the unturned frame.
pub open spec fn spec_display(s: Square, invert: bool) -> Square {
    if invert { s.spec_inverted() } else { s }
}

/// Top left corner of the cell that shows `s` in the unturned frame.
pub open spec fn spec_square_to_xy(s: Square) -> (u32, u32) {
    ((s.file * 100) as u32, ((7 - s.rank) * 100) as u32)
}

/// The square of the unturned frame in cell `(col, row)`; only the low three
/// bits of the column count.
pub open spec fn spec_square_under(col: u32, row: u32) -> Square {
    Square { rank: (7 - row) as u8, file: (col % 8) as u8 }
}

/// The square the mouse is over when it is in cell `(col, row)`.
pub open spec fn spec_hovered_square(col: u32, row: u32, invert: bool) -> Square {
    spec_display(spec_square_under(col, row), invert)
}

/// The square drawn in cell `(x, y)`.
pub open spec fn spec_cell_square(x: u32, y: u32, invert: bool) -> Square {
    Square {
        rank: (if invert { y as int } else { 7 - y }) as u8,
        file: (if invert { 7 - x } else { x as int }) as u8,
    }
}

/// Whether cell `(x, y)` is drawn in the light colour.
pub open spec fn spec_cell_is_light(x: u32, y: u32) -> bool {
    (x + y) % 2 == 0
}

/// Top left corner of the cell that shows `s`.
pub open spec fn spec_display_xy(s: Square, invert: bool) -> (u32, u32) {
    spec_square_to_xy(spec_display(s, invert))
}

/// Centre of the cell that shows `s`.
pub open spec fn spec_display_center(s: Square, invert: bool) -> (u32, u32) {
    let (x, y) = spec_display_xy(s, invert);
    ((x + 50) as u32, (y + 50) as u32)
}

/// The square as it is placed in the unturned frame.
pub fn display(s: Square, invert: bool) -> (d: Square)
    requires
        s.wf(),
    ensures
        d == spec_display(s, invert),
        d.wf(),
{
    if invert { s.inverted() } else { s }
}

/// Top left corner of the cell of `s` in the unturned frame.
pub fn square_to_xy(s: Square) -> (xy: (u32, u32))
    requires
        s.wf(),
    ensures
        xy == spec_square_to_xy(s),
        xy.0 <= 700 && xy.1 <= 700,
{
    (s.file as u32 * FIELD_SIZE, (7 - s.rank) as u32 * FIELD_SIZE)
}

/// The square of the unturned frame under cell `(col, row)`. The row must lie
/// on the board; the column wraps as the board library's `File::from_index` does.
pub fn square_under(col: u32, row: u32) -> (s: Square)
    requires
        row <= 7,
    ensures
        s == spec_square_under(col, row),
        s.wf(),
{
    Square { rank: (7 - row) as u8, file: (col % 8) as u8 }
}

/// The square under the mouse when it is in cell `(col, row)`.
pub fn hovered_square(col: u32, row: u32, invert: bool) -> (s: Square)
    requires
        row <= 7,
    ensures
        s == spec_hovered_square(col, row, invert),
        s.wf(),
{
    display(square_under(col, row), invert)
}

/// The square drawn in cell `(x, y)`.
pub fn cell_square(x: u32, y: u32, invert: bool) -> (s: Square)
    requires
        x < 8,
        y < 8,
    ensures
        s == spec_cell_square(x, y, invert),
        s.wf(),
{
    if invert {
        Square { rank: y as u8, file: (7 - x) as u8 }
    } else {
        Square { rank: (7 - y) as u8, file: x as u8 }
    }
}

/// Whether cell `(x, y)` is drawn in the light colour.
pub fn cell_is_light(x: u32, y: u32) -> (light: bool)
    requires
        x < 8,
        y < 8,
    ensures
        light == spec_cell_is_light(x, y),
{
    (x + y) % 2 == 0
}

/// Top left corner of the cell that shows `s`.
pub fn display_xy(s: Square, invert: bool) -> (xy: (u32, u32))
    requires
        s.wf(),
    ensures
        xy == spec_display_xy(s, invert),
        xy.0 <= 700 && xy.1 <= 700,
{
    square_to_xy(display(s, invert))
}

/// Centre of the cell that shows `s`.
pub fn display_center(s: Square, invert: bool) -> (c: (u32, u32))
    requires
        s.wf(),
    ensures
        c == spec_display_center(s, invert),
        c.0 <= 750 && c.1 <= 750,
{
    let (x, y) = display_xy(s, invert);
    (x + FIELD_SIZE / 2, y + FIELD_SIZE / 2)
}

/// Width and height in pixels of the window: the board, the evaluation bar and
/// the side panel side by side.
pub fn window_size() -> (wh: (u32, u32))
    ensures
        wh.0 == 8 * FIELD_SIZE + EVAL_BAR_W + UI_WIDTH,
        wh.1 == 8 * FIELD_SIZE,
{
    (8 * FIELD_SIZE + EVAL_BAR_W + UI_WIDTH, 8 * FIELD_SIZE)
}

} // verus!
