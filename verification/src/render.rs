//! What the board shows: the cells, the best-move arrow, the marks on the
//! destinations of the moves on offer, and the promotion menu.
use vstd::prelude::*;
use crate::square::Square;
use crate::pieces::{all_wf, Move, Piece};
use crate::gui::{GuiState, MoveCommand};
use crate::geometry::{
    cell_is_light, cell_square, display_center, display_xy, spec_cell_is_light,
    spec_cell_square, spec_display_center, spec_display_xy, FIELD_SIZE,
};

verus! {

/// Where the piece on a square is drawn.
#[derive(Clone, Copy, PartialEq, Eq, Structural, Debug)]
pub enum PieceDraw {
    /// Not at all: the square is empty or pieces are hidden.
    Hidden,
    /// In its cell.
    InCell,
    /// Under the mouse, centred on it: the piece is being dragged.
    AtMouse,
}

/// How one cell of the board is drawn.
#[derive(Clone, Copy, PartialEq, Eq, Structural, Debug)]
pub struct CellView {
    /// The square shown in the cell.
    pub square: Square,
    /// Top left corner of the cell in pixels.
    pub x: u32,
    pub y: u32,
    /// Light (or dark) background.
    pub light: bool,
    /// Outline it as the square under the mouse.
    pub hover_outline: bool,
    /// Outline it as the square the dragged piece comes from.
    pub drag_outline: bool,
    /// Outline it as a square of the last move.
    pub last_move_outline: bool,
    pub piece: PieceDraw,
    /// Write the square's name in the cell.
    pub show_name: bool,
}

/// The cell `(x, y)` as the state shows it. `hovered` is the square under the
/// mouse, `mouse_in_board` whether the mouse is over the board, `occupied`
/// whether a piece stands on the cell's square and `last_move` the last move played.
pub open spec fn spec_board_cell(
    s: GuiState,
    x: u32,
    y: u32,
    hovered: Square,
    mouse_in_board: bool,
    occupied: bool,
    last_move: Option<Move>,
) -> CellView {
    let sq = spec_cell_square(x, y, s.invert);
    CellView {
        square: sq,
        x: (x * 100) as u32,
        y: (y * 100) as u32,
        light: spec_cell_is_light(x, y),
        hover_outline: sq == hovered && mouse_in_board,
        drag_outline: s.dragged_piece_square == Some(sq),
        last_move_outline: match last_move {
            Some(m) => m.source == sq || m.dest == sq,
            None => false,
        },
        piece: if s.draw_pieces && occupied {
            if s.dragged_piece_square == Some(sq) {
                PieceDraw::AtMouse
            } else {
                PieceDraw::InCell
            }
        } else {
            PieceDraw::Hidden
        },
        show_name: s.draw_square_names,
    }
}

/// The arrow of the background evaluation's best move, from the centre of the
/// cell of its source to the centre of the cell of its destination.
pub open spec fn spec_best_move_arrow(s: GuiState) -> Option<((u32, u32), (u32, u32))> {
    match s.bg_eval_best_move {
        Some(m) => if s.bg_eval {
            Some((spec_display_center(m.source, s.invert), spec_display_center(m.dest, s.invert)))
        } else {
            None
        },
        None => None,
    }
}

/// The `k`-th square (1 to 4) from the promotion square `dest` towards the
/// middle of the board, on the same file.
pub open spec fn spec_promotion_square(dest: Square, k: int) -> Square {
    Square {
        rank: (if dest.rank == 0 { dest.rank + k } else { dest.rank - k }) as u8,
        file: dest.file,
    }
}

/// The pieces of the promotion menu, in the order of their squares.
pub open spec fn spec_promotion_piece(k: int) -> Piece {
    if k == 1 {
        Piece::Queen
    } else if k == 2 {
        Piece::Rook
    } else if k == 3 {
        Piece::Bishop
    } else {
        Piece::Knight
    }
}

/// A promotion square from which four steps towards the middle stay on the board.
pub open spec fn promotion_dest_ok(dest: Square) -> bool {
    dest.wf() && (dest.rank == 0 || dest.rank >= 4)
}

/// The piece chosen by clicking `hovered` in the promotion menu of `dest`.
pub open spec fn spec_promotion_choice(dest: Square, hovered: Square) -> Option<Piece> {
    if hovered == spec_promotion_square(dest, 1) {
        Some(Piece::Queen)
    } else if hovered == spec_promotion_square(dest, 2) {
        Some(Piece::Rook)
    } else if hovered == spec_promotion_square(dest, 3) {
        Some(Piece::Bishop)
    } else if hovered == spec_promotion_square(dest, 4) {
        Some(Piece::Knight)
    } else {
        None
    }
}

/// The promotion menu of `pawn_move` was clicked over `hovered`. Choosing a
/// piece completes the player's move: as after any move of the player, the
/// engine answers in the next frame when auto-respond is on.
pub open spec fn spec_after_promotion_click(s: GuiState, pawn_move: Move, hovered: Square) -> (
    GuiState,
    Option<MoveCommand>,
) {
    match spec_promotion_choice(pawn_move.dest, hovered) {
        Some(p) => {
            let (s1, d) = s.spec_restart_if_evaluating();
            (
                GuiState { engine_move_next_frame: s.auto_respond, ..s1 },
                Some(
                    MoveCommand {
                        mov: Move { source: pawn_move.source, dest: pawn_move.dest, promotion: Some(p) },
                        restart_eval: d,
                    },
                ),
            )
        },
        None => (s, None),
    }
}

/// The four squares of the promotion menu of `dest`: queen, rook, bishop and
/// knight, from `dest` towards the middle of the board.
pub fn promotion_squares(dest: Square) -> (sqs: (Square, Square, Square, Square))
    requires
        promotion_dest_ok(dest),
    ensures
        sqs.0 == spec_promotion_square(dest, 1),
        sqs.1 == spec_promotion_square(dest, 2),
        sqs.2 == spec_promotion_square(dest, 3),
        sqs.3 == spec_promotion_square(dest, 4),
        sqs.0.wf() && sqs.1.wf() && sqs.2.wf() && sqs.3.wf(),
{
    if dest.rank == 0 {
        let q = dest.up().unwrap();
        let r = q.up().unwrap();
        let b = r.up().unwrap();
        let n = b.up().unwrap();
        (q, r, b, n)
    } else {
        let q = dest.down().unwrap();
        let r = q.down().unwrap();
        let b = r.down().unwrap();
        let n = b.down().unwrap();
        (q, r, b, n)
    }
}

/// The piece chosen by clicking `hovered` in the promotion menu of `dest`.
pub fn promotion_choice(dest: Square, hovered: Square) -> (p: Option<Piece>)
    requires
        promotion_dest_ok(dest),
    ensures
        p == spec_promotion_choice(dest, hovered),
{
    let (q, r, b, n) = promotion_squares(dest);
    if hovered == q {
        Some(Piece::Queen)
    } else if hovered == r {
        Some(Piece::Rook)
    } else if hovered == b {
        Some(Piece::Bishop)
    } else if hovered == n {
        Some(Piece::Knight)
    } else {
        None
    }
}

impl GuiState {
    /// How cell `(x, y)` is drawn; see `spec_board_cell`.
    pub fn board_cell(
        &self,
        x: u32,
        y: u32,
        hovered: Square,
        mouse_in_board: bool,
        occupied: bool,
        last_move: Option<Move>,
    ) -> (cell: CellView)
        requires
            x < 8,
            y < 8,
        ensures
            cell == spec_board_cell(*self, x, y, hovered, mouse_in_board, occupied, last_move),
            cell.square.wf(),
    {
        let sq = cell_square(x, y, self.invert);
        let dragged_here = self.dragged_piece_square == Some(sq);
        let piece = if self.draw_pieces && occupied {
            if dragged_here {
                PieceDraw::AtMouse
            } else {
                PieceDraw::InCell
            }
        } else {
            PieceDraw::Hidden
        };
        let last_move_outline = match last_move {
            Some(m) => m.source == sq || m.dest == sq,
            None => false,
        };
        CellView {
            square: sq,
            x: x * FIELD_SIZE,
            y: y * FIELD_SIZE,
            light: cell_is_light(x, y),
            hover_outline: sq == hovered && mouse_in_board,
            drag_outline: dragged_here,
            last_move_outline,
            piece,
            show_name: self.draw_square_names,
        }
    }

    /// The arrow of the background evaluation's best move, if the evaluation is
    /// on and has found one.
    pub fn best_move_arrow(&self) -> (arrow: Option<((u32, u32), (u32, u32))>)
        requires
            self.wf(),
        ensures
            arrow == spec_best_move_arrow(*self),
    {
        match self.bg_eval_best_move {
            Some(m) => if self.bg_eval {
                Some((display_center(m.source, self.invert), display_center(m.dest, self.invert)))
            } else {
                None
            },
            None => None,
        }
    }

    /// The centres of the cells of the destinations of `moves`, where the
    /// circles marking the moves on offer are drawn.
    pub fn move_indicator_centers(&self, moves: &Vec<Move>) -> (centers: Vec<(u32, u32)>)
        requires
            all_wf(moves@),
        ensures
            centers@.len() == moves@.len(),
            forall|i: int|
                0 <= i < moves@.len() ==> #[trigger] centers@[i] == spec_display_center(
                    moves@[i].dest,
                    self.invert,
                ),
    {
        let mut centers: Vec<(u32, u32)> = Vec::new();
        let mut i: usize = 0;
        while i < moves.len()
            invariant
                i <= moves.len(),
                all_wf(moves@),
                centers@.len() == i,
                forall|j: int|
                    0 <= j < i ==> #[trigger] centers@[j] == spec_display_center(
                        moves@[j].dest,
                        self.invert,
                    ),
            decreases moves.len() - i,
        {
            assert(moves@[i as int].wf());
            centers.push(display_center(moves[i].dest, self.invert));
            i += 1;
        }
        centers
    }

    /// Where the four pieces of the promotion menu of `pawn_move` are drawn:
    /// the top left corner of each cell and the piece drawn there.
    pub fn promotion_menu_items(&self, pawn_move: Move) -> (items: Vec<(u32, u32, Piece)>)
        requires
            promotion_dest_ok(pawn_move.dest),
        ensures
            items@.len() == 4,
            forall|k: int|
                1 <= k <= 4 ==> {
                    let xy = spec_display_xy(spec_promotion_square(pawn_move.dest, k), self.invert);
                    #[trigger] items@[k - 1] == (xy.0, xy.1, spec_promotion_piece(k))
                },
    {
        let (q, r, b, n) = promotion_squares(pawn_move.dest);
        let mut items: Vec<(u32, u32, Piece)> = Vec::new();
        let (x, y) = display_xy(q, self.invert);
        items.push((x, y, Piece::Queen));
        let (x, y) = display_xy(r, self.invert);
        items.push((x, y, Piece::Rook));
        let (x, y) = display_xy(b, self.invert);
        items.push((x, y, Piece::Bishop));
        let (x, y) = display_xy(n, self.invert);
        items.push((x, y, Piece::Knight));
        items
    }

    /// The promotion menu of `pawn_move` was clicked over `hovered`. If a piece
    /// was chosen, the move with that promotion is to be played, and the
    /// background evaluation restarts after it if it is on; the engine answers
    /// in the next frame if auto-respond is on.
    pub fn promotion_click(&mut self, pawn_move: Move, hovered: Square) -> (cmd: Option<MoveCommand>)
        requires
            old(self).wf(),
            promotion_dest_ok(pawn_move.dest),
        ensures
            (*final(self), cmd) == spec_after_promotion_click(*old(self), pawn_move, hovered),
            final(self).wf(),
    {
        match promotion_choice(pawn_move.dest, hovered) {
            Some(p) => {
                let auto = self.auto_respond;
                let d = self.restart_if_evaluating();
                self.engine_move_next_frame = auto;
                Some(
                    MoveCommand {
                        mov: Move::new(pawn_move.source, pawn_move.dest, Some(p)),
                        restart_eval: d,
                    },
                )
            },
            None => None,
        }
    }
}

} // verus!
