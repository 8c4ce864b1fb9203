//! Where squares, arrows, marks and menu pieces land on the screen, stated
//! over squares, cells and pixels.
use vstd::prelude::*;
use crate::square::Square;
use crate::pieces::{Move, Piece};
use crate::geometry::{
    spec_cell_square, spec_display_center, spec_display_xy, spec_hovered_square,
    spec_square_to_xy, spec_square_under,
};
use crate::gui::{spec_analysis_seconds, GuiState, MoveCommand};
use crate::render::{
    promotion_dest_ok, spec_after_promotion_click, spec_best_move_arrow, spec_promotion_choice,
    spec_promotion_piece, spec_promotion_square,
};

verus! {

/// Turning the board maps every square to the square of the opposite rank
/// and file, and no square to itself.
pub proof fn lemma_inverted_law(s: Square)
    requires
        s.wf(),
    ensures
        s.spec_inverted().rank + s.rank == 7,
        s.spec_inverted().file + s.file == 7,
        s.spec_inverted() != s,
{
}

/// One rank up keeps the file and adds one to the rank, and exists exactly
/// below the eighth rank; one rank down likewise above the first.
pub proof fn lemma_up_down_law(s: Square)
    requires
        s.wf(),
    ensures
        s.spec_up() is None <==> s.rank == 7,
        s.spec_down() is None <==> s.rank == 0,
        s.spec_up() matches Some(t) ==> t.rank == s.rank + 1 && t.file == s.file,
        s.spec_down() matches Some(t) ==> t.rank + 1 == s.rank && t.file == s.file,
{
}

/// In the unturned frame a1 is the bottom left cell, a file to the right is a
/// cell further right, and a rank higher is a cell further up.
pub proof fn lemma_square_to_xy_law(s: Square, t: Square)
    requires
        s.wf(),
        t.wf(),
    ensures
        spec_square_to_xy(Square { rank: 0, file: 0 }) == (0u32, 700u32),
        spec_square_to_xy(t).0 - spec_square_to_xy(s).0 == 100 * (t.file - s.file),
        spec_square_to_xy(s).1 - spec_square_to_xy(t).1 == 100 * (t.rank - s.rank),
{
}

/// Turning the board mirrors every square's cell through the board's centre.
pub proof fn lemma_turned_display_law(s: Square)
    requires
        s.wf(),
    ensures
        spec_display_xy(s, false) == spec_square_to_xy(s),
        spec_display_xy(s, true).0 + spec_display_xy(s, false).0 == 700,
        spec_display_xy(s, true).1 + spec_display_xy(s, false).1 == 700,
{
}

/// The centre of a square's cell lies half a cell right of and below its
/// corner, inside the cell that shows the square.
pub proof fn lemma_display_center_law(s: Square, invert: bool)
    requires
        s.wf(),
    ensures
        ({
            let c = spec_display_center(s, invert);
            let xy = spec_display_xy(s, invert);
            &&& c.0 == xy.0 + 50 && c.1 == xy.1 + 50
            &&& c.0 % 100 == 50 && c.1 % 100 == 50
            &&& spec_cell_square(c.0 / 100, c.1 / 100, invert) == s
        }),
{
}

/// The mouse over the cell where a square is drawn in the unturned frame is
/// over that square; columns right of the board wrap every eight cells; and
/// turning the board turns the hovered square.
pub proof fn lemma_square_under_law(s: Square, col: u32, row: u32)
    requires
        s.wf(),
        row <= 7,
        col <= u32::MAX - 8,
    ensures
        spec_square_under(spec_square_to_xy(s).0 / 100, spec_square_to_xy(s).1 / 100) == s,
        spec_square_under((col + 8) as u32, row) == spec_square_under(col, row),
        spec_hovered_square(col, row, false) == spec_square_under(col, row),
        spec_hovered_square(col, row, true) == spec_square_under(col, row).spec_inverted(),
{
}

/// The turned board shows in each cell the turned square of the unturned board.
pub proof fn lemma_cell_square_turned_law(x: u32, y: u32)
    requires
        x < 8,
        y < 8,
    ensures
        spec_cell_square(x, y, false).wf(),
        spec_cell_square(x, y, true) == spec_cell_square(x, y, false).spec_inverted(),
        spec_cell_square(x, y, false) == spec_square_under(x, y),
{
}

/// The best-move arrow shows exactly while the evaluation is on and has a
/// best move, and runs from the centre of the cell showing the move's source
/// to the centre of the cell showing its destination.
pub proof fn lemma_best_move_arrow_law(s: GuiState)
    requires
        s.wf(),
    ensures
        spec_best_move_arrow(s) is Some <==> (s.bg_eval && s.bg_eval_best_move is Some),
        spec_best_move_arrow(s) matches Some(a) ==> ({
            let m = s.bg_eval_best_move->0;
            &&& a.0.0 % 100 == 50 && a.0.1 % 100 == 50
            &&& a.1.0 % 100 == 50 && a.1.1 % 100 == 50
            &&& spec_cell_square(a.0.0 / 100, a.0.1 / 100, s.invert) == m.source
            &&& spec_cell_square(a.1.0 / 100, a.1.1 / 100, s.invert) == m.dest
        }),
{
    if let Some(m) = s.bg_eval_best_move {
        lemma_display_center_law(m.source, s.invert);
        lemma_display_center_law(m.dest, s.invert);
    }
}

/// The promotion menu walks from the promotion square towards the middle of
/// the board one rank at a time: up from the first rank, down from the
/// eighth. Its pieces are queen, rook, bishop and knight in that order.
pub proof fn lemma_promotion_menu_law(dest: Square, k: int)
    requires
        promotion_dest_ok(dest),
        1 <= k < 4,
    ensures
        dest.rank == 0 ==> dest.spec_up() == Some(spec_promotion_square(dest, 1)),
        dest.rank == 0 ==> spec_promotion_square(dest, k).spec_up() == Some(
            spec_promotion_square(dest, k + 1),
        ),
        dest.rank != 0 ==> dest.spec_down() == Some(spec_promotion_square(dest, 1)),
        dest.rank != 0 ==> spec_promotion_square(dest, k).spec_down() == Some(
            spec_promotion_square(dest, k + 1),
        ),
        spec_promotion_piece(1) == Piece::Queen,
        spec_promotion_piece(2) == Piece::Rook,
        spec_promotion_piece(3) == Piece::Bishop,
        spec_promotion_piece(4) == Piece::Knight,
{
}

/// A click off the four menu squares chooses nothing.
pub proof fn lemma_promotion_choice_off_menu(dest: Square, hovered: Square)
    requires
        promotion_dest_ok(dest),
        forall|k: int| 1 <= k <= 4 ==> hovered != #[trigger] spec_promotion_square(dest, k),
    ensures
        spec_promotion_choice(dest, hovered) is None,
{
    assert(hovered != spec_promotion_square(dest, 1));
    assert(hovered != spec_promotion_square(dest, 2));
    assert(hovered != spec_promotion_square(dest, 3));
    assert(hovered != spec_promotion_square(dest, 4));
}

/// Choosing a piece from the promotion menu plays the pawn's move with that
/// piece, restarts a running evaluation at depth one and asks the engine to
/// answer when auto-respond is on; choosing nothing changes nothing.
pub proof fn lemma_promotion_click_law(s: GuiState, pawn_move: Move, hovered: Square)
    ensures
        spec_promotion_choice(pawn_move.dest, hovered) matches Some(p) ==> spec_after_promotion_click(
            s,
            pawn_move,
            hovered,
        ) == (
            GuiState {
                bg_eval_depth: if s.bg_eval { 1 } else { s.bg_eval_depth },
                engine_move_next_frame: s.auto_respond,
                ..s
            },
            Some(
                MoveCommand {
                    mov: Move { source: pawn_move.source, dest: pawn_move.dest, promotion: Some(p) },
                    restart_eval: if s.bg_eval { Some(1usize) } else { None },
                },
            ),
        ),
        spec_promotion_choice(pawn_move.dest, hovered) is None ==> spec_after_promotion_click(
            s,
            pawn_move,
            hovered,
        ) == (s, None::<MoveCommand>),
{
}

/// The front end starts with auto-respond, square names, pieces and the
/// background evaluation on, the board unturned, three seconds of search
/// time, the evaluation at depth one, and nothing reported, dragged or asked.
pub proof fn lemma_initial_state_law()
    ensures
        ({
            let s = GuiState::spec_initial();
            &&& s.auto_respond && s.draw_square_names && s.draw_pieces && s.bg_eval
            &&& !s.invert && !s.engine_move_next_frame
            &&& s.thinking_millis == 3000
            &&& s.bg_eval_depth == 1
            &&& s.last_alpha is None && s.last_depth is None && s.last_millis is None
            &&& s.bg_eval_best_move is None && s.dragged_piece_square is None
        }),
{
}

/// The announced analysis time grows by three seconds with every position.
pub proof fn lemma_analysis_seconds_law(n: int)
    requires
        n >= 0,
    ensures
        spec_analysis_seconds(0) == 0,
        spec_analysis_seconds(n + 1) == spec_analysis_seconds(n) + 3,
{
}

} // verus!
