//! Properties that hold across the functions of the library.
use vstd::prelude::*;
use crate::square::Square;
use crate::pieces::{Color, Move};
use crate::geometry::{
    spec_cell_is_light, spec_cell_square, spec_display_xy, spec_hovered_square,
};
use crate::gui::{first_move_to, GuiState};
use crate::render::{
    promotion_dest_ok, spec_after_promotion_click, spec_promotion_choice, spec_promotion_piece, spec_promotion_square,
};

verus! {

/// Turning the board round twice gives back the square one started from.
pub proof fn lemma_invert_involutive(s: Square)
    requires
        s.wf(),
    ensures
        s.spec_inverted().wf(),
        s.spec_inverted().spec_inverted() == s,
{
}

/// One rank up and one rank down undo each other.
pub proof fn lemma_up_down_inverse(s: Square, t: Square)
    requires
        s.wf(),
        t.wf(),
    ensures
        s.spec_up() == Some(t) <==> t.spec_down() == Some(s),
{
}

/// The square under the mouse in a cell is the square drawn in that cell, in
/// either orientation of the board.
pub proof fn lemma_hover_matches_drawing(x: u32, y: u32, invert: bool)
    requires
        x < 8,
        y < 8,
    ensures
        spec_hovered_square(x, y, invert) == spec_cell_square(x, y, invert),
{
}

/// The cell whose corner `display_xy` gives for a square is the cell that shows
/// that square, and the mouse over that cell hovers that square: arrows, move
/// marks and menu pieces placed by `display_xy` sit on the square they mean.
pub proof fn lemma_display_xy_is_drawn_cell(s: Square, invert: bool)
    requires
        s.wf(),
    ensures
        ({
            let (px, py) = spec_display_xy(s, invert);
            &&& px % 100 == 0 && py % 100 == 0
            &&& px / 100 < 8 && py / 100 < 8
            &&& spec_cell_square(px / 100, py / 100, invert) == s
            &&& spec_hovered_square(px / 100, py / 100, invert) == s
        }),
{
}

/// A cell is light exactly when its square is a light square of the chess
/// board (rank and file of different parity, as h1 and a8), whichever way the
/// board is turned.
pub proof fn lemma_shade_follows_square(x: u32, y: u32, invert: bool)
    requires
        x < 8,
        y < 8,
    ensures
        spec_cell_is_light(x, y) <==> ({
            let sq = spec_cell_square(x, y, invert);
            (sq.rank + sq.file) % 2 == 1
        }),
{
}

/// Typing one of the toggle keys ('a', 's', 'p', 'i') twice leaves the state as it was.
pub proof fn lemma_toggle_keys_involutive(s: GuiState, c: char, control_down: bool)
    requires
        c == 'a' || c == 's' || c == 'p' || c == 'i',
    ensures
        s.spec_after_key(c, control_down).0.spec_after_key(c, control_down).0 == s,
        s.spec_after_key(c, control_down).1 == crate::gui::KeyCommand::Nothing,
{
}

/// The move `first_move_to` finds is in the list, goes to the destination,
/// and no earlier move of the list does; when it finds none, no move goes there.
pub proof fn lemma_first_move_to(moves: Seq<Move>, dest: Square)
    ensures
        first_move_to(moves, dest) matches Some(m) ==> exists|i: int|
            0 <= i < moves.len() && moves[i] == m && m.dest == dest && forall|j: int|
                0 <= j < i ==> (#[trigger] moves[j]).dest != dest,
        first_move_to(moves, dest) is None ==> forall|j: int|
            0 <= j < moves.len() ==> (#[trigger] moves[j]).dest != dest,
    decreases moves.len(),
{
    if moves.len() > 0 && moves[0].dest != dest {
        let t = moves.drop_first();
        lemma_first_move_to(t, dest);
        if let Some(m) = first_move_to(t, dest) {
            let i = choose|i: int|
                0 <= i < t.len() && t[i] == m && m.dest == dest && forall|j: int|
                    0 <= j < i ==> (#[trigger] t[j]).dest != dest;
            assert(moves[i + 1] == m);
            assert forall|j: int| 0 <= j < i + 1 implies (#[trigger] moves[j]).dest != dest by {
                if j > 0 {
                    assert(moves[j] == t[j - 1]);
                }
            }
        } else {
            assert forall|j: int| 0 <= j < moves.len() implies (#[trigger] moves[j]).dest
                != dest by {
                if j > 0 {
                    assert(moves[j] == t[j - 1]);
                }
            }
        }
    }
}

/// A click plays a move only when it is one of the moves on offer, goes to the
/// clicked square and promotes nothing; a promoting move is held back until a
/// piece is chosen. A click that does not pick a piece of the side to move
/// withdraws the moves on offer, and only such a click plays a move.
pub proof fn lemma_click_plays_offered_move(
    s: GuiState,
    hovered: Square,
    hovered_color: Option<Color>,
    side_to_move: Color,
    legal_from_hovered: Seq<Move>,
    clickable: Seq<Move>,
    pending: Option<Move>,
)
    ensures
        ({
            let (s2, offered, pending2, cmd) = s.spec_left_click(
                hovered,
                hovered_color,
                side_to_move,
                legal_from_hovered,
                clickable,
                pending,
            );
            &&& (cmd matches Some(c) ==> clickable.contains(c.mov) && c.mov.dest == hovered
                && c.mov.promotion is None && hovered_color != Some(side_to_move))
            &&& (pending2 != pending ==> (pending2 matches Some(p) && clickable.contains(p)
                && p.dest == hovered && p.promotion is Some))
            &&& (hovered_color != Some(side_to_move) ==> offered == Seq::<Move>::empty())
            &&& (hovered_color == Some(side_to_move) ==> offered == legal_from_hovered && cmd is None)
        }),
{
    lemma_first_move_to(clickable, hovered);
}

/// The four squares of a promotion menu are distinct squares of the board, and
/// clicking the square of a piece chooses that piece.
pub proof fn lemma_promotion_menu_unambiguous(dest: Square, k: int, l: int)
    requires
        promotion_dest_ok(dest),
        1 <= k <= 4,
        1 <= l <= 4,
    ensures
        spec_promotion_square(dest, k).wf(),
        k != l ==> spec_promotion_square(dest, k) != spec_promotion_square(dest, l),
        spec_promotion_choice(dest, spec_promotion_square(dest, k)) == Some(spec_promotion_piece(k)),
{
}

/// Every restart of the background evaluation starts at depth one, and every
/// report it sends while it is on makes the next search one ply deeper.
pub proof fn lemma_bg_eval_depth(s: GuiState, report: crate::gui::SearchReport, side_to_move: Color)
    requires
        s.bg_eval,
    ensures
        s.spec_restart_if_evaluating() == (s.spec_restarted(), Some(1usize)),
        s.spec_restarted().bg_eval_depth == 1,
        s.spec_after_bg_report(report, side_to_move).0.bg_eval_depth == s.bg_eval_depth + 1
            || s.bg_eval_depth == usize::MAX,
        s.spec_after_bg_report(report, side_to_move).1 == Some(
            s.spec_after_bg_report(report, side_to_move).0.bg_eval_depth,
        ),
{
}

/// After every move the player completes, by a click or from the promotion
/// menu, the engine is asked to move in the next frame exactly when
/// auto-respond is on.
pub proof fn lemma_player_move_asks_reply(
    s: GuiState,
    hovered: Square,
    hovered_color: Option<Color>,
    side_to_move: Color,
    legal_from_hovered: Seq<Move>,
    clickable: Seq<Move>,
    pending: Option<Move>,
    pawn_move: Move,
)
    ensures
        ({
            let r = s.spec_left_click(
                hovered,
                hovered_color,
                side_to_move,
                legal_from_hovered,
                clickable,
                pending,
            );
            r.3 is Some ==> r.0.engine_move_next_frame == s.auto_respond
        }),
        ({
            let r = spec_after_promotion_click(s, pawn_move, hovered);
            r.1 is Some ==> r.0.engine_move_next_frame == s.auto_respond
        }),
{
}

/// Starting a new game ('r') restarts the background evaluation at depth one
/// when it is on, so that it evaluates the new position; otherwise the state
/// is left as it was.
pub proof fn lemma_reset_restarts_eval(s: GuiState, control_down: bool)
    ensures
        s.bg_eval ==> s.spec_after_key('r', control_down) == (
            s.spec_restarted(),
            crate::gui::KeyCommand::ResetGame(Some(1usize)),
        ),
        !s.bg_eval ==> s.spec_after_key('r', control_down) == (
            s,
            crate::gui::KeyCommand::ResetGame(None),
        ),
{
}

} // verus!
