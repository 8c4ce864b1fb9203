//! What each interface event does, stated over its inputs and results.
use vstd::prelude::*;
use crate::square::Square;
use crate::pieces::{Color, Move};
use crate::geometry::spec_cell_square;
use crate::gui::{
    first_move_to, spec_frame_input, spec_search_millis, EvalCommand, FrameInput, GameCommand,
    GuiState, KeyCommand, MoveCommand, SearchReport, UiButton,
};
use crate::render::{spec_board_cell, PieceDraw};
use crate::laws::lemma_first_move_to;

verus! {

/// A restart of the background evaluation, when it is on, sets its depth to
/// one and asks for a search at depth one, changing nothing else; when it is
/// off, nothing changes and nothing is started.
pub proof fn lemma_restart_law(s: GuiState)
    ensures
        s.bg_eval ==> s.spec_restart_if_evaluating() == (
            GuiState { bg_eval_depth: 1, ..s },
            Some(1usize),
        ),
        !s.bg_eval ==> s.spec_restart_if_evaluating() == (s, None::<usize>),
{
}

/// The undo and redo buttons ask the game for that history step and restart
/// the evaluation on the new position when it is on; the Go button only asks
/// the engine to move in the next frame.
pub proof fn lemma_button_law(s: GuiState)
    ensures
        s.spec_after_button(UiButton::Go) == (
            GuiState { engine_move_next_frame: true, ..s },
            GameCommand::Nothing,
            None::<usize>,
        ),
        s.bg_eval ==> s.spec_after_button(UiButton::Undo) == (
            GuiState { bg_eval_depth: 1, ..s },
            GameCommand::Undo,
            Some(1usize),
        ),
        s.bg_eval ==> s.spec_after_button(UiButton::Redo) == (
            GuiState { bg_eval_depth: 1, ..s },
            GameCommand::Redo,
            Some(1usize),
        ),
        !s.bg_eval ==> s.spec_after_button(UiButton::Undo) == (s, GameCommand::Undo, None::<usize>),
        !s.bg_eval ==> s.spec_after_button(UiButton::Redo) == (s, GameCommand::Redo, None::<usize>),
{
}

/// The evaluation checkbox: unticked, the evaluation is told to stop; ticked
/// anew, it restarts at depth one; left ticked, it runs on. Nothing else changes.
pub proof fn lemma_eval_checkbox_law(s: GuiState, prev: bool)
    ensures
        !s.bg_eval ==> s.spec_after_eval_checkbox(prev) == (s, EvalCommand::Stop),
        s.bg_eval && !prev ==> s.spec_after_eval_checkbox(prev) == (
            GuiState { bg_eval_depth: 1, ..s },
            EvalCommand::Restart(1),
        ),
        s.bg_eval && prev ==> s.spec_after_eval_checkbox(prev) == (s, EvalCommand::Keep),
{
}

/// Each toggle key flips its own setting and nothing else; the other keys
/// change nothing but the engine-move request ('m') or the evaluation restart
/// of a new game ('r'), and answer with their command.
pub proof fn lemma_key_law(s: GuiState, control_down: bool)
    ensures
        s.spec_after_key('a', control_down) == (
            GuiState { auto_respond: !s.auto_respond, ..s },
            KeyCommand::Nothing,
        ),
        s.spec_after_key('s', control_down) == (
            GuiState { draw_square_names: !s.draw_square_names, ..s },
            KeyCommand::Nothing,
        ),
        s.spec_after_key('p', control_down) == (
            GuiState { draw_pieces: !s.draw_pieces, ..s },
            KeyCommand::Nothing,
        ),
        s.spec_after_key('i', control_down) == (
            GuiState { invert: !s.invert, ..s },
            KeyCommand::Nothing,
        ),
        s.spec_after_key('m', control_down) == (
            GuiState { engine_move_next_frame: true, ..s },
            KeyCommand::Nothing,
        ),
        s.spec_after_key('f', control_down) == (s, KeyCommand::PrintFen),
        s.spec_after_key('t', control_down) == (s, KeyCommand::AnalyzeGame),
        s.spec_after_key('z', control_down) == (
            s,
            if control_down { KeyCommand::Undo } else { KeyCommand::Nothing },
        ),
        s.spec_after_key('y', control_down) == (
            s,
            if control_down { KeyCommand::Redo } else { KeyCommand::Nothing },
        ),
        s.spec_after_key('r', control_down) == (
            GuiState { bg_eval_depth: if s.bg_eval { 1 } else { s.bg_eval_depth }, ..s },
            KeyCommand::ResetGame(if s.bg_eval { Some(1usize) } else { None }),
        ),
{
}

/// Any other key does nothing.
pub proof fn lemma_other_keys_law(s: GuiState, c: char, control_down: bool)
    requires
        c != 'a' && c != 's' && c != 'p' && c != 'i' && c != 'm' && c != 'f' && c != 't' && c
            != 'z' && c != 'y' && c != 'r',
    ensures
        s.spec_after_key(c, control_down) == (s, KeyCommand::Nothing),
{
}

/// A report of the background evaluation is kept from white's side: as it is
/// when white is to move, negated when black is. Its move becomes the best
/// move, and a running evaluation goes on one ply deeper.
pub proof fn lemma_bg_report_law(s: GuiState, report: SearchReport, side_to_move: Color)
    requires
        side_to_move == Color::Black ==> report.deep_eval != i32::MIN,
        s.bg_eval ==> s.bg_eval_depth < usize::MAX,
    ensures
        ({
            let alpha: i32 = if side_to_move == Color::White {
                report.deep_eval
            } else {
                (0 - report.deep_eval) as i32
            };
            let kept = GuiState {
                last_alpha: Some(alpha),
                bg_eval_best_move: Some(report.best_move),
                ..s
            };
            &&& s.bg_eval ==> s.spec_after_bg_report(report, side_to_move) == (
                GuiState { bg_eval_depth: (s.bg_eval_depth + 1) as usize, ..kept },
                Some((s.bg_eval_depth + 1) as usize),
            )
            &&& !s.bg_eval ==> s.spec_after_bg_report(report, side_to_move) == (kept, None::<usize>)
        }),
        side_to_move == Color::White ==> s.spec_after_bg_report(report, side_to_move).0.last_alpha
            == Some(report.deep_eval),
        side_to_move == Color::Black ==> s.spec_after_bg_report(report, side_to_move).0.last_alpha
            == Some((0 - report.deep_eval) as i32),
{
}

/// An engine move keeps the figures of its report, stops asking the engine to
/// move and restarts a running evaluation at depth one.
pub proof fn lemma_engine_move_law(s: GuiState, report: Option<SearchReport>)
    ensures
        ({
            let kept = match report {
                Some(r) => GuiState {
                    last_alpha: Some(r.deep_eval),
                    last_depth: Some(r.reached_depth),
                    last_millis: Some(r.millis),
                    engine_move_next_frame: false,
                    ..s
                },
                None => GuiState { engine_move_next_frame: false, ..s },
            };
            &&& s.bg_eval ==> s.spec_after_engine_move(report) == (
                GuiState { bg_eval_depth: 1, ..kept },
                Some(1usize),
            )
            &&& !s.bg_eval ==> s.spec_after_engine_move(report) == (kept, None::<usize>)
        }),
{
}

/// A click on a piece of the side to move picks it up: its legal moves are
/// offered, it becomes the dragged piece unless one is dragged already, and
/// nothing is played.
pub proof fn lemma_click_own_piece_law(
    s: GuiState,
    hovered: Square,
    side_to_move: Color,
    legal_from_hovered: Seq<Move>,
    clickable: Seq<Move>,
    pending: Option<Move>,
)
    ensures
        s.spec_left_click(
            hovered,
            Some(side_to_move),
            side_to_move,
            legal_from_hovered,
            clickable,
            pending,
        ) == (
            GuiState {
                dragged_piece_square: if s.dragged_piece_square is None {
                    Some(hovered)
                } else {
                    s.dragged_piece_square
                },
                ..s
            },
            legal_from_hovered,
            pending,
            None::<MoveCommand>,
        ),
{
}

/// Any other click (on an empty square or on a piece of the other side, a
/// capture) plays the first move on offer that goes to the clicked square,
/// when it promotes nothing: the evaluation restarts at depth one if it is
/// on, and the engine is asked to answer if auto-respond is on.
pub proof fn lemma_click_plays_move_law(
    s: GuiState,
    hovered: Square,
    hovered_color: Option<Color>,
    side_to_move: Color,
    legal_from_hovered: Seq<Move>,
    clickable: Seq<Move>,
    pending: Option<Move>,
    i: int,
)
    requires
        hovered_color != Some(side_to_move),
        0 <= i < clickable.len(),
        clickable[i].dest == hovered,
        clickable[i].promotion is None,
        forall|j: int| 0 <= j < i ==> (#[trigger] clickable[j]).dest != hovered,
    ensures
        s.spec_left_click(
            hovered,
            hovered_color,
            side_to_move,
            legal_from_hovered,
            clickable,
            pending,
        ) == (
            GuiState {
                bg_eval_depth: if s.bg_eval { 1 } else { s.bg_eval_depth },
                engine_move_next_frame: s.auto_respond,
                ..s
            },
            Seq::<Move>::empty(),
            pending,
            Some(
                MoveCommand {
                    mov: clickable[i],
                    restart_eval: if s.bg_eval { Some(1usize) } else { None },
                },
            ),
        ),
{
    lemma_first_move_index(clickable, hovered, i);
}

/// Such a click on the destination of a promoting move on offer holds that
/// move back for the choice of a piece; nothing else changes but the offer,
/// which is withdrawn.
pub proof fn lemma_click_promotion_law(
    s: GuiState,
    hovered: Square,
    hovered_color: Option<Color>,
    side_to_move: Color,
    legal_from_hovered: Seq<Move>,
    clickable: Seq<Move>,
    pending: Option<Move>,
    i: int,
)
    requires
        hovered_color != Some(side_to_move),
        0 <= i < clickable.len(),
        clickable[i].dest == hovered,
        clickable[i].promotion is Some,
        forall|j: int| 0 <= j < i ==> (#[trigger] clickable[j]).dest != hovered,
    ensures
        s.spec_left_click(
            hovered,
            hovered_color,
            side_to_move,
            legal_from_hovered,
            clickable,
            pending,
        ) == (s, Seq::<Move>::empty(), Some(clickable[i]), None::<MoveCommand>),
{
    lemma_first_move_index(clickable, hovered, i);
}

/// Such a click where no move on offer goes only withdraws the offer.
pub proof fn lemma_click_elsewhere_law(
    s: GuiState,
    hovered: Square,
    hovered_color: Option<Color>,
    side_to_move: Color,
    legal_from_hovered: Seq<Move>,
    clickable: Seq<Move>,
    pending: Option<Move>,
)
    requires
        hovered_color != Some(side_to_move),
        forall|j: int| 0 <= j < clickable.len() ==> (#[trigger] clickable[j]).dest != hovered,
    ensures
        s.spec_left_click(
            hovered,
            hovered_color,
            side_to_move,
            legal_from_hovered,
            clickable,
            pending,
        ) == (s, Seq::<Move>::empty(), pending, None::<MoveCommand>),
{
    lemma_first_move_to(clickable, hovered);
    if first_move_to(clickable, hovered) is Some {
        let m = first_move_to(clickable, hovered)->0;
        let k = choose|k: int|
            0 <= k < clickable.len() && clickable[k] == m && m.dest == hovered && forall|j: int|
                0 <= j < k ==> (#[trigger] clickable[j]).dest != hovered;
        assert(clickable[k].dest != hovered);
    }
}

/// The first move of a list that goes to a square is the one at the first
/// index whose move goes there.
pub proof fn lemma_first_move_index(moves: Seq<Move>, dest: Square, i: int)
    requires
        0 <= i < moves.len(),
        moves[i].dest == dest,
        forall|j: int| 0 <= j < i ==> (#[trigger] moves[j]).dest != dest,
    ensures
        first_move_to(moves, dest) == Some(moves[i]),
{
    lemma_first_move_to(moves, dest);
    if first_move_to(moves, dest) is Some {
        let m = first_move_to(moves, dest)->0;
        let k = choose|k: int|
            0 <= k < moves.len() && moves[k] == m && m.dest == dest && forall|j: int|
                0 <= j < k ==> (#[trigger] moves[j]).dest != dest;
        if k < i {
            assert(moves[k].dest != dest);
        } else if k > i {
            assert(moves[i].dest != dest);
        }
    } else {
        assert(moves[i].dest != dest);
    }
}

/// How a cell is drawn, over the square it shows: it is outlined as hovered
/// when that square is under the mouse on the board, as dragged when that
/// square is the dragged piece's, and as part of the last move when that
/// square is the move's source or destination. Its piece is hidden when the
/// square is empty or pieces are hidden, follows the mouse when it is dragged,
/// and stands in the cell otherwise; its name shows when names are on.
pub proof fn lemma_board_cell_law(
    s: GuiState,
    x: u32,
    y: u32,
    hovered: Square,
    mouse_in_board: bool,
    occupied: bool,
    last_move: Option<Move>,
)
    requires
        x < 8,
        y < 8,
    ensures
        ({
            let c = spec_board_cell(s, x, y, hovered, mouse_in_board, occupied, last_move);
            &&& c.square == spec_cell_square(x, y, s.invert)
            &&& c.x == 100 * x && c.y == 100 * y
            &&& c.light <==> (c.square.rank + c.square.file) % 2 == 1
            &&& c.hover_outline <==> (c.square == hovered && mouse_in_board)
            &&& c.drag_outline <==> s.dragged_piece_square == Some(c.square)
            &&& (last_move is None ==> !c.last_move_outline)
            &&& (last_move matches Some(m) ==> (c.last_move_outline <==> (c.square == m.source
                || c.square == m.dest)))
            &&& (c.piece == PieceDraw::Hidden <==> !(s.draw_pieces && occupied))
            &&& (c.piece == PieceDraw::AtMouse <==> (s.draw_pieces && occupied
                && s.dragged_piece_square == Some(c.square)))
            &&& c.show_name == s.draw_square_names
        }),
{
}

/// The frame's input: while the engine is to move, it moves and the input
/// waits; otherwise the keyboard is read, and the mouse only over the board.
pub proof fn lemma_frame_input_law(s: GuiState, mouse_in_board: bool)
    ensures
        s.engine_move_next_frame ==> spec_frame_input(s, mouse_in_board) == FrameInput::EngineMove,
        !s.engine_move_next_frame && mouse_in_board ==> spec_frame_input(s, mouse_in_board)
            == FrameInput::KeysAndMouse,
        !s.engine_move_next_frame && !mouse_in_board ==> spec_frame_input(s, mouse_in_board)
            == FrameInput::KeysOnly,
{
}

/// The search time: with no preset pressed it is the slider's; a pressed
/// preset sets its own number of seconds, and a later preset on the panel wins
/// over an earlier one.
pub proof fn lemma_search_time_law(slider: u128, p1: bool, p3: bool, p5: bool, p10: bool)
    ensures
        !p1 && !p3 && !p5 && !p10 ==> spec_search_millis(slider, p1, p3, p5, p10) == slider,
        p10 ==> spec_search_millis(slider, p1, p3, p5, p10) == 10000,
        p5 && !p10 ==> spec_search_millis(slider, p1, p3, p5, p10) == 5000,
        p3 && !p5 && !p10 ==> spec_search_millis(slider, p1, p3, p5, p10) == 3000,
        p1 && !p3 && !p5 && !p10 ==> spec_search_millis(slider, p1, p3, p5, p10) == 1000,
{
}

} // verus!
