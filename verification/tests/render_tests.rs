use chessian_gui::gui::{GuiState, MoveCommand};
use chessian_gui::pieces::{Move, Piece};
use chessian_gui::render::{promotion_choice, promotion_squares, CellView, PieceDraw};
use chessian_gui::square::Square;

fn sq(name: &str) -> Square {
    let b = name.as_bytes();
    Square::new((b[1] - b'1') as usize, (b[0] - b'a') as usize)
}

fn mv(from: &str, to: &str) -> Move {
    Move::new(sq(from), sq(to), None)
}

#[test]
fn cell_of_unturned_board() {
    let s = GuiState::new();
    let cell = s.board_cell(0, 0, sq("a8"), true, true, None);
    assert_eq!(
        cell,
        CellView {
            square: sq("a8"),
            x: 0,
            y: 0,
            light: true,
            hover_outline: true,
            drag_outline: false,
            last_move_outline: false,
            piece: PieceDraw::InCell,
            show_name: true,
        }
    );
    let cell = s.board_cell(4, 4, sq("a8"), true, false, Some(mv("e2", "e4")));
    assert_eq!(cell.square, sq("e4"));
    assert_eq!((cell.x, cell.y), (400, 400));
    assert!(cell.last_move_outline);
    assert!(!cell.hover_outline);
    assert_eq!(cell.piece, PieceDraw::Hidden);
}

#[test]
fn hover_outline_needs_mouse_on_board() {
    let s = GuiState::new();
    assert!(!s.board_cell(0, 0, sq("a8"), false, false, None).hover_outline);
}

#[test]
fn dragged_piece_follows_mouse() {
    let mut s = GuiState::new();
    s.dragged_piece_square = Some(sq("e2"));
    let cell = s.board_cell(4, 6, sq("e4"), true, true, None);
    assert_eq!(cell.square, sq("e2"));
    assert!(cell.drag_outline);
    assert_eq!(cell.piece, PieceDraw::AtMouse);
    s.draw_pieces = false;
    s.draw_square_names = false;
    let cell = s.board_cell(4, 6, sq("e4"), true, true, None);
    assert_eq!(cell.piece, PieceDraw::Hidden);
    assert!(!cell.show_name);
}

#[test]
fn cell_of_turned_board() {
    let mut s = GuiState::new();
    s.invert = true;
    let cell = s.board_cell(0, 0, sq("h1"), true, false, None);
    assert_eq!(cell.square, sq("h1"));
    assert!(cell.light);
    assert!(cell.hover_outline);
}

#[test]
fn best_move_arrow_only_while_evaluating() {
    let mut s = GuiState::new();
    assert_eq!(s.best_move_arrow(), None);
    s.bg_eval_best_move = Some(mv("e2", "e4"));
    assert_eq!(s.best_move_arrow(), Some(((450, 650), (450, 450))));
    s.invert = true;
    assert_eq!(s.best_move_arrow(), Some(((350, 150), (350, 350))));
    s.bg_eval = false;
    assert_eq!(s.best_move_arrow(), None);
}

#[test]
fn move_indicators() {
    let mut s = GuiState::new();
    let moves = vec![mv("e2", "e3"), mv("e2", "e4")];
    assert_eq!(s.move_indicator_centers(&moves), vec![(450, 550), (450, 450)]);
    s.invert = true;
    assert_eq!(s.move_indicator_centers(&moves), vec![(350, 250), (350, 350)]);
    assert!(s.move_indicator_centers(&Vec::new()).is_empty());
}

#[test]
fn promotion_squares_for_both_sides() {
    assert_eq!(promotion_squares(sq("a8")), (sq("a7"), sq("a6"), sq("a5"), sq("a4")));
    assert_eq!(promotion_squares(sq("h1")), (sq("h2"), sq("h3"), sq("h4"), sq("h5")));
}

#[test]
fn promotion_choice_by_square() {
    assert_eq!(promotion_choice(sq("c8"), sq("c7")), Some(Piece::Queen));
    assert_eq!(promotion_choice(sq("c8"), sq("c6")), Some(Piece::Rook));
    assert_eq!(promotion_choice(sq("c8"), sq("c5")), Some(Piece::Bishop));
    assert_eq!(promotion_choice(sq("c8"), sq("c4")), Some(Piece::Knight));
    assert_eq!(promotion_choice(sq("c8"), sq("c3")), None);
    assert_eq!(promotion_choice(sq("c8"), sq("d7")), None);
    assert_eq!(promotion_choice(sq("c1"), sq("c2")), Some(Piece::Queen));
}

#[test]
fn promotion_menu_layout() {
    let mut s = GuiState::new();
    let pawn = Move::new(sq("b7"), sq("b8"), Some(Piece::Queen));
    assert_eq!(
        s.promotion_menu_items(pawn),
        vec![(100, 100, Piece::Queen), (100, 200, Piece::Rook), (100, 300, Piece::Bishop), (100, 400, Piece::Knight)]
    );
    s.invert = true;
    assert_eq!(s.promotion_menu_items(pawn)[0], (600, 600, Piece::Queen));
}

#[test]
fn promotion_click_plays_chosen_piece() {
    let mut s = GuiState::new();
    s.bg_eval_depth = 9;
    let pawn = Move::new(sq("b7"), sq("a8"), Some(Piece::Queen));
    assert_eq!(s.promotion_click(pawn, sq("e4")), None);
    assert_eq!(s.bg_eval_depth, 9);
    assert_eq!(
        s.promotion_click(pawn, sq("a6")),
        Some(MoveCommand { mov: Move::new(sq("b7"), sq("a8"), Some(Piece::Rook)), restart_eval: Some(1) })
    );
    assert_eq!(s.bg_eval_depth, 1);
    // auto-respond is on by default: the engine answers the promotion
    assert!(s.engine_move_next_frame);
}

#[test]
fn promotion_click_without_auto_respond() {
    let mut s = GuiState::new();
    s.auto_respond = false;
    s.bg_eval = false;
    let pawn = Move::new(sq("g2"), sq("g1"), Some(Piece::Queen));
    assert_eq!(
        s.promotion_click(pawn, sq("g5")),
        Some(MoveCommand { mov: Move::new(sq("g2"), sq("g1"), Some(Piece::Knight)), restart_eval: None })
    );
    assert!(!s.engine_move_next_frame);
    // a click off the menu does not ask the engine either
    s.auto_respond = true;
    assert_eq!(s.promotion_click(pawn, sq("a1")), None);
    assert!(!s.engine_move_next_frame);
}
