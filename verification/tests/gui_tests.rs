use chessian_gui::gui::{
    analysis_seconds, find_move_to, EvalCommand, FrameInput, GameCommand, GuiState, KeyCommand, MoveCommand,
    SearchReport, UiButton,
};
use chessian_gui::pieces::{Color, Move, Piece};
use chessian_gui::square::Square;

fn sq(name: &str) -> Square {
    let b = name.as_bytes();
    Square::new((b[1] - b'1') as usize, (b[0] - b'a') as usize)
}

fn mv(from: &str, to: &str) -> Move {
    Move::new(sq(from), sq(to), None)
}

fn report(eval: i32) -> SearchReport {
    SearchReport { best_move: mv("e2", "e4"), deep_eval: eval, reached_depth: 7, millis: 1234 }
}

#[test]
fn initial_state() {
    let s = GuiState::new();
    assert_eq!(s.last_alpha, None);
    assert_eq!(s.last_depth, None);
    assert_eq!(s.last_millis, None);
    assert!(s.auto_respond);
    assert!(!s.engine_move_next_frame);
    assert!(s.draw_square_names);
    assert!(s.draw_pieces);
    assert_eq!(s.thinking_millis, 3000);
    assert!(!s.invert);
    assert!(s.bg_eval);
    assert_eq!(s.bg_eval_depth, 1);
    assert_eq!(s.bg_eval_best_move, None);
    assert_eq!(s.dragged_piece_square, None);
}

#[test]
fn bg_eval_report_is_white_relative_and_deepens() {
    let mut s = GuiState::new();
    assert_eq!(s.receive_bg_eval(report(35), Color::White), Some(2));
    assert_eq!(s.last_alpha, Some(35));
    assert_eq!(s.bg_eval_best_move, Some(mv("e2", "e4")));
    assert_eq!(s.receive_bg_eval(report(35), Color::Black), Some(3));
    assert_eq!(s.last_alpha, Some(-35));
    assert_eq!(s.bg_eval_depth, 3);
}

#[test]
fn bg_eval_report_while_off_does_not_restart() {
    let mut s = GuiState::new();
    s.bg_eval = false;
    assert_eq!(s.receive_bg_eval(report(-10), Color::Black), None);
    assert_eq!(s.last_alpha, Some(10));
    assert_eq!(s.bg_eval_depth, 1);
}

#[test]
fn restart_sets_depth_one() {
    let mut s = GuiState::new();
    s.receive_bg_eval(report(0), Color::White);
    s.receive_bg_eval(report(0), Color::White);
    assert_eq!(s.bg_eval_depth, 3);
    assert_eq!(s.restart_if_evaluating(), Some(1));
    assert_eq!(s.bg_eval_depth, 1);
    s.bg_eval = false;
    s.bg_eval_depth = 4;
    assert_eq!(s.restart_if_evaluating(), None);
    assert_eq!(s.bg_eval_depth, 4);
    assert_eq!(s.restart_bg_eval(), 1);
    assert_eq!(s.bg_eval_depth, 1);
}

#[test]
fn engine_move_keeps_report_and_clears_flag() {
    let mut s = GuiState::new();
    s.engine_move_next_frame = true;
    s.bg_eval_depth = 5;
    assert_eq!(s.finish_engine_move(Some(report(120))), Some(1));
    assert_eq!(s.last_alpha, Some(120));
    assert_eq!(s.last_depth, Some(7));
    assert_eq!(s.last_millis, Some(1234));
    assert!(!s.engine_move_next_frame);
    assert_eq!(s.bg_eval_depth, 1);

    let mut t = GuiState::new();
    t.bg_eval = false;
    t.engine_move_next_frame = true;
    assert_eq!(t.finish_engine_move(None), None);
    assert_eq!(t.last_alpha, None);
    assert!(!t.engine_move_next_frame);
}

#[test]
fn eval_checkbox_commands() {
    let mut s = GuiState::new();
    s.bg_eval_depth = 6;
    assert_eq!(s.eval_checkbox(true), EvalCommand::Keep);
    assert_eq!(s.bg_eval_depth, 6);
    s.bg_eval = false;
    assert_eq!(s.eval_checkbox(true), EvalCommand::Stop);
    assert_eq!(s.eval_checkbox(false), EvalCommand::Stop);
    s.bg_eval = true;
    assert_eq!(s.eval_checkbox(false), EvalCommand::Restart(1));
    assert_eq!(s.bg_eval_depth, 1);
}

#[test]
fn panel_buttons() {
    let mut s = GuiState::new();
    assert_eq!(s.press_button(UiButton::Go), (GameCommand::Nothing, None));
    assert!(s.engine_move_next_frame);
    s.bg_eval_depth = 3;
    assert_eq!(s.press_button(UiButton::Undo), (GameCommand::Undo, Some(1)));
    assert_eq!(s.bg_eval_depth, 1);
    s.bg_eval = false;
    assert_eq!(s.press_button(UiButton::Redo), (GameCommand::Redo, None));
}

#[test]
fn toggle_keys() {
    let mut s = GuiState::new();
    let mut moves = vec![mv("e2", "e4")];
    assert_eq!(s.handle_key('a', false, &mut moves), KeyCommand::Nothing);
    assert!(!s.auto_respond);
    assert_eq!(s.handle_key('a', false, &mut moves), KeyCommand::Nothing);
    assert!(s.auto_respond);
    s.handle_key('s', false, &mut moves);
    assert!(!s.draw_square_names);
    s.handle_key('p', false, &mut moves);
    assert!(!s.draw_pieces);
    s.handle_key('i', false, &mut moves);
    assert!(s.invert);
    s.handle_key('i', false, &mut moves);
    assert!(!s.invert);
    assert_eq!(moves.len(), 1);
}

#[test]
fn command_keys() {
    let mut s = GuiState::new();
    let mut moves = vec![mv("e2", "e4")];
    assert_eq!(s.handle_key('f', false, &mut moves), KeyCommand::PrintFen);
    assert_eq!(s.handle_key('z', true, &mut moves), KeyCommand::Undo);
    assert_eq!(s.handle_key('z', false, &mut moves), KeyCommand::Nothing);
    assert_eq!(s.handle_key('y', true, &mut moves), KeyCommand::Redo);
    assert_eq!(s.handle_key('y', false, &mut moves), KeyCommand::Nothing);
    s.bg_eval_depth = 5;
    assert_eq!(s.handle_key('r', false, &mut moves), KeyCommand::ResetGame(Some(1)));
    assert_eq!(s.bg_eval_depth, 1);
    assert_eq!(s.handle_key('t', false, &mut moves), KeyCommand::AnalyzeGame);
    assert_eq!(s.handle_key('q', false, &mut moves), KeyCommand::Nothing);
    assert_eq!(moves.len(), 1);
    assert_eq!(s.handle_key('m', false, &mut moves), KeyCommand::Nothing);
    assert!(s.engine_move_next_frame);
    assert!(moves.is_empty());
}

#[test]
fn reset_without_eval_keeps_depth() {
    let mut s = GuiState::new();
    s.bg_eval = false;
    s.bg_eval_depth = 5;
    let mut moves = Vec::new();
    assert_eq!(s.handle_key('r', true, &mut moves), KeyCommand::ResetGame(None));
    assert_eq!(s.bg_eval_depth, 5);
}

#[test]
fn frame_input_order() {
    let mut s = GuiState::new();
    assert_eq!(s.frame_input(true), FrameInput::KeysAndMouse);
    assert_eq!(s.frame_input(false), FrameInput::KeysOnly);
    s.engine_move_next_frame = true;
    assert_eq!(s.frame_input(true), FrameInput::EngineMove);
    assert_eq!(s.frame_input(false), FrameInput::EngineMove);
}

#[test]
fn search_time_presets() {
    let mut s = GuiState::new();
    s.set_search_time(7500, false, false, false, false);
    assert_eq!(s.thinking_millis, 7500);
    s.set_search_time(7500, true, false, false, false);
    assert_eq!(s.thinking_millis, 1000);
    s.set_search_time(7500, true, true, false, false);
    assert_eq!(s.thinking_millis, 3000);
    s.set_search_time(7500, false, true, true, false);
    assert_eq!(s.thinking_millis, 5000);
    s.set_search_time(7500, true, true, true, true);
    assert_eq!(s.thinking_millis, 10000);
}

#[test]
fn history_step_outcomes() {
    let mut s = GuiState::new();
    s.bg_eval_depth = 4;
    let mut moves = vec![mv("e2", "e4")];
    assert_eq!(s.history_step_done(false, &mut moves), None);
    assert_eq!(moves.len(), 1);
    assert_eq!(s.bg_eval_depth, 4);
    assert_eq!(s.history_step_done(true, &mut moves), Some(1));
    assert!(moves.is_empty());
    assert_eq!(s.bg_eval_depth, 1);
}

#[test]
fn find_first_move_to_destination() {
    let moves = vec![mv("e2", "e3"), mv("e2", "e4"), mv("d2", "e3")];
    assert_eq!(find_move_to(&moves, sq("e3")), Some(mv("e2", "e3")));
    assert_eq!(find_move_to(&moves, sq("e4")), Some(mv("e2", "e4")));
    assert_eq!(find_move_to(&moves, sq("e5")), None);
    assert_eq!(find_move_to(&Vec::new(), sq("e5")), None);
}

#[test]
fn click_own_piece_offers_its_moves() {
    let mut s = GuiState::new();
    let legal = vec![mv("e2", "e3"), mv("e2", "e4")];
    let mut clickable = Vec::new();
    let mut pending = None;
    let cmd = s.left_click(sq("e2"), Some(Color::White), Color::White, legal.clone(), &mut clickable, &mut pending);
    assert_eq!(cmd, None);
    assert_eq!(clickable, legal);
    assert_eq!(s.dragged_piece_square, Some(sq("e2")));
    // a second click keeps the first dragged square
    s.left_click(sq("d2"), Some(Color::White), Color::White, vec![mv("d2", "d4")], &mut clickable, &mut pending);
    assert_eq!(s.dragged_piece_square, Some(sq("e2")));
    assert_eq!(clickable, vec![mv("d2", "d4")]);
}

#[test]
fn click_destination_plays_move() {
    let mut s = GuiState::new();
    s.bg_eval_depth = 3;
    s.auto_respond = true;
    let mut clickable = vec![mv("e2", "e3"), mv("e2", "e4")];
    let mut pending = None;
    let cmd = s.left_click(sq("e4"), None, Color::White, Vec::new(), &mut clickable, &mut pending);
    assert_eq!(cmd, Some(MoveCommand { mov: mv("e2", "e4"), restart_eval: Some(1) }));
    assert!(clickable.is_empty());
    assert_eq!(pending, None);
    assert!(s.engine_move_next_frame);
    assert_eq!(s.bg_eval_depth, 1);
}

#[test]
fn click_elsewhere_withdraws_moves() {
    let mut s = GuiState::new();
    s.auto_respond = false;
    s.bg_eval = false;
    let mut clickable = vec![mv("e2", "e4")];
    let mut pending = None;
    // a black piece on e5 while white is to move
    let cmd = s.left_click(sq("e5"), Some(Color::Black), Color::White, vec![mv("e5", "e4")], &mut clickable, &mut pending);
    assert_eq!(cmd, None);
    assert!(clickable.is_empty());
    let mut clickable = vec![mv("e2", "e4")];
    let cmd = s.left_click(sq("e4"), None, Color::White, Vec::new(), &mut clickable, &mut pending);
    assert_eq!(cmd, Some(MoveCommand { mov: mv("e2", "e4"), restart_eval: None }));
    assert!(!s.engine_move_next_frame);
}

#[test]
fn click_promotion_square_waits_for_choice() {
    let mut s = GuiState::new();
    let promo = Move::new(sq("a7"), sq("a8"), Some(Piece::Queen));
    let mut clickable = vec![promo, Move::new(sq("a7"), sq("a8"), Some(Piece::Knight))];
    let mut pending = None;
    let cmd = s.left_click(sq("a8"), None, Color::White, Vec::new(), &mut clickable, &mut pending);
    assert_eq!(cmd, None);
    assert_eq!(pending, Some(promo));
    assert!(clickable.is_empty());
    assert!(!s.engine_move_next_frame);
    // choosing the knight completes the move, and the engine answers it
    let cmd = s.promotion_click(promo, sq("a4"));
    assert_eq!(cmd.map(|c| c.mov), Some(Move::new(sq("a7"), sq("a8"), Some(Piece::Knight))));
    assert!(s.engine_move_next_frame);
}

#[test]
fn analysis_announcement() {
    assert_eq!(analysis_seconds(0), 0);
    assert_eq!(analysis_seconds(41), 123);
}

#[test]
fn release_drops_dragged_piece() {
    let mut s = GuiState::new();
    s.bg_eval = false;
    let mut clickable = Vec::new();
    let mut pending = None;
    // no piece dragged: nothing happens
    assert_eq!(s.left_release(sq("e4"), None, Color::White, Vec::new(), &mut clickable, &mut pending), None);
    assert_eq!(s.dragged_piece_square, None);
    // pick up the pawn on e2, drop it on e4
    s.left_click(sq("e2"), Some(Color::White), Color::White, vec![mv("e2", "e4")], &mut clickable, &mut pending);
    assert_eq!(s.dragged_piece_square, Some(sq("e2")));
    let cmd = s.left_release(sq("e4"), None, Color::White, Vec::new(), &mut clickable, &mut pending);
    assert_eq!(cmd, Some(MoveCommand { mov: mv("e2", "e4"), restart_eval: None }));
    assert_eq!(s.dragged_piece_square, None);
    assert!(clickable.is_empty());
}
