//! The interface state of the front end and what each event does to it.
//!
//! Every function here takes the state, an event and the plain values the host
//! loop read from the game, changes the state, and answers with the command
//! the host loop has to carry out: a move to play, an undo or redo, or a
//! (re)start of the background evaluation at a given depth. The host loop
//! carries out a returned move or history command before it restarts the
//! background evaluation, so that the new evaluation sees the new position.
use vstd::prelude::*;
use crate::square::Square;
use crate::pieces::{Color, Move};

verus! {

/// What an engine search reports: the move it chose, its evaluation in
/// centipawns from the side to move, the depth it reached without quiescence
/// search, and how many milliseconds it searched.
#[derive(Clone, Copy, PartialEq, Eq, Structural, Debug)]
pub struct SearchReport {
    pub best_move: Move,
    pub deep_eval: i32,
    pub reached_depth: usize,
    pub millis: u128,
}

/// What to do with the background evaluation after the evaluation checkbox was drawn.
#[derive(Clone, Copy, PartialEq, Eq, Structural, Debug)]
pub enum EvalCommand {
    /// Leave it running as it is.
    Keep,
    /// Tell it to stop.
    Stop,
    /// Stop it and start a new one that searches to the given depth.
    Restart(usize),
}

/// What a key press asks of the game.
#[derive(Clone, Copy, PartialEq, Eq, Structural, Debug)]
pub enum KeyCommand {
    Nothing,
    /// Print the position in FEN.
    PrintFen,
    /// Take back the last move; report the outcome to `history_step_done`.
    Undo,
    /// Play again the last move taken back; report the outcome to `history_step_done`.
    Redo,
    /// Start a new game; then, if a depth is given, restart the background
    /// evaluation at that depth on the new position.
    ResetGame(Option<usize>),
    /// Analyse every position of the game and print the evaluations.
    AnalyzeGame,
}

/// The buttons of the side panel that act on the game.
#[derive(Clone, Copy, PartialEq, Eq, Structural, Debug)]
pub enum UiButton {
    /// Let the engine move in the next frame.
    Go,
    Undo,
    Redo,
}

/// A history command for the game.
#[derive(Clone, Copy, PartialEq, Eq, Structural, Debug)]
pub enum GameCommand {
    Nothing,
    Undo,
    Redo,
}

/// A move to play, and the depth at which to restart the background
/// evaluation once it is played, if it is to be restarted.
#[derive(Clone, Copy, PartialEq, Eq, Structural, Debug)]
pub struct MoveCommand {
    pub mov: Move,
    pub restart_eval: Option<usize>,
}

/// The interface state.
#[derive(Clone, Copy, Debug)]
pub struct GuiState {
    /// The evaluation (in centipawns) of the last engine search.
    pub last_alpha: Option<i32>,
    /// The depth the last engine move reached, without quiescence search.
    pub last_depth: Option<usize>,
    /// How many milliseconds the last engine move searched.
    pub last_millis: Option<u128>,
    /// Let the engine answer each move of the player?
    pub auto_respond: bool,
    /// Should the engine move in the next frame?
    pub engine_move_next_frame: bool,
    /// Draw the names of the squares?
    pub draw_square_names: bool,
    /// Draw the pieces?
    pub draw_pieces: bool,
    /// How long an engine move may search, in milliseconds.
    pub thinking_millis: u128,
    /// Show the board from black's side?
    pub invert: bool,
    /// Evaluate the position in the background?
    pub bg_eval: bool,
    /// The depth of the running background evaluation.
    pub bg_eval_depth: usize,
    /// The best move the background evaluation found last.
    pub bg_eval_best_move: Option<Move>,
    /// The square of the piece being dragged.
    pub dragged_piece_square: Option<Square>,
}

/// The evaluation seen from white: the engine reports it from the side to move.
pub open spec fn white_relative(eval: i32, side_to_move: Color) -> int {
    if side_to_move == Color::Black { -eval } else { eval as int }
}

/// The first move of `moves` that goes to `dest`.
pub open spec fn first_move_to(moves: Seq<Move>, dest: Square) -> Option<Move>
    decreases moves.len(),
{
    if moves.len() == 0 {
        None
    } else if moves[0].dest == dest {
        Some(moves[0])
    } else {
        first_move_to(moves.drop_first(), dest)
    }
}

/// How the search time of the game analysis is announced: three seconds for
/// each position of the game.
pub open spec fn spec_analysis_seconds(positions: int) -> int {
    positions * 3
}

impl GuiState {
    /// The state is well formed: the background evaluation depth is at least
    /// one and the squares it holds lie on the board.
    pub open spec fn wf(self) -> bool {
        &&& self.bg_eval_depth >= 1
        &&& (self.bg_eval_best_move matches Some(m) ==> m.wf())
        &&& (self.dragged_piece_square matches Some(sq) ==> sq.wf())
    }

    pub open spec fn spec_initial() -> GuiState {
        GuiState {
            last_alpha: None,
            last_depth: None,
            last_millis: None,
            auto_respond: true,
            engine_move_next_frame: false,
            draw_square_names: true,
            draw_pieces: true,
            thinking_millis: 3000,
            invert: false,
            bg_eval: true,
            bg_eval_depth: 1,
            bg_eval_best_move: None,
            dragged_piece_square: None,
        }
    }

    /// The state once the background evaluation restarted from depth one.
    pub open spec fn spec_restarted(self) -> GuiState {
        GuiState { bg_eval_depth: 1, ..self }
    }

    /// Restart the background evaluation if it is on.
    pub open spec fn spec_restart_if_evaluating(self) -> (GuiState, Option<usize>) {
        if self.bg_eval {
            (self.spec_restarted(), Some(1usize))
        } else {
            (self, None)
        }
    }

    /// A report of the background evaluation arrives.
    pub open spec fn spec_after_bg_report(self, report: SearchReport, side_to_move: Color) -> (
        GuiState,
        Option<usize>,
    ) {
        let s = GuiState {
            last_alpha: Some(white_relative(report.deep_eval, side_to_move) as i32),
            bg_eval_best_move: Some(report.best_move),
            ..self
        };
        if self.bg_eval {
            let d = (self.bg_eval_depth + 1) as usize;
            (GuiState { bg_eval_depth: d, ..s }, Some(d))
        } else {
            (s, None)
        }
    }

    /// An engine move ended, with or without a report.
    pub open spec fn spec_after_engine_move(self, report: Option<SearchReport>) -> (
        GuiState,
        Option<usize>,
    ) {
        let s = match report {
            Some(r) => GuiState {
                last_alpha: Some(r.deep_eval),
                last_depth: Some(r.reached_depth),
                last_millis: Some(r.millis),
                ..self
            },
            None => self,
        };
        GuiState { engine_move_next_frame: false, ..s }.spec_restart_if_evaluating()
    }

    /// The evaluation checkbox was drawn; `prev` is whether it was ticked before.
    pub open spec fn spec_after_eval_checkbox(self, prev: bool) -> (GuiState, EvalCommand) {
        if !self.bg_eval {
            (self, EvalCommand::Stop)
        } else if !prev {
            (self.spec_restarted(), EvalCommand::Restart(1))
        } else {
            (self, EvalCommand::Keep)
        }
    }

    /// A button of the side panel was pressed.
    pub open spec fn spec_after_button(self, button: UiButton) -> (GuiState, GameCommand, Option<usize>) {
        match button {
            UiButton::Go => (GuiState { engine_move_next_frame: true, ..self }, GameCommand::Nothing, None),
            UiButton::Undo => {
                let (s, d) = self.spec_restart_if_evaluating();
                (s, GameCommand::Undo, d)
            },
            UiButton::Redo => {
                let (s, d) = self.spec_restart_if_evaluating();
                (s, GameCommand::Redo, d)
            },
        }
    }

    /// A key was typed; `control_down` tells whether a control key (the
    /// command key on macOS) is held.
    pub open spec fn spec_after_key(self, c: char, control_down: bool) -> (GuiState, KeyCommand) {
        if c == 'a' {
            (GuiState { auto_respond: !self.auto_respond, ..self }, KeyCommand::Nothing)
        } else if c == 'f' {
            (self, KeyCommand::PrintFen)
        } else if c == 'm' {
            (GuiState { engine_move_next_frame: true, ..self }, KeyCommand::Nothing)
        } else if c == 'z' && control_down {
            (self, KeyCommand::Undo)
        } else if c == 'y' && control_down {
            (self, KeyCommand::Redo)
        } else if c == 's' {
            (GuiState { draw_square_names: !self.draw_square_names, ..self }, KeyCommand::Nothing)
        } else if c == 'p' {
            (GuiState { draw_pieces: !self.draw_pieces, ..self }, KeyCommand::Nothing)
        } else if c == 'i' {
            (GuiState { invert: !self.invert, ..self }, KeyCommand::Nothing)
        } else if c == 'r' {
            let (s, d) = self.spec_restart_if_evaluating();
            (s, KeyCommand::ResetGame(d))
        } else if c == 't' {
            (self, KeyCommand::AnalyzeGame)
        } else {
            (self, KeyCommand::Nothing)
        }
    }

    /// The left mouse button went down (or, while a piece is dragged, up) over
    /// `hovered`. `hovered_color` is the colour of the piece there, `legal_from_hovered`
    /// the legal moves from there, `clickable` the moves offered so far and `pending`
    /// the promotion move waiting for a choice of piece. The result holds the new
    /// state, the moves offered now, the pending promotion and the move to play.
    pub open spec fn spec_left_click(
        self,
        hovered: Square,
        hovered_color: Option<Color>,
        side_to_move: Color,
        legal_from_hovered: Seq<Move>,
        clickable: Seq<Move>,
        pending: Option<Move>,
    ) -> (GuiState, Seq<Move>, Option<Move>, Option<MoveCommand>) {
        if hovered_color == Some(side_to_move) {
            let dragged = if self.dragged_piece_square is None {
                Some(hovered)
            } else {
                self.dragged_piece_square
            };
            (GuiState { dragged_piece_square: dragged, ..self }, legal_from_hovered, pending, None)
        } else {
            match first_move_to(clickable, hovered) {
                None => (self, Seq::empty(), pending, None),
                Some(m) => if m.promotion is Some {
                    (self, Seq::empty(), Some(m), None)
                } else {
                    let (s, d) = self.spec_restart_if_evaluating();
                    (
                        GuiState { engine_move_next_frame: self.auto_respond, ..s },
                        Seq::empty(),
                        pending,
                        Some(MoveCommand { mov: m, restart_eval: d }),
                    )
                },
            }
        }
    }
}

proof fn lemma_first_move_to_skip(moves: Seq<Move>, dest: Square, i: int)
    requires
        0 <= i < moves.len(),
        moves[i].dest != dest,
    ensures
        first_move_to(moves.skip(i), dest) == first_move_to(moves.skip(i + 1), dest),
{
    assert(moves.skip(i).drop_first() =~= moves.skip(i + 1));
}

/// The first move of `moves` that goes to `dest`, if any.
pub fn find_move_to(moves: &Vec<Move>, dest: Square) -> (r: Option<Move>)
    ensures
        r == first_move_to(moves@, dest),
{
    let mut i: usize = 0;
    assert(moves@.skip(0) =~= moves@);
    while i < moves.len()
        invariant
            i <= moves.len(),
            first_move_to(moves@, dest) == first_move_to(moves@.skip(i as int), dest),
        decreases moves.len() - i,
    {
        let m = moves[i];
        if m.dest == dest {
            assert(moves@.skip(i as int)[0] == m);
            return Some(m);
        }
        proof {
            lemma_first_move_to_skip(moves@, dest, i as int);
        }
        i += 1;
    }
    assert(moves@.skip(i as int).len() == 0);
    None
}

/// How many seconds the analysis of a game with `positions` positions is
/// announced to take.
pub fn analysis_seconds(positions: usize) -> (seconds: usize)
    requires
        positions <= usize::MAX / 3,
    ensures
        seconds == spec_analysis_seconds(positions as int),
{
    positions * 3
}

impl GuiState {
    /// The state the front end starts in. The host loop starts the background
    /// evaluation at `bg_eval_depth`.
    pub fn new() -> (s: GuiState)
        ensures
            s == GuiState::spec_initial(),
            s.wf(),
    {
        GuiState {
            last_alpha: None,
            last_depth: None,
            last_millis: None,
            auto_respond: true,
            engine_move_next_frame: false,
            draw_square_names: true,
            draw_pieces: true,
            thinking_millis: 3000,
            invert: false,
            bg_eval: true,
            bg_eval_depth: 1,
            bg_eval_best_move: None,
            dragged_piece_square: None,
        }
    }

    /// Restarts the background evaluation from depth one; returns that depth.
    pub fn restart_bg_eval(&mut self) -> (depth: usize)
        requires
            old(self).wf(),
        ensures
            *final(self) == old(self).spec_restarted(),
            depth == 1,
            final(self).wf(),
    {
        self.bg_eval_depth = 1;
        1
    }

    /// Restarts the background evaluation from depth one if it is on; returns
    /// the depth to start it at, if it is to be started.
    pub fn restart_if_evaluating(&mut self) -> (depth: Option<usize>)
        requires
            old(self).wf(),
        ensures
            (*final(self), depth) == old(self).spec_restart_if_evaluating(),
            final(self).wf(),
    {
        if self.bg_eval {
            Some(self.restart_bg_eval())
        } else {
            None
        }
    }

    /// A report of the background evaluation arrived while `side_to_move` is to
    /// move. Its evaluation is kept from white's side and its move as the best
    /// move; if the evaluation is on, it goes on one ply deeper, and the depth
    /// to start the next search at is returned.
    pub fn receive_bg_eval(&mut self, report: SearchReport, side_to_move: Color) -> (next_depth:
        Option<usize>)
        requires
            old(self).wf(),
            report.best_move.wf(),
            side_to_move == Color::Black ==> report.deep_eval != i32::MIN,
            old(self).bg_eval ==> old(self).bg_eval_depth < usize::MAX,
        ensures
            (*final(self), next_depth) == old(self).spec_after_bg_report(report, side_to_move),
            final(self).wf(),
    {
        let alpha = if side_to_move == Color::Black {
            -report.deep_eval
        } else {
            report.deep_eval
        };
        self.last_alpha = Some(alpha);
        self.bg_eval_best_move = Some(report.best_move);
        if self.bg_eval {
            self.bg_eval_depth = self.bg_eval_depth + 1;
            Some(self.bg_eval_depth)
        } else {
            None
        }
    }

    /// An engine move ended; `report` is what the search reported, if it found
    /// a move. Its figures are kept, the engine is no longer asked to move, and
    /// the background evaluation restarts if it is on.
    pub fn finish_engine_move(&mut self, report: Option<SearchReport>) -> (restart: Option<usize>)
        requires
            old(self).wf(),
        ensures
            (*final(self), restart) == old(self).spec_after_engine_move(report),
            final(self).wf(),
    {
        if let Some(r) = report {
            self.last_alpha = Some(r.deep_eval);
            self.last_depth = Some(r.reached_depth);
            self.last_millis = Some(r.millis);
        }
        self.engine_move_next_frame = false;
        self.restart_if_evaluating()
    }

    /// The evaluation checkbox was drawn and may have changed `bg_eval`;
    /// `prev` is its value before.
    pub fn eval_checkbox(&mut self, prev: bool) -> (cmd: EvalCommand)
        requires
            old(self).wf(),
        ensures
            (*final(self), cmd) == old(self).spec_after_eval_checkbox(prev),
            final(self).wf(),
    {
        if !self.bg_eval {
            EvalCommand::Stop
        } else if !prev {
            EvalCommand::Restart(self.restart_bg_eval())
        } else {
            EvalCommand::Keep
        }
    }

    /// A button of the side panel was pressed. Returns the history command for
    /// the game and the depth to restart the background evaluation at after it.
    pub fn press_button(&mut self, button: UiButton) -> (r: (GameCommand, Option<usize>))
        requires
            old(self).wf(),
        ensures
            (*final(self), r.0, r.1) == old(self).spec_after_button(button),
            final(self).wf(),
    {
        match button {
            UiButton::Go => {
                self.engine_move_next_frame = true;
                (GameCommand::Nothing, None)
            },
            UiButton::Undo => {
                let d = self.restart_if_evaluating();
                (GameCommand::Undo, d)
            },
            UiButton::Redo => {
                let d = self.restart_if_evaluating();
                (GameCommand::Redo, d)
            },
        }
    }

    /// A key was typed. 'm' also withdraws the moves on offer.
    pub fn handle_key(&mut self, c: char, control_down: bool, clickable: &mut Vec<Move>) -> (cmd:
        KeyCommand)
        requires
            old(self).wf(),
        ensures
            (*final(self), cmd) == old(self).spec_after_key(c, control_down),
            final(clickable)@ == (if c == 'm' { Seq::empty() } else { old(clickable)@ }),
            final(self).wf(),
    {
        if c == 'a' {
            self.auto_respond = !self.auto_respond;
            KeyCommand::Nothing
        } else if c == 'f' {
            KeyCommand::PrintFen
        } else if c == 'm' {
            self.engine_move_next_frame = true;
            clickable.clear();
            KeyCommand::Nothing
        } else if c == 'z' && control_down {
            KeyCommand::Undo
        } else if c == 'y' && control_down {
            KeyCommand::Redo
        } else if c == 's' {
            self.draw_square_names = !self.draw_square_names;
            KeyCommand::Nothing
        } else if c == 'p' {
            self.draw_pieces = !self.draw_pieces;
            KeyCommand::Nothing
        } else if c == 'i' {
            self.invert = !self.invert;
            KeyCommand::Nothing
        } else if c == 'r' {
            let d = self.restart_if_evaluating();
            KeyCommand::ResetGame(d)
        } else if c == 't' {
            KeyCommand::AnalyzeGame
        } else {
            KeyCommand::Nothing
        }
    }

    /// The game reported whether a key's undo or redo changed the position.
    /// If it did, the moves on offer are withdrawn and the background
    /// evaluation restarts if it is on.
    pub fn history_step_done(&mut self, changed: bool, clickable: &mut Vec<Move>) -> (restart:
        Option<usize>)
        requires
            old(self).wf(),
        ensures
            changed ==> (*final(self), restart) == old(self).spec_restart_if_evaluating(),
            changed ==> final(clickable)@ == Seq::<Move>::empty(),
            !changed ==> *final(self) == *old(self) && restart is None && final(clickable)@
                == old(clickable)@,
            final(self).wf(),
    {
        if changed {
            clickable.clear();
            self.restart_if_evaluating()
        } else {
            None
        }
    }

    /// The left mouse button went down (or, while a piece is dragged, came up)
    /// over `hovered`. See `spec_left_click`.
    pub fn left_click(
        &mut self,
        hovered: Square,
        hovered_color: Option<Color>,
        side_to_move: Color,
        legal_from_hovered: Vec<Move>,
        clickable: &mut Vec<Move>,
        pending: &mut Option<Move>,
    ) -> (cmd: Option<MoveCommand>)
        requires
            old(self).wf(),
            hovered.wf(),
        ensures
            (*final(self), final(clickable)@, *final(pending), cmd) == old(self).spec_left_click(
                hovered,
                hovered_color,
                side_to_move,
                legal_from_hovered@,
                old(clickable)@,
                *old(pending),
            ),
            final(self).wf(),
    {
        if hovered_color == Some(side_to_move) {
            *clickable = legal_from_hovered;
            if self.dragged_piece_square.is_none() {
                self.dragged_piece_square = Some(hovered);
            }
            None
        } else {
            let found = find_move_to(clickable, hovered);
            clickable.clear();
            match found {
                None => None,
                Some(m) => {
                    if m.promotion.is_some() {
                        *pending = Some(m);
                        None
                    } else {
                        let auto = self.auto_respond;
                        let d = self.restart_if_evaluating();
                        self.engine_move_next_frame = auto;
                        Some(MoveCommand { mov: m, restart_eval: d })
                    }
                },
            }
        }
    }
}

impl GuiState {
    /// The left mouse button came up over `hovered`. While a piece is dragged,
    /// this drops it: it counts as a click there (see `left_click`) and the
    /// drag ends. Without a dragged piece nothing happens.
    pub fn left_release(
        &mut self,
        hovered: Square,
        hovered_color: Option<Color>,
        side_to_move: Color,
        legal_from_hovered: Vec<Move>,
        clickable: &mut Vec<Move>,
        pending: &mut Option<Move>,
    ) -> (cmd: Option<MoveCommand>)
        requires
            old(self).wf(),
            hovered.wf(),
        ensures
            old(self).dragged_piece_square is None ==> {
                &&& *final(self) == *old(self)
                &&& final(clickable)@ == old(clickable)@
                &&& *final(pending) == *old(pending)
                &&& cmd is None
            },
            old(self).dragged_piece_square is Some ==> ({
                let (s, offered, p, c) = old(self).spec_left_click(
                    hovered,
                    hovered_color,
                    side_to_move,
                    legal_from_hovered@,
                    old(clickable)@,
                    *old(pending),
                );
                &&& *final(self) == GuiState { dragged_piece_square: None, ..s }
                &&& final(clickable)@ == offered
                &&& *final(pending) == p
                &&& cmd == c
            }),
            final(self).wf(),
    {
        if self.dragged_piece_square.is_some() {
            let cmd = self.left_click(
                hovered,
                hovered_color,
                side_to_move,
                legal_from_hovered,
                clickable,
                pending,
            );
            self.dragged_piece_square = None;
            cmd
        } else {
            None
        }
    }
}

/// What the host loop does with the input of a frame, once the board is drawn,
/// the background evaluation was read and the promotion menu (shown for one
/// frame only) was handled.
#[derive(Clone, Copy, PartialEq, Eq, Structural, Debug)]
pub enum FrameInput {
    /// Let the engine move, withdraw the moves on offer and skip the input of
    /// this frame.
    EngineMove,
    /// Read the keyboard only: the mouse is right of the board.
    KeysOnly,
    /// Read the keyboard, draw the marks of the moves on offer and read the
    /// mouse buttons.
    KeysAndMouse,
}

pub open spec fn spec_frame_input(s: GuiState, mouse_in_board: bool) -> FrameInput {
    if s.engine_move_next_frame {
        FrameInput::EngineMove
    } else if mouse_in_board {
        FrameInput::KeysAndMouse
    } else {
        FrameInput::KeysOnly
    }
}

/// The search time set by the side panel: a pressed preset button wins over
/// the slider, and of several pressed presets the later one on the panel
/// (1 s, 3 s, 5 s, 10 s) wins.
pub open spec fn spec_search_millis(
    slider_millis: u128,
    pressed_1s: bool,
    pressed_3s: bool,
    pressed_5s: bool,
    pressed_10s: bool,
) -> u128 {
    if pressed_10s {
        10000
    } else if pressed_5s {
        5000
    } else if pressed_3s {
        3000
    } else if pressed_1s {
        1000
    } else {
        slider_millis
    }
}

impl GuiState {
    /// How the input of this frame is handled; see `FrameInput`.
    pub fn frame_input(&self, mouse_in_board: bool) -> (input: FrameInput)
        ensures
            input == spec_frame_input(*self, mouse_in_board),
    {
        if self.engine_move_next_frame {
            FrameInput::EngineMove
        } else if mouse_in_board {
            FrameInput::KeysAndMouse
        } else {
            FrameInput::KeysOnly
        }
    }

    /// Sets the search time of engine moves from the side panel: the slider's
    /// value in milliseconds and which preset buttons were pressed.
    pub fn set_search_time(
        &mut self,
        slider_millis: u128,
        pressed_1s: bool,
        pressed_3s: bool,
        pressed_5s: bool,
        pressed_10s: bool,
    )
        requires
            old(self).wf(),
        ensures
            *final(self) == (GuiState {
                thinking_millis: spec_search_millis(
                    slider_millis,
                    pressed_1s,
                    pressed_3s,
                    pressed_5s,
                    pressed_10s,
                ),
                ..*old(self)
            }),
            final(self).wf(),
    {
        self.thinking_millis = if pressed_10s {
            10000
        } else if pressed_5s {
            5000
        } else if pressed_3s {
            3000
        } else if pressed_1s {
            1000
        } else {
            slider_millis
        };
    }
}

} // verus!
