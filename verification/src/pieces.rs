//! Sides, piece kinds and moves, as plain values.
use vstd::prelude::*;
use crate::square::Square;

verus! {

/// The two sides.
#[derive(Clone, Copy, PartialEq, Eq, Structural, Debug)]
pub enum Color {
    White,
    Black,
}

/// The kinds of pieces.
#[derive(Clone, Copy, PartialEq, Eq, Structural, Debug)]
pub enum Piece {
    Pawn,
    Knight,
    Bishop,
    Rook,
    Queen,
    King,
}

/// A move from `source` to `dest`, with the piece a pawn turns into when the
/// move promotes it.
#[derive(Clone, Copy, PartialEq, Eq, Structural, Debug)]
pub struct Move {
    pub source: Square,
    pub dest: Square,
    pub promotion: Option<Piece>,
}

impl Move {
    pub open spec fn wf(self) -> bool {
        self.source.wf() && self.dest.wf()
    }

    pub fn new(source: Square, dest: Square, promotion: Option<Piece>) -> (m: Move)
        ensures
            m.source == source,
            m.dest == dest,
            m.promotion == promotion,
    {
        Move { source, dest, promotion }
    }
}

/// Every move of the sequence is well formed.
pub open spec fn all_wf(moves: Seq<Move>) -> bool {
    forall|i: int| 0 <= i < moves.len() ==> #[trigger] moves[i].wf()
}

} // verus!
