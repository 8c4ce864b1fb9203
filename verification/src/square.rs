//! Squares of the chess board, addressed by rank and file.
use vstd::prelude::*;

verus! {

/// A square of the board. `rank` 0 is the first rank (white's back rank) and
/// `file` 0 is the a-file. A square is well formed when both are below 8.
#[derive(Clone, Copy, PartialEq, Eq, Structural, Debug)]
pub struct Square {
    pub rank: u8,
    pub file: u8,
}

impl Square {
    pub open spec fn wf(self) -> bool {
        self.rank < 8 && self.file < 8
    }

    /// The index of the square in the order a1, b1, ..., h1, a2, ..., h8.
    pub open spec fn index(self) -> int {
        self.rank * 8 + self.file
    }

    /// The square seen from the other side of the board.
    pub open spec fn spec_inverted(self) -> Square {
        Square { rank: (7 - self.rank) as u8, file: (7 - self.file) as u8 }
    }

    pub open spec fn spec_up(self) -> Option<Square> {
        if self.rank == 7 {
            None
        } else {
            Some(Square { rank: (self.rank + 1) as u8, file: self.file })
        }
    }

    pub open spec fn spec_down(self) -> Option<Square> {
        if self.rank == 0 {
            None
        } else {
            Some(Square { rank: (self.rank - 1) as u8, file: self.file })
        }
    }

    /// Makes a square from a rank index and a file index. As with the board
    /// library's `Rank::from_index` and `File::from_index`, only the low three
    /// bits of each index count.
    pub fn new(rank: usize, file: usize) -> (s: Square)
        ensures
            s.wf(),
            s.rank == rank % 8,
            s.file == file % 8,
    {
        Square { rank: (rank % 8) as u8, file: (file % 8) as u8 }
    }

    /// The square with the given index (see `index`).
    pub fn from_index(index: u8) -> (s: Square)
        requires
            index < 64,
        ensures
            s.wf(),
            s.index() == index,
            s.rank == index / 8,
            s.file == index % 8,
    {
        Square { rank: index / 8, file: index % 8 }
    }

    pub fn to_index(&self) -> (i: u8)
        requires
            self.wf(),
        ensures
            i == self.index(),
            i < 64,
    {
        self.rank * 8 + self.file
    }

    /// The square at the same place once the board is turned round.
    pub fn inverted(&self) -> (s: Square)
        requires
            self.wf(),
        ensures
            s == self.spec_inverted(),
            s.wf(),
    {
        Square { rank: 7 - self.rank, file: 7 - self.file }
    }

    /// The square one rank higher, if there is one.
    pub fn up(&self) -> (s: Option<Square>)
        requires
            self.wf(),
        ensures
            s == self.spec_up(),
            s matches Some(t) ==> t.wf(),
    {
        if self.rank == 7 {
            None
        } else {
            Some(Square { rank: self.rank + 1, file: self.file })
        }
    }

    /// The square one rank lower, if there is one.
    pub fn down(&self) -> (s: Option<Square>)
        requires
            self.wf(),
        ensures
            s == self.spec_down(),
            s matches Some(t) ==> t.wf(),
    {
        if self.rank == 0 {
            None
        } else {
            Some(Square { rank: self.rank - 1, file: self.file })
        }
    }

    /// The square's name as two characters: the file letter and the rank digit
    /// ("e4" is `('e', '4')`).
    pub fn name_chars(&self) -> (name: (char, char))
        requires
            self.wf(),
        ensures
            name.0 as int == 'a' as int + self.file,
            name.1 as int == '1' as int + self.rank,
    {
        ((97u8 + self.file) as char, (49u8 + self.rank) as char)
    }
}

} // verus!
