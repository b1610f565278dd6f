use vstd::prelude::*;

verus! {

/// The mark in one cell of the board: one of the two players, or nothing.
#[derive(Clone, Copy, Debug, PartialEq, Eq, Structural)]
pub enum Piece {
    X,
    O,
    Empty,
}

impl Piece {
    /// The player who moves after `self`; an empty mark has no opponent and maps to itself.
    pub open spec fn other(self) -> Piece {
        match self {
            Piece::X => Piece::O,
            Piece::O => Piece::X,
            Piece::Empty => Piece::Empty,
        }
    }

    /// How the piece is written: `X`, `O`, or a single space for an empty cell.
    pub open spec fn text(self) -> Seq<char> {
        match self {
            Piece::X => "X"@,
            Piece::O => "O"@,
            Piece::Empty => " "@,
        }
    }

    /// Returns the opposite piece, used for taking turns.
    pub fn opposite(&self) -> (r: Piece)
        ensures
            r == self.other(),
    {
        match self {
            Piece::X => Piece::O,
            Piece::O => Piece::X,
            Piece::Empty => Piece::Empty,
        }
    }

    /// The piece as text, for printing.
    pub fn render(&self) -> (text: String)
        ensures
            text@ == self.text(),
    {
        match self {
            Piece::X => "X".to_owned(),
            Piece::O => "O".to_owned(),
            Piece::Empty => " ".to_owned(),
        }
    }
}

/// Taking the opposite twice gives the piece back.
pub proof fn lemma_opposite_twice(piece: Piece)
    ensures
        piece.other().other() == piece,
{
}

} // verus!
