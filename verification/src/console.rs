use vstd::prelude::*;
use crate::board::Board;
use crate::game::{MoveError, Turn};
use crate::piece::Piece;

verus! {

impl MoveError {
    /// What the player is told when an entry is turned down.
    pub open spec fn text(self) -> Seq<char> {
        match self {
            MoveError::Parse => "Please enter a valid move (1 - 9)!"@,
            MoveError::Occupied => "That square is already occupied!"@,
        }
    }

    /// What the player is told when an entry is turned down.
    pub fn message(&self) -> (text: String)
        ensures
            text@ == self.text(),
    {
        match self {
            MoveError::Parse => "Please enter a valid move (1 - 9)!".to_owned(),
            MoveError::Occupied => "That square is already occupied!".to_owned(),
        }
    }
}

/// The question put to the player whose turn it is.
pub open spec fn prompt_text(piece: Piece) -> Seq<char> {
    "Input move for "@ + piece.text() + ": "@
}

/// The announcement that `piece` has won.
pub open spec fn victory_text(piece: Piece) -> Seq<char> {
    "Player "@ + piece.text() + " won!"@
}

/// The announcement that the game ended without a winner.
pub open spec fn draw_text() -> Seq<char> {
    "It's a draw!"@
}

/// What is shown after a turn that left the board as `board`: the complaint when the
/// entry was turned down, the board when the game goes on, the board and on a line of
/// its own the winner when the game is won, and the draw when it is drawn.
pub open spec fn report_text(board: Board, turn: Turn) -> Seq<char> {
    match turn {
        Turn::Rejected(error) => error.text(),
        Turn::Placed => board.text(),
        Turn::Won(piece) => board.text() + "\n"@ + victory_text(piece),
        Turn::Drawn => draw_text(),
    }
}

/// The question put to the player whose turn it is.
pub fn prompt(piece: Piece) -> (text: String)
    ensures
        text@ == prompt_text(piece),
{
    let mut text = "Input move for ".to_owned();
    text.append(piece.render().as_str());
    text.append(": ");
    text
}

/// The announcement that `piece` has won.
pub fn victory(piece: Piece) -> (text: String)
    ensures
        text@ == victory_text(piece),
{
    let mut text = "Player ".to_owned();
    text.append(piece.render().as_str());
    text.append(" won!");
    text
}

/// What is shown after a turn that left the board as `board`.
pub fn report(board: &Board, turn: Turn) -> (text: String)
    ensures
        text@ == report_text(*board, turn),
{
    match turn {
        Turn::Rejected(error) => error.message(),
        Turn::Placed => board.render(),
        Turn::Won(piece) => {
            let mut text = board.render();
            text.append("\n");
            text.append(victory(piece).as_str());
            text
        },
        Turn::Drawn => "It's a draw!".to_owned(),
    }
}

} // verus!
