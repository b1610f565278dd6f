use vstd::prelude::*;
use crate::board::{Board, WinResult, Winner};
use crate::coordinates::{index_to_coordinates, is_cell_index, keypad_cell};
use crate::input::{entry_in, read_entry};
use crate::piece::Piece;

verus! {

/// Why an entry was turned down. Either way the game is as it was, and the same player
/// is asked again.
#[derive(Clone, Copy, Debug, PartialEq, Eq, Structural)]
pub enum MoveError {
    /// The entry is no number, or a number that names no cell.
    Parse,
    /// The cell already holds a piece.
    Occupied,
}

/// What a turn led to.
#[derive(Clone, Copy, Debug, PartialEq, Eq, Structural)]
pub enum Turn {
    /// Nothing was placed.
    Rejected(MoveError),
    /// The piece was placed and the game goes on with the other player.
    Placed,
    /// The piece was placed and completed a line of this player's pieces.
    Won(Piece),
    /// The piece was placed, the board is full, and nobody has a line.
    Drawn,
}

impl Turn {
    /// The turn that follows from what the board says after a piece was placed.
    pub open spec fn after(verdict: Option<Winner>) -> Turn {
        match verdict {
            None => Turn::Placed,
            Some(found) => if found.status == WinResult::Win {
                Turn::Won(found.piece)
            } else {
                Turn::Drawn
            },
        }
    }

    /// Whether the game is over with this turn.
    pub open spec fn is_final(self) -> bool {
        self is Won || self is Drawn
    }

    /// Whether the game is over with this turn.
    pub fn ends_game(&self) -> (over: bool)
        ensures
            over == self.is_final(),
    {
        match self {
            Turn::Won(_) => true,
            Turn::Drawn => true,
            _ => false,
        }
    }
}

/// One game: the board and the player whose turn it is.
pub struct Game {
    board: Board,
    current: Piece,
}

impl Game {
    #[verifier::type_invariant]
    spec fn inv(self) -> bool {
        self.board.wf() && self.current != Piece::Empty
    }

    /// The board as it stands.
    pub closed spec fn position(self) -> Board {
        self.board
    }

    /// The player whose turn it is.
    pub closed spec fn mover(self) -> Piece {
        self.current
    }

    /// `self` and `turn` are what the entry of `index` makes of the game `before`.
    pub open spec fn follows(self, before: Game, index: usize, turn: Turn) -> bool {
        let (column, row) = keypad_cell(index as int);
        if !is_cell_index(index as int) {
            &&& turn == Turn::Rejected(MoveError::Parse)
            &&& self.position() == before.position()
            &&& self.mover() == before.mover()
        } else if before.position().cell(row, column) != Piece::Empty {
            &&& turn == Turn::Rejected(MoveError::Occupied)
            &&& self.position() == before.position()
            &&& self.mover() == before.mover()
        } else {
            &&& self.position().placed_on(before.position(), row, column, before.mover())
            &&& turn == Turn::after(self.position().verdict())
            &&& self.mover() == if turn == Turn::Placed {
                before.mover().other()
            } else {
                before.mover()
            }
        }
    }

    /// `self` and `turn` are what an entry makes of the game `before`: one that holds
    /// no number is turned down, and one that holds a number is played as that number.
    pub open spec fn answers(self, before: Game, entry: Option<usize>, turn: Turn) -> bool {
        match entry {
            Some(index) => self.follows(before, index, turn),
            None => {
                &&& turn == Turn::Rejected(MoveError::Parse)
                &&& self.position() == before.position()
                &&& self.mover() == before.mover()
            },
        }
    }

    /// A new game: an empty board, and `X` moves first.
    pub fn new() -> (game: Game)
        ensures
            game.position().is_fresh(),
            game.mover() == Piece::X,
    {
        Game { board: Board::new(), current: Piece::X }
    }

    /// The board as it stands.
    pub fn board(&self) -> (board: &Board)
        ensures
            *board == self.position(),
            board.wf(),
    {
        proof {
            use_type_invariant(self);
        }
        &self.board
    }

    /// The player whose turn it is.
    pub fn current(&self) -> (piece: Piece)
        ensures
            piece == self.mover(),
            piece != Piece::Empty,
    {
        proof {
            use_type_invariant(self);
        }
        self.current
    }

    /// Plays the cell that `index` names for the player whose turn it is.
    pub fn play(&mut self, index: usize) -> (turn: Turn)
        ensures
            final(self).follows(*old(self), index, turn),
    {
        proof {
            use_type_invariant(&*self);
            self.board.lemma_moves_bounded();
        }
        let (x, y) = match index_to_coordinates(index) {
            Ok(at) => at,
            Err(_) => {
                return Turn::Rejected(MoveError::Parse);
            },
        };
        let mut board = self.board;
        if !board.set_piece(x, y, self.current) {
            return Turn::Rejected(MoveError::Occupied);
        }
        self.board = board;
        match board.check_winner() {
            Some(found) => {
                if found.status == WinResult::Win {
                    Turn::Won(found.piece)
                } else {
                    Turn::Drawn
                }
            },
            None => {
                self.current = self.current.opposite();
                Turn::Placed
            },
        }
    }

    /// Takes a line that the player whose turn it is has typed, and plays the cell whose
    /// number it holds.
    pub fn enter(&mut self, line: &str) -> (turn: Turn)
        ensures
            final(self).answers(*old(self), entry_in(line@), turn),
    {
        match read_entry(line) {
            Some(index) => self.play(index),
            None => Turn::Rejected(MoveError::Parse),
        }
    }
}

} // verus!
