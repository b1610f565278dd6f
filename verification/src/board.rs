use vstd::prelude::*;
use crate::piece::Piece;

verus! {

/// How the inspection of a line, or of the whole board, ended.
#[derive(Clone, Copy, Debug, PartialEq, Eq, Structural)]
pub enum WinResult {
    Win,
    Draw,
    Undecided,
}

/// The piece that a verdict is about, and the verdict.
#[derive(Clone, Copy, Debug, PartialEq, Eq, Structural)]
pub struct Winner {
    pub piece: Piece,
    pub status: WinResult,
}

/// The upper corner at which a diagonal starts.
#[derive(Clone, Copy, Debug, PartialEq, Eq, Structural)]
pub enum Corner {
    TopLeft,
    TopRight,
}

/// The 3x3 grid, indexed `state[row][column]`, and the number of moves played.
#[derive(Clone, Copy, Debug, PartialEq, Eq)]
pub struct Board {
    pub state: [[Piece; 3]; 3],
    pub moves: u8,
}

/// Whether `row` and `column` name a cell of the grid.
pub open spec fn on_grid(row: int, column: int) -> bool {
    0 <= row < 3 && 0 <= column < 3
}

/// The nine cells of the grid, each as `(row, column)`.
pub open spec fn grid() -> Set<(int, int)> {
    Set::new(|at: (int, int)| on_grid(at.0, at.1))
}

/// Three cells hold a winning line: the same piece of a player in all of them.
pub open spec fn three_alike(a: Piece, b: Piece, c: Piece) -> bool {
    a == b && b == c && a != Piece::Empty
}

/// The eight lines in the order in which they are inspected: rows 0 to 2 from the top,
/// columns 0 to 2 from the left, the diagonal from the top left, the diagonal from the
/// top right. Each line lists its cells as `(row, column)`, starting at the top or left.
pub open spec fn line(k: int) -> Seq<(int, int)> {
    if 0 <= k < 3 {
        seq![(k, 0int), (k, 1int), (k, 2int)]
    } else if 3 <= k < 6 {
        seq![(0int, k - 3), (1int, k - 3), (2int, k - 3)]
    } else if k == 6 {
        seq![(0int, 0int), (1int, 1int), (2int, 2int)]
    } else {
        seq![(0int, 2int), (1int, 1int), (2int, 0int)]
    }
}

impl Corner {
    /// The position of this corner's diagonal among the eight lines.
    pub open spec fn diagonal(self) -> int {
        match self {
            Corner::TopLeft => 6,
            Corner::TopRight => 7,
        }
    }
}

impl Board {
    /// The piece in the cell at `row` and `column`.
    pub open spec fn cell(self, row: int, column: int) -> Piece {
        self.state[row][column]
    }

    /// The piece in the cell `at`, given as `(row, column)`.
    pub open spec fn at(self, at: (int, int)) -> Piece {
        self.cell(at.0, at.1)
    }

    /// The cells that hold a piece.
    pub open spec fn marked(self) -> Set<(int, int)> {
        Set::new(|at: (int, int)| on_grid(at.0, at.1) && self.at(at) != Piece::Empty)
    }

    /// The move counter agrees with the grid: it is the number of cells that hold a piece.
    pub open spec fn wf(self) -> bool {
        self.moves == self.marked().len()
    }

    /// No move was made: every cell is empty and the counter is zero.
    pub open spec fn is_fresh(self) -> bool {
        &&& self.moves == 0
        &&& forall|row: int, column: int|
            on_grid(row, column) ==> #[trigger] self.cell(row, column) == Piece::Empty
    }

    /// Every cell but the one at `row` and `column` holds the same piece in both boards.
    pub open spec fn same_elsewhere(self, other: Board, row: int, column: int) -> bool {
        forall|r: int, c: int|
            on_grid(r, c) && (r, c) != (row, column) ==> #[trigger] self.cell(r, c) == other.cell(
                r,
                c,
            )
    }

    /// Every piece of `before` still stands in its cell: none was removed or replaced.
    pub open spec fn keeps_pieces_of(self, before: Board) -> bool {
        forall|row: int, column: int|
            on_grid(row, column) && before.cell(row, column) != Piece::Empty
                ==> #[trigger] self.cell(row, column) == before.cell(row, column)
    }

    /// `self` is `before` after one move: `piece` stands at `row` and `column`, the counter
    /// is one higher, and nothing else has changed.
    pub open spec fn placed_on(self, before: Board, row: int, column: int, piece: Piece) -> bool {
        &&& self.cell(row, column) == piece
        &&& self.moves == before.moves + 1
        &&& self.same_elsewhere(before, row, column)
    }

    /// `self` is what an attempt to place `piece` at `row` and `column` makes of `before`:
    /// the move where the cell was empty, and no change where it was not.
    pub open spec fn after_attempt(self, before: Board, row: int, column: int, piece: Piece) -> bool {
        if before.cell(row, column) == Piece::Empty {
            self.placed_on(before, row, column, piece)
        } else {
            self == before
        }
    }

    /// The first cell of the `k`-th line holds the piece that the line is reported for.
    pub open spec fn line_piece(self, k: int) -> Piece {
        self.at(line(k)[0])
    }

    /// The `k`-th line is a win.
    pub open spec fn line_won(self, k: int) -> bool {
        three_alike(self.at(line(k)[0]), self.at(line(k)[1]), self.at(line(k)[2]))
    }

    /// What the inspection of the `k`-th line reports.
    pub open spec fn line_report(self, k: int) -> Winner {
        Winner {
            piece: self.line_piece(k),
            status: if self.line_won(k) {
                WinResult::Win
            } else {
                WinResult::Undecided
            },
        }
    }

    /// The first won line at or after position `k`, if there is one.
    pub open spec fn first_won_from(self, k: int) -> Option<int>
        decreases 8 - k,
    {
        if k < 0 || k >= 8 {
            None
        } else if self.line_won(k) {
            Some(k)
        } else {
            self.first_won_from(k + 1)
        }
    }

    /// No line is a win.
    pub open spec fn no_line_won(self) -> bool {
        forall|k: int| 0 <= k < 8 ==> !#[trigger] self.line_won(k)
    }

    /// The state of the game: the win of the first won line, else a draw once nine moves
    /// were made, else nothing yet.
    pub open spec fn verdict(self) -> Option<Winner> {
        match self.first_won_from(0) {
            Some(k) => Some(Winner { piece: self.line_piece(k), status: WinResult::Win }),
            None => if self.moves == 9 {
                Some(Winner { piece: Piece::Empty, status: WinResult::Draw })
            } else {
                None
            },
        }
    }

    /// One row as text: a space, then the three cells with ` | ` between them.
    pub open spec fn row_text(self, row: int) -> Seq<char> {
        " "@ + self.cell(row, 0).text() + " | "@ + self.cell(row, 1).text() + " | "@ + self.cell(
            row,
            2,
        ).text()
    }

    /// The board as text: the three rows from the top, with a line of eleven dashes
    /// between them and no line break at the end.
    pub open spec fn text(self) -> Seq<char> {
        self.row_text(0) + "\n-----------\n"@ + self.row_text(1) + "\n-----------\n"@
            + self.row_text(2)
    }

    /// Returns a new board with empty pieces.
    pub fn new() -> (board: Board)
        ensures
            board.is_fresh(),
            board.wf(),
    {
        let board = Board { state: [[Piece::Empty; 3]; 3], moves: 0 };
        assert(board.marked() =~= Set::<(int, int)>::empty());
        board
    }

    /// Sets the specified piece and returns true if the cell was not occupied.
    ///
    /// `x` is the column and `y` the row. An occupied cell is left as it is, and so is the
    /// rest of the board.
    pub fn set_piece(&mut self, x: usize, y: usize, piece: Piece) -> (placed: bool)
        requires
            x < 3,
            y < 3,
            old(self).cell(y as int, x as int) == Piece::Empty ==> old(self).moves < u8::MAX,
        ensures
            placed == (old(self).cell(y as int, x as int) == Piece::Empty),
            final(self).after_attempt(*old(self), y as int, x as int, piece),
            final(self).keeps_pieces_of(*old(self)),
            old(self).wf() && !(placed && piece == Piece::Empty) ==> final(self).wf(),
    {
        if self.state[y][x] == Piece::Empty {
            self.state[y][x] = piece;
            self.moves += 1;
            proof {
                if old(self).wf() && piece != Piece::Empty {
                    self.lemma_move_keeps_count(*old(self), y as int, x as int, piece);
                }
            }
            return true;
        } else {
            return false;
        }
    }

    /// Utility function to check three pieces at once.
    pub fn check_three(a: Piece, b: Piece, c: Piece) -> (status: WinResult)
        ensures
            status == if three_alike(a, b, c) {
                WinResult::Win
            } else {
                WinResult::Undecided
            },
    {
        if a == b && b == c && a != Piece::Empty {
            WinResult::Win
        } else {
            WinResult::Undecided
        }
    }

    /// Checks the specified row for a win.
    pub fn check_row(&mut self, row: usize) -> (found: Winner)
        requires
            row < 3,
        ensures
            *final(self) == *old(self),
            found == old(self).line_report(row as int),
    {
        Winner {
            piece: self.state[row][0],
            status: Board::check_three(self.state[row][0], self.state[row][1], self.state[row][2]),
        }
    }

    /// Checks the specified column for a win.
    pub fn check_column(&mut self, column: usize) -> (found: Winner)
        requires
            column < 3,
        ensures
            *final(self) == *old(self),
            found == old(self).line_report(3 + column as int),
    {
        Winner {
            piece: self.state[0][column],
            status: Board::check_three(
                self.state[0][column],
                self.state[1][column],
                self.state[2][column],
            ),
        }
    }

    /// Checks the specified diagonal for a win.
    pub fn check_diagonal(&mut self, corner: Corner) -> (found: Winner)
        ensures
            *final(self) == *old(self),
            found == old(self).line_report(corner.diagonal()),
    {
        Winner {
            piece: match corner {
                Corner::TopLeft => self.state[0][0],
                Corner::TopRight => self.state[0][2],
            },
            status: match corner {
                Corner::TopLeft => {
                    Board::check_three(self.state[0][0], self.state[1][1], self.state[2][2])
                },
                Corner::TopRight => {
                    Board::check_three(self.state[0][2], self.state[1][1], self.state[2][0])
                },
            },
        }
    }

    /// Returns the winner, a draw, or `None` while the game is still in progress.
    ///
    /// Rows are inspected first, then columns, then the two diagonals; the first won line
    /// decides. With no won line, nine moves make a draw.
    pub fn check_winner(&mut self) -> (result: Option<Winner>)
        ensures
            *final(self) == *old(self),
            result == old(self).verdict(),
            old(self).no_line_won() && old(self).moves != 9 ==> result is None,
            old(self).no_line_won() && old(self).moves == 9 ==> result == Some(
                Winner { piece: Piece::Empty, status: WinResult::Draw },
            ),
            !old(self).no_line_won() ==> (result matches Some(found) && found.status
                == WinResult::Win && found.piece != Piece::Empty),
    {
        let mut cur: Winner;
        // Rows
        for i in 0..3usize
            invariant
                *self == *old(self),
                self.first_won_from(0) == self.first_won_from(i as int),
        {
            cur = self.check_row(i);
            if cur.status == WinResult::Win {
                return Some(cur);
            }
        }
        // Columns
        for i in 0..3usize
            invariant
                *self == *old(self),
                self.first_won_from(0) == self.first_won_from(3 + i as int),
        {
            cur = self.check_column(i);
            if cur.status == WinResult::Win {
                return Some(cur);
            }
        }
        // Diagonals
        cur = self.check_diagonal(Corner::TopLeft);
        if cur.status == WinResult::Win {
            return Some(cur);
        }
        assert(self.first_won_from(6) == self.first_won_from(7));
        cur = self.check_diagonal(Corner::TopRight);
        if cur.status == WinResult::Win {
            return Some(cur);
        }
        proof {
            assert(self.first_won_from(7) == self.first_won_from(8));
            self.lemma_verdict_cases();
        }
        if self.moves == 9 {
            return Some(Winner { piece: Piece::Empty, status: WinResult::Draw });
        }
        None
    }

    /// The state of the game by cases: with no won line it is a draw after nine moves
    /// and open before; with a won line it is the win of a player.
    pub proof fn lemma_verdict_cases(self)
        ensures
            self.no_line_won() && self.moves != 9 ==> self.verdict() is None,
            self.no_line_won() && self.moves == 9 ==> self.verdict() == Some(
                Winner { piece: Piece::Empty, status: WinResult::Draw },
            ),
            !self.no_line_won() ==> (self.verdict() matches Some(found) && found.status
                == WinResult::Win && found.piece != Piece::Empty),
    {
        self.lemma_first_won(0);
    }

    /// One row as text, for printing.
    pub fn render_row(&self, row: usize) -> (text: String)
        requires
            row < 3,
        ensures
            text@ == self.row_text(row as int),
    {
        let mut text = " ".to_owned();
        text.append(self.state[row][0].render().as_str());
        text.append(" | ");
        text.append(self.state[row][1].render().as_str());
        text.append(" | ");
        text.append(self.state[row][2].render().as_str());
        text
    }

    /// The board as text, for printing.
    pub fn render(&self) -> (text: String)
        ensures
            text@ == self.text(),
    {
        let mut text = self.render_row(0);
        text.append("\n-----------\n");
        text.append(self.render_row(1).as_str());
        text.append("\n-----------\n");
        text.append(self.render_row(2).as_str());
        text
    }

    /// The search from position `k` finds the least won line at or after `k`, and finds
    /// none exactly when no line from `k` on is won.
    pub proof fn lemma_first_won(self, k: int)
        requires
            0 <= k <= 8,
        ensures
            match self.first_won_from(k) {
                Some(j) => k <= j < 8 && self.line_won(j) && forall|i: int|
                    k <= i < j ==> !#[trigger] self.line_won(i),
                None => forall|i: int| k <= i < 8 ==> !#[trigger] self.line_won(i),
            },
        decreases 8 - k,
    {
        if k < 8 && !self.line_won(k) {
            self.lemma_first_won(k + 1);
        }
    }

    /// A move of a player onto an empty cell keeps the counter in step with the grid.
    pub proof fn lemma_move_keeps_count(self, before: Board, row: int, column: int, piece: Piece)
        requires
            before.wf(),
            on_grid(row, column),
            before.cell(row, column) == Piece::Empty,
            piece != Piece::Empty,
            self.placed_on(before, row, column, piece),
        ensures
            self.wf(),
            self.keeps_pieces_of(before),
    {
        before.lemma_marked_bounded();
        assert(self.marked() =~= before.marked().insert((row, column)));
    }

    /// A board whose counter is in step with its grid has counted at most nine moves.
    pub proof fn lemma_moves_bounded(self)
        requires
            self.wf(),
        ensures
            self.moves <= 9,
    {
        self.lemma_marked_bounded();
    }

    /// The cells that hold a piece are finitely many, and at most nine.
    pub proof fn lemma_marked_bounded(self)
        ensures
            self.marked().finite(),
            self.marked().len() <= 9,
    {
        let all = set![
            (0int, 0int),
            (0int, 1int),
            (0int, 2int),
            (1int, 0int),
            (1int, 1int),
            (1int, 2int),
            (2int, 0int),
            (2int, 1int),
            (2int, 2int),
        ];
        assert(grid() =~= all);
        assert(self.marked().subset_of(grid()));
        vstd::set_lib::lemma_len_subset(self.marked(), grid());
    }
}

} // verus!
