use vstd::prelude::*;
use crate::board::{on_grid, Board};
use crate::piece::Piece;

verus! {

/// `boards` are the states that a board goes through while `attempts` are made on it, one
/// after the other: each attempt names a cell of the grid, as `(row, column)`, and the
/// piece of a player, and leads from one board to the next.
pub open spec fn is_history(boards: Seq<Board>, attempts: Seq<((int, int), Piece)>) -> bool {
    &&& boards.len() == attempts.len() + 1
    &&& forall|i: int|
        0 <= i < attempts.len() ==> {
            let ((row, column), piece) = #[trigger] attempts[i];
            &&& on_grid(row, column)
            &&& piece != Piece::Empty
            &&& boards[i + 1].after_attempt(boards[i], row, column, piece)
        }
}

/// Whatever attempts are made on a board, taken or turned down: a later board still holds
/// every piece of an earlier one, and if the counter of the earlier one was in step with
/// its grid, so is the counter of the later one.
pub proof fn lemma_history_keeps_count(
    boards: Seq<Board>,
    attempts: Seq<((int, int), Piece)>,
    earlier: int,
    later: int,
)
    requires
        is_history(boards, attempts),
        0 <= earlier <= later < boards.len(),
    ensures
        boards[later].keeps_pieces_of(boards[earlier]),
        boards[earlier].wf() ==> boards[later].wf() && boards[later].moves <= 9,
    decreases later - earlier,
{
    if earlier < later {
        lemma_history_keeps_count(boards, attempts, earlier, later - 1);
        let before = boards[later - 1];
        let ((row, column), piece) = attempts[later - 1];
        if before.cell(row, column) == Piece::Empty && before.wf() {
            boards[later].lemma_move_keeps_count(before, row, column, piece);
        }
    }
    if boards[later].wf() {
        boards[later].lemma_moves_bounded();
    }
}

/// From a new board on, the counter is always the number of cells that hold a piece, and
/// never more than nine.
pub proof fn lemma_count_is_marks(boards: Seq<Board>, attempts: Seq<((int, int), Piece)>)
    requires
        is_history(boards, attempts),
        boards[0].is_fresh(),
    ensures
        forall|i: int|
            0 <= i < boards.len() ==> (#[trigger] boards[i]).moves == boards[i].marked().len()
                && boards[i].moves <= 9,
{
    assert(boards[0].marked() =~= Set::<(int, int)>::empty());
    assert forall|i: int| 0 <= i < boards.len() implies (#[trigger] boards[i]).moves
        == boards[i].marked().len() && boards[i].moves <= 9 by {
        lemma_history_keeps_count(boards, attempts, 0, i);
    }
}

} // verus!
