use tictactoe::board::{Board, Corner, WinResult, Winner};
use tictactoe::piece::Piece;

const X: Piece = Piece::X;
const O: Piece = Piece::O;
const E: Piece = Piece::Empty;

fn marks(board: &Board) -> u8 {
    let mut count = 0;
    for row in 0..3 {
        for column in 0..3 {
            if board.state[row][column] != Piece::Empty {
                count += 1;
            }
        }
    }
    count
}

#[test]
fn new_board_is_empty() {
    let board = Board::new();
    assert_eq!(board.state, [[E; 3]; 3]);
    assert_eq!(board.moves, 0);
}

#[test]
fn placing_on_an_empty_cell_succeeds() {
    let mut board = Board::new();
    assert!(board.set_piece(2, 0, X));
    assert_eq!(board.state, [[E, E, X], [E, E, E], [E, E, E]]);
    assert_eq!(board.moves, 1);
}

#[test]
fn x_is_the_column_and_y_the_row() {
    let mut board = Board::new();
    assert!(board.set_piece(0, 2, O));
    assert_eq!(board.state[2][0], O);
    assert_eq!(board.state[0][2], E);
}

#[test]
fn placing_on_an_occupied_cell_fails_and_changes_nothing() {
    let mut board = Board::new();
    assert!(board.set_piece(1, 1, X));
    let before = board;
    assert!(!board.set_piece(1, 1, O));
    assert_eq!(board, before);
    assert!(!board.set_piece(1, 1, X));
    assert_eq!(board, before);
    assert_eq!(board.state[1][1], X);
    assert_eq!(board.moves, 1);
}

#[test]
fn counter_follows_the_marks_through_any_moves() {
    let mut board = Board::new();
    let moves = [
        (0, 0, X),
        (0, 0, O),
        (1, 1, O),
        (2, 2, X),
        (1, 1, X),
        (2, 0, O),
        (0, 2, X),
        (2, 2, O),
        (1, 0, O),
        (0, 1, X),
        (2, 1, O),
        (1, 2, X),
        (1, 2, O),
        (0, 0, X),
    ];
    for (x, y, piece) in moves {
        let before = board;
        let free = board.state[y][x] == Piece::Empty;
        assert_eq!(board.set_piece(x, y, piece), free);
        if free {
            assert_eq!(board.moves, before.moves + 1);
        } else {
            assert_eq!(board, before);
        }
        assert_eq!(board.moves, marks(&board));
        assert!(board.moves <= 9);
    }
    assert_eq!(board.moves, 9);
}

#[test]
fn an_empty_mark_is_placed_like_any_other() {
    let mut board = Board::new();
    assert!(board.set_piece(0, 0, E));
    assert_eq!(board.state, [[E; 3]; 3]);
    assert_eq!(board.moves, 1);
}

#[test]
fn top_row_of_x_wins() {
    let mut board = Board { state: [[X, X, X], [E, E, E], [E, E, E]], moves: 3 };
    assert_eq!(board.check_winner(), Some(Winner { piece: X, status: WinResult::Win }));
}

#[test]
fn full_board_without_a_line_is_a_draw() {
    let mut board = Board { state: [[X, O, X], [X, O, O], [O, X, X]], moves: 9 };
    assert_eq!(board.check_winner(), Some(Winner { piece: E, status: WinResult::Draw }));
}

#[test]
fn board_without_a_line_and_with_room_is_in_progress() {
    let mut board = Board { state: [[X, O, X], [X, O, O], [O, X, E]], moves: 8 };
    assert_eq!(board.check_winner(), None);
    let mut board = Board::new();
    assert_eq!(board.check_winner(), None);
    let mut board = Board { state: [[X, X, O], [E, O, E], [E, E, X]], moves: 5 };
    assert_eq!(board.check_winner(), None);
}

#[test]
fn diagonal_of_o_wins() {
    let mut board = Board { state: [[O, E, E], [E, O, E], [E, E, O]], moves: 3 };
    assert_eq!(board.check_winner(), Some(Winner { piece: O, status: WinResult::Win }));
}

#[test]
fn other_diagonal_wins() {
    let mut board = Board { state: [[O, O, X], [E, X, E], [X, E, E]], moves: 5 };
    assert_eq!(board.check_winner(), Some(Winner { piece: X, status: WinResult::Win }));
}

#[test]
fn every_row_and_column_can_win() {
    for k in 0..3 {
        let mut board = Board::new();
        for column in 0..3 {
            assert!(board.set_piece(column, k, O));
        }
        assert_eq!(board.check_winner(), Some(Winner { piece: O, status: WinResult::Win }));
        let mut board = Board::new();
        for row in 0..3 {
            assert!(board.set_piece(k, row, X));
        }
        assert_eq!(board.check_winner(), Some(Winner { piece: X, status: WinResult::Win }));
    }
}

#[test]
fn a_win_on_the_ninth_move_is_a_win() {
    let mut board = Board { state: [[X, O, X], [O, X, O], [O, X, X]], moves: 9 };
    assert_eq!(board.check_winner(), Some(Winner { piece: X, status: WinResult::Win }));
}

#[test]
fn rows_are_looked_at_before_columns_and_diagonals() {
    let mut board = Board { state: [[O, X, X], [O, E, E], [O, O, O]], moves: 7 };
    assert_eq!(board.check_winner(), Some(Winner { piece: O, status: WinResult::Win }));
    let mut board = Board { state: [[X, E, O], [X, E, O], [O, O, O]], moves: 7 };
    assert_eq!(board.check_winner(), Some(Winner { piece: O, status: WinResult::Win }));
    let mut board = Board { state: [[X, X, X], [O, O, O], [E, E, E]], moves: 6 };
    assert_eq!(board.check_winner(), Some(Winner { piece: X, status: WinResult::Win }));
    let mut board = Board { state: [[E, E, E], [O, O, O], [X, X, X]], moves: 6 };
    assert_eq!(board.check_winner(), Some(Winner { piece: O, status: WinResult::Win }));
    let mut board = Board { state: [[O, X, E], [O, X, E], [O, X, E]], moves: 6 };
    assert_eq!(board.check_winner(), Some(Winner { piece: O, status: WinResult::Win }));
}

#[test]
fn checking_leaves_the_board_alone() {
    let mut board = Board { state: [[X, O, X], [X, O, O], [O, X, E]], moves: 8 };
    let before = board;
    board.check_winner();
    board.check_row(1);
    board.check_column(2);
    board.check_diagonal(Corner::TopLeft);
    assert_eq!(board, before);
}

#[test]
fn three_alike_win_unless_empty() {
    assert_eq!(Board::check_three(X, X, X), WinResult::Win);
    assert_eq!(Board::check_three(O, O, O), WinResult::Win);
    assert_eq!(Board::check_three(E, E, E), WinResult::Undecided);
    assert_eq!(Board::check_three(X, X, O), WinResult::Undecided);
    assert_eq!(Board::check_three(X, O, X), WinResult::Undecided);
    assert_eq!(Board::check_three(O, X, X), WinResult::Undecided);
    assert_eq!(Board::check_three(X, X, E), WinResult::Undecided);
}

#[test]
fn a_row_reports_its_first_cell() {
    let mut board = Board { state: [[X, X, X], [O, X, O], [E, O, O]], moves: 8 };
    assert_eq!(board.check_row(0), Winner { piece: X, status: WinResult::Win });
    assert_eq!(board.check_row(1), Winner { piece: O, status: WinResult::Undecided });
    assert_eq!(board.check_row(2), Winner { piece: E, status: WinResult::Undecided });
}

#[test]
fn a_column_reports_its_top_cell() {
    let mut board = Board { state: [[X, O, E], [X, O, X], [X, X, O]], moves: 8 };
    assert_eq!(board.check_column(0), Winner { piece: X, status: WinResult::Win });
    assert_eq!(board.check_column(1), Winner { piece: O, status: WinResult::Undecided });
    assert_eq!(board.check_column(2), Winner { piece: E, status: WinResult::Undecided });
}

#[test]
fn a_diagonal_reports_its_top_corner() {
    let mut board = Board { state: [[X, O, O], [E, X, E], [E, E, X]], moves: 5 };
    assert_eq!(board.check_diagonal(Corner::TopLeft), Winner { piece: X, status: WinResult::Win });
    assert_eq!(
        board.check_diagonal(Corner::TopRight),
        Winner { piece: O, status: WinResult::Undecided }
    );
    let mut board = Board { state: [[X, E, O], [E, O, E], [O, E, X]], moves: 5 };
    assert_eq!(board.check_diagonal(Corner::TopRight), Winner { piece: O, status: WinResult::Win });
    assert_eq!(
        board.check_diagonal(Corner::TopLeft),
        Winner { piece: X, status: WinResult::Undecided }
    );
}

#[test]
fn empty_board_renders_as_a_bare_frame() {
    assert_eq!(
        Board::new().render(),
        "   |   |  \n-----------\n   |   |  \n-----------\n   |   |  "
    );
}

#[test]
fn board_renders_rows_from_the_top() {
    let board = Board { state: [[X, O, E], [E, X, O], [O, E, X]], moves: 6 };
    assert_eq!(board.render(), " X | O |  \n-----------\n   | X | O\n-----------\n O |   | X");
    assert_eq!(board.render_row(0), " X | O |  ");
    assert_eq!(board.render_row(1), "   | X | O");
    assert_eq!(board.render_row(2), " O |   | X");
}
