use tictactoe::piece::Piece;

#[test]
fn opposite_of_x_is_o() {
    assert_eq!(Piece::X.opposite(), Piece::O);
}

#[test]
fn opposite_of_o_is_x() {
    assert_eq!(Piece::O.opposite(), Piece::X);
}

#[test]
fn opposite_of_empty_is_empty() {
    assert_eq!(Piece::Empty.opposite(), Piece::Empty);
}

#[test]
fn opposite_twice_gives_the_piece_back() {
    for piece in [Piece::X, Piece::O, Piece::Empty] {
        assert_eq!(piece.opposite().opposite(), piece);
    }
}

#[test]
fn opposite_of_a_player_is_the_other_player() {
    for piece in [Piece::X, Piece::O] {
        assert_ne!(piece.opposite(), piece);
        assert_ne!(piece.opposite(), Piece::Empty);
    }
}

#[test]
fn pieces_are_equal_by_variant() {
    assert!(Piece::X == Piece::X);
    assert!(Piece::O == Piece::O);
    assert!(Piece::Empty == Piece::Empty);
    assert!(Piece::X != Piece::O);
    assert!(Piece::X != Piece::Empty);
    assert!(Piece::O != Piece::Empty);
}

#[test]
fn pieces_render_as_x_o_and_space() {
    assert_eq!(Piece::X.render(), "X");
    assert_eq!(Piece::O.render(), "O");
    assert_eq!(Piece::Empty.render(), " ");
}
