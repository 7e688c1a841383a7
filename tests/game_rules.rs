use tictactoe::{Game, MoveError, Piece, Winner};

fn played(moves: &[(usize, usize)]) -> Game {
    let mut game = Game::new();
    for &(row, col) in moves {
        game.make_move(row, col).unwrap();
    }
    game
}

#[test]
fn new_game_is_empty_with_x_to_move() {
    let game = Game::new();
    assert!(game.tiles().iter().all(|row| row.iter().all(|t| t.is_none())));
    assert_eq!(game.current_piece(), Piece::X);
    assert_eq!(game.winner(), None);
    assert!(!game.is_finished());
}

#[test]
fn other_piece_flips() {
    assert_eq!(Piece::X.other(), Piece::O);
    assert_eq!(Piece::O.other(), Piece::X);
}

#[test]
fn turns_alternate_from_x() {
    let mut game = Game::new();
    let moves = [(1, 1), (0, 0), (2, 2), (0, 2), (0, 1), (2, 1)];
    for (k, &(row, col)) in moves.iter().enumerate() {
        let expected = if k % 2 == 0 { Piece::X } else { Piece::O };
        assert_eq!(game.current_piece(), expected);
        game.make_move(row, col).unwrap();
        assert_eq!(game.tiles()[row][col], Some(expected));
        assert_eq!(game.current_piece(), expected.other());
    }
}

#[test]
fn finished_game_refuses_moves_and_stays() {
    let mut game = played(&[(0, 0), (0, 1), (2, 2), (2, 1), (1, 1)]);
    assert!(game.is_finished());
    let tiles = *game.tiles();
    let piece = game.current_piece();
    for &(row, col) in &[(1, 0), (5, 5), (0, 0)] {
        assert_eq!(game.make_move(row, col), Err(MoveError::GameAlreadyOver));
        assert_eq!(*game.tiles(), tiles);
        assert_eq!(game.current_piece(), piece);
        assert_eq!(game.winner(), Some(Winner::X));
    }
}

#[test]
fn off_board_move_is_refused() {
    let mut game = played(&[(1, 1)]);
    let tiles = *game.tiles();
    for &(row, col) in &[(3, 0), (0, 3), (usize::MAX, 1), (7, 9)] {
        assert_eq!(game.make_move(row, col), Err(MoveError::InvalidPosition { row, col }));
        assert_eq!(*game.tiles(), tiles);
        assert_eq!(game.current_piece(), Piece::O);
        assert_eq!(game.winner(), None);
    }
}

#[test]
fn occupied_tile_is_refused_naming_occupant() {
    let mut game = played(&[(1, 1), (0, 2)]);
    let tiles = *game.tiles();
    assert_eq!(
        game.make_move(1, 1),
        Err(MoveError::TileNotEmpty { other_piece: Piece::X, row: 1, col: 1 })
    );
    assert_eq!(
        game.make_move(0, 2),
        Err(MoveError::TileNotEmpty { other_piece: Piece::O, row: 0, col: 2 })
    );
    assert_eq!(*game.tiles(), tiles);
    assert_eq!(game.current_piece(), Piece::X);
    assert_eq!(game.winner(), None);
}

#[test]
fn game_continues_without_line_or_full_board() {
    let game = played(&[(0, 0), (1, 1), (0, 1)]);
    assert_eq!(game.winner(), None);
    assert!(!game.is_finished());
}

#[test]
fn row_win_for_x() {
    let game = played(&[(0, 0), (1, 0), (0, 1), (1, 1), (0, 2)]);
    assert_eq!(game.winner(), Some(Winner::X));
}

#[test]
fn win_on_last_tile_is_not_a_tie() {
    let game = played(&[
        (0, 0), (0, 1), (0, 2),
        (1, 0), (2, 1), (1, 2),
        (2, 2), (2, 0), (1, 1),
    ]);
    assert!(game.tiles().iter().all(|row| row.iter().all(|t| t.is_some())));
    assert_eq!(game.winner(), Some(Winner::X));
}

#[test]
fn full_board_tie_other_order() {
    let game = played(&[
        (1, 1), (0, 0), (2, 2),
        (0, 2), (0, 1), (2, 1),
        (1, 0), (1, 2), (2, 0),
    ]);
    assert_eq!(game.winner(), Some(Winner::Tie));
}
