use tictactoe::{Game, Piece, parse_move, render_tiles, tile_glyph};

#[test]
fn parses_every_valid_token() {
    assert_eq!(parse_move("1A").unwrap(), (0, 0));
    assert_eq!(parse_move("1a").unwrap(), (0, 0));
    assert_eq!(parse_move("2B").unwrap(), (1, 1));
    assert_eq!(parse_move("2b").unwrap(), (1, 1));
    assert_eq!(parse_move("3C").unwrap(), (2, 2));
    assert_eq!(parse_move("3c").unwrap(), (2, 2));
    assert_eq!(parse_move("3a").unwrap(), (2, 0));
    assert_eq!(parse_move("1c").unwrap(), (0, 2));
}

#[test]
fn rejects_bad_tokens_with_whole_token() {
    for bad in ["", "1", "1A ", "4A", "0b", "1D", "A1", "aa", "11", "\u{e9}1", "1\u{e9}"] {
        let err = parse_move(bad).unwrap_err();
        assert_eq!(err.0, bad);
    }
}

#[test]
fn glyphs() {
    assert_eq!(tile_glyph(Some(Piece::X)), "x");
    assert_eq!(tile_glyph(Some(Piece::O)), "o");
    assert_eq!(tile_glyph(None), "\u{25A2}");
}

#[test]
fn renders_empty_board() {
    let game = Game::new();
    let e = "\u{25A2}";
    let expected = format!("   A B C\n 1 {e} {e} {e}\n 2 {e} {e} {e}\n 3 {e} {e} {e}\n\n");
    assert_eq!(render_tiles(game.tiles()), expected);
}

#[test]
fn renders_pieces_in_place() {
    let mut game = Game::new();
    game.make_move(0, 0).unwrap();
    game.make_move(2, 1).unwrap();
    let e = "\u{25A2}";
    let expected = format!("   A B C\n 1 x {e} {e}\n 2 {e} {e} {e}\n 3 {e} o {e}\n\n");
    assert_eq!(render_tiles(game.tiles()), expected);
}
