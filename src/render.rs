//! The board as text: a header of column letters, then one line per row with
//! its number and a glyph for each tile.
use vstd::prelude::*;
use crate::game::{BOARD_SIZE, Piece, Tile, Tiles, board_of};

verus! {

/// The glyph drawn for a tile.
pub open spec fn glyph(t: Tile) -> Seq<char> {
    match t {
        Some(Piece::X) => seq!['x'],
        Some(Piece::O) => seq!['o'],
        None => seq!['\u{25A2}'],
    }
}

/// The header line, naming the columns.
pub open spec fn header_text() -> Seq<char> {
    seq![' ', ' ', ' ', 'A', ' ', 'B', ' ', 'C', '\n']
}

/// The line drawn for row `i` (counted from 0), holding `row`.
pub open spec fn row_text(i: int, row: Seq<Tile>) -> Seq<char> {
    seq![' ', if i == 0 { '1' } else if i == 1 { '2' } else { '3' }]
        + seq![' '] + glyph(row[0])
        + seq![' '] + glyph(row[1])
        + seq![' '] + glyph(row[2])
        + seq!['\n']
}

/// The lines drawn for the first `n` rows of `board`.
pub open spec fn rows_text(board: Seq<Seq<Tile>>, n: int) -> Seq<char>
    decreases n,
{
    if n <= 0 {
        Seq::empty()
    } else {
        rows_text(board, n - 1) + row_text(n - 1, board[n - 1])
    }
}

/// The whole drawing of `board`, ending with a blank line.
pub open spec fn board_text(board: Seq<Seq<Tile>>) -> Seq<char> {
    header_text() + rows_text(board, BOARD_SIZE as int) + seq!['\n']
}

/// The glyph drawn for `t`: `x`, `o`, or an empty square.
pub fn tile_glyph(t: Tile) -> (r: &'static str)
    ensures
        r@ == glyph(t),
{
    match t {
        Some(Piece::X) => {
            proof {
                reveal_strlit("x");
            }
            "x"
        },
        Some(Piece::O) => {
            proof {
                reveal_strlit("o");
            }
            "o"
        },
        None => {
            proof {
                reveal_strlit("\u{25A2}");
            }
            "\u{25A2}"
        },
    }
}

/// Appends to `s` the line drawn for row `i` (counted from 0), holding `row`.
fn push_row(s: &mut String, i: usize, row: &[Tile; BOARD_SIZE])
    requires
        i < BOARD_SIZE,
    ensures
        final(s)@ == old(s)@ + row_text(i as int, row@),
{
    let label = if i == 0 {
        " 1"
    } else if i == 1 {
        " 2"
    } else {
        " 3"
    };
    proof {
        reveal_strlit(" 1");
        reveal_strlit(" 2");
        reveal_strlit(" 3");
        reveal_strlit(" ");
        reveal_strlit("\n");
    }
    s.append(label);
    s.append(" ");
    s.append(tile_glyph(row[0]));
    s.append(" ");
    s.append(tile_glyph(row[1]));
    s.append(" ");
    s.append(tile_glyph(row[2]));
    s.append("\n");
    assert(s@ =~= old(s)@ + row_text(i as int, row@));
}

/// Draws the board: column letters A–C above, row numbers 1–3 on the left,
/// and a blank line below.
pub fn render_tiles(tiles: &Tiles) -> (r: String)
    ensures
        r@ == board_text(board_of(*tiles)),
{
    let mut s = String::new();
    proof {
        reveal_strlit("   A B C\n");
    }
    s.append("   A B C\n");
    assert(s@ =~= header_text());
    let mut i: usize = 0;
    while i < BOARD_SIZE
        invariant
            i <= BOARD_SIZE,
            s@ == header_text() + rows_text(board_of(*tiles), i as int),
        decreases BOARD_SIZE - i,
    {
        push_row(&mut s, i, &tiles[i]);
        assert(s@ =~= header_text() + rows_text(board_of(*tiles), i + 1));
        i += 1;
    }
    proof {
        reveal_strlit("\n");
    }
    s.append("\n");
    assert(s@ =~= board_text(board_of(*tiles)));
    s
}

} // verus!
