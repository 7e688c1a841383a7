//! Properties of whole games, proved over the model that `Game::make_move`
//! follows step by step.
use vstd::prelude::*;
use crate::game::{
    BOARD_SIZE, GameView, MoveError, Piece, Winner, board_full, line_owner, line_through,
    on_board, outcome_after,
};

verus! {

/// The state after the moves `moves`, given as (row, col), were attempted in
/// order on a new game.
pub open spec fn play(moves: Seq<(usize, usize)>) -> GameView
    decreases moves.len(),
{
    if moves.len() == 0 {
        GameView::initial()
    } else {
        play(moves.drop_last()).step(moves.last().0, moves.last().1).0
    }
}

/// Every move of `moves` was accepted when it was attempted.
pub open spec fn all_accepted(moves: Seq<(usize, usize)>) -> bool
    decreases moves.len(),
{
    moves.len() == 0 || (all_accepted(moves.drop_last()) && play(moves.drop_last()).step(
        moves.last().0,
        moves.last().1,
    ).1 is Ok)
}

/// Some row, column or diagonal of `board` is filled by a single piece.
pub open spec fn has_line(board: Seq<Seq<Option<Piece>>>) -> bool {
    ||| exists|r: int|
        0 <= r < BOARD_SIZE && (#[trigger] line_owner(board[r][0], board[r][1], board[r][2])) is Some
    ||| exists|c: int|
        0 <= c < BOARD_SIZE && (#[trigger] line_owner(board[0][c], board[1][c], board[2][c])) is Some
    ||| line_owner(board[0][0], board[1][1], board[2][2]) is Some
    ||| line_owner(board[0][2], board[1][1], board[2][0]) is Some
}

/// Turns alternate: after any run of accepted moves from a new game, `X` is
/// to move when an even number of moves was made, `O` when an odd number.
pub proof fn lemma_turns_alternate(moves: Seq<(usize, usize)>)
    requires
        all_accepted(moves),
    ensures
        play(moves).turn == if moves.len() % 2 == 0 {
            Piece::X
        } else {
            Piece::O
        },
    decreases moves.len(),
{
    if moves.len() > 0 {
        lemma_turns_alternate(moves.drop_last());
    }
}

/// A finished game refuses every move with `GameAlreadyOver` and stays as it
/// is: board, turn and outcome.
pub proof fn lemma_finished_game_refuses(g: GameView, row: usize, col: usize)
    requires
        g.winner is Some,
    ensures
        g.step(row, col) == (g, Err::<(), MoveError>(MoveError::GameAlreadyOver)),
{
}

/// Once a game has an outcome, no further moves change its state.
pub proof fn lemma_outcome_is_permanent(moves: Seq<(usize, usize)>, more: Seq<(usize, usize)>)
    requires
        play(moves).winner is Some,
    ensures
        play(moves + more) == play(moves),
    decreases more.len(),
{
    if more.len() > 0 {
        let init = more.drop_last();
        lemma_outcome_is_permanent(moves, init);
        assert((moves + more).drop_last() =~= moves + init);
    }
}

/// In a game without an outcome, a move off the board is refused with
/// `InvalidPosition` naming the coordinates, and changes nothing.
pub proof fn lemma_off_board_refused(g: GameView, row: usize, col: usize)
    requires
        g.winner is None,
        !on_board(row as int, col as int),
    ensures
        g.step(row, col) == (g, Err::<(), MoveError>(MoveError::InvalidPosition { row, col })),
{
}

/// In a game without an outcome, a move to an occupied tile is refused with
/// `TileNotEmpty` naming its occupant and the coordinates, and changes
/// nothing.
pub proof fn lemma_occupied_refused(g: GameView, row: usize, col: usize)
    requires
        g.winner is None,
        on_board(row as int, col as int),
        g.board[row as int][col as int] is Some,
    ensures
        g.step(row, col) == (g, Err::<(), MoveError>(
            MoveError::TileNotEmpty {
                other_piece: g.board[row as int][col as int]->Some_0,
                row,
                col,
            },
        )),
{
}

/// A game whose moves fill every tile without completing a row, column or
/// diagonal of one piece ends in a tie.
pub proof fn lemma_full_board_without_line_ties(moves: Seq<(usize, usize)>)
    requires
        board_full(play(moves).board),
        !has_line(play(moves).board),
    ensures
        play(moves).winner == Some(Winner::Tie),
    decreases moves.len(),
{
    if moves.len() == 0 {
        assert(on_board(0, 0));
        assert(play(moves).board[0][0] is None);
    } else {
        let before = play(moves.drop_last());
        let (row, col) = moves.last();
        if before.step(row, col).1 is Err {
            lemma_full_board_without_line_ties(moves.drop_last());
        } else {
            let board = play(moves).board;
            let r = row as int;
            let c = col as int;
            assert(play(moves) == before.place(r, c));
            assert(line_owner(board[r][0], board[r][1], board[r][2]) is None);
            assert(line_owner(board[0][c], board[1][c], board[2][c]) is None);
            assert(line_through(board, r, c) is None);
            assert(outcome_after(board, r, c) == Some(Winner::Tie));
        }
    }
}

} // verus!
