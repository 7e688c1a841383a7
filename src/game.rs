use vstd::prelude::*;

verus! {

/// Number of rows, and of columns, of the board.
pub const BOARD_SIZE: usize = 3;

/// A player's mark: which side occupies a tile, or whose turn it is.
#[derive(Debug, Clone, Copy, PartialEq, Eq, Hash, Structural)]
pub enum Piece {
    X,
    O,
}

impl Piece {
    /// The opposing player's mark.
    pub open spec fn spec_other(self) -> Piece {
        match self {
            Piece::X => Piece::O,
            Piece::O => Piece::X,
        }
    }

    /// Returns the opposite piece; used to pass the turn after each move.
    #[verifier::when_used_as_spec(spec_other)]
    pub fn other(self) -> (r: Piece)
        ensures
            r == self.spec_other(),
    {
        match self {
            Piece::X => Piece::O,
            Piece::O => Piece::X,
        }
    }
}

/// A board position: empty, or holding one player's piece.
pub type Tile = Option<Piece>;

/// The board, row-major: `tiles[row][col]`.
pub type Tiles = [[Tile; BOARD_SIZE]; BOARD_SIZE];

/// The outcome of a finished game.
#[derive(Debug, Clone, Copy, PartialEq, Eq, Hash, Structural)]
pub enum Winner {
    X,
    O,
    Tie,
}

/// Why a move was refused. A refused move leaves the game unchanged.
#[derive(Debug, Clone, PartialEq, Eq, Structural)]
pub enum MoveError {
    /// The game already has an outcome.
    GameAlreadyOver,
    /// The coordinates lie outside the board.
    InvalidPosition { row: usize, col: usize },
    /// The tile at the coordinates already holds `other_piece`.
    TileNotEmpty { other_piece: Piece, row: usize, col: usize },
}

/// The outcome won by the side playing `p`.
pub open spec fn win_for(p: Piece) -> Winner {
    match p {
        Piece::X => Winner::X,
        Piece::O => Winner::O,
    }
}

/// The piece that fills all three tiles `a`, `b`, `c`, if one does.
pub open spec fn line_owner(a: Tile, b: Tile, c: Tile) -> Tile {
    if a is Some && b == a && c == a {
        a
    } else {
        None
    }
}

/// The board seen as rows of tiles.
pub open spec fn board_of(t: Tiles) -> Seq<Seq<Tile>> {
    t@.map_values(|row: [Tile; BOARD_SIZE]| row@)
}

/// Whether (`row`, `col`) addresses a tile of the board.
pub open spec fn on_board(row: int, col: int) -> bool {
    0 <= row < BOARD_SIZE && 0 <= col < BOARD_SIZE
}

/// The board with no piece on it.
pub open spec fn empty_board() -> Seq<Seq<Tile>> {
    Seq::new(BOARD_SIZE as nat, |r: int| Seq::new(BOARD_SIZE as nat, |c: int| None))
}

/// Every tile of the board holds a piece.
pub open spec fn board_full(board: Seq<Seq<Tile>>) -> bool {
    forall|r: int, c: int| on_board(r, c) ==> (#[trigger] board[r][c]) is Some
}

/// The piece that completes a line through (`row`, `col`): the row, then the
/// column, then the main diagonal when the tile lies on it, then the
/// anti-diagonal when the tile lies on it; the first complete line counts.
pub open spec fn line_through(board: Seq<Seq<Tile>>, row: int, col: int) -> Tile {
    let in_row = line_owner(board[row][0], board[row][1], board[row][2]);
    let in_col = line_owner(board[0][col], board[1][col], board[2][col]);
    let in_diag = if row == col {
        line_owner(board[0][0], board[1][1], board[2][2])
    } else {
        None
    };
    let in_anti = if row + col == BOARD_SIZE - 1 {
        line_owner(board[0][2], board[1][1], board[2][0])
    } else {
        None
    };
    if in_row is Some {
        in_row
    } else if in_col is Some {
        in_col
    } else if in_diag is Some {
        in_diag
    } else {
        in_anti
    }
}

/// The outcome after a piece was placed at (`row`, `col`): a win for the side
/// that completed a line through that tile, else a tie when the board is
/// full, else none yet.
pub open spec fn outcome_after(board: Seq<Seq<Tile>>, row: int, col: int) -> Option<Winner> {
    match line_through(board, row, col) {
        Some(p) => Some(win_for(p)),
        None => if board_full(board) {
            Some(Winner::Tie)
        } else {
            None
        },
    }
}

/// The state of a game as a mathematical value.
pub struct GameView {
    /// Rows of tiles.
    pub board: Seq<Seq<Tile>>,
    /// The piece that moves next.
    pub turn: Piece,
    /// The outcome, once there is one.
    pub winner: Option<Winner>,
}

impl GameView {
    /// The state at the start of a game: empty board, `X` to move, no outcome.
    pub open spec fn initial() -> GameView {
        GameView { board: empty_board(), turn: Piece::X, winner: None }
    }

    /// The state after the current piece is placed at (`row`, `col`) and the
    /// turn passes to the other side.
    pub open spec fn place(self, row: int, col: int) -> GameView {
        let board = self.board.update(row, self.board[row].update(col, Some(self.turn)));
        GameView { board, turn: self.turn.spec_other(), winner: outcome_after(board, row, col) }
    }

    /// What one attempted move does: the next state and the move's result.
    /// A finished game refuses every move; then coordinates off the board are
    /// refused; then an occupied tile, naming its occupant. Otherwise the
    /// piece is placed. Every refusal leaves the state as it was.
    pub open spec fn step(self, row: usize, col: usize) -> (GameView, Result<(), MoveError>) {
        if self.winner is Some {
            (self, Err(MoveError::GameAlreadyOver))
        } else if !on_board(row as int, col as int) {
            (self, Err(MoveError::InvalidPosition { row, col }))
        } else {
            match self.board[row as int][col as int] {
                Some(p) => (self, Err(MoveError::TileNotEmpty { other_piece: p, row, col })),
                None => (self.place(row as int, col as int), Ok(())),
            }
        }
    }
}

/// A game of tic-tac-toe in progress or finished.
#[derive(Debug, Clone)]
pub struct Game {
    tiles: Tiles,
    current_piece: Piece,
    winner: Option<Winner>,
}

impl View for Game {
    type V = GameView;

    closed spec fn view(&self) -> GameView {
        GameView { board: board_of(self.tiles), turn: self.current_piece, winner: self.winner }
    }
}

/// The outcome won by whoever owns the line `a`, `b`, `c`, if anyone does.
fn check_winner(a: Tile, b: Tile, c: Tile) -> (r: Option<Winner>)
    ensures
        r == (match line_owner(a, b, c) {
            Some(p) => Some(win_for(p)),
            None => None,
        }),
{
    match (a, b, c) {
        (Some(Piece::X), Some(Piece::X), Some(Piece::X)) => Some(Winner::X),
        (Some(Piece::O), Some(Piece::O), Some(Piece::O)) => Some(Winner::O),
        _ => None,
    }
}

/// Whether every tile of `tiles` holds a piece.
fn tiles_full(tiles: &Tiles) -> (r: bool)
    ensures
        r == board_full(board_of(*tiles)),
{
    let mut row: usize = 0;
    while row < BOARD_SIZE
        invariant
            row <= BOARD_SIZE,
            forall|r: int, c: int|
                0 <= r < row && 0 <= c < BOARD_SIZE ==> (#[trigger] board_of(*tiles)[r][c]) is Some,
        decreases BOARD_SIZE - row,
    {
        let mut col: usize = 0;
        while col < BOARD_SIZE
            invariant
                row < BOARD_SIZE,
                col <= BOARD_SIZE,
                forall|r: int, c: int|
                    0 <= r < row && 0 <= c < BOARD_SIZE ==> (#[trigger] board_of(*tiles)[r][c]) is Some,
                forall|c: int| 0 <= c < col ==> (#[trigger] board_of(*tiles)[row as int][c]) is Some,
            decreases BOARD_SIZE - col,
        {
            if tiles[row][col].is_none() {
                assert(!on_board(row as int, col as int) || board_of(*tiles)[row as int][col as int] is None);
                return false;
            }
            col += 1;
        }
        row += 1;
    }
    true
}

impl Game {
    /// A new game: empty board, `X` to move, no outcome.
    pub fn new() -> (r: Game)
        ensures
            r@ == GameView::initial(),
    {
        let r = Game {
            tiles: [[None, None, None], [None, None, None], [None, None, None]],
            current_piece: Piece::X,
            winner: None,
        };
        assert(board_of(r.tiles) =~= empty_board()) by {
            assert forall|i: int| 0 <= i < BOARD_SIZE implies board_of(r.tiles)[i] =~= empty_board()[i] by {}
        }
        r
    }

    /// Attempts to place the current piece at (`row`, `col`). On success the
    /// turn passes to the other side and the outcome is brought up to date;
    /// on failure nothing changes.
    pub fn make_move(&mut self, row: usize, col: usize) -> (r: Result<(), MoveError>)
        ensures
            (final(self)@, r) == old(self)@.step(row, col),
    {
        if self.is_finished() {
            return Err(MoveError::GameAlreadyOver);
        } else if row >= BOARD_SIZE || col >= BOARD_SIZE {
            return Err(MoveError::InvalidPosition { row, col });
        } else if let Some(other_piece) = self.tiles[row][col] {
            return Err(MoveError::TileNotEmpty { other_piece, row, col });
        }
        let ghost before = self@;
        self.tiles[row][col] = Some(self.current_piece);
        assert(board_of(self.tiles) =~= before.place(row as int, col as int).board) by {
            assert forall|i: int| 0 <= i < BOARD_SIZE implies board_of(self.tiles)[i]
                =~= before.place(row as int, col as int).board[i] by {}
        }
        self.current_piece = self.current_piece.other();
        self.update_winner(row, col);
        Ok(())
    }

    /// Sets the outcome, if there is none yet, from the lines through the
    /// tile (`row`, `col`) and from whether the board is full.
    fn update_winner(&mut self, row: usize, col: usize)
        requires
            row < BOARD_SIZE,
            col < BOARD_SIZE,
        ensures
            final(self)@ == (GameView {
                winner: if old(self)@.winner is Some {
                    old(self)@.winner
                } else {
                    outcome_after(old(self)@.board, row as int, col as int)
                },
                ..old(self)@
            }),
    {
        let t = self.tiles;
        let mut found = self.winner;
        if found.is_none() {
            found = check_winner(t[row][0], t[row][1], t[row][2]);
        }
        if found.is_none() {
            found = check_winner(t[0][col], t[1][col], t[2][col]);
        }
        if found.is_none() && row == col {
            found = check_winner(t[0][0], t[1][1], t[2][2]);
        }
        if found.is_none() && BOARD_SIZE - row - 1 == col {
            found = check_winner(t[0][2], t[1][1], t[2][0]);
        }
        if found.is_none() && tiles_full(&t) {
            found = Some(Winner::Tie);
        }
        self.winner = found;
    }

    /// Whether the game has an outcome.
    pub fn is_finished(&self) -> (r: bool)
        ensures
            r == self@.winner is Some,
    {
        self.winner.is_some()
    }

    /// The outcome, once there is one.
    pub fn winner(&self) -> (r: Option<Winner>)
        ensures
            r == self@.winner,
    {
        self.winner
    }

    /// The piece that moves next.
    pub fn current_piece(&self) -> (r: Piece)
        ensures
            r == self@.turn,
    {
        self.current_piece
    }

    /// A read-only view of the board.
    pub fn tiles(&self) -> (r: &Tiles)
        ensures
            board_of(*r) == self@.board,
    {
        &self.tiles
    }
}

} // verus!
