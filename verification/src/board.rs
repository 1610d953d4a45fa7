//! The four-by-four playing area: tiles, gravity-drop placement, the lines
//! that win, and whether any cell is left.
//!
//! Cells are addressed by a column `x` and a row `y`, both counted from zero,
//! columns from the left and rows from the bottom. Callers name a column by
//! its number from one to four; [`place`] is where the two meet.

use vstd::prelude::*;

verus! {

/// What a playable cell holds.
#[derive(Clone, Copy, Debug, PartialEq, Eq, Structural)]
pub enum Tile {
    Empty,
    Cookie,
    Milk,
}

/// One of the two sides that take turns.
#[derive(Clone, Copy, Debug, PartialEq, Eq, Structural)]
pub enum Team {
    Cookie,
    Milk,
}

/// Where a tile came to rest.
#[derive(Clone, Copy, Debug, PartialEq, Eq, Structural)]
pub struct Position {
    pub x: usize,
    pub y: usize,
}

/// Why a move was turned down. Each leaves the game as it was.
#[derive(Clone, Copy, Debug, PartialEq, Eq, Structural)]
pub enum MoveError {
    /// The column number is not one of 1, 2, 3, 4.
    InvalidColumn,
    /// The column has no empty cell left.
    ColumnFull,
    /// The game has a winner or ended in a draw.
    GameAlreadyOver,
}

/// The playable cells, `board[x][y]`.
pub type Board = [[Tile; 4]; 4];

impl Team {
    /// The tile this team leaves on the board.
    pub open spec fn tile_spec(self) -> Tile {
        match self {
            Team::Cookie => Tile::Cookie,
            Team::Milk => Tile::Milk,
        }
    }

    #[verifier::when_used_as_spec(tile_spec)]
    pub fn tile(self) -> (tile: Tile)
        ensures
            tile == self.tile_spec(),
    {
        match self {
            Team::Cookie => Tile::Cookie,
            Team::Milk => Tile::Milk,
        }
    }
}

impl Tile {
    /// The team that owns this tile, if any does.
    pub open spec fn team_spec(self) -> Option<Team> {
        match self {
            Tile::Empty => None,
            Tile::Cookie => Some(Team::Cookie),
            Tile::Milk => Some(Team::Milk),
        }
    }

    #[verifier::when_used_as_spec(team_spec)]
    pub fn team(self) -> (team: Option<Team>)
        ensures
            team == self.team_spec(),
    {
        match self {
            Tile::Empty => None,
            Tile::Cookie => Some(Team::Cookie),
            Tile::Milk => Some(Team::Milk),
        }
    }
}

/// The tile at column `x`, row `y`. Outside the playable area there is
/// nothing to hold a tile, which reads as `Empty`.
pub open spec fn cell(board: Board, x: int, y: int) -> Tile {
    if 0 <= x < 4 && 0 <= y < 4 {
        board[x][y]
    } else {
        Tile::Empty
    }
}

/// Every cell of the board is empty.
pub open spec fn is_blank(board: Board) -> bool {
    forall|x: int, y: int| cell(board, x, y) == Tile::Empty
}

/// Column `x` has no empty cell.
pub open spec fn column_full(board: Board, x: int) -> bool {
    forall|y: int| 0 <= y < 4 ==> cell(board, x, y) != Tile::Empty
}

/// No playable cell is empty.
pub open spec fn board_full(board: Board) -> bool {
    forall|x: int, y: int| 0 <= x < 4 && 0 <= y < 4 ==> cell(board, x, y) != Tile::Empty
}

/// Row `y` is the lowest empty cell of column `x`: where a dropped tile
/// comes to rest.
pub open spec fn is_landing(board: Board, x: int, y: int) -> bool {
    &&& 0 <= x < 4
    &&& 0 <= y < 4
    &&& cell(board, x, y) == Tile::Empty
    &&& forall|j: int| 0 <= j < y ==> cell(board, x, j) != Tile::Empty
}

/// The row on which a tile dropped into column `x` comes to rest. It means
/// something only while the column is not full.
pub open spec fn landing_row(board: Board, x: int) -> int {
    choose|y: int| is_landing(board, x, y)
}

/// `after` is `before` with the one cell at (`x`, `y`) holding `tile`.
pub open spec fn differs_at(before: Board, after: Board, x: int, y: int, tile: Tile) -> bool {
    forall|i: int, j: int|
        cell(after, i, j) == if i == x && j == y {
            tile
        } else {
            cell(before, i, j)
        }
}

/// `after` is `before` with `tile` dropped into column `x`: it fills the
/// lowest empty cell there and nothing else changes.
pub open spec fn dropped(before: Board, after: Board, x: int, tile: Tile) -> bool {
    &&& is_landing(before, x, landing_row(before, x))
    &&& differs_at(before, after, x, landing_row(before, x), tile)
}

/// In every column the tiles rest on one another: no tile has an empty cell
/// below it.
pub open spec fn settled(board: Board) -> bool {
    forall|x: int, j: int, k: int|
        0 <= x < 4 && 0 <= j < k < 4 && cell(board, x, k) != Tile::Empty ==> cell(board, x, j)
            != Tile::Empty
}

/// The four cells of column `x` all hold `tile`.
pub open spec fn column_held(board: Board, x: int, tile: Tile) -> bool {
    forall|j: int| 0 <= j < 4 ==> cell(board, x, j) == tile
}

/// The four cells of row `y` all hold `tile`.
pub open spec fn row_held(board: Board, y: int, tile: Tile) -> bool {
    forall|i: int| 0 <= i < 4 ==> cell(board, i, y) == tile
}

/// The diagonal that rises from the lower left corner holds `tile` throughout.
pub open spec fn rising_held(board: Board, tile: Tile) -> bool {
    forall|i: int, j: int| 0 <= i < 4 && j == i ==> cell(board, i, j) == tile
}

/// The diagonal that falls from the upper left corner holds `tile` throughout.
pub open spec fn falling_held(board: Board, tile: Tile) -> bool {
    forall|i: int, j: int| 0 <= i < 4 && i + j == 3 ==> cell(board, i, j) == tile
}

/// One of the lines of four that pass through (`x`, `y`) holds the tile of
/// that cell throughout: its column, its row, or a diagonal that it lies on.
pub open spec fn line_through(board: Board, x: int, y: int) -> bool {
    let tile = cell(board, x, y);
    ||| column_held(board, x, tile)
    ||| row_held(board, y, tile)
    ||| (x == y && rising_held(board, tile))
    ||| (x + y == 3 && falling_held(board, tile))
}

/// The team, if any, for which the cell at (`x`, `y`) completes a line.
pub open spec fn winner_at(board: Board, x: int, y: int) -> Option<Team> {
    if line_through(board, x, y) {
        cell(board, x, y).team_spec()
    } else {
        None
    }
}

/// Two cells of one column cannot both be its landing row.
pub proof fn lemma_landing_unique(board: Board, x: int, y1: int, y2: int)
    requires
        is_landing(board, x, y1),
        is_landing(board, x, y2),
    ensures
        y1 == y2,
{
    if y1 < y2 {
        assert(cell(board, x, y1) != Tile::Empty);
    } else if y2 < y1 {
        assert(cell(board, x, y2) != Tile::Empty);
    }
}

/// A landing row, once found, is the one that `landing_row` names.
pub proof fn lemma_landing_row(board: Board, x: int, y: int)
    requires
        is_landing(board, x, y),
    ensures
        landing_row(board, x) == y,
        !column_full(board, x),
{
    lemma_landing_unique(board, x, y, landing_row(board, x));
}

/// A tile dropped onto a settled board leaves it settled.
pub proof fn lemma_drop_settles(before: Board, after: Board, x: int, tile: Tile)
    requires
        dropped(before, after, x, tile),
        tile != Tile::Empty,
        settled(before),
    ensures
        settled(after),
{
    let y = landing_row(before, x);
    assert forall|c: int, j: int, k: int|
        0 <= c < 4 && 0 <= j < k < 4 && cell(after, c, k) != Tile::Empty implies cell(after, c, j)
        != Tile::Empty by {
        if c == x && k != y {
            assert(cell(before, c, k) != Tile::Empty);
            if j == y {
                assert(cell(before, c, j) != Tile::Empty);
            }
        }
        if !(c == x && j == y) {
            assert(cell(after, c, j) == cell(before, c, j));
        }
    }
}

/// A board with every cell empty.
pub fn blank()-> (board: Board)
    ensures
        is_blank(board),
        settled(board),
{
    let board: Board = [[Tile::Empty; 4]; 4];
    board
}

/// Empties every playable cell.
pub fn reset(board: &mut Board)
    ensures
        is_blank(*final(board)),
        settled(*final(board)),
{
    *board = blank();
}

/// Whether column `x` has no empty cell.
pub fn is_column_full(board: &Board, x: usize) -> (full: bool)
    requires
        x < 4,
    ensures
        full == column_full(*board, x as int),
{
    let mut y: usize = 0;
    while y < 4
        invariant
            x < 4,
            y <= 4,
            forall|j: int| 0 <= j < y ==> cell(*board, x as int, j) != Tile::Empty,
        decreases 4 - y,
    {
        if board[x][y] == Tile::Empty {
            assert(cell(*board, x as int, y as int) == Tile::Empty);
            return false;
        }
        y += 1;
    }
    true
}

/// Whether no playable cell is empty.
pub fn is_full(board: &Board) -> (full: bool)
    ensures
        full == board_full(*board),
{
    let mut x: usize = 0;
    while x < 4
        invariant
            x <= 4,
            forall|i: int, j: int| 0 <= i < x && 0 <= j < 4 ==> cell(*board, i, j) != Tile::Empty,
        decreases 4 - x,
    {
        if !is_column_full(board, x) {
            let ghost j = choose|j: int| 0 <= j < 4 && cell(*board, x as int, j) == Tile::Empty;
            assert(cell(*board, x as int, j) == Tile::Empty);
            return false;
        }
        x += 1;
    }
    true
}

/// Drops `team`'s tile into the column numbered `column`, from 1 to 4. The
/// tile comes to rest on the lowest empty cell of that column, whose position
/// is returned. A number outside 1 to 4 is `InvalidColumn`, a column without
/// an empty cell is `ColumnFull`, and in both cases the board is left as it
/// was.
pub fn place(board: &mut Board, team: Team, column: usize) -> (result: Result<Position, MoveError>)
    ensures
        !(1 <= column <= 4) ==> result == Err::<Position, MoveError>(MoveError::InvalidColumn),
        1 <= column <= 4 && column_full(*old(board), column - 1) ==> result == Err::<
            Position,
            MoveError,
        >(MoveError::ColumnFull),
        1 <= column <= 4 && !column_full(*old(board), column - 1) ==> result is Ok,
        result is Err ==> *final(board) == *old(board),
        result matches Ok(at) ==> {
            &&& at.x == column - 1
            &&& at.y == landing_row(*old(board), column - 1)
            &&& dropped(*old(board), *final(board), column - 1, team.tile_spec())
        },
        result is Ok && settled(*old(board)) ==> settled(*final(board)),
{
    if column < 1 || column > 4 {
        return Err(MoveError::InvalidColumn);
    }
    let x = column - 1;
    let mut y: usize = 0;
    while y < 4
        invariant
            1 <= column <= 4,
            x == column - 1,
            y <= 4,
            *board == *old(board),
            forall|j: int| 0 <= j < y ==> cell(*board, x as int, j) != Tile::Empty,
        decreases 4 - y,
    {
        if board[x][y] == Tile::Empty {
            proof {
                assert(is_landing(*board, x as int, y as int));
                lemma_landing_row(*board, x as int, y as int);
            }
            board[x][y] = team.tile();
            proof {
                if settled(*old(board)) {
                    lemma_drop_settles(*old(board), *board, x as int, team.tile_spec());
                }
            }
            return Ok(Position { x, y });
        }
        y += 1;
    }
    Err(MoveError::ColumnFull)
}

/// The team for which the tile at `at` completes a line of four. Only the
/// column, the row and the diagonals through `at` are looked at.
pub fn check_win_from(board: &Board, at: Position) -> (winner: Option<Team>)
    requires
        at.x < 4,
        at.y < 4,
    ensures
        winner == winner_at(*board, at.x as int, at.y as int),
{
    if completes_line(board, at.x, at.y) {
        board[at.x][at.y].team()
    } else {
        None
    }
}

/// Whether a line of four through (`x`, `y`) holds the same tile as that cell
/// throughout.
pub fn completes_line(board: &Board, x: usize, y: usize) -> (complete: bool)
    requires
        x < 4,
        y < 4,
    ensures
        complete == line_through(*board, x as int, y as int),
{
    let tile = board[x][y];
    let mut column = true;
    let mut row = true;
    let mut rising = true;
    let mut falling = true;
    let mut i: usize = 0;
    while i < 4
        invariant
            x < 4,
            y < 4,
            i <= 4,
            tile == cell(*board, x as int, y as int),
            column == forall|j: int| 0 <= j < i ==> cell(*board, x as int, j) == tile,
            row == forall|k: int| 0 <= k < i ==> cell(*board, k, y as int) == tile,
            rising == forall|k: int, j: int| 0 <= k < i && j == k ==> cell(*board, k, j) == tile,
            falling == forall|k: int, j: int|
                0 <= k < i && k + j == 3 ==> cell(*board, k, j) == tile,
        decreases 4 - i,
    {
        if board[x][i] != tile {
            assert(cell(*board, x as int, i as int) != tile);
            column = false;
        }
        if board[i][y] != tile {
            assert(cell(*board, i as int, y as int) != tile);
            row = false;
        }
        if board[i][i] != tile {
            assert(cell(*board, i as int, i as int) != tile);
            rising = false;
        }
        if board[i][3 - i] != tile {
            assert(cell(*board, i as int, 3 - i) != tile);
            falling = false;
        }
        i += 1;
    }
    column || row || (x == y && rising) || (x + y == 3 && falling)
}

} // verus!
