//! A game in play: a board and, once the game is over, how it ended. A game
//! that is over takes no further move until it is reset.

use crate::board::{
    blank, board_full, cell, check_win_from, column_full, dropped, is_blank, is_full, landing_row,
    settled, winner_at, Board, MoveError, Position, Team, Tile,
};
use crate::render::{board_text, render};
use vstd::prelude::*;

verus! {

/// How a finished game ended.
#[derive(Clone, Copy, Debug, PartialEq, Eq, Structural)]
pub enum Outcome {
    Cookie,
    Milk,
    Neither,
}

/// A game: `board[x][y]` is the cell of column `x`, counted from the left, and
/// row `y`, counted from the bottom; `status` is `None` while the game goes on.
#[derive(Debug)]
pub struct Game {
    pub board: Board,
    pub status: Option<Outcome>,
}

/// What a caller is shown of a game: the text of it and how it stands.
#[derive(Debug, PartialEq, Eq)]
pub struct Snapshot {
    pub rendered: String,
    pub status: Option<Outcome>,
}

impl Outcome {
    /// The outcome in which `team` has won.
    pub open spec fn won_by(team: Team) -> Outcome {
        match team {
            Team::Cookie => Outcome::Cookie,
            Team::Milk => Outcome::Milk,
        }
    }

    /// The line that announces this outcome, without its line feed.
    pub open spec fn message_text(self) -> Seq<char> {
        match self {
            Outcome::Cookie => "🍪 wins!"@,
            Outcome::Milk => "🥛 wins!"@,
            Outcome::Neither => "No winner."@,
        }
    }

    /// The line that announces this outcome, without its line feed.
    pub fn message(&self) -> (text: &'static str)
        ensures
            text@ == self.message_text(),
    {
        match self {
            Outcome::Cookie => "🍪 wins!",
            Outcome::Milk => "🥛 wins!",
            Outcome::Neither => "No winner.",
        }
    }
}

/// How a game stands once a tile has come to rest at (`x`, `y`) of `board`:
/// won by the team whose line it completes, else drawn if no cell is left,
/// else still going on.
pub open spec fn verdict(board: Board, x: int, y: int) -> Option<Outcome> {
    match winner_at(board, x, y) {
        Some(team) => Some(Outcome::won_by(team)),
        None => if board_full(board) {
            Some(Outcome::Neither)
        } else {
            None
        },
    }
}

/// The text of a game: the board, and below it, once the game is over, the
/// line that announces the outcome.
pub open spec fn game_text(board: Board, status: Option<Outcome>) -> Seq<char> {
    match status {
        None => board_text(board),
        Some(outcome) => board_text(board) + outcome.message_text() + seq!['\n'],
    }
}

impl Game {
    /// The text of this game.
    pub open spec fn text(self) -> Seq<char> {
        game_text(self.board, self.status)
    }

    /// Why a move into the column numbered `column` is turned down, if it is:
    /// a game that is over turns down every move, then the column number is
    /// looked at, then whether the column has room.
    pub open spec fn rejection(self, column: int) -> Option<MoveError> {
        if self.status is Some {
            Some(MoveError::GameAlreadyOver)
        } else if !(1 <= column <= 4) {
            Some(MoveError::InvalidColumn)
        } else if column_full(self.board, column - 1) {
            Some(MoveError::ColumnFull)
        } else {
            None
        }
    }

    /// `after` is this game with `tile` dropped into column `x`, counted from
    /// zero, and the status that follows from where it came to rest.
    pub open spec fn moved_to(self, after: Game, x: int, tile: Tile) -> bool {
        &&& dropped(self.board, after.board, x, tile)
        &&& after.status == verdict(after.board, x, landing_row(self.board, x))
    }

    /// A game with an empty board, going on.
    pub fn new() -> (game: Game)
        ensures
            is_blank(game.board),
            settled(game.board),
            game.status is None,
    {
        let board = blank();
        let status = None;
        Game { board, status }
    }

    /// The tile at column `x`, row `y`, both counted from zero.
    pub fn get_tile(&self, x: usize, y: usize) -> (tile: Tile)
        requires
            x < 4,
            y < 4,
        ensures
            tile == cell(self.board, x as int, y as int),
    {
        self.board[x][y]
    }

    /// Whether the tile at (`x`, `y`) completes a line of four for its team:
    /// the cell holds a team's tile, and its column, its row or a diagonal
    /// that it lies on holds that tile throughout. An empty cell wins
    /// nothing, whatever surrounds it.
    pub fn check_winner(&self, x: usize, y: usize) -> (won: bool)
        requires
            x < 4,
            y < 4,
        ensures
            won == (winner_at(self.board, x as int, y as int) is Some),
    {
        check_win_from(&self.board, Position { x, y }).is_some()
    }

    /// Sets the status that follows from a tile that has just come to rest at
    /// `at`.
    fn settle(&mut self, at: Position)
        requires
            at.x < 4,
            at.y < 4,
        ensures
            final(self).board == old(self).board,
            final(self).status == verdict(old(self).board, at.x as int, at.y as int),
    {
        match check_win_from(&self.board, at) {
            Some(Team::Cookie) => {
                self.status = Some(Outcome::Cookie);
            },
            Some(Team::Milk) => {
                self.status = Some(Outcome::Milk);
            },
            None => {
                if is_full(&self.board) {
                    self.status = Some(Outcome::Neither);
                } else {
                    self.status = None;
                }
            },
        }
    }

    /// Drops `tile` into column `column`, counted from zero, unless the game
    /// is over or the column is full; says whether it did. A game that is
    /// over turns every move down, whatever the column and the tile; while it
    /// goes on the column is one of the four and the tile a team's. After a move the
    /// game is won by the team whose line the tile completes, else drawn if
    /// the board is full, else still going on.
    pub fn make_move(&mut self, tile: Tile, column: usize) -> (moved: bool)
        requires
            old(self).status is None ==> column < 4 && tile != Tile::Empty,
        ensures
            moved == (old(self).status is None && !column_full(old(self).board, column as int)),
            !moved ==> *final(self) == *old(self),
            moved ==> old(self).moved_to(*final(self), column as int, tile),
            moved && settled(old(self).board) ==> settled(final(self).board),
    {
        if self.status.is_some() {
            return false;
        }
        let team = match tile {
            Tile::Milk => Team::Milk,
            _ => Team::Cookie,
        };
        match crate::board::place(&mut self.board, team, column + 1) {
            Ok(at) => {
                self.settle(at);
                true
            },
            Err(_) => false,
        }
    }

    /// Drops `team`'s tile into the column numbered `column`, from 1 to 4, and
    /// returns the game as it then stands. A game that is over answers
    /// `GameAlreadyOver`, a number outside 1 to 4 `InvalidColumn`, a column
    /// without room `ColumnFull`; each leaves the game, and so its text, as
    /// it was.
    pub fn place(&mut self, team: Team, column: usize) -> (result: Result<Snapshot, MoveError>)
        ensures
            match result {
                Ok(shown) => {
                    &&& old(self).rejection(column as int) is None
                    &&& old(self).moved_to(*final(self), column - 1, team.tile_spec())
                    &&& shown.status == final(self).status
                    &&& shown.rendered@ == final(self).text()
                },
                Err(error) => {
                    &&& old(self).rejection(column as int) == Some(error)
                    &&& *final(self) == *old(self)
                    &&& final(self).text() == old(self).text()
                },
            },
            result is Ok && settled(old(self).board) ==> settled(final(self).board),
    {
        if self.status.is_some() {
            return Err(MoveError::GameAlreadyOver);
        }
        match crate::board::place(&mut self.board, team, column) {
            Ok(at) => {
                self.settle(at);
                Ok(self.view())
            },
            Err(error) => Err(error),
        }
    }

    /// The game as it stands. Nothing changes.
    pub fn view(&self) -> (shown: Snapshot)
        ensures
            shown.status == self.status,
            shown.rendered@ == self.text(),
    {
        Snapshot { rendered: self.render(), status: self.status }
    }

    /// Starts over: the board is emptied and the game goes on. Returns the
    /// fresh game as it stands.
    pub fn reset(&mut self) -> (shown: Snapshot)
        ensures
            is_blank(final(self).board),
            settled(final(self).board),
            final(self).status is None,
            shown.status is None,
            shown.rendered@ == final(self).text(),
    {
        *self = Game::new();
        self.view()
    }

    /// The text of this game.
    pub fn render(&self) -> (text: String)
        ensures
            text@ == self.text(),
    {
        let mut text = render(&self.board);
        match self.status {
            None => {},
            Some(outcome) => {
                text.append(outcome.message());
                proof {
                    reveal_strlit("\n");
                }
                text.append("\n");
                assert(text@ =~= self.text());
            },
        }
        text
    }
}

impl Default for Game {
    fn default() -> (game: Game)
        ensures
            is_blank(game.board),
            settled(game.board),
            game.status is None,
    {
        Game::new()
    }
}

} // verus!
