//! Moves that arrive as text: the team by its name, the column by its
//! number, and what is answered to each.

use crate::board::{MoveError, Team, Tile};
use crate::game::Game;
use crate::text::{chars_of, numeral, parse_numeral, same_text};
use vstd::prelude::*;

verus! {

/// What is answered to a move that arrived as text.
#[derive(Debug, PartialEq, Eq)]
pub enum PlaceReply {
    /// The team or the column cannot be read.
    BadRequest,
    /// The tile was placed; the text of the game after it.
    Placed(String),
    /// The game is over or the column is full; the text of the game, which
    /// is as it was.
    Unavailable(String),
}

/// A reply, with its text as characters.
pub enum PlaceReplyView {
    BadRequest,
    Placed(Seq<char>),
    Unavailable(Seq<char>),
}

impl View for PlaceReply {
    type V = PlaceReplyView;

    open spec fn view(&self) -> PlaceReplyView {
        match self {
            PlaceReply::BadRequest => PlaceReplyView::BadRequest,
            PlaceReply::Placed(text) => PlaceReplyView::Placed(text@),
            PlaceReply::Unavailable(text) => PlaceReplyView::Unavailable(text@),
        }
    }
}

/// The team that `name` names: `cookie` or `milk`, in small letters.
pub open spec fn team_named(name: Seq<char>) -> Option<Team> {
    if name == "cookie"@ {
        Some(Team::Cookie)
    } else if name == "milk"@ {
        Some(Team::Milk)
    } else {
        None
    }
}

/// The column that `text` numbers: a numeral of 1, 2, 3 or 4.
pub open spec fn column_named(text: Seq<char>) -> Option<usize> {
    match numeral(text, 4) {
        Some(number) => if number >= 1 {
            Some(number as usize)
        } else {
            None
        },
        None => None,
    }
}

/// The tile that `name` names: that of the team of this name. No name stands
/// for an empty cell.
pub open spec fn tile_named(name: Seq<char>) -> Result<Tile, ()> {
    match team_named(name) {
        Some(team) => Ok(team.tile_spec()),
        None => Err(()),
    }
}

/// The team that `name` names.
pub fn parse_team(name: &str) -> (team: Option<Team>)
    ensures
        team == team_named(name@),
{
    if same_text(name, "cookie") {
        Some(Team::Cookie)
    } else if same_text(name, "milk") {
        Some(Team::Milk)
    } else {
        None
    }
}

/// The column that `text` numbers.
pub fn parse_column(text: &str) -> (column: Option<usize>)
    ensures
        column == column_named(text@),
        column matches Some(number) ==> 1 <= number <= 4,
{
    let chars = chars_of(text);
    match parse_numeral(&chars, 4) {
        Some(number) => {
            if number >= 1 {
                Some(number as usize)
            } else {
                None
            }
        },
        None => None,
    }
}

impl core::str::FromStr for Tile {
    type Err = ();

    /// The tile of the team that `name` names; an empty cell has no name.
    fn from_str(name: &str) -> (tile: Result<Tile, ()>)
        ensures
            tile == tile_named(name@),
    {
        match parse_team(name) {
            Some(team) => Ok(team.tile()),
            None => Err(()),
        }
    }
}

/// Plays the move that `team` and `column` spell out. Where either cannot be
/// read, nothing happens. Else the tile is dropped as [`Game::place`] does
/// it, and the answer carries the text of the game: after the move where it
/// was made, and unchanged where the game is over or the column full.
pub fn place_item(game: &mut Game, team: &str, column: &str) -> (reply: PlaceReply)
    ensures
        match (team_named(team@), column_named(column@)) {
            (Some(side), Some(number)) => match old(game).rejection(number as int) {
                None => {
                    &&& old(game).moved_to(*final(game), number - 1, side.tile_spec())
                    &&& reply@ == PlaceReplyView::Placed(final(game).text())
                },
                Some(_) => {
                    &&& *final(game) == *old(game)
                    &&& reply@ == PlaceReplyView::Unavailable(old(game).text())
                },
            },
            _ => {
                &&& *final(game) == *old(game)
                &&& reply@ == PlaceReplyView::BadRequest
            },
        },
{
    let side = match parse_team(team) {
        Some(side) => side,
        None => {
            return PlaceReply::BadRequest;
        },
    };
    let number = match parse_column(column) {
        Some(number) => number,
        None => {
            return PlaceReply::BadRequest;
        },
    };
    match game.place(side, number) {
        Ok(shown) => PlaceReply::Placed(shown.rendered),
        Err(_) => PlaceReply::Unavailable(game.render()),
    }
}

} // verus!
