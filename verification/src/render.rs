//! The board as text: one line for each row from the top down, a wall at both
//! ends of it, and a floor of wall below the lowest row.

use crate::board::{cell, Board, Tile};
use vstd::prelude::*;

verus! {

/// The glyph of the wall around the playing area.
pub open spec fn wall() -> char {
    '⬜'
}

/// The glyph of a playable cell that holds `tile`.
pub open spec fn glyph(tile: Tile) -> char {
    match tile {
        Tile::Empty => '⬛',
        Tile::Cookie => '🍪',
        Tile::Milk => '🥛',
    }
}

/// The line for row `y`: wall, the four cells from left to right, wall, and a
/// line feed.
pub open spec fn row_text(board: Board, y: int) -> Seq<char> {
    seq![
        wall(),
        glyph(cell(board, 0, y)),
        glyph(cell(board, 1, y)),
        glyph(cell(board, 2, y)),
        glyph(cell(board, 3, y)),
        wall(),
        '\n',
    ]
}

/// The line below the lowest row: six glyphs of wall and a line feed.
pub open spec fn floor_text() -> Seq<char> {
    seq![wall(), wall(), wall(), wall(), wall(), wall(), '\n']
}

/// The whole board: the rows from the highest to the lowest, then the floor.
pub open spec fn board_text(board: Board) -> Seq<char> {
    row_text(board, 3) + row_text(board, 2) + row_text(board, 1) + row_text(board, 0)
        + floor_text()
}

/// The glyph of a playable cell, as text of one character.
pub fn glyph_of(tile: Tile) -> (text: &'static str)
    ensures
        text@ == seq![glyph(tile)],
{
    proof {
        reveal_strlit("⬛");
        reveal_strlit("🍪");
        reveal_strlit("🥛");
    }
    let text = match tile {
        Tile::Empty => "⬛",
        Tile::Cookie => "🍪",
        Tile::Milk => "🥛",
    };
    assert(text@ =~= seq![glyph(tile)]);
    text
}

/// Appends the line for row `y` to `text`.
fn push_row(text: &mut String, board: &Board, y: usize)
    requires
        y < 4,
    ensures
        final(text)@ == old(text)@ + row_text(*board, y as int),
{
    proof {
        reveal_strlit("⬜");
        reveal_strlit("⬜\n");
    }
    text.append("⬜");
    let mut x: usize = 0;
    while x < 4
        invariant
            y < 4,
            x <= 4,
            text@.len() == old(text)@.len() + 1 + x,
            text@.subrange(0, old(text)@.len() as int) == old(text)@,
            text@[old(text)@.len() as int] == wall(),
            forall|i: int| 0 <= i < x ==> text@[old(text)@.len() + 1 + i] == glyph(cell(*board, i, y as int)),
        decreases 4 - x,
    {
        text.append(glyph_of(board[x][y]));
        x += 1;
    }
    text.append("⬜\n");
    assert(text@ =~= old(text)@ + row_text(*board, y as int));
}

/// The board as text.
pub fn render(board: &Board) -> (text: String)
    ensures
        text@ == board_text(*board),
{
    proof {
        reveal_strlit("⬜⬜⬜⬜⬜⬜\n");
    }
    let mut text = String::new();
    push_row(&mut text, board, 3);
    push_row(&mut text, board, 2);
    push_row(&mut text, board, 1);
    push_row(&mut text, board, 0);
    text.append("⬜⬜⬜⬜⬜⬜\n");
    assert(text@ =~= board_text(*board));
    text
}

} // verus!
