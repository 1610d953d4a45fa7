use shuttlings_cch24::board::{Team, Tile};
use shuttlings_cch24::game::{Game, Outcome};
use shuttlings_cch24::play::{parse_column, parse_team, place_item, PlaceReply};
use std::str::FromStr;

#[test]
fn teams_go_by_their_names() {
    assert_eq!(parse_team("cookie"), Some(Team::Cookie));
    assert_eq!(parse_team("milk"), Some(Team::Milk));
    assert_eq!(parse_team("Cookie"), None);
    assert_eq!(parse_team("empty"), None);
    assert_eq!(parse_team(""), None);
    assert_eq!(Tile::from_str("cookie"), Ok(Tile::Cookie));
    assert_eq!(Tile::from_str("milk"), Ok(Tile::Milk));
    assert_eq!(Tile::from_str("empty"), Err(()));
    assert_eq!("milk".parse::<Tile>(), Ok(Tile::Milk));
}

#[test]
fn columns_go_by_their_numbers() {
    assert_eq!(parse_column("1"), Some(1));
    assert_eq!(parse_column("4"), Some(4));
    assert_eq!(parse_column("+2"), Some(2));
    assert_eq!(parse_column("03"), Some(3));
    assert_eq!(parse_column("0"), None);
    assert_eq!(parse_column("5"), None);
    assert_eq!(parse_column("10"), None);
    assert_eq!(parse_column("-1"), None);
    assert_eq!(parse_column("one"), None);
    assert_eq!(parse_column(""), None);
    assert_eq!(parse_column("99999999999999999999999"), None);
}

#[test]
fn a_move_in_words_is_played() {
    let mut game = Game::new();
    assert_eq!(
        place_item(&mut game, "cookie", "1"),
        PlaceReply::Placed(
            "⬜⬛⬛⬛⬛⬜\n⬜⬛⬛⬛⬛⬜\n⬜⬛⬛⬛⬛⬜\n⬜🍪⬛⬛⬛⬜\n⬜⬜⬜⬜⬜⬜\n".to_string()
        )
    );
    assert_eq!(game.get_tile(0, 0), Tile::Cookie);
}

#[test]
fn a_move_that_cannot_be_read_is_a_bad_request() {
    let mut game = Game::new();
    assert_eq!(place_item(&mut game, "tea", "1"), PlaceReply::BadRequest);
    assert_eq!(place_item(&mut game, "cookie", "0"), PlaceReply::BadRequest);
    assert_eq!(place_item(&mut game, "cookie", "5"), PlaceReply::BadRequest);
    assert_eq!(place_item(&mut game, "cookie", "x"), PlaceReply::BadRequest);
    assert_eq!(game.board, [[Tile::Empty; 4]; 4]);
}

#[test]
fn a_full_column_or_a_finished_game_is_unavailable() {
    let mut game = Game::new();
    for team in ["cookie", "milk", "cookie", "milk"] {
        assert!(matches!(place_item(&mut game, team, "2"), PlaceReply::Placed(_)));
    }
    let text = game.render();
    assert_eq!(place_item(&mut game, "cookie", "2"), PlaceReply::Unavailable(text));
    for _ in 0..3 {
        assert!(matches!(place_item(&mut game, "milk", "3"), PlaceReply::Placed(_)));
    }
    let last = place_item(&mut game, "milk", "3");
    assert_eq!(game.status, Some(Outcome::Milk));
    let text = game.render();
    assert!(text.ends_with("⬜⬜⬜⬜⬜⬜\n🥛 wins!\n"));
    assert_eq!(last, PlaceReply::Placed(text.clone()));
    assert_eq!(place_item(&mut game, "cookie", "1"), PlaceReply::Unavailable(text.clone()));
    assert_eq!(place_item(&mut game, "cookie", "9"), PlaceReply::BadRequest);
    assert_eq!(game.render(), text);
}
