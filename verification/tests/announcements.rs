use freegames::date::Date;
use freegames::model::{Game, GameStore, GameType};
use freegames::text::make_text;

fn record(id: &str, title: &str, identifier: &str, url: &str, price: &str, t: GameType) -> Game {
    Game {
        id: id.to_string(),
        store: GameStore::Steam,
        title: title.to_string(),
        identifier: identifier.to_string(),
        url: url.to_string(),
        original_price: price.to_string(),
        offer_until: Date { year: 2025, month: 6, day: 15 },
        game_type: t,
    }
}

#[test]
fn test_game() {
    assert_eq!(
        make_text(&record(
            "unique_id",
            "The Game",
            "The_Game",
            "https://icudev.xyz/the_game",
            "$19.99",
            GameType::Game,
        )),
        r#"[ Game ] "The Game" is currently free on #Steam until 2025-06-15.

https://icudev.xyz/the_game

#FreeGames #The_Game #SteamDeals"#
    );
}

#[test]
fn test_dlc() {
    assert_eq!(
        make_text(&record(
            "unique_dlc_id",
            "The Game: The DLC",
            "The_Game_The_DLC",
            "https://icudev.xyz/the_game_the_dlc",
            "$9.99",
            GameType::Dlc,
        )),
        r#"[ DLC ] "The Game: The DLC" is currently free on #Steam until 2025-06-15.

https://icudev.xyz/the_game_the_dlc

#FreeGames #The_Game_The_DLC #SteamDeals"#
    );
}

#[test]
fn non_steam_store_has_no_store_tag() {
    let mut g = record("id", "A Game", "A_Game", "https://example.test/a", "$1.00", GameType::Game);
    g.store = GameStore::Gog;
    let text = make_text(&g);
    assert!(text.contains("free on #Gog until"));
    assert!(!text.contains("#SteamDeals"));
    assert!(text.ends_with("#FreeGames #A_Game"));
}
