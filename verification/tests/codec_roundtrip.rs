use freegames::codec::{encode_game, encode_partial_game, parse_game};
use freegames::date::Date;
use freegames::model::{Game, GameStore, GameType, PartialGame};

fn record() -> Game {
    Game {
        id: "unique_id".to_string(),
        store: GameStore::EpicGames,
        title: "The Game".to_string(),
        identifier: "The_Game".to_string(),
        url: "https://example.test/the_game".to_string(),
        original_price: "$19.99".to_string(),
        offer_until: Date { year: 2025, month: 6, day: 15 },
        game_type: GameType::Game,
    }
}

#[test]
fn encoding_writes_the_boundary_form() {
    assert_eq!(
        encode_game(&record()),
        "{\"id\":\"unique_id\",\"store\":\"EpicGames\",\"title\":\"The Game\",\
         \"identifier\":\"The_Game\",\"url\":\"https://example.test/the_game\",\
         \"original_price\":\"$19.99\",\"offer_until\":\"2025-06-15\",\"game_type\":\"Game\"}"
    );
}

#[test]
fn a_record_survives_the_boundary_unchanged() {
    let g = record();
    assert_eq!(parse_game(&encode_game(&g)), Some(g));
}

#[test]
fn every_store_and_type_survive_the_boundary() {
    let stores =
        [GameStore::Steam, GameStore::EpicGames, GameStore::Gog, GameStore::Unknown];
    let types = [
        GameType::Game,
        GameType::Dlc,
        GameType::Software,
        GameType::Bundle,
        GameType::Edition,
        GameType::Unknown,
    ];
    for store in stores {
        for game_type in types {
            let mut g = record();
            g.store = store;
            g.game_type = game_type;
            assert_eq!(parse_game(&encode_game(&g)), Some(g));
        }
    }
}

#[test]
fn titles_with_escapes_survive_the_boundary() {
    let mut g = record();
    g.title = "A \"quoted\" \\ title\nwith control\tchars".to_string();
    g.original_price = "19,99 \u{20ac}".to_string();
    let encoded = encode_game(&g);
    assert!(encoded.contains("\\\"quoted\\\""));
    assert!(encoded.contains("\\u000a"));
    assert_eq!(parse_game(&encoded), Some(g));
}

#[test]
fn date_fields_keep_their_padding() {
    let mut g = record();
    g.offer_until = Date { year: 987, month: 1, day: 2 };
    let encoded = encode_game(&g);
    assert!(encoded.contains("\"offer_until\":\"0987-01-02\""));
    assert_eq!(parse_game(&encoded), Some(g));
}

#[test]
fn malformed_boundary_text_is_refused() {
    assert_eq!(parse_game(""), None);
    assert_eq!(parse_game("{}"), None);
    let good = encode_game(&record());
    let mut truncated = good.clone();
    truncated.pop();
    assert_eq!(parse_game(&truncated), None);
    let trailing = format!("{} ", good);
    assert_eq!(parse_game(&trailing), None);
    let bad_store = good.replace("\"EpicGames\"", "\"Epicgames\"");
    assert_eq!(parse_game(&bad_store), None);
    let bad_date = good.replace("2025-06-15", "2025-06-99");
    assert_eq!(parse_game(&bad_date), None);
}

#[test]
fn partial_records_encode_the_pair_alone() {
    let p = PartialGame { id: "unique_id".to_string(), store: GameStore::Steam };
    assert_eq!(encode_partial_game(&p), "{\"id\":\"unique_id\",\"store\":\"Steam\"}");
}
