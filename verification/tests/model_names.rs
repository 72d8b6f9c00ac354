use freegames::model::{GameStore, GameType};

#[test]
fn store_names_match_storage_and_hashtag_forms() {
    assert_eq!(GameStore::Steam.display_name(), "Steam");
    assert_eq!(GameStore::EpicGames.display_name(), "EpicGames");
    assert_eq!(GameStore::Gog.display_name(), "GOG");
    assert_eq!(GameStore::Unknown.display_name(), "Unknown");
    assert_eq!(GameStore::Gog.variant_name(), "Gog");
}

#[test]
fn type_names_match_display_and_storage_forms() {
    assert_eq!(GameType::Game.display_name(), "Game");
    assert_eq!(GameType::Dlc.display_name(), "DLC");
    assert_eq!(GameType::Dlc.variant_name(), "Dlc");
    assert_eq!(GameType::Software.display_name(), "Software");
    assert_eq!(GameType::Edition.display_name(), "Edition");
}

#[test]
fn stored_names_read_back_without_regard_to_case() {
    assert_eq!(GameStore::from("Steam".to_string()), GameStore::Steam);
    assert_eq!(GameStore::from("STEAM".to_string()), GameStore::Steam);
    assert_eq!(GameStore::from("epicgames".to_string()), GameStore::EpicGames);
    assert_eq!(GameStore::from("GOG".to_string()), GameStore::Gog);
    assert_eq!(GameStore::from("itch".to_string()), GameStore::Unknown);
    assert_eq!(GameType::from("game".to_string()), GameType::Game);
    assert_eq!(GameType::from("DLC".to_string()), GameType::Dlc);
    assert_eq!(GameType::from("Edition".to_string()), GameType::Edition);
    assert_eq!(GameType::from("mystery".to_string()), GameType::Unknown);
}
