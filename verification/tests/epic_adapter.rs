use freegames::date::Date;
use freegames::epic::{
    EpicAttribute, EpicCatalogNs, EpicDiscountSetting, EpicElement, EpicFmtPrice, EpicGamesStore,
    EpicMapping, EpicOffer, EpicOfferGroup, EpicPrice, EpicPromotions, EpicTotalPrice,
};
use freegames::model::{GameStore, GameType};

fn element() -> EpicElement {
    EpicElement {
        title: "The Game".to_string(),
        id: "abc123".to_string(),
        offer_type: "BASE_GAME".to_string(),
        status: "ACTIVE".to_string(),
        custom_attributes: vec![EpicAttribute {
            key: "com.epicgames.app.productSlug".to_string(),
            value: "the-game".to_string(),
        }],
        catalog_ns: EpicCatalogNs { mappings: None },
        price: EpicPrice {
            total_price: EpicTotalPrice {
                discount_price: 0,
                original_price: 1999,
                fmt_price: EpicFmtPrice { original_price: "$19.99".to_string() },
            },
        },
        promotions: Some(EpicPromotions {
            promotional_offers: vec![EpicOfferGroup {
                promotional_offers: vec![EpicOffer {
                    end_date: "2025-06-15T23:59:59.000Z".to_string(),
                    discount_setting: EpicDiscountSetting { discount_percentage: 0 },
                }],
            }],
        }),
    }
}

#[test]
fn fully_free_active_element_becomes_a_record() {
    let store = EpicGamesStore;
    let e = element();
    assert!(store.eligible(&e));
    let g = store.build_game(&e).expect("an eligible element with slug and date");
    assert_eq!(g.id, "abc123");
    assert_eq!(g.store, GameStore::EpicGames);
    assert_eq!(g.title, "The Game");
    assert_eq!(g.identifier, "The_Game");
    assert_eq!(g.url, "https://store.epicgames.com/en-US/p/the-game");
    assert_eq!(g.original_price, "$19.99");
    assert_eq!(g.offer_until, Date { year: 2025, month: 6, day: 15 });
    assert_eq!(g.game_type, GameType::Game);
}

#[test]
fn nonzero_discounted_price_is_always_rejected() {
    let store = EpicGamesStore;
    let mut e = element();
    e.price.total_price.discount_price = 1;
    assert!(!store.eligible(&e));
}

#[test]
fn zero_original_price_is_rejected() {
    let store = EpicGamesStore;
    let mut e = element();
    e.price.total_price.original_price = 0;
    assert!(!store.eligible(&e));
}

#[test]
fn inactive_status_is_rejected() {
    let store = EpicGamesStore;
    let mut e = element();
    e.status = "EXPIRED".to_string();
    assert!(!store.eligible(&e));
}

#[test]
fn nonzero_discount_percentage_is_rejected() {
    let store = EpicGamesStore;
    let mut e = element();
    e.promotions.as_mut().unwrap().promotional_offers[0].promotional_offers[0]
        .discount_setting
        .discount_percentage = 100;
    assert!(!store.eligible(&e));
}

#[test]
fn missing_promotions_are_rejected() {
    let store = EpicGamesStore;
    let mut e = element();
    e.promotions = None;
    assert!(!store.eligible(&e));
    let mut e2 = element();
    e2.promotions.as_mut().unwrap().promotional_offers[0].promotional_offers.clear();
    assert!(!store.eligible(&e2));
}

#[test]
fn product_home_mapping_wins_over_the_attribute() {
    let store = EpicGamesStore;
    let mut e = element();
    e.catalog_ns.mappings = Some(vec![
        EpicMapping { page_slug: "other".to_string(), page_type: "offer".to_string() },
        EpicMapping { page_slug: "the-game-home".to_string(), page_type: "productHome".to_string() },
    ]);
    let g = store.build_game(&e).unwrap();
    assert_eq!(g.url, "https://store.epicgames.com/en-US/p/the-game-home");
}

#[test]
fn an_element_without_any_slug_is_dropped() {
    let store = EpicGamesStore;
    let mut e = element();
    e.custom_attributes.clear();
    assert!(store.eligible(&e));
    assert_eq!(store.build_game(&e), None);
}

#[test]
fn a_short_end_date_is_dropped() {
    let store = EpicGamesStore;
    let mut e = element();
    e.promotions.as_mut().unwrap().promotional_offers[0].promotional_offers[0].end_date =
        "2025".to_string();
    assert_eq!(store.build_game(&e), None);
}

#[test]
fn offer_types_map_to_canonical_types() {
    assert_eq!(freegames::epic::epic_offer_type("BASE_GAME"), GameType::Game);
    assert_eq!(freegames::epic::epic_offer_type("OTHERS"), GameType::Game);
    assert_eq!(freegames::epic::epic_offer_type("ADD_ON"), GameType::Dlc);
    assert_eq!(freegames::epic::epic_offer_type("BUNDLE"), GameType::Bundle);
    assert_eq!(freegames::epic::epic_offer_type("EDITION"), GameType::Edition);
    assert_eq!(freegames::epic::epic_offer_type("MYSTERY"), GameType::Unknown);
}
