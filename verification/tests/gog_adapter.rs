use freegames::date::Date;
use freegames::gog::{gog_promo_date, GogPrice, GogProduct, GogStore};
use freegames::model::{GameStore, GameType};

fn product() -> GogProduct {
    GogProduct {
        id: "1207658924".to_string(),
        product_type: "dlc".to_string(),
        title: "The Game".to_string(),
        price: GogPrice {
            final_price: "$0.00".to_string(),
            base: "$9.99".to_string(),
            discount: "-100%".to_string(),
        },
        store_link: "https://www.gog.com/en/game/the_game".to_string(),
    }
}

fn page_with(date: &str) -> String {
    format!(
        "<html><script>window.productcardData.cardProductPromoEndDate = {{\"date\":\"{} 00:00:00\"}};</script></html>",
        date
    )
}

#[test]
fn fully_discounted_zero_priced_product_becomes_a_record() {
    let store = GogStore;
    let p = product();
    assert!(store.eligible(&p));
    let g = store.build_game(&p, &page_with("2025-07-01")).expect("a page with a promo date");
    assert_eq!(g.id, "1207658924");
    assert_eq!(g.store, GameStore::Gog);
    assert_eq!(g.title, "The Game");
    assert_eq!(g.identifier, "The_Game");
    assert_eq!(g.url, "https://www.gog.com/en/game/the_game");
    assert_eq!(g.original_price, "$9.99");
    assert_eq!(g.offer_until, Date { year: 2025, month: 7, day: 1 });
    assert_eq!(g.game_type, GameType::Dlc);
}

#[test]
fn a_partial_discount_is_rejected() {
    let store = GogStore;
    let mut p = product();
    p.price.discount = "-90%".to_string();
    assert!(!store.eligible(&p));
}

#[test]
fn a_nonzero_final_price_is_rejected() {
    let store = GogStore;
    let mut p = product();
    p.price.final_price = "$0.99".to_string();
    assert!(!store.eligible(&p));
}

#[test]
fn a_page_without_the_promo_assignment_drops_the_candidate() {
    let store = GogStore;
    let p = product();
    assert_eq!(store.build_game(&p, "<html>no promo here</html>"), None);
}

#[test]
fn a_malformed_embedded_date_drops_the_candidate() {
    let store = GogStore;
    let p = product();
    assert_eq!(store.build_game(&p, &page_with("2025-13-99")), None);
}

#[test]
fn the_promo_date_tolerates_spacing_around_the_assignment() {
    let html = "window.productcardData.cardProductPromoEndDate={\"date\":\"2025-07-01\"}";
    assert_eq!(gog_promo_date(html), Some(Date { year: 2025, month: 7, day: 1 }));
    let spaced = "window.productcardData.cardProductPromoEndDate   =\t {\"date\":\"2025-07-01\"}";
    assert_eq!(gog_promo_date(spaced), Some(Date { year: 2025, month: 7, day: 1 }));
}

#[test]
fn product_types_map_to_canonical_types() {
    assert_eq!(freegames::gog::gog_type("game"), GameType::Game);
    assert_eq!(freegames::gog::gog_type("dlc"), GameType::Dlc);
    assert_eq!(freegames::gog::gog_type("pack"), GameType::Edition);
    assert_eq!(freegames::gog::gog_type("extras"), GameType::Unknown);
}
