use freegames::date::Date;
use freegames::model::{GameStore, GameType};
use freegames::steam::{steam_banner_date, SteamStore};

fn chars(s: &str) -> Vec<char> {
    s.chars().collect()
}

const LISTING: &str = r#"<div id="search_resultsRows">
<a href="https://store.steampowered.com/app/111/Free_Game/"><div class="discount_pct">-100%</div></a>
<a href="https://store.steampowered.com/app/222/Cheap_Game/"><div class="discount_pct">-90%</div></a>
<a href="https://store.steampowered.com/app/333/Other_Free/?snr=1"><div class="discount_pct">-100%</div></a>
</div>"#;

#[test]
fn listing_keeps_only_fully_discounted_rows_and_adds_the_region() {
    let store = SteamStore;
    let urls = store.listing_urls(LISTING);
    assert_eq!(
        urls,
        vec![
            "https://store.steampowered.com/app/111/Free_Game/?cc=us".to_string(),
            "https://store.steampowered.com/app/333/Other_Free/?snr=1&cc=us".to_string(),
        ]
    );
}

#[test]
fn listing_without_the_results_container_is_empty() {
    let store = SteamStore;
    assert_eq!(store.listing_urls("<html></html>"), Vec::<String>::new());
}

#[test]
fn app_id_reads_the_digits_of_the_page_pattern() {
    let store = SteamStore;
    assert_eq!(
        store.app_id("https://store.steampowered.com/app/12345/The_Game/?cc=us"),
        Some("12345".to_string())
    );
    assert_eq!(store.app_id("https://store.steampowered.com/app/12345"), None);
    assert_eq!(store.app_id("https://example.test/app/12345/The_Game/"), None);
}

fn detail_page(banner: &str) -> String {
    let mut page = String::new();
    page.push_str("<html><div id=\"appHubAppName\" class=\"apphub_AppName\">The Game</div>");
    page.push_str("<div id=\"game_area_description\"><h2>About This Game</h2>text</div>");
    page.push_str("<div class=\"discount_original_price\">$19.99</div>");
    page.push_str("<p class=\"game_purchase_discount_quantity \">");
    page.push_str(banner);
    page.push_str("</p></html>");
    page
}

#[test]
fn a_detail_page_becomes_a_record() {
    let store = SteamStore;
    let today = Date { year: 2025, month: 6, day: 1 };
    let page = detail_page("Free to keep when you get it before Jun 15. Some limitations apply.");
    let g = store
        .parse_game_page("https://store.steampowered.com/app/12345/The_Game/?cc=us", &page, today)
        .expect("a complete detail page");
    assert_eq!(g.id, "12345");
    assert_eq!(g.store, GameStore::Steam);
    assert_eq!(g.title, "The Game");
    assert_eq!(g.identifier, "The_Game");
    assert_eq!(g.url, "https://store.steampowered.com/app/12345/The_Game/");
    assert_eq!(g.original_price, "$19.99");
    assert_eq!(g.offer_until, Date { year: 2025, month: 6, day: 15 });
    assert_eq!(g.game_type, GameType::Game);
}

#[test]
fn heading_words_classify_the_record() {
    let store = SteamStore;
    let today = Date { year: 2025, month: 6, day: 1 };
    let page = detail_page("before Jun 15.").replace("About This Game", "About This Content");
    let g = store
        .parse_game_page("https://store.steampowered.com/app/12345/The_Game/", &page, today)
        .unwrap();
    assert_eq!(g.game_type, GameType::Dlc);
}

#[test]
fn a_page_missing_the_title_is_dropped() {
    let store = SteamStore;
    let today = Date { year: 2025, month: 6, day: 1 };
    let page = detail_page("before Jun 15.").replace("appHubAppName", "somethingElse");
    assert_eq!(
        store.parse_game_page("https://store.steampowered.com/app/12345/The_Game/", &page, today),
        None
    );
}

#[test]
fn a_banner_without_a_date_drops_the_candidate() {
    let store = SteamStore;
    let today = Date { year: 2025, month: 6, day: 1 };
    let page = detail_page("Limited time offer!");
    assert_eq!(
        store.parse_game_page("https://store.steampowered.com/app/12345/The_Game/", &page, today),
        None
    );
}

#[test]
fn banner_dates_assume_the_current_year() {
    let today = Date { year: 2025, month: 6, day: 1 };
    assert_eq!(
        steam_banner_date(&chars("Free before Jun 15!"), today),
        Some(Date { year: 2025, month: 6, day: 15 })
    );
}

#[test]
fn a_passed_banner_date_rolls_one_year_forward() {
    let today = Date { year: 2025, month: 12, day: 20 };
    assert_eq!(
        steam_banner_date(&chars("Free to keep before Jan 5."), today),
        Some(Date { year: 2026, month: 1, day: 5 })
    );
}

#[test]
fn banner_oddities_drop_the_candidate() {
    let today = Date { year: 2025, month: 6, day: 1 };
    assert_eq!(steam_banner_date(&chars("before Xyz 15"), today), None);
    assert_eq!(steam_banner_date(&chars("before Jun 150"), today), None);
    assert_eq!(steam_banner_date(&chars("before Jun 0"), today), None);
    assert_eq!(steam_banner_date(&chars(""), today), None);
}
