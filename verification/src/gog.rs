//! The GOG storefront adapter.
//!
//! One JSON API call lists catalog products. A product is eligible when its
//! discount text is exactly `-100%` and its final price text is exactly
//! `$0.00`; both must hold. The expiration date is read off the product's
//! store page, from a script assignment that embeds a JSON date literal.

use vstd::prelude::*;
use crate::chars::char_is_space;
use crate::date::Date;
use crate::date::spec_parse_iso;
use crate::date::parse_iso_chars;
use crate::model::Game;
use crate::model::GameStore;
use crate::model::GameType;
use crate::identifier::spec_normalize;
use crate::identifier::make_identifier;
use crate::strings::match_at;
use crate::strings::spec_find;
use crate::strings::find_in;
use crate::strings::is_match;
use crate::strings::str_eq;
use crate::strings::to_chars;
use crate::strings::subvec;

verus! {

/// Price texts of a product, kept verbatim.
#[derive(Clone, Debug)]
pub struct GogPrice {
    /// The displayed final price; named with a suffix because the bare
    /// field name cannot be used here.
    pub final_price: String,
    pub base: String,
    pub discount: String,
}

/// One product of the catalog listing.
#[derive(Clone, Debug)]
pub struct GogProduct {
    pub id: String,
    pub product_type: String,
    pub title: String,
    pub price: GogPrice,
    pub store_link: String,
}

/// The eligibility filter: a full discount and a zero final price.
pub open spec fn spec_gog_eligible(p: GogProduct) -> bool {
    p.price.discount@ == "-100%"@ && p.price.final_price@ == "$0.00"@
}

/// A product failing either half of the filter is rejected.
pub proof fn lemma_gog_requires_both(p: GogProduct)
    requires
        p.price.discount@ != "-100%"@ || p.price.final_price@ != "$0.00"@,
    ensures
        !spec_gog_eligible(p),
{
}

/// The script assignment that carries the promotion's end date.
pub open spec fn gog_promo_marker() -> Seq<char> {
    "window.productcardData.cardProductPromoEndDate"@
}

/// The JSON fragment that opens the date literal.
pub open spec fn gog_date_open() -> Seq<char> {
    "{\"date\":\""@
}

/// First index at or after `j` whose character is not whitespace.
pub open spec fn spec_skip_ws(s: Seq<char>, j: int) -> int
    decreases s.len() - j,
{
    if j < 0 || j >= s.len() {
        j
    } else if char_is_space(s[j]) {
        spec_skip_ws(s, j + 1)
    } else {
        j
    }
}

/// The promotion end date embedded in a store page: after the first marker
/// occurrence, optional whitespace, `=`, optional whitespace and the date
/// literal's opening, the next ten characters read as `YYYY-MM-DD`.
pub open spec fn spec_gog_promo_date(s: Seq<char>) -> Option<Date> {
    match spec_find(s, gog_promo_marker(), 0) {
        None => None,
        Some(i) => {
            let j = spec_skip_ws(s, i + gog_promo_marker().len());
            if j < s.len() && s[j] == '=' {
                let k = spec_skip_ws(s, j + 1);
                if match_at(s, gog_date_open(), k) {
                    let d = k + gog_date_open().len();
                    if d + 10 <= s.len() {
                        spec_parse_iso(s.subrange(d, d + 10))
                    } else {
                        None
                    }
                } else {
                    None
                }
            } else {
                None
            }
        },
    }
}

/// Exec whitespace skip.
fn skip_ws_x(v: &Vec<char>, j: usize) -> (r: usize)
    ensures
        r == spec_skip_ws(v@, j as int),
        j <= r,
        r <= v@.len() || r == j,
{
    let mut cur = j;
    while cur < v.len() && v[cur].is_whitespace()
        invariant
            j <= cur,
            cur <= v@.len() || cur == j,
            spec_skip_ws(v@, j as int) == spec_skip_ws(v@, cur as int),
        decreases v@.len() - cur,
    {
        cur += 1;
    }
    cur
}

/// Extracts the promotion end date from a store page.
pub fn gog_promo_date(html: &str) -> (r: Option<Date>)
    ensures
        r == spec_gog_promo_date(html@),
{
    let v = to_chars(html);
    let marker = to_chars("window.productcardData.cardProductPromoEndDate");
    let i = match find_in(&v, &marker, 0) {
        Some(i) => i,
        None => {
            return None;
        },
    };
    let vlen = v.len();
    proof {
        crate::strings::lemma_find_props(v@, marker@, 0);
    }
    assert(i + marker@.len() <= vlen);
    let j = skip_ws_x(&v, i + marker.len());
    if !(j < v.len() && v[j] == '=') {
        return None;
    }
    let open = to_chars("{\"date\":\"");
    let k = skip_ws_x(&v, j + 1);
    if !is_match(&v, &open, k) {
        return None;
    }
    let d = k + open.len();
    if d > v.len() || 10 > v.len() - d {
        return None;
    }
    let ds = subvec(&v, d, d + 10);
    parse_iso_chars(&ds)
}

/// The canonical type for a store-declared product type.
pub open spec fn spec_gog_type(s: Seq<char>) -> GameType {
    if s == "game"@ {
        GameType::Game
    } else if s == "dlc"@ {
        GameType::Dlc
    } else if s == "pack"@ {
        GameType::Edition
    } else {
        GameType::Unknown
    }
}

/// Exec mapping of a store-declared product type.
pub fn gog_type(s: &str) -> (r: GameType)
    ensures
        r == spec_gog_type(s@),
{
    if str_eq(s, "game") {
        GameType::Game
    } else if str_eq(s, "dlc") {
        GameType::Dlc
    } else if str_eq(s, "pack") {
        GameType::Edition
    } else {
        GameType::Unknown
    }
}

/// The GOG storefront adapter.
pub struct GogStore;

impl GogStore {
    /// Exec eligibility filter.
    pub fn eligible(&self, p: &GogProduct) -> (r: bool)
        ensures
            r == spec_gog_eligible(*p),
    {
        str_eq(p.price.discount.as_str(), "-100%") && str_eq(p.price.final_price.as_str(), "$0.00")
    }

    /// Builds the canonical record for an eligible product from its store
    /// page. Nothing comes back exactly when the page does not carry a
    /// well-formed promotion end date.
    pub fn build_game(&self, p: &GogProduct, detail_html: &str) -> (r: Option<Game>)
        requires
            spec_gog_eligible(*p),
        ensures
            r is Some <==> spec_gog_promo_date(detail_html@) is Some,
            r matches Some(g) ==> {
                &&& g.id@ == p.id@
                &&& g.store == GameStore::Gog
                &&& g.title@ == p.title@
                &&& g.identifier@ == spec_normalize(p.title@)
                &&& g.url@ == p.store_link@
                &&& g.original_price@ == p.price.base@
                &&& Some(g.offer_until) == spec_gog_promo_date(detail_html@)
                &&& g.game_type == spec_gog_type(p.product_type@)
                &&& g.wf()
            },
    {
        let offer_until = match gog_promo_date(detail_html) {
            Some(d) => d,
            None => {
                return None;
            },
        };
        Some(
            Game {
                id: p.id.clone(),
                store: GameStore::Gog,
                title: p.title.clone(),
                identifier: make_identifier(p.title.clone()),
                url: p.store_link.clone(),
                original_price: p.price.base.clone(),
                offer_until,
                game_type: gog_type(p.product_type.as_str()),
            },
        )
    }
}

} // verus!
