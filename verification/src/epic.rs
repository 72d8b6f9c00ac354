//! The Epic Games storefront adapter.
//!
//! One JSON API call lists catalog elements. An element is eligible when it
//! carries a live promotional offer, its discounted price is zero, its
//! regular price is not zero, its lifecycle status is `ACTIVE`, and the
//! offer's discount percentage is zero. The page URL is resolved from the
//! catalog mappings, falling back to a product-slug attribute, and the
//! expiration date is the leading `YYYY-MM-DD` of the offer's end date.

use vstd::prelude::*;
use crate::date::Date;
use crate::date::spec_parse_iso;
use crate::date::parse_iso_chars;
use crate::model::Game;
use crate::model::GameStore;
use crate::model::GameType;
use crate::identifier::spec_normalize;
use crate::identifier::make_identifier;
use crate::strings::str_eq;
use crate::strings::to_chars;
use crate::strings::subvec;
use vstd::string::StringExecFns;

verus! {

/// Discount portion of a promotional offer.
#[derive(Clone, Debug)]
pub struct EpicDiscountSetting {
    pub discount_percentage: u16,
}

/// One promotional offer: its end timestamp and discount.
#[derive(Clone, Debug)]
pub struct EpicOffer {
    pub end_date: String,
    pub discount_setting: EpicDiscountSetting,
}

/// One group of promotional offers.
#[derive(Clone, Debug)]
pub struct EpicOfferGroup {
    pub promotional_offers: Vec<EpicOffer>,
}

/// The promotions structure of a catalog element.
#[derive(Clone, Debug)]
pub struct EpicPromotions {
    pub promotional_offers: Vec<EpicOfferGroup>,
}

/// Price text as the store displays it.
#[derive(Clone, Debug)]
pub struct EpicFmtPrice {
    pub original_price: String,
}

/// Numeric and displayed prices of an element.
#[derive(Clone, Debug)]
pub struct EpicTotalPrice {
    pub discount_price: u16,
    pub original_price: u16,
    pub fmt_price: EpicFmtPrice,
}

/// Price wrapper of a catalog element.
#[derive(Clone, Debug)]
pub struct EpicPrice {
    pub total_price: EpicTotalPrice,
}

/// One catalog-namespace mapping: a page slug with its page type.
#[derive(Clone, Debug)]
pub struct EpicMapping {
    pub page_slug: String,
    pub page_type: String,
}

/// Catalog namespace of an element.
#[derive(Clone, Debug)]
pub struct EpicCatalogNs {
    pub mappings: Option<Vec<EpicMapping>>,
}

/// One custom attribute: a key with its value.
#[derive(Clone, Debug)]
pub struct EpicAttribute {
    pub key: String,
    pub value: String,
}

/// One catalog element of the free-games listing.
#[derive(Clone, Debug)]
pub struct EpicElement {
    pub title: String,
    pub id: String,
    pub offer_type: String,
    pub status: String,
    pub custom_attributes: Vec<EpicAttribute>,
    pub catalog_ns: EpicCatalogNs,
    pub price: EpicPrice,
    pub promotions: Option<EpicPromotions>,
}

/// The element carries a first promotional-offer group with an entry.
pub open spec fn has_current_offer(e: EpicElement) -> bool {
    &&& e.promotions is Some
    &&& e.promotions->Some_0.promotional_offers@.len() > 0
    &&& e.promotions->Some_0.promotional_offers@[0].promotional_offers@.len() > 0
}

/// The first offer of the first group.
pub open spec fn current_offer(e: EpicElement) -> EpicOffer {
    e.promotions->Some_0.promotional_offers@[0].promotional_offers@[0]
}

/// The eligibility filter: a genuine, currently active, fully free offer.
pub open spec fn spec_epic_eligible(e: EpicElement) -> bool {
    &&& has_current_offer(e)
    &&& e.price.total_price.discount_price == 0
    &&& e.price.total_price.original_price > 0
    &&& e.status@ == "ACTIVE"@
    &&& current_offer(e).discount_setting.discount_percentage == 0
}

/// An element whose live discounted price is not zero is never eligible,
/// whatever its other fields hold.
pub proof fn lemma_epic_nonzero_discount_price_rejected(e: EpicElement)
    requires
        e.price.total_price.discount_price != 0,
    ensures
        !spec_epic_eligible(e),
{
}

/// The slug of the first mapping typed `productHome` at or after `i`.
pub open spec fn first_product_home(ms: Seq<EpicMapping>, i: int) -> Option<Seq<char>>
    decreases ms.len() - i,
{
    if i < 0 || i >= ms.len() {
        None
    } else if ms[i].page_type@ == "productHome"@ {
        Some(ms[i].page_slug@)
    } else {
        first_product_home(ms, i + 1)
    }
}

/// The value of the first attribute keyed `com.epicgames.app.productSlug`
/// at or after `i`.
pub open spec fn first_slug_attr(attrs: Seq<EpicAttribute>, i: int) -> Option<Seq<char>>
    decreases attrs.len() - i,
{
    if i < 0 || i >= attrs.len() {
        None
    } else if attrs[i].key@ == "com.epicgames.app.productSlug"@ {
        Some(attrs[i].value@)
    } else {
        first_slug_attr(attrs, i + 1)
    }
}

/// Store page prefix every resolved slug is appended to.
pub open spec fn epic_base_url() -> Seq<char> {
    "https://store.epicgames.com/en-US/p/"@
}

/// The resolved page slug: a `productHome` mapping wins; otherwise the
/// product-slug attribute; otherwise nothing.
pub open spec fn spec_epic_slug(e: EpicElement) -> Option<Seq<char>> {
    let from_mapping = match e.catalog_ns.mappings {
        Some(ms) => first_product_home(ms@, 0),
        None => None,
    };
    if from_mapping is Some {
        from_mapping
    } else {
        first_slug_attr(e.custom_attributes@, 0)
    }
}

/// The resolved page URL of an element.
pub open spec fn spec_epic_url(e: EpicElement) -> Option<Seq<char>> {
    match spec_epic_slug(e) {
        Some(sl) => Some(epic_base_url() + sl),
        None => None,
    }
}

/// The expiration date: the leading ten characters of the current offer's
/// end date, read as `YYYY-MM-DD`.
pub open spec fn spec_epic_offer_until(e: EpicElement) -> Option<Date> {
    let ed = current_offer(e).end_date@;
    if ed.len() >= 10 {
        spec_parse_iso(ed.subrange(0, 10))
    } else {
        None
    }
}

/// The canonical type for a store-declared offer type.
pub open spec fn spec_epic_offer_type(s: Seq<char>) -> GameType {
    if s == "BASE_GAME"@ || s == "OTHERS"@ {
        GameType::Game
    } else if s == "ADD_ON"@ {
        GameType::Dlc
    } else if s == "BUNDLE"@ {
        GameType::Bundle
    } else if s == "EDITION"@ {
        GameType::Edition
    } else {
        GameType::Unknown
    }
}

/// Exec mapping of a store-declared offer type.
pub fn epic_offer_type(s: &str) -> (r: GameType)
    ensures
        r == spec_epic_offer_type(s@),
{
    if str_eq(s, "BASE_GAME") || str_eq(s, "OTHERS") {
        GameType::Game
    } else if str_eq(s, "ADD_ON") {
        GameType::Dlc
    } else if str_eq(s, "BUNDLE") {
        GameType::Bundle
    } else if str_eq(s, "EDITION") {
        GameType::Edition
    } else {
        GameType::Unknown
    }
}

/// The Epic Games storefront adapter.
pub struct EpicGamesStore;

impl EpicGamesStore {
    /// Exec eligibility filter.
    pub fn eligible(&self, e: &EpicElement) -> (r: bool)
        ensures
            r == spec_epic_eligible(*e),
    {
        match &e.promotions {
            None => false,
            Some(p) => {
                if p.promotional_offers.len() == 0 {
                    false
                } else {
                    let g = &p.promotional_offers[0];
                    if g.promotional_offers.len() == 0 {
                        false
                    } else {
                        let o = &g.promotional_offers[0];
                        e.price.total_price.discount_price == 0 && e.price.total_price.original_price
                            > 0 && str_eq(e.status.as_str(), "ACTIVE")
                            && o.discount_setting.discount_percentage == 0
                    }
                }
            },
        }
    }

    /// Resolves the element's page URL.
    pub fn resolve_url(&self, e: &EpicElement) -> (r: Option<String>)
        ensures
            r is Some <==> spec_epic_url(*e) is Some,
            r matches Some(u) ==> Some(u@) == spec_epic_url(*e),
    {
        let ghost from_mapping: Option<Seq<char>> = if e.catalog_ns.mappings is Some {
            first_product_home(e.catalog_ns.mappings->Some_0@, 0)
        } else {
            None
        };
        let mut slug: Option<&String> = None;
        match &e.catalog_ns.mappings {
            None => {
            },
            Some(ms) => {
                let mut i: usize = 0;
                while i < ms.len()
                    invariant_except_break
                        slug is None,
                    invariant
                        i <= ms@.len(),
                        first_product_home(ms@, 0) == first_product_home(ms@, i as int),
                    ensures
                        slug matches Some(s) ==> Some(s@) == first_product_home(ms@, 0),
                        slug is None ==> first_product_home(ms@, 0) is None,
                    decreases ms@.len() - i,
                {
                    if str_eq(ms[i].page_type.as_str(), "productHome") {
                        assert(first_product_home(ms@, i as int) == Some(
                            ms@[i as int].page_slug@,
                        ));
                        slug = Some(&ms[i].page_slug);
                        break ;
                    }
                    i += 1;
                }
            },
        }
        proof {
            match slug {
                Some(s) => {
                    assert(Some(s@) == from_mapping);
                },
                None => {
                    assert(from_mapping is None);
                },
            }
        }
        if slug.is_none() {
            let attrs = &e.custom_attributes;
            let mut i: usize = 0;
            while i < attrs.len()
                invariant_except_break
                    slug is None,
                invariant
                    i <= attrs@.len(),
                    first_slug_attr(attrs@, 0) == first_slug_attr(attrs@, i as int),
                ensures
                    slug matches Some(s) ==> Some(s@) == first_slug_attr(attrs@, 0),
                    slug is None ==> first_slug_attr(attrs@, 0) is None,
                decreases attrs@.len() - i,
            {
                if str_eq(attrs[i].key.as_str(), "com.epicgames.app.productSlug") {
                    assert(first_slug_attr(attrs@, i as int) == Some(attrs@[i as int].value@));
                    slug = Some(&attrs[i].value);
                    break ;
                }
                i += 1;
            }
        }
        match slug {
            None => None,
            Some(s) => {
                let mut url = String::from_str("https://store.epicgames.com/en-US/p/");
                url.append(s.as_str());
                Some(url)
            },
        }
    }

    /// Reads the expiration date off the current offer.
    pub fn offer_until(&self, e: &EpicElement) -> (r: Option<Date>)
        requires
            has_current_offer(*e),
        ensures
            r == spec_epic_offer_until(*e),
    {
        let p = match &e.promotions {
            Some(p) => p,
            None => {
                return None;
            },
        };
        let o = &p.promotional_offers[0].promotional_offers[0];
        let ed = to_chars(o.end_date.as_str());
        if ed.len() < 10 {
            return None;
        }
        let prefix = subvec(&ed, 0, 10);
        parse_iso_chars(&prefix)
    }

    /// Builds the canonical record for an eligible element. Nothing comes
    /// back exactly when the page URL cannot be resolved or the end date is
    /// not a real `YYYY-MM-DD` date.
    pub fn build_game(&self, e: &EpicElement) -> (r: Option<Game>)
        requires
            spec_epic_eligible(*e),
        ensures
            r is Some <==> spec_epic_url(*e) is Some && spec_epic_offer_until(*e) is Some,
            r matches Some(g) ==> {
                &&& g.id@ == e.id@
                &&& g.store == GameStore::EpicGames
                &&& g.title@ == e.title@
                &&& g.identifier@ == spec_normalize(e.title@)
                &&& Some(g.url@) == spec_epic_url(*e)
                &&& g.original_price@ == e.price.total_price.fmt_price.original_price@
                &&& Some(g.offer_until) == spec_epic_offer_until(*e)
                &&& g.game_type == spec_epic_offer_type(e.offer_type@)
                &&& g.wf()
            },
    {
        let url = match self.resolve_url(e) {
            Some(u) => u,
            None => {
                return None;
            },
        };
        let offer_until = match self.offer_until(e) {
            Some(d) => d,
            None => {
                return None;
            },
        };
        Some(
            Game {
                id: e.id.clone(),
                store: GameStore::EpicGames,
                title: e.title.clone(),
                identifier: make_identifier(e.title.clone()),
                url,
                original_price: e.price.total_price.fmt_price.original_price.clone(),
                offer_until,
                game_type: epic_offer_type(e.offer_type.as_str()),
            },
        )
    }
}

} // verus!
