//! The canonical data model of the pipeline.
//!
//! A `Game` is the canonical record one adapter emits per discovered offer;
//! a `PartialGame` is the `(id, store)` pair used for existence checks; a
//! `PostedPlatform` names one platform's announcement of one offer.

use vstd::prelude::*;
use crate::date::Date;
use crate::strings::lower_seq;
use crate::strings::lower_chars;
use crate::strings::chars_eq_str;
use crate::strings::to_chars;

verus! {

/// The storefront an offer came from.
#[derive(Clone, Copy, Debug, PartialEq, Eq, Structural)]
pub enum GameStore {
    Steam,
    EpicGames,
    Gog,
    Unknown,
}

/// The coarse classification of an offer.
#[derive(Clone, Copy, Debug, PartialEq, Eq, Structural)]
pub enum GameType {
    Game,
    Dlc,
    Software,
    Bundle,
    Edition,
    Unknown,
}

/// The display and storage name of a store; `Gog` is written `GOG`.
pub open spec fn store_display_name(s: GameStore) -> Seq<char> {
    match s {
        GameStore::Steam => "Steam"@,
        GameStore::EpicGames => "EpicGames"@,
        GameStore::Gog => "GOG"@,
        GameStore::Unknown => "Unknown"@,
    }
}

/// The variant name of a store, as announcement hashtags print it.
pub open spec fn store_variant_name(s: GameStore) -> Seq<char> {
    match s {
        GameStore::Steam => "Steam"@,
        GameStore::EpicGames => "EpicGames"@,
        GameStore::Gog => "Gog"@,
        GameStore::Unknown => "Unknown"@,
    }
}

/// The display name of a type; `Dlc` is written `DLC`.
pub open spec fn type_display_name(t: GameType) -> Seq<char> {
    match t {
        GameType::Game => "Game"@,
        GameType::Dlc => "DLC"@,
        GameType::Software => "Software"@,
        GameType::Bundle => "Bundle"@,
        GameType::Edition => "Edition"@,
        GameType::Unknown => "Unknown"@,
    }
}

/// The variant name of a type, as the catalog boundary writes it.
pub open spec fn type_variant_name(t: GameType) -> Seq<char> {
    match t {
        GameType::Game => "Game"@,
        GameType::Dlc => "Dlc"@,
        GameType::Software => "Software"@,
        GameType::Bundle => "Bundle"@,
        GameType::Edition => "Edition"@,
        GameType::Unknown => "Unknown"@,
    }
}

/// The store a name denotes, compared without regard to ASCII case.
pub open spec fn spec_store_from(s: Seq<char>) -> GameStore {
    let t = lower_seq(s);
    if t == "steam"@ {
        GameStore::Steam
    } else if t == "epicgames"@ {
        GameStore::EpicGames
    } else if t == "gog"@ {
        GameStore::Gog
    } else {
        GameStore::Unknown
    }
}

/// The type a name denotes, compared without regard to ASCII case.
pub open spec fn spec_type_from(s: Seq<char>) -> GameType {
    let t = lower_seq(s);
    if t == "game"@ {
        GameType::Game
    } else if t == "dlc"@ {
        GameType::Dlc
    } else if t == "software"@ {
        GameType::Software
    } else if t == "bundle"@ {
        GameType::Bundle
    } else if t == "edition"@ {
        GameType::Edition
    } else {
        GameType::Unknown
    }
}

impl GameStore {
    /// Display and storage name.
    pub fn display_name(&self) -> (r: &'static str)
        ensures
            r@ == store_display_name(*self),
    {
        match self {
            GameStore::Steam => "Steam",
            GameStore::EpicGames => "EpicGames",
            GameStore::Gog => "GOG",
            GameStore::Unknown => "Unknown",
        }
    }

    /// Variant name.
    pub fn variant_name(&self) -> (r: &'static str)
        ensures
            r@ == store_variant_name(*self),
    {
        match self {
            GameStore::Steam => "Steam",
            GameStore::EpicGames => "EpicGames",
            GameStore::Gog => "Gog",
            GameStore::Unknown => "Unknown",
        }
    }
}

impl GameType {
    /// Display name.
    pub fn display_name(&self) -> (r: &'static str)
        ensures
            r@ == type_display_name(*self),
    {
        match self {
            GameType::Game => "Game",
            GameType::Dlc => "DLC",
            GameType::Software => "Software",
            GameType::Bundle => "Bundle",
            GameType::Edition => "Edition",
            GameType::Unknown => "Unknown",
        }
    }

    /// Variant name.
    pub fn variant_name(&self) -> (r: &'static str)
        ensures
            r@ == type_variant_name(*self),
    {
        match self {
            GameType::Game => "Game",
            GameType::Dlc => "Dlc",
            GameType::Software => "Software",
            GameType::Bundle => "Bundle",
            GameType::Edition => "Edition",
            GameType::Unknown => "Unknown",
        }
    }
}

impl From<String> for GameStore {
    /// Reads a store name back from its stored form.
    fn from(s: String) -> (r: GameStore) {
        let v = to_chars(s.as_str());
        let t = lower_chars(&v);
        if chars_eq_str(&t, "steam") {
            GameStore::Steam
        } else if chars_eq_str(&t, "epicgames") {
            GameStore::EpicGames
        } else if chars_eq_str(&t, "gog") {
            GameStore::Gog
        } else {
            GameStore::Unknown
        }
    }
}

impl vstd::std_specs::convert::FromSpecImpl<String> for GameStore {
    open spec fn obeys_from_spec() -> bool {
        true
    }

    open spec fn from_spec(s: String) -> GameStore {
        spec_store_from(s@)
    }
}

impl From<String> for GameType {
    /// Reads a type name back from its stored form.
    fn from(s: String) -> (r: GameType) {
        let v = to_chars(s.as_str());
        let t = lower_chars(&v);
        if chars_eq_str(&t, "game") {
            GameType::Game
        } else if chars_eq_str(&t, "dlc") {
            GameType::Dlc
        } else if chars_eq_str(&t, "software") {
            GameType::Software
        } else if chars_eq_str(&t, "bundle") {
            GameType::Bundle
        } else if chars_eq_str(&t, "edition") {
            GameType::Edition
        } else {
            GameType::Unknown
        }
    }
}

impl vstd::std_specs::convert::FromSpecImpl<String> for GameType {
    open spec fn obeys_from_spec() -> bool {
        true
    }

    open spec fn from_spec(s: String) -> GameType {
        spec_type_from(s@)
    }
}

/// The canonical record the pipeline produces, one per discovered offer.
#[derive(Clone, Debug, PartialEq)]
pub struct Game {
    /// Store-native identifier, opaque, unique within a store.
    pub id: String,
    /// The storefront the offer came from.
    pub store: GameStore,
    /// Display name as scraped.
    pub title: String,
    /// Normalized slug derived from the title.
    pub identifier: String,
    /// Canonical storefront page for the offer.
    pub url: String,
    /// Price text as the store displays it, kept verbatim.
    pub original_price: String,
    /// Date after which the offer is no longer free.
    pub offer_until: Date,
    /// Coarse classification of the offer.
    pub game_type: GameType,
}

impl Game {
    /// A record is well formed when its expiration is a real calendar date.
    pub open spec fn wf(self) -> bool {
        self.offer_until.valid()
    }
}

/// The deduplication gate on an existence-check answer: a candidate is
/// processed only on a definite "not known". A known offer is skipped, and
/// a failed check counts as known, so nothing is emitted twice.
pub fn should_process(check: &Option<bool>) -> (r: bool)
    ensures
        r <==> *check == Some(false),
        *check == Some(true) ==> !r,
        check is None ==> !r,
{
    match check {
        Some(false) => true,
        _ => false,
    }
}

/// The `(id, store)` pair that identifies an offer for deduplication.
#[derive(Clone, Debug, PartialEq)]
pub struct PartialGame {
    pub id: String,
    pub store: GameStore,
}

/// One platform's announcement of one offer.
#[derive(Clone, Debug, PartialEq)]
pub struct PostedPlatform {
    pub platform: String,
    pub game_id: String,
    pub game_store: GameStore,
}

} // verus!
