//! Announcement text for a canonical record.
//!
//! The publisher posts one line naming the record's type, title, store and
//! expiration, then the page URL, then hashtags: the fixed tag, a tag from
//! the record's identifier, and a store tag for Steam.

use vstd::prelude::*;
use crate::model::Game;
use crate::model::GameStore;
use crate::model::store_variant_name;
use crate::model::type_display_name;
use crate::date::spec_format_iso;
use crate::strings::chars_to_string;
use vstd::string::StringExecFns;

verus! {

/// The hashtag line of an announcement.
pub open spec fn spec_hashtags(g: Game) -> Seq<char> {
    let base = "#FreeGames #"@ + g.identifier@;
    if g.store == GameStore::Steam {
        base + " #SteamDeals"@
    } else {
        base
    }
}

/// The whole announcement text of a record.
pub open spec fn spec_make_text(g: Game) -> Seq<char> {
    "[ "@ + type_display_name(g.game_type) + " ] \""@ + g.title@
        + "\" is currently free on #"@ + store_variant_name(g.store) + " until "@
        + spec_format_iso(g.offer_until) + ".\n\n"@ + g.url@ + "\n\n"@ + spec_hashtags(g)
}

/// Renders the announcement text for a record.
#[verifier::rlimit(100)]
pub fn make_text(g: &Game) -> (r: String)
    requires
        g.wf(),
    ensures
        r@ == spec_make_text(*g),
{
    let mut out = String::new();
    out.append("[ ");
    out.append(g.game_type.display_name());
    out.append(" ] \"");
    out.append(g.title.as_str());
    out.append("\" is currently free on #");
    out.append(g.store.variant_name());
    out.append(" until ");
    let dc = g.offer_until.format_iso();
    let ds = chars_to_string(&dc);
    out.append(ds.as_str());
    out.append(".\n\n");
    out.append(g.url.as_str());
    out.append("\n\n");
    out.append("#FreeGames #");
    out.append(g.identifier.as_str());
    match g.store {
        GameStore::Steam => {
            out.append(" #SteamDeals");
        },
        _ => {
        },
    }
    assert(out@ =~= spec_make_text(*g));
    out
}

} // verus!
