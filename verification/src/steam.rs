//! The Steam storefront adapter.
//!
//! Phase one scrapes the search listing: result rows whose discount badge
//! is exactly `-100%` yield page links, each given a region query. Phase
//! two scrapes one detail page per new candidate: title, a coarse type from
//! the last word of the description heading, the struck-through original
//! price, and an expiration date from the discount banner, whose text gives
//! a month name and day but no year; the year-rollover correction of the
//! date module supplies the year.

use vstd::prelude::*;
use crate::chars::char_is_space;
use crate::date::Date;
use crate::date::is_digit;
use crate::date::digit_val;
use crate::date::two_digit_val;
use crate::date::spec_month_num;
use crate::date::month_from_name;
use crate::date::spec_rollover;
use crate::date::rollover;
use crate::model::Game;
use crate::model::GameStore;
use crate::model::GameType;
use crate::identifier::spec_normalize;
use crate::identifier::make_identifier;
use crate::strings::match_at;
use crate::strings::spec_find;
use crate::strings::find_in;
use crate::strings::lower_seq;
use crate::strings::lower_chars;
use crate::strings::chars_eq_str;
use crate::strings::to_chars;
use crate::strings::subvec;
use crate::strings::chars_to_string;
use crate::strings::contains_char;
use crate::strings::lemma_find_props;
use vstd::string::StringExecFns;

verus! {

/// Attribute that opens the search-results container.
pub open spec fn results_marker() -> Seq<char> {
    "id=\"search_resultsRows\""@
}

/// Attribute that opens a result row's link.
pub open spec fn href_marker() -> Seq<char> {
    "href=\""@
}

/// The discount badge of a fully discounted row.
pub open spec fn badge_marker() -> Seq<char> {
    "class=\"discount_pct\">-100%<"@
}

/// The fixed prefix of a store page URL.
pub open spec fn app_url_prefix() -> Seq<char> {
    "https://store.steampowered.com/app/"@
}

/// Attribute that opens the title element of a detail page.
pub open spec fn title_marker() -> Seq<char> {
    "id=\"appHubAppName\""@
}

/// Attribute that opens the description section of a detail page.
pub open spec fn desc_marker() -> Seq<char> {
    "id=\"game_area_description\""@
}

/// Opening of the description heading.
pub open spec fn h2_marker() -> Seq<char> {
    "<h2"@
}

/// Attribute that opens the struck-through original price.
pub open spec fn price_marker() -> Seq<char> {
    "class=\"discount_original_price\""@
}

/// Attribute that opens the discount-quantity banner (the class text ends
/// in a space on the page).
pub open spec fn banner_marker() -> Seq<char> {
    "class=\"game_purchase_discount_quantity \""@
}

/// An ASCII letter.
pub open spec fn is_ascii_letter(c: char) -> bool {
    (65 <= c as u32 && c as u32 <= 90) || (97 <= c as u32 && c as u32 <= 122)
}

/// A printable ASCII character.
pub open spec fn is_printable(c: char) -> bool {
    32 <= c as u32 && c as u32 <= 126
}

/// First index at or after `j` whose character is not a decimal digit.
pub open spec fn digit_run_end(s: Seq<char>, j: int) -> int
    decreases s.len() - j,
{
    if j < 0 || j >= s.len() {
        j
    } else if is_digit(s[j]) {
        digit_run_end(s, j + 1)
    } else {
        j
    }
}

/// First index at or after `j` whose character is not an ASCII letter.
pub open spec fn letter_run_end(s: Seq<char>, j: int) -> int
    decreases s.len() - j,
{
    if j < 0 || j >= s.len() {
        j
    } else if is_ascii_letter(s[j]) {
        letter_run_end(s, j + 1)
    } else {
        j
    }
}

/// First index at or after `j` whose character is not printable ASCII.
pub open spec fn printable_run_end(s: Seq<char>, j: int) -> int
    decreases s.len() - j,
{
    if j < 0 || j >= s.len() {
        j
    } else if is_printable(s[j]) {
        printable_run_end(s, j + 1)
    } else {
        j
    }
}

/// Every character of a digit run is a digit, and the run stays in bounds.
pub proof fn lemma_digit_run(s: Seq<char>, j: int)
    requires
        0 <= j <= s.len(),
    ensures
        j <= digit_run_end(s, j) <= s.len(),
        forall|t: int| j <= t < digit_run_end(s, j) ==> is_digit(#[trigger] s[t]),
    decreases s.len() - j,
{
    if j < s.len() && is_digit(s[j]) {
        lemma_digit_run(s, j + 1);
    }
}

/// Exec digit-run scan.
fn digit_run_end_x(v: &Vec<char>, j: usize) -> (r: usize)
    requires
        j <= v@.len(),
    ensures
        r == digit_run_end(v@, j as int),
        j <= r <= v@.len(),
{
    let mut cur = j;
    loop
        invariant
            j <= cur <= v@.len(),
            digit_run_end(v@, j as int) == digit_run_end(v@, cur as int),
        ensures
            j <= cur <= v@.len(),
            digit_run_end(v@, j as int) == cur as int,
        decreases v@.len() - cur,
    {
        if cur >= v.len() {
            break ;
        }
        let u = v[cur] as u32;
        if !(48 <= u && u <= 57) {
            break ;
        }
        cur += 1;
    }
    cur
}

/// Exec letter-run scan.
fn letter_run_end_x(v: &Vec<char>, j: usize) -> (r: usize)
    requires
        j <= v@.len(),
    ensures
        r == letter_run_end(v@, j as int),
        j <= r <= v@.len(),
{
    let mut cur = j;
    loop
        invariant
            j <= cur <= v@.len(),
            letter_run_end(v@, j as int) == letter_run_end(v@, cur as int),
        ensures
            j <= cur <= v@.len(),
            letter_run_end(v@, j as int) == cur as int,
        decreases v@.len() - cur,
    {
        if cur >= v.len() {
            break ;
        }
        let u = v[cur] as u32;
        if !((65 <= u && u <= 90) || (97 <= u && u <= 122)) {
            break ;
        }
        cur += 1;
    }
    cur
}

/// Exec printable-run scan.
fn printable_run_end_x(v: &Vec<char>, j: usize) -> (r: usize)
    requires
        j <= v@.len(),
    ensures
        r == printable_run_end(v@, j as int),
        j <= r <= v@.len(),
{
    let mut cur = j;
    loop
        invariant
            j <= cur <= v@.len(),
            printable_run_end(v@, j as int) == printable_run_end(v@, cur as int),
        ensures
            j <= cur <= v@.len(),
            printable_run_end(v@, j as int) == cur as int,
        decreases v@.len() - cur,
    {
        if cur >= v.len() {
            break ;
        }
        let u = v[cur] as u32;
        if !(32 <= u && u <= 126) {
            break ;
        }
        cur += 1;
    }
    cur
}

/// The rightmost index `q` with `lo <= q < hi` holding a slash.
pub open spec fn last_slash_before(s: Seq<char>, lo: int, hi: int) -> Option<int>
    decreases hi - lo,
{
    if hi <= lo {
        None
    } else if s[hi - 1] == '/' {
        Some(hi - 1)
    } else {
        last_slash_before(s, lo, hi - 1)
    }
}

/// A found slash lies in the scanned range.
pub proof fn lemma_last_slash(s: Seq<char>, lo: int, hi: int)
    ensures
        match last_slash_before(s, lo, hi) {
            Some(q) => lo <= q < hi && s[q] == '/',
            None => true,
        },
    decreases hi - lo,
{
    if hi <= lo {
    } else if s[hi - 1] == '/' {
    } else {
        lemma_last_slash(s, lo, hi - 1);
    }
}

/// Exec scan for the rightmost slash in `lo..hi`.
fn last_slash_x(v: &Vec<char>, lo: usize, hi: usize) -> (r: Option<usize>)
    requires
        hi <= v@.len(),
    ensures
        match r {
            Some(q) => Some(q as int) == last_slash_before(v@, lo as int, hi as int),
            None => last_slash_before(v@, lo as int, hi as int) is None,
        },
{
    let mut cur = hi;
    loop
        invariant
            cur <= hi <= v@.len(),
            last_slash_before(v@, lo as int, hi as int) == last_slash_before(
                v@,
                lo as int,
                cur as int,
            ),
        decreases cur,
    {
        if cur <= lo {
            return None;
        }
        if v[cur - 1] == '/' {
            return Some(cur - 1);
        }
        cur -= 1;
    }
}

/// The store-page pattern read at position `i`: the fixed prefix, at least
/// one digit, a slash, at least one printable character, and a final slash.
/// Yields the whole match and the digits, as the page URL and the app id.
pub open spec fn spec_app_at(s: Seq<char>, i: int) -> Option<(Seq<char>, Seq<char>)> {
    if match_at(s, app_url_prefix(), i) {
        let ds = i + app_url_prefix().len();
        let de = digit_run_end(s, ds);
        if de > ds && de < s.len() && s[de] == '/' {
            let pe = printable_run_end(s, de + 1);
            match last_slash_before(s, de + 2, pe) {
                Some(q) => Some((s.subrange(i, q + 1), s.subrange(ds, de))),
                None => None,
            }
        } else {
            None
        }
    } else {
        None
    }
}

/// The first position at or after `from` where the store-page pattern
/// completes, with its match.
pub open spec fn spec_app_search(s: Seq<char>, from: int) -> Option<(Seq<char>, Seq<char>)>
    decreases s.len() - from,
{
    match spec_find(s, app_url_prefix(), from) {
        None => None,
        Some(i) => {
            if i < from || i >= s.len() {
                None
            } else {
                match spec_app_at(s, i) {
                    Some(r) => Some(r),
                    None => spec_app_search(s, i + 1),
                }
            }
        },
    }
}

/// Exec search for the store-page pattern.
fn app_search(v: &Vec<char>) -> (r: Option<(Vec<char>, Vec<char>)>)
    ensures
        match r {
            Some(p) => spec_app_search(v@, 0) == Some((p.0@, p.1@)),
            None => spec_app_search(v@, 0) is None,
        },
{
    let prefix = to_chars("https://store.steampowered.com/app/");
    let vlen = v.len();
    let mut from: usize = 0;
    loop
        invariant
            prefix@ == app_url_prefix(),
            vlen == v@.len(),
            from <= vlen + 1,
            spec_app_search(v@, 0) == spec_app_search(v@, from as int),
        decreases vlen + 1 - from,
    {
        let i = match find_in(v, &prefix, from) {
            Some(i) => i,
            None => {
                return None;
            },
        };
        proof {
            lemma_find_props(v@, prefix@, from as int);
            reveal_strlit("https://store.steampowered.com/app/");
        }
        assert(i + prefix@.len() <= vlen);
        let ds = i + prefix.len();
        let de = digit_run_end_x(v, ds);
        if de > ds && de < vlen && v[de] == '/' {
            let pe = printable_run_end_x(v, de + 1);
            let mut q_opt: Option<usize> = None;
            if pe >= 2 && de <= pe - 2 {
                q_opt = last_slash_x(v, de + 2, pe);
            } else {
                assert(last_slash_before(v@, de + 2, pe as int) is None);
            }
            match q_opt {
                Some(q) => {
                    proof {
                        lemma_last_slash(v@, de + 2, pe as int);
                    }
                    return Some((subvec(v, i, q + 1), subvec(v, ds, de)));
                },
                None => {
                },
            }
        }
        assert(spec_app_at(v@, i as int) is None);
        from = i + 1;
    }
}

/// Appends the region query to a listing link.
pub open spec fn spec_append_cc(url: Seq<char>) -> Seq<char> {
    if url.contains('?') {
        url + "&cc=us"@
    } else {
        url + "?cc=us"@
    }
}

/// Views of a vector of strings.
pub open spec fn seq_views(ss: Seq<String>) -> Seq<Seq<char>> {
    Seq::new(ss.len(), |i: int| ss[i]@)
}

/// The listing links that follow the results container, row by row: each
/// row link whose segment carries the full-discount badge is kept, with the
/// region query appended.
pub open spec fn listing_rec(s: Seq<char>, from: int) -> Seq<Seq<char>>
    decreases s.len() - from,
{
    match spec_find(s, href_marker(), from) {
        None => Seq::empty(),
        Some(h) => {
            let us = h + href_marker().len();
            match spec_find(s, "\""@, us) {
                None => Seq::empty(),
                Some(ue) => {
                    if h < from || ue < us || ue >= s.len() {
                        Seq::empty()
                    } else {
                        let url = s.subrange(us, ue);
                    let seg_end = match spec_find(s, href_marker(), ue) {
                        Some(nh) => nh,
                        None => s.len() as int,
                    };
                    let keep = match spec_find(s, badge_marker(), ue) {
                        Some(b) => b < seg_end,
                        None => false,
                    };
                    let rest = listing_rec(s, ue + 1);
                    if keep {
                        seq![spec_append_cc(url)] + rest
                    } else {
                        rest
                    }
                    }
                },
            }
        },
    }
}

/// What the listing scrape yields.
pub open spec fn spec_listing_urls(s: Seq<char>) -> Seq<Seq<char>> {
    match spec_find(s, results_marker(), 0) {
        None => Seq::empty(),
        Some(m) => listing_rec(s, m + results_marker().len()),
    }
}

/// What the last whitespace-separated word of a heading is: the index after
/// the last non-whitespace character.
pub open spec fn rtrim_end(t: Seq<char>, j: int) -> int
    decreases j,
{
    if j <= 0 {
        0
    } else if char_is_space(t[j - 1]) {
        rtrim_end(t, j - 1)
    } else {
        j
    }
}

/// Start of the word that ends at `j`.
pub open spec fn word_start(t: Seq<char>, j: int) -> int
    decreases j,
{
    if j <= 0 {
        0
    } else if !char_is_space(t[j - 1]) {
        word_start(t, j - 1)
    } else {
        j
    }
}

/// The last whitespace-separated word of `t`, if `t` has one.
pub open spec fn last_word(t: Seq<char>) -> Option<Seq<char>> {
    let e = rtrim_end(t, t.len() as int);
    if e == 0 {
        None
    } else {
        Some(t.subrange(word_start(t, e), e))
    }
}

/// Exec last word.
pub fn last_word_x(t: &Vec<char>) -> (r: Option<Vec<char>>)
    ensures
        match r {
            Some(w) => last_word(t@) == Some(w@),
            None => last_word(t@) is None,
        },
{
    let mut e = t.len();
    while e > 0 && t[e - 1].is_whitespace()
        invariant
            e <= t@.len(),
            rtrim_end(t@, t@.len() as int) == rtrim_end(t@, e as int),
        decreases e,
    {
        e -= 1;
    }
    if e == 0 {
        return None;
    }
    let mut st = e;
    while st > 0 && !t[st - 1].is_whitespace()
        invariant
            st <= e <= t@.len(),
            word_start(t@, e as int) == word_start(t@, st as int),
        decreases st,
    {
        st -= 1;
    }
    Some(subvec(t, st, e))
}

/// The canonical type for the last word of the description heading.
pub open spec fn spec_steam_word_type(w: Seq<char>) -> GameType {
    let t = lower_seq(w);
    if t == "game"@ {
        GameType::Game
    } else if t == "content"@ {
        GameType::Dlc
    } else if t == "software"@ {
        GameType::Software
    } else if t == "bundle"@ {
        GameType::Bundle
    } else {
        GameType::Unknown
    }
}

/// Exec type mapping from the heading's last word.
pub fn steam_word_type(w: &Vec<char>) -> (r: GameType)
    ensures
        r == spec_steam_word_type(w@),
{
    let t = lower_chars(w);
    if chars_eq_str(&t, "game") {
        GameType::Game
    } else if chars_eq_str(&t, "content") {
        GameType::Dlc
    } else if chars_eq_str(&t, "software") {
        GameType::Software
    } else if chars_eq_str(&t, "bundle") {
        GameType::Bundle
    } else {
        GameType::Unknown
    }
}

/// The element text after the first occurrence of `marker` at or past
/// `from`: everything between the tag's closing `>` and the next `<`.
pub open spec fn spec_inner_text_from(s: Seq<char>, marker: Seq<char>, from: int) -> Option<
    Seq<char>,
> {
    match spec_find(s, marker, from) {
        None => None,
        Some(i) => match spec_find(s, ">"@, i + marker.len()) {
            None => None,
            Some(g) => match spec_find(s, "<"@, g + 1) {
                None => None,
                Some(e) => Some(s.subrange(g + 1, e)),
            },
        },
    }
}

/// Exec element-text extraction.
fn inner_text_from(v: &Vec<char>, marker: &Vec<char>, from: usize) -> (r: Option<Vec<char>>)
    ensures
        match r {
            Some(t) => spec_inner_text_from(v@, marker@, from as int) == Some(t@),
            None => spec_inner_text_from(v@, marker@, from as int) is None,
        },
{
    let gt = to_chars(">");
    let lt = to_chars("<");
    let vlen = v.len();
    let i = match find_in(v, marker, from) {
        Some(i) => i,
        None => {
            return None;
        },
    };
    proof {
        lemma_find_props(v@, marker@, from as int);
    }
    assert(i + marker@.len() <= vlen);
    let g = match find_in(v, &gt, i + marker.len()) {
        Some(g) => g,
        None => {
            return None;
        },
    };
    proof {
        lemma_find_props(v@, gt@, i + marker@.len());
        reveal_strlit(">");
    }
    assert(g + 1 <= vlen);
    let e = match find_in(v, &lt, g + 1) {
        Some(e) => e,
        None => {
            return None;
        },
    };
    proof {
        lemma_find_props(v@, lt@, g + 1);
    }
    Some(subvec(v, g + 1, e))
}

/// A month-name/day pattern reads at `i`: letters, one space, a digit.
pub open spec fn month_day_match(s: Seq<char>, i: int) -> bool {
    let le = letter_run_end(s, i);
    &&& le > i
    &&& le < s.len()
    &&& s[le] == ' '
    &&& le + 1 < s.len()
    &&& is_digit(s[le + 1])
}

/// The first index at or after `from` where the month-name/day pattern
/// reads.
pub open spec fn find_month_day(s: Seq<char>, from: int) -> Option<int>
    decreases s.len() - from,
{
    if from < 0 || from >= s.len() {
        None
    } else if month_day_match(s, from) {
        Some(from)
    } else {
        find_month_day(s, from + 1)
    }
}

/// The expiration date a banner text names: the leftmost month-name/day
/// pattern, the month name read in English, a day of at most two digits,
/// the year assumed current and rolled forward when the date has passed.
pub open spec fn spec_banner_date(b: Seq<char>, today: Date) -> Option<Date> {
    match find_month_day(b, 0) {
        None => None,
        Some(i) => {
            let le = letter_run_end(b, i);
            let ds = le + 1;
            let de = digit_run_end(b, ds);
            if de - ds > 2 {
                None
            } else {
                match spec_month_num(b.subrange(i, le)) {
                    None => None,
                    Some(m) => {
                        let d = if de - ds == 1 {
                            digit_val(b[ds])
                        } else {
                            two_digit_val(b, ds)
                        };
                        let naive = Date { year: today.year, month: m, day: d as u32 };
                        if naive.valid() {
                            spec_rollover(naive, today)
                        } else {
                            None
                        }
                    },
                }
            }
        },
    }
}

/// Exec search for the leftmost month-name/day pattern.
fn find_month_day_x(b: &Vec<char>) -> (r: Option<usize>)
    ensures
        match r {
            Some(i) => find_month_day(b@, 0) == Some(i as int) && month_day_match(b@, i as int)
                && i < b@.len(),
            None => find_month_day(b@, 0) is None,
        },
{
    let blen = b.len();
    let mut from: usize = 0;
    loop
        invariant
            blen == b@.len(),
            from <= blen,
            find_month_day(b@, 0) == find_month_day(b@, from as int),
        decreases blen - from,
    {
        if from >= blen {
            return None;
        }
        let le = letter_run_end_x(b, from);
        if le > from && le < blen && b[le] == ' ' && le + 1 < blen {
            let u = b[le + 1] as u32;
            if 48 <= u && u <= 57 {
                return Some(from);
            }
        }
        assert(!month_day_match(b@, from as int));
        from += 1;
    }
}

/// Exec banner-date extraction.
pub fn steam_banner_date(b: &Vec<char>, today: Date) -> (r: Option<Date>)
    requires
        today.valid(),
    ensures
        r == spec_banner_date(b@, today),
{
    let blen = b.len();
    let i = match find_month_day_x(b) {
        Some(i) => i,
        None => {
            return None;
        },
    };
    let le = letter_run_end_x(b, i);
    let ds = le + 1;
    let de = digit_run_end_x(b, ds);
    if de - ds > 2 {
        return None;
    }
    let mc = subvec(b, i, le);
    let m = match month_from_name(&mc) {
        Some(m) => m,
        None => {
            return None;
        },
    };
    proof {
        lemma_digit_run(b@, ds as int);
        lemma_digit_run(b@, ds + 1);
        assert(is_digit(b@[ds as int]));
    }
    let d: u32 = if de - ds == 1 {
        b[ds] as u32 - 48
    } else {
        (b[ds] as u32 - 48) * 10 + (b[ds + 1] as u32 - 48)
    };
    let naive = match Date::from_ymd(today.year, m, d) {
        Some(n) => n,
        None => {
            return None;
        },
    };
    rollover(naive, today)
}

/// The Steam storefront adapter.
pub struct SteamStore;

impl SteamStore {
    /// Scrapes the search listing for fully discounted rows, yielding each
    /// kept row's link with the region query appended.
    pub fn listing_urls(&self, html: &str) -> (r: Vec<String>)
        ensures
            seq_views(r@) == spec_listing_urls(html@),
    {
        let v = to_chars(html);
        let results = to_chars("id=\"search_resultsRows\"");
        let href = to_chars("href=\"");
        let badge = to_chars("class=\"discount_pct\">-100%<");
        let quote = to_chars("\"");
        let vlen = v.len();
        let mut out: Vec<String> = Vec::new();
        let m = match find_in(&v, &results, 0) {
            Some(m) => m,
            None => {
                assert(seq_views(out@) =~= spec_listing_urls(html@));
                return out;
            },
        };
        proof {
            lemma_find_props(v@, results@, 0);
        }
        assert(m + results@.len() <= vlen);
        let mut cur: usize = m + results.len();
        loop
            invariant
                vlen == v@.len(),
                cur <= vlen + 1,
                v@ == html@,
                href@ == href_marker(),
                badge@ == badge_marker(),
                quote@ == "\""@,
                spec_listing_urls(html@) == seq_views(out@) + listing_rec(v@, cur as int),
            ensures
                seq_views(out@) == spec_listing_urls(html@),
            decreases vlen + 1 - cur,
        {
            let h = match find_in(&v, &href, cur) {
                Some(h) => h,
                None => {
                    assert(seq_views(out@) + listing_rec(v@, cur as int) =~= seq_views(out@));
                    break ;
                },
            };
            proof {
                lemma_find_props(v@, href@, cur as int);
            }
            assert(h + href@.len() <= vlen);
            let us = h + href.len();
            let ue = match find_in(&v, &quote, us) {
                Some(ue) => ue,
                None => {
                    assert(seq_views(out@) + listing_rec(v@, cur as int) =~= seq_views(out@));
                    break ;
                },
            };
            proof {
                lemma_find_props(v@, quote@, us as int);
                reveal_strlit("\"");
            }
            assert(ue + 1 <= vlen);
            let seg_end = match find_in(&v, &href, ue) {
                Some(nh) => nh,
                None => vlen,
            };
            let keep = match find_in(&v, &badge, ue) {
                Some(b) => b < seg_end,
                None => false,
            };
            if keep {
                let url_chars = subvec(&v, us, ue);
                let mut url = chars_to_string(&url_chars);
                if contains_char(&url_chars, '?') {
                    url.append("&cc=us");
                } else {
                    url.append("?cc=us");
                }
                assert(url@ == spec_append_cc(v@.subrange(us as int, ue as int)));
                out.push(url);
                proof {
                    assert(seq_views(out@) =~= seq_views(out@.drop_last()) + seq![
                        out@.last()@,
                    ]);
                }
            }
            cur = ue + 1;
        }
        out
    }

    /// The numeric app id a listing link names, when the link follows the
    /// store-page pattern.
    pub fn app_id(&self, url: &str) -> (r: Option<String>)
        ensures
            r is Some <==> spec_app_search(url@, 0) is Some,
            r matches Some(id) ==> Some(id@) == (match spec_app_search(url@, 0) {
                Some(p) => Some(p.1),
                None => None,
            }),
    {
        let v = to_chars(url);
        match app_search(&v) {
            Some(p) => Some(chars_to_string(&p.1)),
            None => None,
        }
    }

    /// Parses a detail page into the canonical record. Nothing comes back
    /// exactly when the page URL does not follow the store-page pattern or
    /// any of title, description heading word, original price or banner
    /// date is missing.
    pub fn parse_game_page(&self, url: &str, html: &str, today: Date) -> (r: Option<Game>)
        requires
            today.valid(),
        ensures
            r is Some <==> spec_steam_page_ok(url@, html@, today),
            r matches Some(g) ==> {
                &&& Some(g.url@) == (match spec_app_search(url@, 0) {
                    Some(p) => Some(p.0),
                    None => None,
                })
                &&& Some(g.id@) == (match spec_app_search(url@, 0) {
                    Some(p) => Some(p.1),
                    None => None,
                })
                &&& g.store == GameStore::Steam
                &&& Some(g.title@) == spec_steam_title(html@)
                &&& g.identifier@ == spec_normalize(spec_steam_title(html@)->Some_0)
                &&& Some(g.original_price@) == spec_steam_price(html@)
                &&& Some(g.offer_until) == spec_steam_offer_until(html@, today)
                &&& g.game_type == spec_steam_word_type(spec_steam_type_word(html@)->Some_0)
                &&& g.wf()
            },
    {
        let uv = to_chars(url);
        let hv = to_chars(html);
        let (url_chars, id_chars) = match app_search(&uv) {
            Some(p) => p,
            None => {
                return None;
            },
        };
        let title_m = to_chars("id=\"appHubAppName\"");
        let title_chars = match inner_text_from(&hv, &title_m, 0) {
            Some(t) => t,
            None => {
                return None;
            },
        };
        let desc_m = to_chars("id=\"game_area_description\"");
        let h2_m = to_chars("<h2");
        let hvlen = hv.len();
        let dm = match find_in(&hv, &desc_m, 0) {
            Some(dm) => dm,
            None => {
                return None;
            },
        };
        proof {
            lemma_find_props(hv@, desc_m@, 0);
        }
        assert(dm + desc_m@.len() <= hvlen);
        let heading = match inner_text_from(&hv, &h2_m, dm + desc_m.len()) {
            Some(t) => t,
            None => {
                return None;
            },
        };
        let word = match last_word_x(&heading) {
            Some(w) => w,
            None => {
                return None;
            },
        };
        let price_m = to_chars("class=\"discount_original_price\"");
        let price_chars = match inner_text_from(&hv, &price_m, 0) {
            Some(t) => t,
            None => {
                return None;
            },
        };
        let banner_m = to_chars("class=\"game_purchase_discount_quantity \"");
        let banner_chars = match inner_text_from(&hv, &banner_m, 0) {
            Some(t) => t,
            None => {
                return None;
            },
        };
        let offer_until = match steam_banner_date(&banner_chars, today) {
            Some(d) => d,
            None => {
                return None;
            },
        };
        let title = chars_to_string(&title_chars);
        Some(
            Game {
                id: chars_to_string(&id_chars),
                store: GameStore::Steam,
                title: title.clone(),
                identifier: make_identifier(title),
                url: chars_to_string(&url_chars),
                original_price: chars_to_string(&price_chars),
                offer_until,
                game_type: steam_word_type(&word),
            },
        )
    }
}

/// The title text of a detail page.
pub open spec fn spec_steam_title(h: Seq<char>) -> Option<Seq<char>> {
    spec_inner_text_from(h, title_marker(), 0)
}

/// The description heading of a detail page.
pub open spec fn spec_steam_heading(h: Seq<char>) -> Option<Seq<char>> {
    match spec_find(h, desc_marker(), 0) {
        None => None,
        Some(dm) => spec_inner_text_from(h, h2_marker(), dm + desc_marker().len()),
    }
}

/// The last word of the description heading.
pub open spec fn spec_steam_type_word(h: Seq<char>) -> Option<Seq<char>> {
    match spec_steam_heading(h) {
        None => None,
        Some(t) => last_word(t),
    }
}

/// The struck-through original price text of a detail page.
pub open spec fn spec_steam_price(h: Seq<char>) -> Option<Seq<char>> {
    spec_inner_text_from(h, price_marker(), 0)
}

/// The expiration date of a detail page's discount banner.
pub open spec fn spec_steam_offer_until(h: Seq<char>, today: Date) -> Option<Date> {
    match spec_inner_text_from(h, banner_marker(), 0) {
        None => None,
        Some(b) => spec_banner_date(b, today),
    }
}

/// Everything a detail page must yield for a record to be emitted.
pub open spec fn spec_steam_page_ok(u: Seq<char>, h: Seq<char>, today: Date) -> bool {
    &&& spec_app_search(u, 0) is Some
    &&& spec_steam_title(h) is Some
    &&& spec_steam_type_word(h) is Some
    &&& spec_steam_price(h) is Some
    &&& spec_steam_offer_until(h, today) is Some
}

} // verus!
