//! The catalog boundary codec.
//!
//! A canonical record crosses the catalog boundary as a JSON object with a
//! fixed key order. String values escape the quote, the backslash and the
//! control characters; every other character passes verbatim. The parser
//! reads exactly this canonical form back, and parsing an encoded record
//! reproduces every field.

use vstd::prelude::*;
use crate::date::Date;
use crate::date::is_digit;
use crate::date::digit_val;
use crate::date::digit_char;
use crate::date::spec_parse_iso;
use crate::date::parse_iso_chars;
use crate::date::spec_format_iso;
use crate::date::lemma_iso_roundtrip;
use crate::model::Game;
use crate::model::PartialGame;
use crate::model::GameStore;
use crate::model::GameType;
use crate::model::store_display_name;
use crate::model::type_variant_name;
use crate::strings::is_match;
use crate::strings::match_at;
use crate::strings::to_chars;
use crate::strings::chars_to_string;
use crate::strings::chars_eq_str;
use vstd::string::StringExecFns;

verus! {

/// The hexadecimal digit character for a value in `0..=15`.
pub open spec fn hex_char(d: int) -> char {
    if d < 10 {
        digit_char(d)
    } else if d == 10 {
        'a'
    } else if d == 11 {
        'b'
    } else if d == 12 {
        'c'
    } else if d == 13 {
        'd'
    } else if d == 14 {
        'e'
    } else {
        'f'
    }
}

/// The value of a hexadecimal digit character, or `-1`.
pub open spec fn hex_val(c: char) -> int {
    if is_digit(c) {
        digit_val(c)
    } else if c == 'a' {
        10
    } else if c == 'b' {
        11
    } else if c == 'c' {
        12
    } else if c == 'd' {
        13
    } else if c == 'e' {
        14
    } else if c == 'f' {
        15
    } else {
        -1
    }
}

/// Encoding then decoding a hexadecimal digit gives the value back.
pub proof fn lemma_hex_roundtrip(d: int)
    requires
        0 <= d <= 15,
    ensures
        hex_val(hex_char(d)) == d,
{
}

/// How one character is written inside a JSON string.
pub open spec fn esc_char(c: char) -> Seq<char> {
    if c == '"' {
        seq!['\\', '"']
    } else if c == '\\' {
        seq!['\\', '\\']
    } else if (c as u32) < 32 {
        seq!['\\', 'u', '0', '0', hex_char((c as u32 as int) / 16), hex_char((c as u32 as int) % 16)]
    } else {
        seq![c]
    }
}

/// The body of a JSON string: each character escaped in turn.
pub open spec fn enc_body(s: Seq<char>) -> Seq<char>
    decreases s.len(),
{
    if s.len() == 0 {
        Seq::empty()
    } else {
        esc_char(s[0]) + enc_body(s.skip(1))
    }
}

/// A JSON string: the escaped body between quotes.
pub open spec fn enc_str(s: Seq<char>) -> Seq<char> {
    seq!['"'] + enc_body(s) + seq!['"']
}

/// Reading a JSON string body: the decoded characters up to the closing
/// quote, and the input that follows it.
pub open spec fn parse_body(s: Seq<char>) -> Option<(Seq<char>, Seq<char>)>
    decreases s.len(),
{
    if s.len() == 0 {
        None
    } else if s[0] == '"' {
        Some((Seq::empty(), s.skip(1)))
    } else if s[0] == '\\' {
        if s.len() >= 2 && (s[1] == '"' || s[1] == '\\') {
            match parse_body(s.skip(2)) {
                None => None,
                Some(p) => Some((seq![s[1]] + p.0, p.1)),
            }
        } else if s.len() >= 6 && s[1] == 'u' && s[2] == '0' && s[3] == '0' && hex_val(s[4]) >= 0
            && hex_val(s[5]) >= 0 {
            match parse_body(s.skip(6)) {
                None => None,
                Some(p) => Some((seq![((hex_val(s[4]) * 16 + hex_val(s[5])) as char)] + p.0, p.1)),
            }
        } else {
            None
        }
    } else {
        match parse_body(s.skip(1)) {
            None => None,
            Some(p) => Some((seq![s[0]] + p.0, p.1)),
        }
    }
}

/// Reading a whole JSON string: an opening quote, then the body.
pub open spec fn parse_str(s: Seq<char>) -> Option<(Seq<char>, Seq<char>)> {
    if s.len() > 0 && s[0] == '"' {
        parse_body(s.skip(1))
    } else {
        None
    }
}

/// Reading a fixed literal off the front of the input.
pub open spec fn parse_lit(s: Seq<char>, lit: Seq<char>) -> Option<Seq<char>> {
    if s.len() >= lit.len() && s.subrange(0, lit.len() as int) == lit {
        Some(s.skip(lit.len() as int))
    } else {
        None
    }
}

/// Reading an encoded string body gives the characters back, with the
/// input that followed the encoding untouched.
pub proof fn lemma_body_roundtrip(s: Seq<char>, rest: Seq<char>)
    ensures
        parse_body(enc_body(s) + seq!['"'] + rest) == Some((s, rest)),
    decreases s.len(),
{
    if s.len() == 0 {
        let input = enc_body(s) + seq!['"'] + rest;
        assert(input =~= seq!['"'] + rest);
        assert(input.skip(1) =~= rest);
        assert(parse_body(input) == Some((Seq::<char>::empty(), rest)));
        assert(s =~= Seq::<char>::empty());
    } else {
        let c = s[0];
        let tail = enc_body(s.skip(1)) + seq!['"'] + rest;
        lemma_body_roundtrip(s.skip(1), rest);
        let input = enc_body(s) + seq!['"'] + rest;
        assert(input =~= esc_char(c) + tail);
        if c == '"' || c == '\\' {
            assert(input[0] == '\\');
            assert(input[1] == c);
            assert(input.len() >= 2);
            assert(input.skip(2) =~= tail);
            assert(seq![c] + s.skip(1) =~= s);
        } else if (c as u32) < 32 {
            let hi = c as u32 / 16;
            let lo = c as u32 % 16;
            lemma_hex_roundtrip(hi as int);
            lemma_hex_roundtrip(lo as int);
            assert(input[0] == '\\');
            assert(input[1] == 'u');
            assert(input[2] == '0');
            assert(input[3] == '0');
            assert(input[4] == hex_char(hi as int));
            assert(input[5] == hex_char(lo as int));
            assert(input.len() >= 6);
            assert(input.skip(6) =~= tail);
            assert(hex_val(input[4]) * 16 + hex_val(input[5]) == c as u32);
            vstd::utf8::char_u32_cast(c, c as u32);
            assert(((c as u32) as char) == c);
            assert(((hex_val(input[4]) * 16 + hex_val(input[5])) as char) == c);
            assert(seq![c] + s.skip(1) =~= s);
        } else {
            assert(input[0] == c);
            assert(input[0] != '"' && input[0] != '\\');
            assert(input.skip(1) =~= tail);
            assert(seq![c] + s.skip(1) =~= s);
        }
    }
}

/// Reading an encoded string gives the characters back.
pub proof fn lemma_str_roundtrip(s: Seq<char>, rest: Seq<char>)
    ensures
        parse_str(enc_str(s) + rest) == Some((s, rest)),
{
    let input = enc_str(s) + rest;
    assert(input[0] == '"');
    assert(input.len() > 0);
    assert(input.skip(1) =~= enc_body(s) + seq!['"'] + rest);
    lemma_body_roundtrip(s, rest);
}

/// Reading a literal that stands at the front gives the rest back.
pub proof fn lemma_lit_roundtrip(lit: Seq<char>, rest: Seq<char>)
    ensures
        parse_lit(lit + rest, lit) == Some(rest),
{
    let input = lit + rest;
    assert(input.subrange(0, lit.len() as int) =~= lit);
    assert(input.skip(lit.len() as int) =~= rest);
}

/// The store a stored name denotes, exactly.
pub open spec fn store_from_name(t: Seq<char>) -> Option<GameStore> {
    if t == "Steam"@ {
        Some(GameStore::Steam)
    } else if t == "EpicGames"@ {
        Some(GameStore::EpicGames)
    } else if t == "GOG"@ {
        Some(GameStore::Gog)
    } else if t == "Unknown"@ {
        Some(GameStore::Unknown)
    } else {
        None
    }
}

/// The type a stored variant name denotes, exactly.
pub open spec fn type_from_name(t: Seq<char>) -> Option<GameType> {
    if t == "Game"@ {
        Some(GameType::Game)
    } else if t == "Dlc"@ {
        Some(GameType::Dlc)
    } else if t == "Software"@ {
        Some(GameType::Software)
    } else if t == "Bundle"@ {
        Some(GameType::Bundle)
    } else if t == "Edition"@ {
        Some(GameType::Edition)
    } else if t == "Unknown"@ {
        Some(GameType::Unknown)
    } else {
        None
    }
}

/// A store's stored name reads back as the store.
pub proof fn lemma_store_name_roundtrip(st: GameStore)
    ensures
        store_from_name(store_display_name(st)) == Some(st),
{
    reveal_strlit("Steam");
    reveal_strlit("EpicGames");
    reveal_strlit("GOG");
    reveal_strlit("Unknown");
    assert("Steam"@.len() == 5);
    assert("EpicGames"@.len() == 9);
    assert("GOG"@.len() == 3);
    assert("Unknown"@.len() == 7);
    match st {
        GameStore::Steam => {
            assert(store_from_name("Steam"@) == Some(GameStore::Steam));
        },
        GameStore::EpicGames => {
            assert(store_from_name("EpicGames"@) == Some(GameStore::EpicGames));
        },
        GameStore::Gog => {
            assert(store_from_name("GOG"@) == Some(GameStore::Gog));
        },
        GameStore::Unknown => {
            assert(store_from_name("Unknown"@) == Some(GameStore::Unknown));
        },
    }
}

/// A type's stored name reads back as the type.
pub proof fn lemma_type_name_roundtrip(t: GameType)
    ensures
        type_from_name(type_variant_name(t)) == Some(t),
{
    reveal_strlit("Game");
    reveal_strlit("Dlc");
    reveal_strlit("Software");
    reveal_strlit("Bundle");
    reveal_strlit("Edition");
    reveal_strlit("Unknown");
    assert("Game"@.len() == 4);
    assert("Dlc"@.len() == 3);
    assert("Software"@.len() == 8);
    assert("Bundle"@.len() == 6);
    assert("Edition"@.len() == 7);
    assert("Unknown"@.len() == 7);
    assert("Unknown"@[0] == 'U');
    assert("Edition"@[0] == 'E');
    match t {
        GameType::Game => {
            assert(type_from_name("Game"@) == Some(GameType::Game));
        },
        GameType::Dlc => {
            assert(type_from_name("Dlc"@) == Some(GameType::Dlc));
        },
        GameType::Software => {
            assert(type_from_name("Software"@) == Some(GameType::Software));
        },
        GameType::Bundle => {
            assert(type_from_name("Bundle"@) == Some(GameType::Bundle));
        },
        GameType::Edition => {
            assert(type_from_name("Edition"@) == Some(GameType::Edition));
        },
        GameType::Unknown => {
            assert(type_from_name("Unknown"@) == Some(GameType::Unknown));
        },
    }
}

/// What the canonical record looks like at the catalog boundary.
pub open spec fn enc_game(g: Game) -> Seq<char> {
    "{\"id\":"@ + (enc_str(g.id@) + (",\"store\":"@ + (enc_str(store_display_name(g.store)) + (
    ",\"title\":"@ + (enc_str(g.title@) + (",\"identifier\":"@ + (enc_str(g.identifier@) + (
    ",\"url\":"@ + (enc_str(g.url@) + (",\"original_price\":"@ + (enc_str(g.original_price@) + (
    ",\"offer_until\":"@ + (enc_str(spec_format_iso(g.offer_until)) + (",\"game_type\":"@ + (
    enc_str(type_variant_name(g.game_type)) + "}"@)))))))))))))))
}

/// What the `(id, store)` pair looks like at the catalog boundary.
pub open spec fn enc_partial(p: PartialGame) -> Seq<char> {
    "{\"id\":"@ + (enc_str(p.id@) + (",\"store\":"@ + (enc_str(store_display_name(p.store))
        + "}"@)))
}

/// The fields a canonical-form text names: nothing unless the whole text is
/// one well-formed record.
pub open spec fn spec_parse_game(s: Seq<char>) -> Option<
    (Seq<char>, GameStore, Seq<char>, Seq<char>, Seq<char>, Seq<char>, Date, GameType),
> {
    match parse_lit(s, "{\"id\":"@) {
        None => None,
        Some(s1) => match parse_str(s1) {
            None => None,
            Some((id, s2)) => match parse_lit(s2, ",\"store\":"@) {
                None => None,
                Some(s3) => match parse_str(s3) {
                    None => None,
                    Some((sn, s4)) => match store_from_name(sn) {
                        None => None,
                        Some(store) => match parse_lit(s4, ",\"title\":"@) {
                            None => None,
                            Some(s5) => match parse_str(s5) {
                                None => None,
                                Some((title, s6)) => match parse_lit(s6, ",\"identifier\":"@) {
                                    None => None,
                                    Some(s7) => match parse_str(s7) {
                                        None => None,
                                        Some((ident, s8)) => match parse_lit(s8, ",\"url\":"@) {
                                            None => None,
                                            Some(s9) => match parse_str(s9) {
                                                None => None,
                                                Some((url, s10)) => match parse_lit(
                                                    s10,
                                                    ",\"original_price\":"@,
                                                ) {
                                                    None => None,
                                                    Some(s11) => match parse_str(s11) {
                                                        None => None,
                                                        Some((price, s12)) => match parse_lit(
                                                            s12,
                                                            ",\"offer_until\":"@,
                                                        ) {
                                                            None => None,
                                                            Some(s13) => match parse_str(s13) {
                                                                None => None,
                                                                Some((dt, s14)) => match
                                                                    spec_parse_iso(dt) {
                                                                    None => None,
                                                                    Some(d) => match parse_lit(
                                                                        s14,
                                                                        ",\"game_type\":"@,
                                                                    ) {
                                                                        None => None,
                                                                        Some(s15) => match
                                                                            parse_str(s15) {
                                                                            None => None,
                                                                            Some((tn, s16)) => match
                                                                                type_from_name(
                                                                                tn,
                                                                            ) {
                                                                                None => None,
                                                                                Some(gt) => match
                                                                                    parse_lit(
                                                                                    s16,
                                                                                    "}"@,
                                                                                ) {
                                                                                    None => None,
                                                                                    Some(s17) => if
                                                                                        s17.len()
                                                                                            == 0 {
                                                                                        Some(
                                                                                            (
                                                                                                id,
                                                                                                store,
                                                                                                title,
                                                                                                ident,
                                                                                                url,
                                                                                                price,
                                                                                                d,
                                                                                                gt,
                                                                                            ),
                                                                                        )
                                                                                    } else {
                                                                                        None
                                                                                    },
                                                                                },
                                                                            },
                                                                        },
                                                                    },
                                                                },
                                                            },
                                                        },
                                                    },
                                                },
                                            },
                                        },
                                    },
                                },
                            },
                        },
                    },
                },
            },
        },
    }
}

/// Parsing an encoded record reproduces every field: the boundary form
/// loses nothing.
pub proof fn lemma_game_roundtrip(g: Game)
    requires
        g.wf(),
    ensures
        spec_parse_game(enc_game(g)) == Some(
            (
                g.id@,
                g.store,
                g.title@,
                g.identifier@,
                g.url@,
                g.original_price@,
                g.offer_until,
                g.game_type,
            ),
        ),
{
    let t16 = "}"@;
    let t15 = enc_str(type_variant_name(g.game_type)) + t16;
    let t14 = ",\"game_type\":"@ + t15;
    let t13 = enc_str(spec_format_iso(g.offer_until)) + t14;
    let t12 = ",\"offer_until\":"@ + t13;
    let t11 = enc_str(g.original_price@) + t12;
    let t10 = ",\"original_price\":"@ + t11;
    let t9 = enc_str(g.url@) + t10;
    let t8 = ",\"url\":"@ + t9;
    let t7 = enc_str(g.identifier@) + t8;
    let t6 = ",\"identifier\":"@ + t7;
    let t5 = enc_str(g.title@) + t6;
    let t4 = ",\"title\":"@ + t5;
    let t3 = enc_str(store_display_name(g.store)) + t4;
    let t2 = ",\"store\":"@ + t3;
    let t1 = enc_str(g.id@) + t2;
    assert(enc_game(g) == "{\"id\":"@ + t1);
    lemma_lit_roundtrip("{\"id\":"@, t1);
    lemma_str_roundtrip(g.id@, t2);
    lemma_lit_roundtrip(",\"store\":"@, t3);
    lemma_str_roundtrip(store_display_name(g.store), t4);
    lemma_store_name_roundtrip(g.store);
    lemma_lit_roundtrip(",\"title\":"@, t5);
    lemma_str_roundtrip(g.title@, t6);
    lemma_lit_roundtrip(",\"identifier\":"@, t7);
    lemma_str_roundtrip(g.identifier@, t8);
    lemma_lit_roundtrip(",\"url\":"@, t9);
    lemma_str_roundtrip(g.url@, t10);
    lemma_lit_roundtrip(",\"original_price\":"@, t11);
    lemma_str_roundtrip(g.original_price@, t12);
    lemma_lit_roundtrip(",\"offer_until\":"@, t13);
    lemma_str_roundtrip(spec_format_iso(g.offer_until), t14);
    lemma_iso_roundtrip(g.offer_until);
    lemma_lit_roundtrip(",\"game_type\":"@, t15);
    lemma_str_roundtrip(type_variant_name(g.game_type), t16);
    lemma_type_name_roundtrip(g.game_type);
    lemma_lit_roundtrip("}"@, Seq::<char>::empty());
    assert(t16 =~= "}"@ + Seq::<char>::empty());
}

/// Exec hexadecimal digit character.
fn hex_char_x(d: u32) -> (c: char)
    requires
        d <= 15,
    ensures
        c == hex_char(d as int),
{
    if d == 0 {
        '0'
    } else if d == 1 {
        '1'
    } else if d == 2 {
        '2'
    } else if d == 3 {
        '3'
    } else if d == 4 {
        '4'
    } else if d == 5 {
        '5'
    } else if d == 6 {
        '6'
    } else if d == 7 {
        '7'
    } else if d == 8 {
        '8'
    } else if d == 9 {
        '9'
    } else if d == 10 {
        'a'
    } else if d == 11 {
        'b'
    } else if d == 12 {
        'c'
    } else if d == 13 {
        'd'
    } else if d == 14 {
        'e'
    } else {
        'f'
    }
}

/// Exec hexadecimal digit value.
fn hex_val_x(c: char) -> (r: Option<u32>)
    ensures
        match r {
            Some(v) => hex_val(c) == v as int && v <= 15,
            None => hex_val(c) < 0,
        },
{
    let u = c as u32;
    if 48 <= u && u <= 57 {
        Some(u - 48)
    } else if c == 'a' {
        Some(10)
    } else if c == 'b' {
        Some(11)
    } else if c == 'c' {
        Some(12)
    } else if c == 'd' {
        Some(13)
    } else if c == 'e' {
        Some(14)
    } else if c == 'f' {
        Some(15)
    } else {
        None
    }
}

/// Appends one character of a JSON string body.
fn push_escaped(out: &mut String, c: char)
    ensures
        final(out)@ == old(out)@ + esc_char(c),
{
    if c == '"' {
        out.push('\\');
        out.push('"');
        assert(final(out)@ =~= old(out)@ + esc_char(c));
    } else if c == '\\' {
        out.push('\\');
        out.push('\\');
        assert(final(out)@ =~= old(out)@ + esc_char(c));
    } else {
        let u = c as u32;
        if u < 32 {
            out.push('\\');
            out.push('u');
            out.push('0');
            out.push('0');
            out.push(hex_char_x(u / 16));
            out.push(hex_char_x(u % 16));
            assert(final(out)@ =~= old(out)@ + esc_char(c));
        } else {
            out.push(c);
            assert(final(out)@ =~= old(out)@ + esc_char(c));
        }
    }
}

/// Appends a whole JSON string.
fn append_json_string(out: &mut String, s: &str)
    ensures
        final(out)@ == old(out)@ + enc_str(s@),
{
    let v = to_chars(s);
    out.push('"');
    proof {
        assert(v@.skip(0) =~= v@);
        assert(out@ =~= old(out)@ + seq!['"']);
    }
    let mut i: usize = 0;
    while i < v.len()
        invariant
            i <= v@.len(),
            v@ == s@,
            out@ + enc_body(v@.skip(i as int)) == old(out)@ + seq!['"'] + enc_body(v@),
        decreases v@.len() - i,
    {
        proof {
            assert(v@.skip(i as int)[0] == v@[i as int]);
            assert(v@.skip(i as int).skip(1) =~= v@.skip(i + 1));
        }
        push_escaped(out, v[i]);
        proof {
            assert(out@ + enc_body(v@.skip(i + 1)) =~= old(out)@ + seq!['"'] + enc_body(v@));
        }
        i += 1;
    }
    proof {
        assert(v@.skip(v@.len() as int) =~= Seq::<char>::empty());
        assert(out@ =~= old(out)@ + seq!['"'] + enc_body(v@));
    }
    out.push('"');
    proof {
        assert(out@ =~= old(out)@ + enc_str(s@));
    }
}

/// Writes the canonical record in the boundary form.
#[verifier::rlimit(100)]
pub fn encode_game(g: &Game) -> (r: String)
    requires
        g.wf(),
    ensures
        r@ == enc_game(*g),
{
    let mut out = String::new();
    out.append("{\"id\":");
    append_json_string(&mut out, g.id.as_str());
    out.append(",\"store\":");
    append_json_string(&mut out, g.store.display_name());
    out.append(",\"title\":");
    append_json_string(&mut out, g.title.as_str());
    out.append(",\"identifier\":");
    append_json_string(&mut out, g.identifier.as_str());
    out.append(",\"url\":");
    append_json_string(&mut out, g.url.as_str());
    out.append(",\"original_price\":");
    append_json_string(&mut out, g.original_price.as_str());
    out.append(",\"offer_until\":");
    let dc = g.offer_until.format_iso();
    let ds = chars_to_string(&dc);
    append_json_string(&mut out, ds.as_str());
    out.append(",\"game_type\":");
    append_json_string(&mut out, g.game_type.variant_name());
    out.append("}");
    assert(out@ =~= enc_game(*g));
    out
}

/// Writes the `(id, store)` pair in the boundary form.
pub fn encode_partial_game(p: &PartialGame) -> (r: String)
    ensures
        r@ == enc_partial(*p),
{
    let mut out = String::new();
    out.append("{\"id\":");
    append_json_string(&mut out, p.id.as_str());
    out.append(",\"store\":");
    append_json_string(&mut out, p.store.display_name());
    out.append("}");
    assert(out@ =~= enc_partial(*p));
    out
}

/// Reads a fixed literal at `pos`, yielding the position after it.
fn expect_lit(v: &Vec<char>, pos: usize, lit: &Vec<char>) -> (r: Option<usize>)
    requires
        pos <= v@.len(),
    ensures
        match r {
            Some(np) => pos <= np <= v@.len() && parse_lit(v@.skip(pos as int), lit@) == Some(
                v@.skip(np as int),
            ),
            None => parse_lit(v@.skip(pos as int), lit@) is None,
        },
{
    let vlen = v.len();
    if is_match(v, lit, pos) {
        assert(pos + lit@.len() <= vlen);
        proof {
            assert(v@.skip(pos as int).subrange(0, lit@.len() as int) =~= lit@);
            assert(v@.skip(pos as int).skip(lit@.len() as int) =~= v@.skip(
                pos + lit@.len(),
            ));
        }
        Some(pos + lit.len())
    } else {
        proof {
            let s = v@.skip(pos as int);
            if s.len() >= lit@.len() && s.subrange(0, lit@.len() as int) == lit@ {
                assert forall|k: int| 0 <= k < lit@.len() implies v@[pos + k] == #[trigger] lit@[k]
                    by {
                    assert(s.subrange(0, lit@.len() as int)[k] == lit@[k]);
                }
                assert(match_at(v@, lit@, pos as int));
            }
        }
        None
    }
}

/// Reads a JSON string at `pos`, yielding its characters and the position
/// after its closing quote.
fn parse_string_at(v: &Vec<char>, pos: usize) -> (r: Option<(Vec<char>, usize)>)
    requires
        pos <= v@.len(),
    ensures
        match r {
            Some(p) => p.1 <= v@.len() && parse_str(v@.skip(pos as int)) == Some(
                (p.0@, v@.skip(p.1 as int)),
            ),
            None => parse_str(v@.skip(pos as int)) is None,
        },
{
    let vlen = v.len();
    if pos >= vlen || v[pos] != '"' {
        return None;
    }
    proof {
        assert(v@.skip(pos as int)[0] == '"');
        assert(v@.skip(pos as int).skip(1) =~= v@.skip(pos + 1));
    }
    let mut cur: usize = pos + 1;
    let mut out: Vec<char> = Vec::new();
    loop
        invariant
            vlen == v@.len(),
            pos < vlen,
            pos + 1 <= cur <= vlen,
            parse_str(v@.skip(pos as int)) == parse_body(v@.skip(pos + 1)),
            (match parse_body(v@.skip(cur as int)) {
                Some(p) => parse_body(v@.skip(pos + 1)) == Some((out@ + p.0, p.1)),
                None => parse_body(v@.skip(pos + 1)) is None,
            }),
        decreases vlen - cur,
    {
        if cur >= vlen {
            assert(v@.skip(cur as int) =~= Seq::<char>::empty());
            return None;
        }
        let ghost s = v@.skip(cur as int);
        proof {
            assert(s[0] == v@[cur as int]);
        }
        let c = v[cur];
        if c == '"' {
            proof {
                assert(s.skip(1) =~= v@.skip(cur + 1));
                assert(out@ + Seq::<char>::empty() =~= out@);
            }
            return Some((out, cur + 1));
        }
        if c == '\\' {
            if cur + 1 < vlen {
                let c2 = v[cur + 1];
                proof {
                    assert(s[1] == v@[cur + 1]);
                }
                if c2 == '"' || c2 == '\\' {
                    proof {
                        assert(s.skip(2) =~= v@.skip(cur + 2));
                        if parse_body(v@.skip(cur + 2)) is Some {
                            let p = parse_body(v@.skip(cur + 2))->Some_0;
                            assert((out@ + seq![c2]) + p.0 =~= out@ + (seq![c2] + p.0));
                        }
                    }
                    out.push(c2);
                    cur = cur + 2;
                    continue ;
                }
                if c2 == 'u' && vlen - cur > 5 && v[cur + 2] == '0' && v[cur + 3] == '0' {
                    proof {
                        assert(s[2] == v@[cur + 2]);
                        assert(s[3] == v@[cur + 3]);
                        assert(s[4] == v@[cur + 4]);
                        assert(s[5] == v@[cur + 5]);
                    }
                    let h1 = match hex_val_x(v[cur + 4]) {
                        Some(h) => h,
                        None => {
                            assert(parse_body(s) is None);
                            return None;
                        },
                    };
                    let h2 = match hex_val_x(v[cur + 5]) {
                        Some(h) => h,
                        None => {
                            assert(parse_body(s) is None);
                            return None;
                        },
                    };
                    let code = h1 * 16 + h2;
                    let dc = (code as u8) as char;
                    proof {
                        assert(s.skip(6) =~= v@.skip(cur + 6));
                        assert(dc == ((hex_val(s[4]) * 16 + hex_val(s[5])) as char));
                        if parse_body(v@.skip(cur + 6)) is Some {
                            let p = parse_body(v@.skip(cur + 6))->Some_0;
                            assert((out@ + seq![dc]) + p.0 =~= out@ + (seq![dc] + p.0));
                        }
                    }
                    out.push(dc);
                    cur = cur + 6;
                    continue ;
                }
                assert(parse_body(s) is None);
                return None;
            } else {
                assert(parse_body(s) is None);
                return None;
            }
        }
        proof {
            assert(s.skip(1) =~= v@.skip(cur + 1));
            if parse_body(v@.skip(cur + 1)) is Some {
                let p = parse_body(v@.skip(cur + 1))->Some_0;
                assert((out@ + seq![c]) + p.0 =~= out@ + (seq![c] + p.0));
            }
        }
        out.push(c);
        cur = cur + 1;
    }
}

/// Reads a canonical-form record back into its fields. Nothing comes back
/// unless the whole text is one well-formed record.
pub fn parse_game(s: &str) -> (r: Option<Game>)
    ensures
        r is Some <==> spec_parse_game(s@) is Some,
        r matches Some(g) ==> spec_parse_game(s@) == Some(
            (
                g.id@,
                g.store,
                g.title@,
                g.identifier@,
                g.url@,
                g.original_price@,
                g.offer_until,
                g.game_type,
            ),
        ),
        r matches Some(g) ==> g.wf(),
{
    let v = to_chars(s);
    proof {
        assert(v@.skip(0) =~= v@);
    }
    let p0: usize = 0;
    let p1 = match expect_lit(&v, p0, &to_chars("{\"id\":")) {
        Some(p) => p,
        None => {
            return None;
        },
    };
    let (id_c, p2) = match parse_string_at(&v, p1) {
        Some(p) => p,
        None => {
            return None;
        },
    };
    let p3 = match expect_lit(&v, p2, &to_chars(",\"store\":")) {
        Some(p) => p,
        None => {
            return None;
        },
    };
    let (sn_c, p4) = match parse_string_at(&v, p3) {
        Some(p) => p,
        None => {
            return None;
        },
    };
    let store = if chars_eq_str(&sn_c, "Steam") {
        GameStore::Steam
    } else if chars_eq_str(&sn_c, "EpicGames") {
        GameStore::EpicGames
    } else if chars_eq_str(&sn_c, "GOG") {
        GameStore::Gog
    } else if chars_eq_str(&sn_c, "Unknown") {
        GameStore::Unknown
    } else {
        return None;
    };
    let p5 = match expect_lit(&v, p4, &to_chars(",\"title\":")) {
        Some(p) => p,
        None => {
            return None;
        },
    };
    let (title_c, p6) = match parse_string_at(&v, p5) {
        Some(p) => p,
        None => {
            return None;
        },
    };
    let p7 = match expect_lit(&v, p6, &to_chars(",\"identifier\":")) {
        Some(p) => p,
        None => {
            return None;
        },
    };
    let (ident_c, p8) = match parse_string_at(&v, p7) {
        Some(p) => p,
        None => {
            return None;
        },
    };
    let p9 = match expect_lit(&v, p8, &to_chars(",\"url\":")) {
        Some(p) => p,
        None => {
            return None;
        },
    };
    let (url_c, p10) = match parse_string_at(&v, p9) {
        Some(p) => p,
        None => {
            return None;
        },
    };
    let p11 = match expect_lit(&v, p10, &to_chars(",\"original_price\":")) {
        Some(p) => p,
        None => {
            return None;
        },
    };
    let (price_c, p12) = match parse_string_at(&v, p11) {
        Some(p) => p,
        None => {
            return None;
        },
    };
    let p13 = match expect_lit(&v, p12, &to_chars(",\"offer_until\":")) {
        Some(p) => p,
        None => {
            return None;
        },
    };
    let (dt_c, p14) = match parse_string_at(&v, p13) {
        Some(p) => p,
        None => {
            return None;
        },
    };
    let offer_until = match parse_iso_chars(&dt_c) {
        Some(d) => d,
        None => {
            return None;
        },
    };
    let p15 = match expect_lit(&v, p14, &to_chars(",\"game_type\":")) {
        Some(p) => p,
        None => {
            return None;
        },
    };
    let (tn_c, p16) = match parse_string_at(&v, p15) {
        Some(p) => p,
        None => {
            return None;
        },
    };
    let game_type = if chars_eq_str(&tn_c, "Game") {
        GameType::Game
    } else if chars_eq_str(&tn_c, "Dlc") {
        GameType::Dlc
    } else if chars_eq_str(&tn_c, "Software") {
        GameType::Software
    } else if chars_eq_str(&tn_c, "Bundle") {
        GameType::Bundle
    } else if chars_eq_str(&tn_c, "Edition") {
        GameType::Edition
    } else if chars_eq_str(&tn_c, "Unknown") {
        GameType::Unknown
    } else {
        return None;
    };
    let p17 = match expect_lit(&v, p16, &to_chars("}")) {
        Some(p) => p,
        None => {
            return None;
        },
    };
    if p17 != v.len() {
        return None;
    }
    proof {
        assert(v@.skip(p17 as int).len() == 0);
    }
    Some(
        Game {
            id: chars_to_string(&id_c),
            store,
            title: chars_to_string(&title_c),
            identifier: chars_to_string(&ident_c),
            url: chars_to_string(&url_c),
            original_price: chars_to_string(&price_c),
            offer_until,
            game_type,
        },
    )
}

} // verus!
