//! Reading a compact document back: the inverse of the renderer.
//!
//! The grammar is exactly the shape the renderer writes — the six keys in
//! order, quoted escaped strings, the genre tags, the status digit — and
//! nothing else. The round-trip law at the bottom states that parsing
//! what [`crate::json::json_compact`] renders recovers every field of the
//! record, whatever the record held.

use vstd::prelude::*;

use crate::genre::Genre;
use crate::json::{
    escape_seq, genre_items_compact, genres_compact, hex_val, json_compact, json_quoted,
    lemma_char_code, status_digit,
};
use crate::record::DetailsView;
use crate::status::Status;

verus! {

/// `rest` with one decoded character put back in front of its content,
/// when `rest` is well formed.
pub open spec fn body_cons(c: char, rest: Option<(Seq<char>, Seq<char>)>) -> Option<
    (Seq<char>, Seq<char>),
> {
    match rest {
        Some((t, r)) => Some((seq![c] + t, r)),
        None => None,
    }
}

/// Reads a JSON string body up to its closing quote: the decoded content
/// and what follows the quote. `None` where the body is not one the
/// escaper writes, or the quote never comes.
pub open spec fn parse_body(s: Seq<char>) -> Option<(Seq<char>, Seq<char>)>
    decreases s.len(),
{
    if s.len() == 0 {
        None
    } else if s[0] == '"' {
        Some((Seq::empty(), s.skip(1)))
    } else if s[0] == '\\' {
        if s.len() == 1 {
            None
        } else {
            let e = s[1];
            if e == '"' {
                body_cons('"', parse_body(s.skip(2)))
            } else if e == '\\' {
                body_cons('\\', parse_body(s.skip(2)))
            } else if e == 'b' {
                body_cons('\u{8}', parse_body(s.skip(2)))
            } else if e == 't' {
                body_cons('\t', parse_body(s.skip(2)))
            } else if e == 'n' {
                body_cons('\n', parse_body(s.skip(2)))
            } else if e == 'f' {
                body_cons('\u{c}', parse_body(s.skip(2)))
            } else if e == 'r' {
                body_cons('\r', parse_body(s.skip(2)))
            } else if e == 'u' {
                if s.len() < 6 {
                    None
                } else if s[2] == '0' && s[3] == '0' && hex_val(s[4]).is_some() && hex_val(
                    s[5],
                ).is_some() {
                    let v = 16 * hex_val(s[4]).unwrap() + hex_val(s[5]).unwrap();
                    if v < 32 {
                        body_cons((v as u8) as char, parse_body(s.skip(6)))
                    } else {
                        None
                    }
                } else {
                    None
                }
            } else {
                None
            }
        }
    } else if (s[0] as u32) < 32 {
        None
    } else {
        body_cons(s[0], parse_body(s.skip(1)))
    }
}

/// What follows `lit` at the head of `s`; `None` where `s` does not
/// start with `lit`.
pub open spec fn expect_lit(s: Seq<char>, lit: Seq<char>) -> Option<Seq<char>> {
    if s.len() >= lit.len() && s.subrange(0, lit.len() as int) == lit {
        Some(s.skip(lit.len() as int))
    } else {
        None
    }
}

/// A literal at the head of a string is consumed exactly.
pub proof fn lemma_expect_lit(lit: Seq<char>, rest: Seq<char>)
    ensures
        expect_lit(lit + rest, lit) == Some(rest),
{
    assert((lit + rest).subrange(0, lit.len() as int) =~= lit);
    assert((lit + rest).skip(lit.len() as int) =~= rest);
}

/// Reading an escaped body back stops at the closing quote and recovers
/// the original characters.
pub proof fn lemma_parse_body_of_escaped(t: Seq<char>, rest: Seq<char>)
    ensures
        parse_body(escape_seq(t) + seq!['"'] + rest) == Some((t, rest)),
    decreases t.len(),
{
    let s = escape_seq(t) + seq!['"'] + rest;
    if t.len() == 0 {
        assert(escape_seq(t) =~= Seq::<char>::empty());
        assert(s =~= seq!['"'] + rest);
        assert(s[0] == '"');
        assert(s.skip(1) =~= rest);
        assert(Seq::<char>::empty() =~= t);
    } else {
        let c = t[0];
        lemma_char_code(c);
        let tail = t.drop_first();
        lemma_parse_body_of_escaped(tail, rest);
        let e = crate::json::escape_char(c);
        let inner = escape_seq(tail) + seq!['"'] + rest;
        assert(escape_seq(t) == e + escape_seq(tail));
        assert(s =~= e + inner);
        if c == '"' || c == '\\' || c == '\u{8}' || c == '\t' || c == '\n' || c == '\u{c}' || c
            == '\r' {
            assert(e.len() == 2);
            assert(s[0] == '\\');
            assert(s.skip(2) =~= inner);
            assert(parse_body(s) == body_cons(c, Some((tail, rest))));
            assert(seq![c] + tail =~= t);
        } else if (c as u32) < 32 {
            let v = c as u32;
            assert(e.len() == 6);
            assert(s[0] == '\\' && s[1] == 'u' && s[2] == '0' && s[3] == '0');
            assert(s[4] == crate::json::hex_digit(v / 16) && s[5] == crate::json::hex_digit(
                v % 16,
            ));
            crate::json::lemma_hex_round_trip(v / 16);
            crate::json::lemma_hex_round_trip(v % 16);
            assert(16 * (v / 16) + (v % 16) == v) by (nonlinear_arith)
                requires
                    v < 32,
            ;
            assert(s.skip(6) =~= inner);
            assert(v < 256);
            assert(v as u8 == v);
            assert(((v as u8) as char) as int == v);
            assert((c as int) == v);
            assert((v as u8) as char == c);
            assert(parse_body(s) == body_cons(c, Some((tail, rest))));
            assert(seq![c] + tail =~= t);
        } else {
            assert(e =~= seq![c]);
            assert(s[0] == c);
            assert(s[0] != '\\' && s[0] != '"' && (s[0] as u32) >= 32);
            assert(s.skip(1) =~= inner);
            assert(parse_body(s) == body_cons(c, Some((tail, rest))));
            assert(seq![c] + tail =~= t);
        }
    }
}

/// `rest` with one more genre put back in front of its list, when `rest`
/// is well formed.
pub open spec fn items_cons(g: Genre, rest: Option<(Seq<Genre>, Seq<char>)>) -> Option<
    (Seq<Genre>, Seq<char>),
> {
    match rest {
        Some((gs, r)) => Some((seq![g] + gs, r)),
        None => None,
    }
}

/// Reads the items of a non-empty genre array, each a quoted tag name,
/// up to and past the closing bracket. `fuel` bounds the number of items
/// and only needs to be as large as the input is long.
pub open spec fn parse_items(s: Seq<char>, fuel: nat) -> Option<(Seq<Genre>, Seq<char>)>
    decreases fuel,
{
    if fuel == 0 {
        None
    } else if s.len() == 0 || s[0] != '"' {
        None
    } else {
        match parse_body(s.skip(1)) {
            None => None,
            Some((name, r)) => match Genre::spec_from_tag(name) {
                None => None,
                Some(g) => if r.len() == 0 {
                    None
                } else if r[0] == ']' {
                    Some((seq![g], r.skip(1)))
                } else if r[0] == ',' {
                    items_cons(g, parse_items(r.skip(1), (fuel - 1) as nat))
                } else {
                    None
                },
            },
        }
    }
}

/// Reads a compact genre array: `[]`, or `[` items `]`.
pub open spec fn parse_genres(s: Seq<char>) -> Option<(Seq<Genre>, Seq<char>)> {
    match expect_lit(s, "[]"@) {
        Some(r) => Some((Seq::empty(), r)),
        None => if s.len() >= 1 && s[0] == '[' {
            parse_items(s.skip(1), s.len() as nat)
        } else {
            None
        },
    }
}

/// The status a single rendered digit stands for.
pub open spec fn parse_status_digit(c: char) -> Option<Status> {
    if c == '0' {
        Some(Status::Unknown)
    } else if c == '1' {
        Some(Status::Ongoing)
    } else if c == '2' {
        Some(Status::Completed)
    } else if c == '3' {
        Some(Status::Licensed)
    } else if c == '4' {
        Some(Status::Finished)
    } else if c == '5' {
        Some(Status::Cancelled)
    } else if c == '6' {
        Some(Status::Hiatus)
    } else {
        None
    }
}

/// The digit a status renders as reads back as the same status.
pub proof fn lemma_status_digit_round_trip(s: Status)
    ensures
        parse_status_digit(status_digit(s)) == Some(s),
{
}

/// Reading a rendered item list back recovers the genres, whatever they
/// were, for any sufficient fuel.
pub proof fn lemma_parse_items_of_rendered(gs: Seq<Genre>, rest: Seq<char>, fuel: nat)
    requires
        gs.len() >= 1,
        fuel >= gs.len(),
    ensures
        parse_items(genre_items_compact(gs) + seq![']'] + rest, fuel) == Some((gs, rest)),
    decreases gs.len(),
{
    let s = genre_items_compact(gs) + seq![']'] + rest;
    let g = gs[0];
    let name = g.spec_tag();
    let q = json_quoted(name);
    crate::genre::lemma_genre_tag_round_trip(g);
    if gs.len() == 1 {
        let after = seq![']'] + rest;
        assert(genre_items_compact(gs) == q);
        assert(s =~= seq!['"'] + (escape_seq(name) + seq!['"'] + after));
        assert(s[0] == '"');
        assert(s.skip(1) =~= escape_seq(name) + seq!['"'] + after);
        lemma_parse_body_of_escaped(name, after);
        assert(after[0] == ']');
        assert(after.skip(1) =~= rest);
        assert(seq![g] =~= gs);
        assert(parse_items(s, fuel) == Some((gs, rest)));
    } else {
        let tail = gs.drop_first();
        let items_tail = genre_items_compact(tail);
        assert(genre_items_compact(gs) == q + seq![','] + items_tail);
        let after = seq![','] + items_tail + seq![']'] + rest;
        assert(s =~= seq!['"'] + (escape_seq(name) + seq!['"'] + after));
        assert(s[0] == '"');
        assert(s.skip(1) =~= escape_seq(name) + seq!['"'] + after);
        lemma_parse_body_of_escaped(name, after);
        assert(after[0] == ',');
        assert(after.skip(1) =~= items_tail + seq![']'] + rest);
        lemma_parse_items_of_rendered(tail, rest, (fuel - 1) as nat);
        assert(seq![g] + tail =~= gs);
        assert(parse_items(s, fuel) == Some((gs, rest)));
    }
}

/// A rendered item list is at least as long as the list of genres.
pub proof fn lemma_items_compact_len(gs: Seq<Genre>)
    ensures
        genre_items_compact(gs).len() >= gs.len(),
    decreases gs.len(),
{
    if gs.len() > 1 {
        lemma_items_compact_len(gs.drop_first());
    }
}

/// Reading a rendered genre array back recovers the genres.
pub proof fn lemma_parse_genres_of_rendered(gs: Seq<Genre>, rest: Seq<char>)
    ensures
        parse_genres(genres_compact(gs) + rest) == Some((gs, rest)),
{
    let s = genres_compact(gs) + rest;
    reveal_strlit("[]");
    assert("[]"@.len() == 2 && "[]"@[0] == '[' && "[]"@[1] == ']');
    if gs.len() == 0 {
        assert(genre_items_compact(gs) =~= Seq::<char>::empty());
        assert(genres_compact(gs) =~= seq!['[', ']']);
        assert(s =~= "[]"@ + rest);
        lemma_expect_lit("[]"@, rest);
        assert(Seq::<Genre>::empty() =~= gs);
    } else {
        let items = genre_items_compact(gs);
        let q = json_quoted(gs[0].spec_tag());
        assert(items[0] == q[0]);
        assert(q[0] == '"');
        assert(s[0] == '[');
        assert(s[1] == '"');
        assert(s.subrange(0, 2) != "[]"@) by {
            assert(s.subrange(0, 2)[1] == '"');
        }
        assert(expect_lit(s, "[]"@) is None);
        assert(s.skip(1) =~= items + seq![']'] + rest);
        assert(s.len() >= 1 + items.len() + 1 + rest.len());
        lemma_items_compact_len(gs);
        lemma_parse_items_of_rendered(gs, rest, s.len() as nat);
        assert(parse_genres(s) == Some((gs, rest)));
    }
}

/// Reads a whole compact document: the six keys in their fixed order,
/// nothing before, between or after. `None` for any other text.
pub open spec fn parse_doc(s: Seq<char>) -> Option<DetailsView> {
    match expect_lit(s, "{\"title\":\""@) {
        None => None,
        Some(s1) => match parse_body(s1) {
            None => None,
            Some((title, a1)) => match expect_lit(a1, ",\"author\":\""@) {
                None => None,
                Some(s2) => match parse_body(s2) {
                    None => None,
                    Some((author, a2)) => match expect_lit(a2, ",\"artist\":\""@) {
                        None => None,
                        Some(s3) => match parse_body(s3) {
                            None => None,
                            Some((artist, a3)) => match expect_lit(a3, ",\"description\":\""@) {
                                None => None,
                                Some(s4) => match parse_body(s4) {
                                    None => None,
                                    Some((description, a4)) => match expect_lit(a4, ",\"genre\":"@) {
                                        None => None,
                                        Some(s5) => match parse_genres(s5) {
                                            None => None,
                                            Some((genre, a5)) => match expect_lit(
                                                a5,
                                                ",\"status\":"@,
                                            ) {
                                                None => None,
                                                Some(s6) => if s6.len() == 0 {
                                                    None
                                                } else {
                                                    match parse_status_digit(s6[0]) {
                                                        None => None,
                                                        Some(status) => match expect_lit(
                                                            s6.skip(1),
                                                            "}"@,
                                                        ) {
                                                            None => None,
                                                            Some(a7) => if a7.len() == 0 {
                                                                Some(
                                                                    DetailsView {
                                                                        title,
                                                                        author,
                                                                        artist,
                                                                        description,
                                                                        genre,
                                                                        status,
                                                                    },
                                                                )
                                                            } else {
                                                                None
                                                            },
                                                        },
                                                    }
                                                },
                                            },
                                        },
                                    },
                                },
                            },
                        },
                    },
                },
            },
        },
    }
}

/// The full round trip of a record: parsing a rendered compact document
/// recovers every field, whatever the record held.
#[verifier::rlimit(100)]
pub proof fn lemma_parse_render_round_trip(v: DetailsView)
    ensures
        parse_doc(json_compact(v)) == Some(v),
{
    let doc = json_compact(v);
    reveal_strlit("{\"title\":");
    reveal_strlit("{\"title\":\"");
    reveal_strlit(",\"author\":");
    reveal_strlit(",\"author\":\"");
    reveal_strlit(",\"artist\":");
    reveal_strlit(",\"artist\":\"");
    reveal_strlit(",\"description\":");
    reveal_strlit(",\"description\":\"");
    assert("{\"title\":\""@ =~= "{\"title\":"@ + seq!['"']);
    assert(",\"author\":\""@ =~= ",\"author\":"@ + seq!['"']);
    assert(",\"artist\":\""@ =~= ",\"artist\":"@ + seq!['"']);
    assert(",\"description\":\""@ =~= ",\"description\":"@ + seq!['"']);
    let a6 = "}"@;
    let s6 = seq![status_digit(v.status)] + a6;
    let a5 = ",\"status\":"@ + s6;
    let g5 = genres_compact(v.genre) + a5;
    let a4 = ",\"genre\":"@ + g5;
    let s4 = escape_seq(v.description) + seq!['"'] + a4;
    let a3 = ",\"description\":\""@ + s4;
    let s3 = escape_seq(v.artist) + seq!['"'] + a3;
    let a2 = ",\"artist\":\""@ + s3;
    let s2 = escape_seq(v.author) + seq!['"'] + a2;
    let a1 = ",\"author\":\""@ + s2;
    let s1 = escape_seq(v.title) + seq!['"'] + a1;
    assert(doc =~= "{\"title\":\""@ + s1);
    lemma_expect_lit("{\"title\":\""@, s1);
    lemma_parse_body_of_escaped(v.title, a1);
    lemma_expect_lit(",\"author\":\""@, s2);
    lemma_parse_body_of_escaped(v.author, a2);
    lemma_expect_lit(",\"artist\":\""@, s3);
    lemma_parse_body_of_escaped(v.artist, a3);
    lemma_expect_lit(",\"description\":\""@, s4);
    lemma_parse_body_of_escaped(v.description, a4);
    lemma_expect_lit(",\"genre\":"@, g5);
    lemma_parse_genres_of_rendered(v.genre, a5);
    lemma_expect_lit(",\"status\":"@, s6);
    lemma_status_digit_round_trip(v.status);
    assert(s6[0] == status_digit(v.status));
    assert(s6.skip(1) =~= a6);
    lemma_expect_lit("}"@, Seq::<char>::empty());
    assert(a6 =~= "}"@ + Seq::<char>::empty());
    match parse_doc(doc) {
        Some(w) => {
            assert(w =~= v);
        },
        None => {
            assert(false);
        },
    }
}

} // verus!
