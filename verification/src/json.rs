//! Serializing a record to JSON text.
//!
//! The document has a fixed shape: an object with the keys `title`,
//! `author`, `artist`, `description`, `genre`, `status`, in that order.
//! The four text fields are JSON strings, `genre` is an array of tag-name
//! strings, and `status` is the bare integer code. Two renderings are
//! offered: compact, and pretty-printed with two-space indentation. Both
//! are stated exactly, down to each escape sequence, so rendering can
//! never fail and always yields the same text for the same record.

use vstd::prelude::*;

use crate::genre::Genre;
use crate::record::{Details, DetailsView};
use crate::status::Status;

verus! {

/// The hexadecimal digit of a value below sixteen, in lower case.
pub open spec fn hex_digit(v: u32) -> char {
    if v == 0 {
        '0'
    } else if v == 1 {
        '1'
    } else if v == 2 {
        '2'
    } else if v == 3 {
        '3'
    } else if v == 4 {
        '4'
    } else if v == 5 {
        '5'
    } else if v == 6 {
        '6'
    } else if v == 7 {
        '7'
    } else if v == 8 {
        '8'
    } else if v == 9 {
        '9'
    } else if v == 10 {
        'a'
    } else if v == 11 {
        'b'
    } else if v == 12 {
        'c'
    } else if v == 13 {
        'd'
    } else if v == 14 {
        'e'
    } else {
        'f'
    }
}

/// How one character appears inside a JSON string: itself, unless it is a
/// quote, a backslash or a control character, which are escaped — the
/// seven short escapes where JSON has them, `\u00..` for the rest.
pub open spec fn escape_char(c: char) -> Seq<char> {
    if c == '"' {
        seq!['\\', '"']
    } else if c == '\\' {
        seq!['\\', '\\']
    } else if c == '\u{8}' {
        seq!['\\', 'b']
    } else if c == '\t' {
        seq!['\\', 't']
    } else if c == '\n' {
        seq!['\\', 'n']
    } else if c == '\u{c}' {
        seq!['\\', 'f']
    } else if c == '\r' {
        seq!['\\', 'r']
    } else if (c as u32) < 32 {
        seq!['\\', 'u', '0', '0', hex_digit((c as u32) / 16), hex_digit((c as u32) % 16)]
    } else {
        seq![c]
    }
}

/// The body of a JSON string: every character escaped as needed.
pub open spec fn escape_seq(s: Seq<char>) -> Seq<char>
    decreases s.len(),
{
    if s.len() == 0 {
        Seq::empty()
    } else {
        escape_char(s[0]) + escape_seq(s.drop_first())
    }
}

/// A JSON string: the escaped body between two quotes.
pub open spec fn json_quoted(s: Seq<char>) -> Seq<char> {
    seq!['"'] + escape_seq(s) + seq!['"']
}

/// Escaping a string one character at a time, from the left, is escaping
/// the whole of it.
pub proof fn lemma_escape_snoc(t: Seq<char>, c: char)
    ensures
        escape_seq(t.push(c)) == escape_seq(t) + escape_char(c),
    decreases t.len(),
{
    if t.len() == 0 {
        assert(t =~= Seq::<char>::empty());
        assert(t.push(c)[0] == c);
        assert(t.push(c).drop_first() =~= Seq::<char>::empty());
        assert(escape_seq(Seq::<char>::empty()) == Seq::<char>::empty());
        assert(escape_seq(t.push(c)) =~= escape_seq(t) + escape_char(c));
    } else {
        lemma_escape_snoc(t.drop_first(), c);
        assert(t.push(c).drop_first() =~= t.drop_first().push(c));
        assert(escape_seq(t.push(c)) =~= escape_seq(t) + escape_char(c));
    }
}

/// The value of a lowercase hexadecimal digit; `None` for any other
/// character.
pub open spec fn hex_val(c: char) -> Option<u32> {
    if c == '0' {
        Some(0)
    } else if c == '1' {
        Some(1)
    } else if c == '2' {
        Some(2)
    } else if c == '3' {
        Some(3)
    } else if c == '4' {
        Some(4)
    } else if c == '5' {
        Some(5)
    } else if c == '6' {
        Some(6)
    } else if c == '7' {
        Some(7)
    } else if c == '8' {
        Some(8)
    } else if c == '9' {
        Some(9)
    } else if c == 'a' {
        Some(10)
    } else if c == 'b' {
        Some(11)
    } else if c == 'c' {
        Some(12)
    } else if c == 'd' {
        Some(13)
    } else if c == 'e' {
        Some(14)
    } else if c == 'f' {
        Some(15)
    } else {
        None
    }
}

/// `rest` with `c` put back in front, when `rest` is well formed.
pub open spec fn unescape_cons(c: char, rest: Option<Seq<char>>) -> Option<Seq<char>> {
    match rest {
        Some(t) => Some(seq![c] + t),
        None => None,
    }
}

/// The inverse of [`escape_seq`]: reads a JSON string body as the escaper
/// writes it, and `None` for anything the escaper never writes — a lone
/// or unknown escape, an unescaped quote, a raw control character, or a
/// `\u` form other than the `\u00..` of a control character.
pub open spec fn unescape_seq(s: Seq<char>) -> Option<Seq<char>>
    decreases s.len(),
{
    if s.len() == 0 {
        Some(Seq::empty())
    } else if s[0] == '\\' {
        if s.len() == 1 {
            None
        } else {
            let e = s[1];
            if e == '"' {
                unescape_cons('"', unescape_seq(s.skip(2)))
            } else if e == '\\' {
                unescape_cons('\\', unescape_seq(s.skip(2)))
            } else if e == 'b' {
                unescape_cons('\u{8}', unescape_seq(s.skip(2)))
            } else if e == 't' {
                unescape_cons('\t', unescape_seq(s.skip(2)))
            } else if e == 'n' {
                unescape_cons('\n', unescape_seq(s.skip(2)))
            } else if e == 'f' {
                unescape_cons('\u{c}', unescape_seq(s.skip(2)))
            } else if e == 'r' {
                unescape_cons('\r', unescape_seq(s.skip(2)))
            } else if e == 'u' {
                if s.len() < 6 {
                    None
                } else if s[2] == '0' && s[3] == '0' && hex_val(s[4]).is_some() && hex_val(
                    s[5],
                ).is_some() {
                    let v = 16 * hex_val(s[4]).unwrap() + hex_val(s[5]).unwrap();
                    if v < 32 {
                        unescape_cons((v as u8) as char, unescape_seq(s.skip(6)))
                    } else {
                        None
                    }
                } else {
                    None
                }
            } else {
                None
            }
        }
    } else if s[0] == '"' {
        None
    } else if (s[0] as u32) < 32 {
        None
    } else {
        unescape_cons(s[0], unescape_seq(s.skip(1)))
    }
}

/// Reading a hexadecimal digit back gives the value it was written from.
pub proof fn lemma_hex_round_trip(v: u32)
    requires
        v < 16,
    ensures
        hex_val(hex_digit(v)) == Some(v),
{
}

/// A character's code point is at most `0x10FFFF`, so casting it to
/// `u32` loses nothing.
pub proof fn lemma_char_code(c: char)
    ensures
        0 <= (c as int) <= 0x10FFFF,
        (c as u32) == (c as int),
{
}

/// The round trip of one string: unescaping what the escaper wrote
/// recovers the original characters, whatever they were.
pub proof fn lemma_unescape_escape(s: Seq<char>)
    ensures
        unescape_seq(escape_seq(s)) == Some(s),
    decreases s.len(),
{
    if s.len() == 0 {
        assert(escape_seq(s) =~= Seq::<char>::empty());
        assert(unescape_seq(escape_seq(s)) == Some(s)) by {
            assert(Seq::<char>::empty() =~= s);
        }
    } else {
        let c = s[0];
        lemma_char_code(c);
        let tail = s.drop_first();
        lemma_unescape_escape(tail);
        let e = escape_char(c);
        let full = escape_seq(s);
        assert(full == e + escape_seq(tail));
        assert(full.len() == e.len() + escape_seq(tail).len());
        if c == '"' || c == '\\' || c == '\u{8}' || c == '\t' || c == '\n' || c == '\u{c}' || c
            == '\r' {
            assert(e.len() == 2);
            assert(full[0] == '\\');
            assert(full.skip(2) =~= escape_seq(tail));
            assert(unescape_seq(full) == unescape_cons(c, Some(tail)));
            assert(seq![c] + tail =~= s);
        } else if (c as u32) < 32 {
            let v = c as u32;
            assert(e.len() == 6);
            assert(full[0] == '\\' && full[1] == 'u' && full[2] == '0' && full[3] == '0');
            assert(full[4] == hex_digit(v / 16) && full[5] == hex_digit(v % 16));
            lemma_hex_round_trip(v / 16);
            lemma_hex_round_trip(v % 16);
            assert(16 * (v / 16) + (v % 16) == v) by (nonlinear_arith)
                requires
                    v < 32,
            ;
            assert(full.skip(6) =~= escape_seq(tail));
            assert(v < 256);
            assert(v as u8 == v);
            assert(((v as u8) as char) as int == v);
            assert((c as int) == v);
            assert((v as u8) as char == c);
            assert(unescape_seq(full) == unescape_cons(c, Some(tail)));
            assert(seq![c] + tail =~= s);
        } else {
            assert(e =~= seq![c]);
            assert(full[0] == c);
            assert(full[0] != '\\' && full[0] != '"' && (full[0] as u32) >= 32);
            assert(full.skip(1) =~= escape_seq(tail));
            assert(unescape_seq(full) == unescape_cons(c, Some(tail)));
            assert(seq![c] + tail =~= s);
        }
    }
}

/// `rest` with a decoded prefix put back in front, when `rest` is well
/// formed.
pub open spec fn unescape_graft(prefix: Seq<char>, rest: Option<Seq<char>>) -> Option<Seq<char>> {
    match rest {
        Some(t) => Some(prefix + t),
        None => None,
    }
}

/// The value of a lowercase hexadecimal digit.
fn hex_val_char(c: char) -> (r: Option<u32>)
    ensures
        r == hex_val(c),
{
    if c == '0' {
        Some(0)
    } else if c == '1' {
        Some(1)
    } else if c == '2' {
        Some(2)
    } else if c == '3' {
        Some(3)
    } else if c == '4' {
        Some(4)
    } else if c == '5' {
        Some(5)
    } else if c == '6' {
        Some(6)
    } else if c == '7' {
        Some(7)
    } else if c == '8' {
        Some(8)
    } else if c == '9' {
        Some(9)
    } else if c == 'a' {
        Some(10)
    } else if c == 'b' {
        Some(11)
    } else if c == 'c' {
        Some(12)
    } else if c == 'd' {
        Some(13)
    } else if c == 'e' {
        Some(14)
    } else if c == 'f' {
        Some(15)
    } else {
        None
    }
}

/// Reads a JSON string body back into the characters it stands for:
/// the executable inverse of the escaper. `None` for a body the escaper
/// never writes.
pub fn unescape_string(s: &str) -> (r: Option<String>)
    ensures
        match r {
            Some(t) => unescape_seq(s@) == Some(t@),
            None => unescape_seq(s@) is None,
        },
{
    let n = s.unicode_len();
    let mut out = String::new();
    let mut i: usize = 0;
    proof {
        assert(s@.skip(0) =~= s@);
    }
    while i < n
        invariant
            i <= n == s@.len(),
            unescape_graft(out@, unescape_seq(s@.skip(i as int))) == unescape_seq(s@),
        decreases n - i,
    {
        let c = s.get_char(i);
        let ghost rem = s@.skip(i as int);
        proof {
            assert(rem[0] == c);
        }
        if c == '\\' {
            if i + 1 == n {
                proof {
                    assert(rem.len() == 1);
                }
                return None;
            }
            let e = s.get_char(i + 1);
            proof {
                assert(rem[1] == e);
                assert(rem.skip(2) =~= s@.skip(i + 2));
            }
            if e == 'u' {
                if n - i < 6 {
                    proof {
                        assert(rem.len() < 6);
                    }
                    return None;
                }
                let d2 = s.get_char(i + 2);
                let d3 = s.get_char(i + 3);
                let d4 = s.get_char(i + 4);
                let d5 = s.get_char(i + 5);
                proof {
                    assert(rem[2] == d2 && rem[3] == d3 && rem[4] == d4 && rem[5] == d5);
                    assert(rem.skip(6) =~= s@.skip(i + 6));
                }
                if d2 != '0' || d3 != '0' {
                    return None;
                }
                let h4 = hex_val_char(d4);
                let h5 = hex_val_char(d5);
                let v: u32 = match (h4, h5) {
                    (Some(a), Some(b)) => 16 * a + b,
                    _ => {
                        return None;
                    },
                };
                if v >= 32 {
                    return None;
                }
                let decoded = (v as u8) as char;
                let ghost pre = out@;
                push_char(&mut out, decoded);
                proof {
                    assert(unescape_seq(rem) == unescape_cons(decoded, unescape_seq(rem.skip(6))));
                    assert(out@ =~= pre.push(decoded));
                    match unescape_seq(s@.skip(i + 6)) {
                        Some(t) => {
                            assert(out@ + t =~= pre + (seq![decoded] + t));
                        },
                        None => {},
                    }
                }
                i = i + 6;
            } else {
                let decoded: char;
                if e == '"' {
                    decoded = '"';
                } else if e == '\\' {
                    decoded = '\\';
                } else if e == 'b' {
                    decoded = '\u{8}';
                } else if e == 't' {
                    decoded = '\t';
                } else if e == 'n' {
                    decoded = '\n';
                } else if e == 'f' {
                    decoded = '\u{c}';
                } else if e == 'r' {
                    decoded = '\r';
                } else {
                    return None;
                }
                let ghost pre = out@;
                push_char(&mut out, decoded);
                proof {
                    assert(unescape_seq(rem) == unescape_cons(decoded, unescape_seq(rem.skip(2))));
                    assert(out@ =~= pre.push(decoded));
                    match unescape_seq(s@.skip(i + 2)) {
                        Some(t) => {
                            assert(out@ + t =~= pre + (seq![decoded] + t));
                        },
                        None => {},
                    }
                }
                i = i + 2;
            }
        } else if c == '"' {
            return None;
        } else if (c as u32) < 32 {
            return None;
        } else {
            let ghost pre = out@;
            push_char(&mut out, c);
            proof {
                assert(rem.skip(1) =~= s@.skip(i + 1));
                assert(unescape_seq(rem) == unescape_cons(c, unescape_seq(rem.skip(1))));
                assert(out@ =~= pre.push(c));
                match unescape_seq(s@.skip(i + 1)) {
                    Some(t) => {
                        assert(out@ + t =~= pre + (seq![c] + t));
                    },
                    None => {},
                }
            }
            i = i + 1;
        }
    }
    proof {
        assert(s@.skip(n as int) =~= Seq::<char>::empty());
        assert(unescape_seq(Seq::<char>::empty()) == Some(Seq::<char>::empty()));
        assert(out@ + Seq::<char>::empty() =~= out@);
    }
    Some(out)
}

/// Relies on `String::push`: appends exactly the one character.
#[verifier::external_body]
fn push_char(out: &mut String, c: char)
    ensures
        final(out)@ == old(out)@.push(c),
{
    out.push(c);
}

/// The digit in which this status's integer code is rendered; every code
/// is a single decimal digit.
pub open spec fn status_digit(s: Status) -> char {
    match s {
        Status::Unknown => '0',
        Status::Ongoing => '1',
        Status::Completed => '2',
        Status::Licensed => '3',
        Status::Finished => '4',
        Status::Cancelled => '5',
        Status::Hiatus => '6',
    }
}

/// The digit a status is rendered as is exactly its integer code.
pub proof fn lemma_status_digit_is_code(s: Status)
    ensures
        status_digit(s) as u32 == '0' as u32 + s.spec_code(),
{
}

/// The items of the compact genre array, joined by commas.
pub open spec fn genre_items_compact(gs: Seq<Genre>) -> Seq<char>
    decreases gs.len(),
{
    if gs.len() == 0 {
        Seq::empty()
    } else if gs.len() == 1 {
        json_quoted(gs[0].spec_tag())
    } else {
        json_quoted(gs[0].spec_tag()) + seq![','] + genre_items_compact(gs.drop_first())
    }
}

/// The compact genre array.
pub open spec fn genres_compact(gs: Seq<Genre>) -> Seq<char> {
    seq!['['] + genre_items_compact(gs) + seq![']']
}

/// The items of the pretty genre array: one per line, indented four
/// spaces, joined by commas.
pub open spec fn genre_items_pretty(gs: Seq<Genre>) -> Seq<char>
    decreases gs.len(),
{
    if gs.len() == 0 {
        Seq::empty()
    } else if gs.len() == 1 {
        "    "@ + json_quoted(gs[0].spec_tag())
    } else {
        "    "@ + json_quoted(gs[0].spec_tag()) + ",\n"@ + genre_items_pretty(gs.drop_first())
    }
}

/// The pretty genre array: `[]` when empty, else the items between
/// bracket lines.
pub open spec fn genres_pretty(gs: Seq<Genre>) -> Seq<char> {
    if gs.len() == 0 {
        "[]"@
    } else {
        "[\n"@ + genre_items_pretty(gs) + "\n  ]"@
    }
}

/// Extending the compact item list by one genre appends one item.
pub proof fn lemma_items_compact_snoc(gs: Seq<Genre>, g: Genre)
    ensures
        genre_items_compact(gs.push(g)) == if gs.len() == 0 {
            json_quoted(g.spec_tag())
        } else {
            genre_items_compact(gs) + seq![','] + json_quoted(g.spec_tag())
        },
    decreases gs.len(),
{
    if gs.len() == 0 {
        assert(gs.push(g)[0] == g);
        assert(genre_items_compact(gs.push(g)) =~= json_quoted(g.spec_tag()));
    } else {
        lemma_items_compact_snoc(gs.drop_first(), g);
        assert(gs.push(g).drop_first() =~= gs.drop_first().push(g));
        assert(gs.push(g).len() == gs.len() + 1);
        assert(gs.push(g)[0] == gs[0]);
        if gs.len() == 1 {
            assert(genre_items_compact(gs.push(g)) =~= genre_items_compact(gs) + seq![',']
                + json_quoted(g.spec_tag()));
        } else {
            assert(genre_items_compact(gs.push(g)) =~= genre_items_compact(gs) + seq![',']
                + json_quoted(g.spec_tag()));
        }
    }
}

/// Extending the pretty item list by one genre appends one item line.
pub proof fn lemma_items_pretty_snoc(gs: Seq<Genre>, g: Genre)
    ensures
        genre_items_pretty(gs.push(g)) == if gs.len() == 0 {
            "    "@ + json_quoted(g.spec_tag())
        } else {
            genre_items_pretty(gs) + ",\n"@ + "    "@ + json_quoted(g.spec_tag())
        },
    decreases gs.len(),
{
    if gs.len() == 0 {
        assert(gs.push(g)[0] == g);
        assert(genre_items_pretty(gs.push(g)) =~= "    "@ + json_quoted(g.spec_tag()));
    } else {
        lemma_items_pretty_snoc(gs.drop_first(), g);
        assert(gs.push(g).drop_first() =~= gs.drop_first().push(g));
        assert(gs.push(g).len() == gs.len() + 1);
        assert(gs.push(g)[0] == gs[0]);
        assert(genre_items_pretty(gs.push(g)) =~= genre_items_pretty(gs) + ",\n"@ + "    "@
            + json_quoted(g.spec_tag()));
    }
}

/// Appends the escaped body of `s` to `out`.
fn append_escaped(out: &mut String, s: &str)
    ensures
        final(out)@ == old(out)@ + escape_seq(s@),
{
    let n = s.unicode_len();
    let mut i: usize = 0;
    proof {
        assert(s@.subrange(0, 0) =~= Seq::<char>::empty());
        assert(out@ + escape_seq(s@.subrange(0, 0)) =~= out@);
    }
    while i < n
        invariant
            i <= n == s@.len(),
            out@ == old(out)@ + escape_seq(s@.subrange(0, i as int)),
        decreases n - i,
    {
        let c = s.get_char(i);
        let ghost pre = s@.subrange(0, i as int);
        if c == '"' {
            push_char(out, '\\');
            push_char(out, '"');
        } else if c == '\\' {
            push_char(out, '\\');
            push_char(out, '\\');
        } else if c == '\u{8}' {
            push_char(out, '\\');
            push_char(out, 'b');
        } else if c == '\t' {
            push_char(out, '\\');
            push_char(out, 't');
        } else if c == '\n' {
            push_char(out, '\\');
            push_char(out, 'n');
        } else if c == '\u{c}' {
            push_char(out, '\\');
            push_char(out, 'f');
        } else if c == '\r' {
            push_char(out, '\\');
            push_char(out, 'r');
        } else if (c as u32) < 32 {
            let v = c as u32;
            push_char(out, '\\');
            push_char(out, 'u');
            push_char(out, '0');
            push_char(out, '0');
            push_char(out, hex_digit_char(v / 16));
            push_char(out, hex_digit_char(v % 16));
        } else {
            push_char(out, c);
        }
        proof {
            lemma_escape_snoc(pre, c);
            assert(pre.push(c) =~= s@.subrange(0, i + 1));
            assert(out@ =~= old(out)@ + escape_seq(s@.subrange(0, i + 1)));
        }
        i = i + 1;
    }
    proof {
        assert(s@.subrange(0, n as int) =~= s@);
    }
}

/// The hexadecimal digit of a value below sixteen.
fn hex_digit_char(v: u32) -> (c: char)
    requires
        v < 16,
    ensures
        c == hex_digit(v),
{
    if v == 0 {
        '0'
    } else if v == 1 {
        '1'
    } else if v == 2 {
        '2'
    } else if v == 3 {
        '3'
    } else if v == 4 {
        '4'
    } else if v == 5 {
        '5'
    } else if v == 6 {
        '6'
    } else if v == 7 {
        '7'
    } else if v == 8 {
        '8'
    } else if v == 9 {
        '9'
    } else if v == 10 {
        'a'
    } else if v == 11 {
        'b'
    } else if v == 12 {
        'c'
    } else if v == 13 {
        'd'
    } else if v == 14 {
        'e'
    } else {
        'f'
    }
}

/// The escaped body of `s`, as it appears between the quotes of a JSON
/// string.
pub fn escape_string(s: &str) -> (r: String)
    ensures
        r@ == escape_seq(s@),
{
    let mut out = String::new();
    append_escaped(&mut out, s);
    out
}

/// Appends `s` as a JSON string — quoted and escaped — to `out`.
fn append_quoted(out: &mut String, s: &str)
    ensures
        final(out)@ == old(out)@ + json_quoted(s@),
{
    push_char(out, '"');
    append_escaped(out, s);
    push_char(out, '"');
    proof {
        assert(out@ =~= old(out)@ + json_quoted(s@));
    }
}

/// Appends the compact genre array to `out`.
fn append_genres_compact(out: &mut String, gs: &Vec<Genre>)
    ensures
        final(out)@ == old(out)@ + genres_compact(gs@),
{
    push_char(out, '[');
    let mut i: usize = 0;
    proof {
        assert(genre_items_compact(gs@.subrange(0, 0)) =~= Seq::<char>::empty());
        assert(out@ =~= old(out)@ + seq!['['] + genre_items_compact(gs@.subrange(0, 0)));
    }
    while i < gs.len()
        invariant
            i <= gs.len(),
            out@ == old(out)@ + seq!['['] + genre_items_compact(gs@.subrange(0, i as int)),
        decreases gs.len() - i,
    {
        if i > 0 {
            push_char(out, ',');
        }
        let ghost pre = gs@.subrange(0, i as int);
        append_quoted(out, gs[i].tag());
        proof {
            lemma_items_compact_snoc(pre, gs@[i as int]);
            assert(pre.push(gs@[i as int]) =~= gs@.subrange(0, i + 1));
            assert(out@ =~= old(out)@ + seq!['['] + genre_items_compact(gs@.subrange(0, i + 1)));
        }
        i = i + 1;
    }
    push_char(out, ']');
    proof {
        assert(gs@.subrange(0, gs@.len() as int) =~= gs@);
        assert(out@ =~= old(out)@ + genres_compact(gs@));
    }
}

/// Appends the pretty genre array to `out`.
fn append_genres_pretty(out: &mut String, gs: &Vec<Genre>)
    ensures
        final(out)@ == old(out)@ + genres_pretty(gs@),
{
    if gs.len() == 0 {
        out.append("[]");
        proof {
            assert(out@ =~= old(out)@ + genres_pretty(gs@));
        }
        return ;
    }
    out.append("[\n");
    let mut i: usize = 0;
    proof {
        assert(genre_items_pretty(gs@.subrange(0, 0)) =~= Seq::<char>::empty());
        assert(out@ =~= old(out)@ + "[\n"@ + genre_items_pretty(gs@.subrange(0, 0)));
    }
    while i < gs.len()
        invariant
            i <= gs.len(),
            out@ == old(out)@ + "[\n"@ + genre_items_pretty(gs@.subrange(0, i as int)),
        decreases gs.len() - i,
    {
        if i > 0 {
            out.append(",\n");
        }
        out.append("    ");
        let ghost pre = gs@.subrange(0, i as int);
        append_quoted(out, gs[i].tag());
        proof {
            lemma_items_pretty_snoc(pre, gs@[i as int]);
            assert(pre.push(gs@[i as int]) =~= gs@.subrange(0, i + 1));
            assert(out@ =~= old(out)@ + "[\n"@ + genre_items_pretty(gs@.subrange(0, i + 1)));
        }
        i = i + 1;
    }
    out.append("\n  ]");
    proof {
        assert(gs@.subrange(0, gs@.len() as int) =~= gs@);
        assert(out@ =~= old(out)@ + genres_pretty(gs@));
    }
}

/// The status digit of a record's status.
fn status_digit_char(s: &Status) -> (c: char)
    ensures
        c == status_digit(*s),
{
    match s {
        Status::Unknown => '0',
        Status::Ongoing => '1',
        Status::Completed => '2',
        Status::Licensed => '3',
        Status::Finished => '4',
        Status::Cancelled => '5',
        Status::Hiatus => '6',
    }
}

/// The whole compact document.
pub open spec fn json_compact(v: DetailsView) -> Seq<char> {
    "{\"title\":"@ + json_quoted(v.title) + ",\"author\":"@ + json_quoted(v.author)
        + ",\"artist\":"@ + json_quoted(v.artist) + ",\"description\":"@ + json_quoted(
        v.description,
    ) + ",\"genre\":"@ + genres_compact(v.genre) + ",\"status\":"@ + seq![status_digit(v.status)]
        + "}"@
}

/// The whole pretty document, indented by two spaces.
pub open spec fn json_pretty(v: DetailsView) -> Seq<char> {
    "{\n  \"title\": "@ + json_quoted(v.title) + ",\n  \"author\": "@ + json_quoted(v.author)
        + ",\n  \"artist\": "@ + json_quoted(v.artist) + ",\n  \"description\": "@ + json_quoted(
        v.description,
    ) + ",\n  \"genre\": "@ + genres_pretty(v.genre) + ",\n  \"status\": "@ + seq![status_digit(
        v.status,
    )] + "\n}"@
}

/// Renders the record as one line of compact JSON.
pub fn to_json(d: &Details) -> (r: String)
    ensures
        r@ == json_compact(d@),
{
    let mut out = String::new();
    out.append("{\"title\":");
    append_quoted(&mut out, d.title.as_str());
    out.append(",\"author\":");
    append_quoted(&mut out, d.author.as_str());
    out.append(",\"artist\":");
    append_quoted(&mut out, d.artist.as_str());
    out.append(",\"description\":");
    append_quoted(&mut out, d.description.as_str());
    out.append(",\"genre\":");
    append_genres_compact(&mut out, &d.genre);
    out.append(",\"status\":");
    push_char(&mut out, status_digit_char(&d.status));
    out.append("}");
    proof {
        assert(out@ =~= json_compact(d@));
    }
    out
}

/// Renders the record as pretty-printed JSON, the form that is printed
/// and written to the output file.
pub fn to_json_pretty(d: &Details) -> (r: String)
    ensures
        r@ == json_pretty(d@),
{
    let mut out = String::new();
    out.append("{\n  \"title\": ");
    append_quoted(&mut out, d.title.as_str());
    out.append(",\n  \"author\": ");
    append_quoted(&mut out, d.author.as_str());
    out.append(",\n  \"artist\": ");
    append_quoted(&mut out, d.artist.as_str());
    out.append(",\n  \"description\": ");
    append_quoted(&mut out, d.description.as_str());
    out.append(",\n  \"genre\": ");
    append_genres_pretty(&mut out, &d.genre);
    out.append(",\n  \"status\": ");
    push_char(&mut out, status_digit_char(&d.status));
    out.append("\n}");
    proof {
        assert(out@ =~= json_pretty(d@));
    }
    out
}

} // verus!
