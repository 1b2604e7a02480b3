//! Splitting free-text genre input.
//!
//! The operator may enter the genres as one comma-separated line. The line
//! is split on every `,` and each piece is trimmed of surrounding
//! whitespace; nothing else is done — no deduplication, no case folding,
//! and empty pieces are kept. In particular the empty line yields one
//! empty token, not an empty list.

use vstd::prelude::*;

verus! {

/// The whitespace characters trimmed from each token: space, tab, line
/// feed, carriage return.
pub open spec fn is_space(c: char) -> bool {
    c == ' ' || c == '\t' || c == '\n' || c == '\r'
}

/// `t` without its leading whitespace.
pub open spec fn trim_left(t: Seq<char>) -> Seq<char>
    decreases t.len(),
{
    if t.len() > 0 && is_space(t[0]) {
        trim_left(t.drop_first())
    } else {
        t
    }
}

/// `t` without its trailing whitespace.
pub open spec fn trim_right(t: Seq<char>) -> Seq<char>
    decreases t.len(),
{
    if t.len() > 0 && is_space(t[t.len() - 1]) {
        trim_right(t.drop_last())
    } else {
        t
    }
}

/// `t` without its surrounding whitespace.
pub open spec fn trim(t: Seq<char>) -> Seq<char> {
    trim_right(trim_left(t))
}

/// The pieces of `s` between its commas, in order, untrimmed. A string
/// with no comma is one piece, so the empty string is one empty piece.
pub open spec fn split_commas(s: Seq<char>) -> Seq<Seq<char>>
    decreases s.len(),
{
    if s.len() == 0 {
        seq![s]
    } else if s[0] == ',' {
        seq![Seq::<char>::empty()] + split_commas(s.drop_first())
    } else {
        let rest = split_commas(s.drop_first());
        seq![seq![s[0]] + rest[0]] + rest.drop_first()
    }
}

/// The genre tokens of the line `s`: the pieces between commas, each
/// trimmed of surrounding whitespace.
pub open spec fn split_trimmed(s: Seq<char>) -> Seq<Seq<char>> {
    split_commas(s).map_values(|t: Seq<char>| trim(t))
}

/// Splitting yields at least one piece.
pub proof fn lemma_split_commas_len(s: Seq<char>)
    ensures
        split_commas(s).len() >= 1,
    decreases s.len(),
{
    if s.len() == 0 {
    } else {
        lemma_split_commas_len(s.drop_first());
    }
}

/// A comma-free string is a single piece.
pub proof fn lemma_split_no_comma(s: Seq<char>)
    requires
        forall|k: int| 0 <= k < s.len() ==> s[k] != ',',
    ensures
        split_commas(s) == seq![s],
    decreases s.len(),
{
    if s.len() == 0 {
    } else {
        lemma_split_no_comma(s.drop_first());
        lemma_split_commas_len(s.drop_first());
        assert(seq![s[0]] + split_commas(s.drop_first())[0] =~= s);
        assert(split_commas(s) =~= seq![s]);
    }
}

/// The first comma cuts off the first piece: if `t` is comma-free, the
/// pieces of `t + "," + u` are `t` followed by the pieces of `u`.
pub proof fn lemma_split_at_first_comma(t: Seq<char>, u: Seq<char>)
    requires
        forall|k: int| 0 <= k < t.len() ==> t[k] != ',',
    ensures
        split_commas(t + seq![','] + u) == seq![t] + split_commas(u),
    decreases t.len(),
{
    let s = t + seq![','] + u;
    if t.len() == 0 {
        assert(t =~= Seq::<char>::empty());
        assert(s =~= seq![','] + u);
        assert(s[0] == ',');
        assert(s.drop_first() =~= u);
        assert(split_commas(s) =~= seq![t] + split_commas(u));
    } else {
        lemma_split_at_first_comma(t.drop_first(), u);
        assert(s[0] == t[0]);
        assert(s[0] != ',');
        assert(s.drop_first() =~= t.drop_first() + seq![','] + u);
        let rest = split_commas(s.drop_first());
        assert(rest == seq![t.drop_first()] + split_commas(u));
        lemma_split_commas_len(u);
        assert(rest[0] == t.drop_first());
        assert(seq![s[0]] + rest[0] =~= t);
        assert(rest.drop_first() =~= split_commas(u));
        assert(split_commas(s) =~= seq![t] + split_commas(u));
    }
}

/// Whether `c` counts as trimmable whitespace.
pub fn is_space_char(c: char) -> (b: bool)
    ensures
        b == is_space(c),
{
    c == ' ' || c == '\t' || c == '\n' || c == '\r'
}

/// The piece of `s` between character positions `start` and `end`, with
/// surrounding whitespace trimmed.
fn trimmed_piece(s: &str, start: usize, end: usize) -> (t: String)
    requires
        start <= end <= s@.len(),
    ensures
        t@ == trim(s@.subrange(start as int, end as int)),
{
    let ghost whole = s@.subrange(start as int, end as int);
    let mut a: usize = start;
    while a < end && is_space_char(s.get_char(a))
        invariant
            start <= a <= end <= s@.len(),
            trim_left(whole) == trim_left(s@.subrange(a as int, end as int)),
            whole == s@.subrange(start as int, end as int),
        decreases end - a,
    {
        proof {
            let cur = s@.subrange(a as int, end as int);
            assert(cur.drop_first() =~= s@.subrange(a + 1, end as int));
        }
        a = a + 1;
    }
    proof {
        let cur = s@.subrange(a as int, end as int);
        assert(trim_left(cur) == cur);
    }
    let mut b: usize = end;
    while b > a && is_space_char(s.get_char(b - 1))
        invariant
            start <= a <= b <= end <= s@.len(),
            trim_left(whole) == s@.subrange(a as int, end as int),
            trim_right(s@.subrange(a as int, end as int)) == trim_right(
                s@.subrange(a as int, b as int),
            ),
            whole == s@.subrange(start as int, end as int),
        decreases b,
    {
        proof {
            let cur = s@.subrange(a as int, b as int);
            assert(cur.drop_last() =~= s@.subrange(a as int, b - 1));
        }
        b = b - 1;
    }
    proof {
        let cur = s@.subrange(a as int, b as int);
        assert(trim_right(cur) == cur);
    }
    let piece = s.substring_char(a, b);
    piece.to_owned()
}

/// Splits the genre line `s` on every comma and trims each token. Order
/// is kept, nothing is dropped or deduplicated, and a line without a
/// comma — the empty line included — yields exactly one token.
pub fn split_genres(s: &str) -> (r: Vec<String>)
    ensures
        r.deep_view() == split_trimmed(s@),
        r.deep_view().len() >= 1,
{
    let n = s.unicode_len();
    let mut out: Vec<String> = Vec::new();
    let mut start: usize = 0;
    let mut i: usize = 0;
    proof {
        assert(s@.subrange(0, n as int) =~= s@);
        assert(out.deep_view() =~= Seq::<Seq<char>>::empty());
        assert(Seq::<Seq<char>>::empty() + split_trimmed(s@) =~= split_trimmed(s@));
    }
    while i < n
        invariant
            0 <= start <= i <= n == s@.len(),
            forall|k: int| start <= k < i ==> s@[k] != ',',
            split_trimmed(s@) == out.deep_view() + split_commas(
                s@.subrange(start as int, n as int),
            ).map_values(|t: Seq<char>| trim(t)),
        decreases n - i,
    {
        let c = s.get_char(i);
        if c == ',' {
            let piece = trimmed_piece(s, start, i);
            proof {
                let tail = s@.subrange(start as int, n as int);
                let head = s@.subrange(start as int, i as int);
                let rest = s@.subrange(i + 1, n as int);
                assert(tail =~= head + seq![','] + rest);
                lemma_split_at_first_comma(head, rest);
                let f = |t: Seq<char>| trim(t);
                assert((seq![head] + split_commas(rest)).map_values(f) =~= seq![trim(head)]
                    + split_commas(rest).map_values(f));
            }
            let ghost pre = out.deep_view();
            out.push(piece);
            proof {
                let f = |t: Seq<char>| trim(t);
                assert(out.deep_view() =~= pre + seq![piece@]);
                assert(split_trimmed(s@) =~= out.deep_view() + split_commas(
                    s@.subrange(i + 1, n as int),
                ).map_values(f));
            }
            start = i + 1;
        }
        i = i + 1;
    }
    let piece = trimmed_piece(s, start, n);
    proof {
        let head = s@.subrange(start as int, n as int);
        lemma_split_no_comma(head);
        let f = |t: Seq<char>| trim(t);
        assert(seq![head].map_values(f) =~= seq![trim(head)]);
    }
    let ghost pre = out.deep_view();
    out.push(piece);
    proof {
        assert(out.deep_view() =~= pre + seq![piece@]);
        assert(out.deep_view() =~= split_trimmed(s@));
        lemma_split_commas_len(s@);
    }
    out
}

} // verus!
