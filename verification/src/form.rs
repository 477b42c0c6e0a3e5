//! Wire form parameters: the view of a parameter list, the entries an
//! optional field contributes, and how often a key occurs in a request.

use vstd::prelude::*;
use crate::formality::Formality;

verus! {

/// View of an optional formality setting: its wire form when set.
pub open spec fn opt_formality_view(v: Option<Formality>) -> Option<Seq<char>> {
    match v {
        Some(f) => Some(f.wire()),
        None => None,
    }
}

/// View of a list of form parameters: each pair of owned strings as a pair
/// of character sequences.
pub open spec fn entries_view(ps: Seq<(String, String)>) -> Seq<(Seq<char>, Seq<char>)> {
    ps.map_values(|p: (String, String)| (p.0@, p.1@))
}

/// The entries one optional field contributes to a request: exactly one pair
/// when the field is set, none when it is left unset.
pub open spec fn opt_entry(key: Seq<char>, value: Option<Seq<char>>) -> Seq<
    (Seq<char>, Seq<char>),
> {
    match value {
        Some(v) => seq![(key, v)],
        None => Seq::empty(),
    }
}

/// View of an optional owned string.
pub open spec fn opt_string_view(v: Option<String>) -> Option<Seq<char>> {
    match v {
        Some(s) => Some(s@),
        None => None,
    }
}

/// How many entries of `ps` carry the key `key`.
pub open spec fn count_key(ps: Seq<(Seq<char>, Seq<char>)>, key: Seq<char>) -> nat
    decreases ps.len(),
{
    if ps.len() == 0 {
        0
    } else {
        (if ps[0].0 == key {
            1nat
        } else {
            0nat
        }) + count_key(ps.drop_first(), key)
    }
}

/// Occurrence counts add up over concatenation.
pub proof fn lemma_count_key_concat(
    a: Seq<(Seq<char>, Seq<char>)>,
    b: Seq<(Seq<char>, Seq<char>)>,
    key: Seq<char>,
)
    ensures
        count_key(a + b, key) == count_key(a, key) + count_key(b, key),
    decreases a.len(),
{
    if a.len() == 0 {
        assert(a + b =~= b);
    } else {
        assert((a + b).drop_first() =~= a.drop_first() + b);
        assert((a + b)[0] == a[0]);
        lemma_count_key_concat(a.drop_first(), b, key);
    }
}

/// Occurrence count in a singleton.
pub proof fn lemma_count_key_one(p: (Seq<char>, Seq<char>), key: Seq<char>)
    ensures
        count_key(seq![p], key) == (if p.0 == key {
            1nat
        } else {
            0nat
        }),
{
    assert(seq![p].drop_first() =~= Seq::<(Seq<char>, Seq<char>)>::empty());
    assert(count_key(Seq::<(Seq<char>, Seq<char>)>::empty(), key) == 0);
    assert(seq![p][0] == p);
}

/// Occurrence count in a two-entry list.
pub proof fn lemma_count_key_two(
    p0: (Seq<char>, Seq<char>),
    p1: (Seq<char>, Seq<char>),
    key: Seq<char>,
)
    ensures
        count_key(seq![p0, p1], key) == (if p0.0 == key {
            1nat
        } else {
            0nat
        }) + (if p1.0 == key {
            1nat
        } else {
            0nat
        }),
{
    assert(seq![p0, p1].drop_first() =~= seq![p1]);
    lemma_count_key_one(p1, key);
}

/// Occurrence count in the entries of one optional field: one exactly when
/// the field is set and carries that key.
pub proof fn lemma_count_key_opt(key0: Seq<char>, value: Option<Seq<char>>, key: Seq<char>)
    ensures
        count_key(opt_entry(key0, value), key) == (if value is Some && key0 == key {
            1nat
        } else {
            0nat
        }),
{
    match value {
        Some(v) => {
            lemma_count_key_one((key0, v), key);
        },
        None => {
        },
    }
}

/// Occurrence counts add up over the four segments of a request: the required
/// head and the entries of three optional fields.
pub proof fn lemma_count_key_segments(
    head: Seq<(Seq<char>, Seq<char>)>,
    o1: Seq<(Seq<char>, Seq<char>)>,
    o2: Seq<(Seq<char>, Seq<char>)>,
    o3: Seq<(Seq<char>, Seq<char>)>,
    key: Seq<char>,
)
    ensures
        count_key(head + o1 + o2 + o3, key) == count_key(head, key) + count_key(o1, key)
            + count_key(o2, key) + count_key(o3, key),
{
    lemma_count_key_concat(head + o1 + o2, o3, key);
    lemma_count_key_concat(head + o1, o2, key);
    lemma_count_key_concat(head, o1, key);
}

/// Append one parameter to a request under construction.
pub fn push_entry(params: &mut Vec<(String, String)>, key: &str, value: String)
    ensures
        entries_view(final(params)@) == entries_view(old(params)@) + seq![(key@, value@)],
{
    params.push((key.to_owned(), value));
    proof {
        assert(entries_view(params@) =~= entries_view(old(params)@) + seq![(key@, value@)]);
    }
}

} // verus!
