//! Small verified helpers shared by the enum catalog and the request
//! builders: string comparison, decimal and boolean wire tokens, and the
//! model of a serialized query-pair list.

use vstd::prelude::*;

verus! {

/// String equality, stated over the character sequences.
pub fn str_eq(a: &str, b: &str) -> (r: bool)
    ensures
        r == (a@ == b@),
{
    let x: String = a.to_owned();
    let y: String = b.to_owned();
    x == y
}

/// The character a decimal digit prints as.
pub open spec fn dec_char(d: nat) -> char {
    if d == 0 { '0' }
    else if d == 1 { '1' }
    else if d == 2 { '2' }
    else if d == 3 { '3' }
    else if d == 4 { '4' }
    else if d == 5 { '5' }
    else if d == 6 { '6' }
    else if d == 7 { '7' }
    else if d == 8 { '8' }
    else { '9' }
}

/// The decimal rendering of a number, most significant digit first,
/// without leading zeros (a lone zero prints as "0").
pub open spec fn dec_of(n: nat) -> Seq<char>
    decreases n,
{
    if n < 10 {
        seq![dec_char(n)]
    } else {
        dec_of(n / 10).push(dec_char(n % 10))
    }
}

fn digit_str(d: u32) -> (r: &'static str)
    requires
        d < 10,
    ensures
        r@ == seq![dec_char(d as nat)],
{
    proof {
        reveal_strlit("0");
        reveal_strlit("1");
        reveal_strlit("2");
        reveal_strlit("3");
        reveal_strlit("4");
        reveal_strlit("5");
        reveal_strlit("6");
        reveal_strlit("7");
        reveal_strlit("8");
        reveal_strlit("9");
    }
    let r = if d == 0 { "0" }
        else if d == 1 { "1" }
        else if d == 2 { "2" }
        else if d == 3 { "3" }
        else if d == 4 { "4" }
        else if d == 5 { "5" }
        else if d == 6 { "6" }
        else if d == 7 { "7" }
        else if d == 8 { "8" }
        else { "9" };
    proof {
        assert(r@ =~= seq![dec_char(d as nat)]);
    }
    r
}

/// Render a number as its decimal wire token.
pub fn u32_wire(n: u32) -> (s: String)
    ensures
        s@ == dec_of(n as nat),
    decreases n,
{
    if n < 10 {
        digit_str(n).to_owned()
    } else {
        let high = u32_wire(n / 10);
        let s = high.concat(digit_str(n % 10));
        proof {
            assert((n / 10) as nat == (n as nat) / 10);
            assert((n % 10) as nat == (n as nat) % 10);
            assert(s@ =~= dec_of(n as nat));
        }
        s
    }
}

/// The wire token of a boolean flag.
pub open spec fn bool_wire(b: bool) -> Seq<char> {
    if b { "true"@ } else { "false"@ }
}

/// Render a boolean as its wire token.
pub fn bool_str(b: bool) -> (r: &'static str)
    ensures
        r@ == bool_wire(b),
{
    if b { "true" } else { "false" }
}

/// The contribution of one optional field to the query-pair list: nothing
/// when unset, exactly one pair under the field's wire name when set.
pub open spec fn opt_pair(k: Seq<char>, v: Option<Seq<char>>) -> Seq<(Seq<char>, Seq<char>)> {
    match v {
        Option::None => seq![],
        Option::Some(s) => seq![(k, s)],
    }
}

/// The character-level reading of a built query-pair list.
pub open spec fn pairs_view(s: Seq<(String, String)>) -> Seq<(Seq<char>, Seq<char>)> {
    s.map_values(|p: (String, String)| (p.0@, p.1@))
}

/// How many pairs of a query carry a given key.
pub open spec fn count_key(q: Seq<(Seq<char>, Seq<char>)>, k: Seq<char>) -> nat
    decreases q.len(),
{
    if q.len() == 0 {
        0
    } else {
        (if q[0].0 == k { 1nat } else { 0nat }) + count_key(q.drop_first(), k)
    }
}

/// Counting distributes over concatenation of query fragments.
pub proof fn lemma_count_key_add(a: Seq<(Seq<char>, Seq<char>)>, b: Seq<(Seq<char>, Seq<char>)>, k: Seq<char>)
    ensures
        count_key(a + b, k) == count_key(a, k) + count_key(b, k),
    decreases a.len(),
{
    if a.len() == 0 {
        assert(a + b =~= b);
    } else {
        lemma_count_key_add(a.drop_first(), b, k);
        assert((a + b).drop_first() =~= a.drop_first() + b);
    }
}

/// Counting over a single pair: one when the key matches, else none.
pub proof fn lemma_count_key_one(p: (Seq<char>, Seq<char>))
    ensures
        forall|k: Seq<char>| #[trigger] count_key(seq![p], k) == (if p.0 == k {
            1nat
        } else {
            0nat
        }),
{
    assert forall|k: Seq<char>| #[trigger] count_key(seq![p], k) == (if p.0 == k {
        1nat
    } else {
        0nat
    }) by {
        assert(seq![p].drop_first() =~= Seq::<(Seq<char>, Seq<char>)>::empty());
        assert(count_key(Seq::<(Seq<char>, Seq<char>)>::empty(), k) == 0);
        assert(seq![p][0] == p);
    }
}

/// Counting distributes over concatenation, for every key at once.
pub proof fn lemma_count_key_add_all(a: Seq<(Seq<char>, Seq<char>)>, b: Seq<(Seq<char>, Seq<char>)>)
    ensures
        forall|k: Seq<char>| #[trigger] count_key(a + b, k) == count_key(a, k) + count_key(b, k),
{
    assert forall|k: Seq<char>| #[trigger] count_key(a + b, k) == count_key(a, k) + count_key(
        b,
        k,
    ) by {
        lemma_count_key_add(a, b, k);
    }
}

/// Counting over an optional field's contribution: one exactly when the
/// field is set and its wire name is the counted key.
pub proof fn lemma_count_key_opt_all(key: Seq<char>, v: Option<Seq<char>>)
    ensures
        forall|k: Seq<char>| #[trigger] count_key(opt_pair(key, v), k) == (if v is Some && key == k {
            1nat
        } else {
            0nat
        }),
{
    match v {
        Some(s) => {
            lemma_count_key_one((key, s));
        },
        None => {},
    }
}

/// Append one pair to a query-pair list under construction.
pub fn push_pair(v: &mut Vec<(String, String)>, key: &str, val: String)
    ensures
        pairs_view(final(v)@) == pairs_view(old(v)@) + seq![(key@, val@)],
{
    let ghost val_chars = val@;
    v.push((key.to_owned(), val));
    proof {
        assert(pairs_view(v@) =~= pairs_view(old(v)@) + seq![(key@, val_chars)]);
    }
}

} // verus!
